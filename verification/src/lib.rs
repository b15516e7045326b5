//! Core engine of a virtualized hex-data viewer widget.
//!
//! The library contains the pure, integer-valued logic of the viewer: the
//! one-axis scroll model, the scrollbar and scroll-area interaction state
//! machines, the logical viewport over the byte-addressed space, the content
//! window that materializes only the visible bytes, the pixel/cell/offset
//! translation over whole-pixel geometry, and the cursor/selection engine.
//! A host-toolkit shell is expected to feed it translated input events and
//! whole-pixel measurements, and to do all drawing.

pub mod content;
pub mod layout;
pub mod scroll;
pub mod scroll_area;
pub mod selection;
pub mod styler;
pub mod text;
pub mod util;
pub mod viewer;
pub mod viewport;

