//! Sparse per-cell color overrides for the visible cells, rebuilt whenever
//! the viewport changes. Generic over the host toolkit's color type, which
//! the engine never inspects.

use vstd::prelude::*;

verus! {

/// The style overrides of one visible cell.
#[derive(Clone, Copy, Debug, Eq, PartialEq, Structural)]
pub struct CellStyle<C> {
    /// The text color override, if any.
    pub text: Option<C>,
    /// The background color override, if any.
    pub background: Option<C>,
}

/// A cell style with nothing overridden.
pub open spec fn spec_empty_cell_style<C>() -> CellStyle<C> {
    CellStyle { text: Option::None, background: Option::None }
}

/// Controls the text color and background color of the visible byte/char
/// cells, indexed by the cell's row-major position within the viewport.
#[derive(Debug)]
pub struct ContentStyler<C> {
    /// One override slot per visible cell.
    pub styles: Vec<CellStyle<C>>,
    /// Whether every slot is known to hold no override.
    pub is_clear: bool,
}

impl<C: Copy> ContentStyler<C> {
    /// Well-formedness: while the styler counts as clear, every slot is
    /// really empty.
    pub open spec fn wf(&self) -> bool {
        self.is_clear ==> forall|i: int|
            0 <= i < self.styles@.len() ==> self.styles@[i] == spec_empty_cell_style::<C>()
    }

    /// Creates a styler with `size` empty override slots.
    pub fn new(size: usize) -> (r: ContentStyler<C>)
        ensures
            r.styles@.len() == size,
            forall|i: int| 0 <= i < size ==> r.styles@[i] == spec_empty_cell_style::<C>(),
            r.is_clear,
            r.wf(),
    {
        let mut styles: Vec<CellStyle<C>> = Vec::new();
        let mut i: usize = 0;
        while i < size
            invariant
                i <= size,
                styles@.len() == i,
                forall|j: int| 0 <= j < i ==> styles@[j] == spec_empty_cell_style::<C>(),
            decreases size - i,
        {
            styles.push(CellStyle { text: None, background: None });
            i = i + 1;
        }
        ContentStyler { styles, is_clear: true }
    }

    /// Sets the text color of the cell at `index`; an index outside the
    /// current viewport is ignored.
    pub fn set_text(&mut self, index: usize, color: C)
        ensures
            final(self).styles@.len() == old(self).styles@.len(),
            index < old(self).styles@.len() ==> final(self).styles@ == old(self).styles@.update(
                index as int,
                CellStyle { text: Option::Some(color), ..old(self).styles@[index as int] },
            ),
            index >= old(self).styles@.len() ==> final(self).styles@ == old(self).styles@,
            !final(self).is_clear,
            final(self).wf(),
    {
        if index < self.styles.len() {
            let cell = self.styles[index];
            self.styles[index] = CellStyle { text: Some(color), background: cell.background };
        }
        self.is_clear = false;
    }

    /// Sets the background color of the cell at `index`; an index outside
    /// the current viewport is ignored.
    pub fn set_background(&mut self, index: usize, background: C)
        ensures
            final(self).styles@.len() == old(self).styles@.len(),
            index < old(self).styles@.len() ==> final(self).styles@ == old(self).styles@.update(
                index as int,
                CellStyle {
                    background: Option::Some(background),
                    ..old(self).styles@[index as int]
                },
            ),
            index >= old(self).styles@.len() ==> final(self).styles@ == old(self).styles@,
            !final(self).is_clear,
            final(self).wf(),
    {
        if index < self.styles.len() {
            let cell = self.styles[index];
            self.styles[index] = CellStyle { text: cell.text, background: Some(background) };
        }
        self.is_clear = false;
    }

    /// Resets the styler for reuse with `size` cells: afterwards every one
    /// of the `size` slots holds no override.
    pub fn clear(&mut self, size: usize)
        requires
            old(self).wf(),
        ensures
            final(self).styles@.len() == size,
            forall|i: int| 0 <= i < size ==> final(self).styles@[i] == spec_empty_cell_style::<
                C,
            >(),
            final(self).is_clear,
            final(self).wf(),
    {
        if !self.is_clear || self.styles.len() != size {
            if self.styles.len() == size {
                let mut i: usize = 0;
                while i < size
                    invariant
                        i <= size,
                        self.styles@.len() == size,
                        forall|j: int|
                            0 <= j < i ==> self.styles@[j] == spec_empty_cell_style::<C>(),
                    decreases size - i,
                {
                    self.styles[i] = CellStyle { text: None, background: None };
                    i = i + 1;
                }
            } else {
                let mut styles: Vec<CellStyle<C>> = Vec::new();
                let mut i: usize = 0;
                while i < size
                    invariant
                        i <= size,
                        styles@.len() == i,
                        forall|j: int| 0 <= j < i ==> styles@[j] == spec_empty_cell_style::<C>(),
                    decreases size - i,
                {
                    styles.push(CellStyle { text: None, background: None });
                    i = i + 1;
                }
                self.styles = styles;
            }
            self.is_clear = true;
        }
    }

    /// The text color override of the cell at `index`, if it has one.
    pub fn text_color(&self, index: usize) -> (r: Option<C>)
        ensures
            r == if index < self.styles@.len() {
                self.styles@[index as int].text
            } else {
                Option::<C>::None
            },
    {
        if index < self.styles.len() {
            self.styles[index].text
        } else {
            None
        }
    }

    /// The background color override of the cell at `index`, if it has one.
    pub fn background_color(&self, index: usize) -> (r: Option<C>)
        ensures
            r == if index < self.styles@.len() {
                self.styles@[index as int].background
            } else {
                Option::<C>::None
            },
    {
        if index < self.styles.len() {
            self.styles[index].background
        } else {
            None
        }
    }
}

} // verus!
