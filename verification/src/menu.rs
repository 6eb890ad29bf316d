use vstd::prelude::*;

use crate::types::Scroll;

verus! {

/// Visual highlight state of a list menu: fully active, muted (the
/// pane to its right reflects its selection), or cleared.
#[derive(Clone, Copy, Debug, PartialEq, Eq, Structural)]
pub enum Highlight {
    Active,
    Muted,
    Off,
}

/// Geometry and selection state of a scrollable list menu. `top_row` is
/// the index (in the filtered ordering) of the first visible item, and
/// `selected` is the cursor's position relative to `top_row`.
#[derive(Debug, PartialEq)]
pub struct Menu {
    pub n_row: u16,
    pub n_col: u16,
    pub start_x: u16,
    pub top_row: u16,
    pub selected: u16,
    pub highlight: Highlight,
}

impl Menu {
    /// Rows available for list items inside the borders.
    pub open spec fn spec_visible_rows(self) -> int {
        if self.n_row >= 2 {
            self.n_row - 2
        } else {
            0
        }
    }

    /// Index of the highlighted item in the filtered ordering.
    pub open spec fn spec_abs_index(self) -> int {
        self.selected + self.top_row
    }

    /// The cursor stays inside the viewport and the index arithmetic
    /// stays inside `u16`.
    pub open spec fn wf(self) -> bool {
        &&& self.selected + self.top_row <= u16::MAX
        &&& (self.selected == 0 || self.selected < self.spec_visible_rows())
    }

    pub fn new(n_row: u16, n_col: u16, start_x: u16) -> (r: Menu)
        ensures
            r == (Menu {
                n_row,
                n_col,
                start_x,
                top_row: 0u16,
                selected: 0u16,
                highlight: Highlight::Off,
            }),
            r.wf(),
    {
        Menu { n_row, n_col, start_x, top_row: 0, selected: 0, highlight: Highlight::Off }
    }

    pub fn abs_index(&self) -> (r: u16)
        requires
            self.wf(),
        ensures
            r == self.spec_abs_index(),
    {
        self.selected + self.top_row
    }

    /// Give the menu the full visual highlight.
    pub fn activate(&mut self)
        ensures
            *final(self) == (Menu { highlight: Highlight::Active, ..*old(self) }),
    {
        self.highlight = Highlight::Active;
    }

    /// Drop the highlight; a muted deactivation keeps a dimmed marker
    /// on the selected row.
    pub fn deactivate(&mut self, muted: bool)
        ensures
            *final(self) == (Menu {
                highlight: if muted {
                    Highlight::Muted
                } else {
                    Highlight::Off
                },
                ..*old(self)
            }),
    {
        self.highlight = if muted {
            Highlight::Muted
        } else {
            Highlight::Off
        };
    }

    /// Change the widget's size and position in place; the selection is
    /// kept and re-clamped to the new viewport.
    pub fn resize(&mut self, n_row: u16, n_col: u16, start_x: u16)
        requires
            old(self).wf(),
        ensures
            final(self).n_row == n_row,
            final(self).n_col == n_col,
            final(self).start_x == start_x,
            final(self).highlight == old(self).highlight,
            final(self).spec_abs_index() == old(self).spec_abs_index(),
            final(self).wf(),
    {
        self.n_row = n_row;
        self.n_col = n_col;
        self.start_x = start_x;
        let vis: u16 = if n_row >= 2 {
            n_row - 2
        } else {
            0
        };
        if self.selected != 0 && self.selected >= vis {
            // keep the same absolute item under the cursor, but pull it
            // into the (smaller) viewport
            let abs: u32 = self.selected as u32 + self.top_row as u32;
            if vis == 0 {
                self.top_row = abs as u16;
                self.selected = 0;
            } else {
                self.top_row = (abs - (vis as u32 - 1)) as u16;
                self.selected = vis - 1;
            }
        }
    }

    /// Where the cursor lands: the requested movement, clamped to the
    /// item count and to the `u16` range.
    pub open spec fn spec_scroll_abs(self, scroll: Scroll, len: nat) -> int {
        if len == 0 {
            0
        } else {
            let cap: int = if len - 1 < 65535 {
                len - 1
            } else {
                65535
            };
            let abs = self.spec_abs_index();
            let moved: int = match scroll {
                Scroll::Up(x) => if abs - x > 0 {
                    abs - x
                } else {
                    0
                },
                Scroll::Down(x) => abs + x,
            };
            if moved > cap {
                cap
            } else {
                moved
            }
        }
    }

    /// Where the viewport starts once the cursor has landed on `abs`.
    pub open spec fn spec_scroll_top(self, abs: int) -> int {
        if abs < self.top_row {
            abs
        } else if self.spec_visible_rows() == 0 {
            abs
        } else if abs >= self.top_row + self.spec_visible_rows() {
            abs - self.spec_visible_rows() + 1
        } else {
            self.top_row as int
        }
    }

    /// Move the cursor by the requested amount over a list of `len`
    /// items, scrolling the viewport as needed. Requested magnitudes
    /// beyond the ends saturate.
    pub fn scroll(&mut self, scroll: Scroll, len: usize)
        requires
            old(self).wf(),
        ensures
            final(self).n_row == old(self).n_row,
            final(self).n_col == old(self).n_col,
            final(self).start_x == old(self).start_x,
            final(self).highlight == old(self).highlight,
            final(self).spec_abs_index() == old(self).spec_scroll_abs(scroll, len as nat),
            final(self).top_row == old(self).spec_scroll_top(
                old(self).spec_scroll_abs(scroll, len as nat),
            ),
            final(self).wf(),
            len > 0 ==> final(self).spec_abs_index() < len,
    {
        if len == 0 {
            self.top_row = 0;
            self.selected = 0;
            return;
        }
        let cap: u32 = if len - 1 < 65535 {
            (len - 1) as u32
        } else {
            65535
        };
        let abs: u32 = self.selected as u32 + self.top_row as u32;
        let moved: u32 = match scroll {
            Scroll::Up(x) => {
                if abs > x as u32 {
                    abs - x as u32
                } else {
                    0
                }
            },
            Scroll::Down(x) => abs + x as u32,
        };
        let abs2: u32 = if moved > cap {
            cap
        } else {
            moved
        };
        let vis: u32 = if self.n_row >= 2 {
            self.n_row as u32 - 2
        } else {
            0
        };
        if abs2 < self.top_row as u32 {
            self.top_row = abs2 as u16;
            self.selected = 0;
        } else if vis == 0 {
            self.top_row = abs2 as u16;
            self.selected = 0;
        } else if abs2 >= self.top_row as u32 + vis {
            self.top_row = (abs2 - vis + 1) as u16;
            self.selected = (vis - 1) as u16;
        } else {
            self.selected = (abs2 - self.top_row as u32) as u16;
        }
    }
}

} // verus!
