use vstd::prelude::*;

use crate::types::Details;
use crate::types::Scroll;

verus! {

/// The details pane: a read-only text viewport showing the record of
/// the currently selected episode. It exists only while the terminal is
/// wide enough for a third column.
#[derive(Debug, PartialEq)]
pub struct DetailsPanel {
    pub n_row: u16,
    pub n_col: u16,
    pub start_x: u16,
    pub top_row: u16,
    pub details: Option<Details>,
}

/// Where the text viewport lands after a scroll request: saturating at
/// both ends of the `u16` range (real clamping to the text's length is
/// the renderer's concern).
pub open spec fn spec_scrolled_top(top: u16, scroll: Scroll) -> int {
    match scroll {
        Scroll::Up(x) => if top - x > 0 {
            top - x
        } else {
            0
        },
        Scroll::Down(x) => if top + x <= u16::MAX {
            top + x
        } else {
            u16::MAX as int
        },
    }
}

impl DetailsPanel {
    pub fn new(n_row: u16, n_col: u16, start_x: u16) -> (r: DetailsPanel)
        ensures
            r == (DetailsPanel { n_row, n_col, start_x, top_row: 0u16, details: None::<Details> }),
    {
        DetailsPanel { n_row, n_col, start_x, top_row: 0, details: None }
    }

    /// Replace the displayed record and jump back to the top of the
    /// text.
    pub fn change_details(&mut self, details: Details)
        ensures
            *final(self) == (DetailsPanel {
                top_row: 0u16,
                details: Some(details),
                ..*old(self)
            }),
    {
        self.top_row = 0;
        self.details = Some(details);
    }

    /// Move only this pane's text viewport; magnitudes beyond the ends
    /// saturate. Nothing else in the interface is affected.
    pub fn scroll(&mut self, scroll: Scroll)
        ensures
            final(self).top_row == spec_scrolled_top(old(self).top_row, scroll),
            *final(self) == (DetailsPanel { top_row: final(self).top_row, ..*old(self) }),
    {
        match scroll {
            Scroll::Up(x) => {
                self.top_row = if self.top_row > x {
                    self.top_row - x
                } else {
                    0
                };
            },
            Scroll::Down(x) => {
                self.top_row = if self.top_row <= u16::MAX - x {
                    self.top_row + x
                } else {
                    u16::MAX
                };
            },
        }
    }

    pub fn resize(&mut self, n_row: u16, n_col: u16, start_x: u16)
        ensures
            *final(self) == (DetailsPanel { n_row, n_col, start_x, ..*old(self) }),
    {
        self.n_row = n_row;
        self.n_col = n_col;
        self.start_x = start_x;
    }
}

} // verus!
