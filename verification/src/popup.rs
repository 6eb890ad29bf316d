use vstd::prelude::*;

verus! {

/// Which popups of the overlay stack are open. The welcome overlay is
/// its own state: it takes no input, while every other popup captures
/// all input until it closes.
#[derive(Debug, PartialEq)]
pub struct PopupWin {
    pub n_row: u16,
    pub n_col: u16,
    pub welcome_win: bool,
    pub help_win: bool,
    pub download_win: bool,
}

impl PopupWin {
    pub fn new(n_row: u16, n_col: u16) -> (r: PopupWin)
        ensures
            r == (PopupWin {
                n_row,
                n_col,
                welcome_win: false,
                help_win: false,
                download_win: false,
            }),
    {
        PopupWin { n_row, n_col, welcome_win: false, help_win: false, download_win: false }
    }

    /// Some overlay is on screen, the welcome overlay included.
    pub open spec fn spec_is_popup_active(self) -> bool {
        self.welcome_win || self.help_win || self.download_win
    }

    pub fn is_popup_active(&self) -> (r: bool)
        ensures
            r == self.spec_is_popup_active(),
    {
        self.welcome_win || self.help_win || self.download_win
    }

    /// An input-capturing overlay is on screen; the welcome overlay
    /// does not capture input.
    pub open spec fn spec_is_non_welcome_popup_active(self) -> bool {
        self.help_win || self.download_win
    }

    pub fn is_non_welcome_popup_active(&self) -> (r: bool)
        ensures
            r == self.spec_is_non_welcome_popup_active(),
    {
        self.help_win || self.download_win
    }

    pub fn spawn_welcome_win(&mut self)
        ensures
            *final(self) == (PopupWin { welcome_win: true, ..*old(self) }),
    {
        self.welcome_win = true;
    }

    pub fn turn_off_welcome_win(&mut self)
        ensures
            *final(self) == (PopupWin { welcome_win: false, ..*old(self) }),
    {
        self.welcome_win = false;
    }

    pub fn spawn_help_win(&mut self)
        ensures
            *final(self) == (PopupWin { help_win: true, ..*old(self) }),
    {
        self.help_win = true;
    }

    pub fn spawn_download_win(&mut self)
        ensures
            *final(self) == (PopupWin { download_win: true, ..*old(self) }),
    {
        self.download_win = true;
    }

    pub fn close_download_win(&mut self)
        ensures
            *final(self) == (PopupWin { download_win: false, ..*old(self) }),
    {
        self.download_win = false;
    }

    pub fn close_help_win(&mut self)
        ensures
            *final(self) == (PopupWin { help_win: false, ..*old(self) }),
    {
        self.help_win = false;
    }

    pub fn resize(&mut self, n_row: u16, n_col: u16)
        ensures
            *final(self) == (PopupWin { n_row, n_col, ..*old(self) }),
    {
        self.n_row = n_row;
        self.n_col = n_col;
    }
}

} // verus!
