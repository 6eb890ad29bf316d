use vstd::prelude::*;

verus! {

/// Fixed tick interval of the event loop, in milliseconds.
pub const TICK_RATE: u64 = 20;

/// Narrowest terminal (in columns) on which the details pane is shown.
pub const DETAILS_PANEL_LENGTH: u16 = 135;

/// Divisor applied to the terminal height for a "big" scroll step.
pub const BIG_SCROLL_AMOUNT: u16 = 4;

/// Filters that the user can toggle on the lists.
#[derive(Clone, Copy, Debug, PartialEq, Eq, Structural)]
pub enum FilterType {
    Played,
    Downloaded,
}

/// Message sent to the main controller after user input has been
/// captured by the UI. The `i64` values always identify the selected
/// podcast and, if applicable, the selected episode, in that order.
#[derive(Debug, PartialEq)]
pub enum UiMsg {
    AddFeed(String),
    Play(i64, i64),
    MarkPlayed(i64, i64, bool),
    MarkAllPlayed(i64, bool),
    Sync(i64),
    SyncAll,
    Download(i64, i64),
    DownloadMulti(Vec<(i64, i64)>),
    DownloadAll(i64),
    UnmarkDownloaded(i64, i64),
    Delete(i64, i64),
    DeleteAll(i64),
    RemovePodcast(i64, bool),
    RemoveEpisode(i64, i64, bool),
    RemoveAllEpisodes(i64, bool),
    FilterChange(FilterType),
    Quit,
    Noop,
}

/// How much to scroll a menu up or down, without dealing with
/// positive/negative values.
#[derive(Clone, Copy, Debug, PartialEq, Eq, Structural)]
pub enum Scroll {
    Up(u16),
    Down(u16),
}

/// Which of the three panels currently holds the focus.
#[derive(Clone, Copy, Debug, PartialEq, Eq, Structural)]
pub enum ActivePanel {
    PodcastMenu,
    EpisodeMenu,
    DetailsPanel,
}

/// Logical action that a keypress maps to through the keybinding table.
#[derive(Clone, Copy, Debug, PartialEq, Eq, Structural)]
pub enum UserAction {
    Down,
    Up,
    Left,
    Right,
    PageUp,
    PageDown,
    BigUp,
    BigDown,
    GoTop,
    GoBot,
    AddFeed,
    Sync,
    SyncAll,
    Play,
    MarkPlayed,
    MarkAllPlayed,
    Download,
    DownloadAll,
    Delete,
    DeleteAll,
    UnmarkDownloaded,
    Remove,
    RemoveAll,
    FilterPlayed,
    FilterDownloaded,
    Help,
    Quit,
}

/// One item of a podcast's feed. The local file path is present iff the
/// episode has been downloaded.
#[derive(Debug, PartialEq)]
pub struct Episode {
    pub id: i64,
    pub title: String,
    pub description: String,
    pub pubdate: Option<i64>,
    pub duration: Option<i64>,
    pub played: bool,
    pub path: Option<String>,
}

/// A subscribed feed with its ordered episodes. `episode_order` is the
/// filtered ordering of episode identifiers currently visible.
#[derive(Debug, PartialEq)]
pub struct Podcast {
    pub id: i64,
    pub title: String,
    pub explicit: Option<bool>,
    pub episodes: Vec<Episode>,
    pub episode_order: Vec<i64>,
}

/// Record handed to the details pane: absent fields mean "no data",
/// never a blank string.
#[derive(Debug, PartialEq)]
pub struct Details {
    pub pod_title: Option<String>,
    pub ep_title: Option<String>,
    pub pubdate: Option<i64>,
    pub duration: Option<i64>,
    pub explicit: Option<bool>,
    pub description: Option<String>,
}

impl Episode {
    /// Whether the episode has been listened to.
    pub open spec fn spec_is_played(self) -> bool {
        self.played
    }

    pub fn is_played(&self) -> (r: bool)
        ensures
            r == self.spec_is_played(),
    {
        self.played
    }

    /// Whether a local file exists for the episode.
    pub open spec fn spec_is_downloaded(self) -> bool {
        self.path is Some
    }

    pub fn is_downloaded(&self) -> (r: bool)
        ensures
            r == self.spec_is_downloaded(),
    {
        self.path.is_some()
    }
}

impl Podcast {
    /// A podcast counts as played when every one of its episodes does.
    pub open spec fn spec_is_played(self) -> bool {
        forall|i: int| 0 <= i < self.episodes@.len() ==> self.episodes@[i].played
    }

    pub fn is_played(&self) -> (r: bool)
        ensures
            r == self.spec_is_played(),
    {
        let mut i: usize = 0;
        while i < self.episodes.len()
            invariant
                i <= self.episodes@.len(),
                forall|k: int| 0 <= k < i ==> self.episodes@[k].played,
            decreases self.episodes@.len() - i,
        {
            if !self.episodes[i].played {
                return false;
            }
            i += 1;
        }
        true
    }

    /// Whether any episode of the podcast has a local file.
    pub open spec fn spec_any_downloaded(self) -> bool {
        exists|i: int| 0 <= i < self.episodes@.len() && self.episodes@[i].path is Some
    }

    pub fn any_downloaded(&self) -> (r: bool)
        ensures
            r == self.spec_any_downloaded(),
    {
        let mut i: usize = 0;
        while i < self.episodes.len()
            invariant
                i <= self.episodes@.len(),
                forall|k: int| 0 <= k < i ==> !(self.episodes@[k].path is Some),
            decreases self.episodes@.len() - i,
        {
            if self.episodes[i].path.is_some() {
                return true;
            }
            i += 1;
        }
        false
    }
}

} // verus!
