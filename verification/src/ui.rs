use vstd::prelude::*;
use vstd::string::StrSliceExecFns;
use vstd::string::StringExecFns;

use crate::details::spec_scrolled_top;
use crate::details::DetailsPanel;
use crate::menu::Highlight;
use crate::menu::Menu;
use crate::notify::NotifWin;
use crate::popup::PopupWin;
use crate::sanitize::sanitize_spec;
use crate::types::ActivePanel;
use crate::types::FilterType;
use crate::types::UiMsg;
use crate::types::Details;
use crate::types::Episode;
use crate::types::Podcast;
use crate::types::Scroll;
use crate::types::UserAction;
use crate::types::BIG_SCROLL_AMOUNT;
use crate::types::DETAILS_PANEL_LENGTH;

verus! {

/// No two podcasts share an identifier.
pub open spec fn distinct_podcast_ids(s: Seq<Podcast>) -> bool {
    forall|i: int, j: int| 0 <= i < j < s.len() ==> s[i].id != s[j].id
}

/// No two episodes share an identifier.
pub open spec fn distinct_episode_ids(s: Seq<Episode>) -> bool {
    forall|i: int, j: int| 0 <= i < j < s.len() ==> s[i].id != s[j].id
}

pub open spec fn has_podcast(s: Seq<Podcast>, id: i64) -> bool {
    exists|i: int| 0 <= i < s.len() && s[i].id == id
}

pub open spec fn has_episode(s: Seq<Episode>, id: i64) -> bool {
    exists|i: int| 0 <= i < s.len() && s[i].id == id
}

/// The podcast carrying `id` (meaningful only when `has_podcast`).
pub open spec fn podcast_by_id(s: Seq<Podcast>, id: i64) -> Podcast {
    s[choose|i: int| 0 <= i < s.len() && s[i].id == id]
}

/// The episode carrying `id` (meaningful only when `has_episode`).
pub open spec fn episode_by_id(s: Seq<Episode>, id: i64) -> Episode {
    s[choose|i: int| 0 <= i < s.len() && s[i].id == id]
}

/// With distinct identifiers, looking a podcast up by the identifier
/// of position `i` gives back exactly that element.
pub proof fn lemma_podcast_by_id(s: Seq<Podcast>, i: int)
    requires
        distinct_podcast_ids(s),
        0 <= i < s.len(),
    ensures
        podcast_by_id(s, s[i].id) == s[i],
{
    let id = s[i].id;
    assert(0 <= i < s.len() && s[i].id == id);
    let w = choose|j: int| 0 <= j < s.len() && s[j].id == id;
    assert(0 <= w < s.len() && s[w].id == id);
    if w < i {
        assert(s[w].id != s[i].id);
        assert(false);
    } else if i < w {
        assert(s[i].id != s[w].id);
        assert(false);
    }
}

/// With distinct identifiers, looking an episode up by the identifier
/// of position `i` gives back exactly that element.
pub proof fn lemma_episode_by_id(s: Seq<Episode>, i: int)
    requires
        distinct_episode_ids(s),
        0 <= i < s.len(),
    ensures
        episode_by_id(s, s[i].id) == s[i],
{
    let id = s[i].id;
    assert(0 <= i < s.len() && s[i].id == id);
    let w = choose|j: int| 0 <= j < s.len() && s[j].id == id;
    assert(0 <= w < s.len() && s[w].id == id);
    if w < i {
        assert(s[w].id != s[i].id);
        assert(false);
    } else if i < w {
        assert(s[i].id != s[w].id);
        assert(false);
    }
}

/// Every identifier of the filtered ordering resolves to a podcast.
pub open spec fn podcast_order_valid(s: Seq<Podcast>, order: Seq<i64>) -> bool {
    forall|k: int| 0 <= k < order.len() ==> has_podcast(s, #[trigger] order[k])
}

/// Every identifier of the filtered ordering resolves to an episode.
pub open spec fn episode_order_valid(s: Seq<Episode>, order: Seq<i64>) -> bool {
    forall|k: int| 0 <= k < order.len() ==> has_episode(s, #[trigger] order[k])
}

/// A consistent snapshot of the shared podcast collection: distinct
/// identifiers throughout, and filtered orderings that resolve.
pub open spec fn store_valid(s: Seq<Podcast>, order: Seq<i64>) -> bool {
    &&& distinct_podcast_ids(s)
    &&& podcast_order_valid(s, order)
    &&& forall|i: int|
        0 <= i < s.len() ==> {
            &&& distinct_episode_ids(#[trigger] s[i].episodes@)
            &&& episode_order_valid(s[i].episodes@, s[i].episode_order@)
        }
}

/// All interface elements of the terminal UI: the terminal dimensions,
/// a snapshot of the podcast collection, the two list menus, the
/// optional details pane, the focus, and the status-line and popup
/// overlays.
#[derive(Debug, PartialEq)]
pub struct Ui {
    pub n_row: u16,
    pub n_col: u16,
    pub podcasts: Vec<Podcast>,
    pub podcast_order: Vec<i64>,
    pub podcast_menu: Menu,
    pub episodes: Vec<Episode>,
    pub episode_order: Vec<i64>,
    pub episode_menu: Menu,
    pub details_panel: Option<DetailsPanel>,
    pub active_panel: ActivePanel,
    pub notif_win: NotifWin,
    pub popup_win: PopupWin,
}

impl Ui {
    /// Identifier of the podcast under the cursor, resolved through the
    /// filtered ordering, never by raw index.
    pub open spec fn spec_current_pod_id(self) -> Option<i64> {
        let idx = self.podcast_menu.spec_abs_index();
        if 0 <= idx < self.podcast_order@.len() {
            Some(self.podcast_order@[idx])
        } else {
            None
        }
    }

    /// Identifier of the episode under the cursor.
    pub open spec fn spec_current_ep_id(self) -> Option<i64> {
        let idx = self.episode_menu.spec_abs_index();
        if 0 <= idx < self.episode_order@.len() {
            Some(self.episode_order@[idx])
        } else {
            None
        }
    }

    /// The episode list always holds exactly the episodes of the
    /// podcast currently selected in the podcast list, or nothing when
    /// no podcast is selected.
    pub open spec fn episodes_match_selection(self) -> bool {
        match self.spec_current_pod_id() {
            Some(id) => {
                &&& self.episodes@ == podcast_by_id(self.podcasts@, id).episodes@
                &&& self.episode_order@ == podcast_by_id(self.podcasts@, id).episode_order@
            },
            None => self.episodes@.len() == 0 && self.episode_order@.len() == 0,
        }
    }

    /// Well-formedness of the whole interface.
    pub open spec fn wf(self) -> bool {
        &&& self.n_row >= 3
        &&& self.n_col >= 1
        &&& self.podcast_menu.wf()
        &&& self.episode_menu.wf()
        &&& store_valid(self.podcasts@, self.podcast_order@)
        &&& distinct_episode_ids(self.episodes@)
        &&& episode_order_valid(self.episodes@, self.episode_order@)
        &&& (self.details_panel is Some <==> self.n_col > DETAILS_PANEL_LENGTH)
        &&& (self.active_panel is DetailsPanel ==> self.details_panel is Some)
        &&& self.episodes_match_selection()
    }

    /// Calculates the number of columns for each of the three main
    /// panels. Above the details threshold the width (plus two shared
    /// borders) splits into three roughly equal parts with the rounding
    /// remainder going to the details pane; at or below it, into two
    /// halves with no details pane.
    pub fn calculate_sizes(n_col: u16) -> (r: (u16, u16, u16))
        ensures
            r.0 == spec_pod_col(n_col),
            r.1 == spec_ep_col(n_col),
            r.2 == spec_det_col(n_col),
            n_col > DETAILS_PANEL_LENGTH ==> {
                &&& r.0 == (n_col + 2) / 3
                &&& r.1 == (n_col + 2) / 3
                &&& r.2 == n_col + 2 - r.0 - r.1
            },
            n_col <= DETAILS_PANEL_LENGTH ==> {
                &&& r.0 == (n_col + 1) / 2
                &&& r.1 == n_col + 1 - r.0
                &&& r.2 == 0
            },
            r.0 + r.1 + r.2 == if n_col > DETAILS_PANEL_LENGTH {
                n_col + 2
            } else {
                n_col + 1
            },
            (r.2 == 0) <==> (n_col <= DETAILS_PANEL_LENGTH),
            n_col >= 1 ==> r.0 >= 1,
    {
        let n: u32 = n_col as u32;
        if n_col > DETAILS_PANEL_LENGTH {
            let pod: u32 = (n + 2) / 3;
            let ep: u32 = (n + 2) / 3;
            let det: u32 = n + 2 - pod - ep;
            assert(pod == (n_col + 2) / 3 && pod <= 21845) by (nonlinear_arith)
                requires n == n_col && pod == (n + 2) / 3 && n <= 65535;
            assert(det >= pod) by (nonlinear_arith)
                requires pod == (n + 2) / 3 && det == n + 2 - pod - pod;
            (pod as u16, ep as u16, det as u16)
        } else {
            let pod: u32 = (n + 1) / 2;
            let ep: u32 = n + 1 - pod;
            assert(pod <= (n + 1) / 2 && (n + 1) / 2 <= 32768);
            (pod as u16, ep as u16, 0)
        }
    }

    /// Builds the interface model for a terminal of `n_col` by `n_row`
    /// cells around a snapshot of the podcast collection. The episode
    /// list starts on the first podcast of the filtered ordering; the
    /// details pane exists only when the terminal is wide enough.
    pub fn new(n_col: u16, n_row: u16, podcasts: Vec<Podcast>, podcast_order: Vec<i64>) -> (r: Ui)
        requires
            n_row >= 3,
            n_col >= 1,
            store_valid(podcasts@, podcast_order@),
        ensures
            r.wf(),
            r.n_row == n_row,
            r.n_col == n_col,
            r.podcasts == podcasts,
            r.podcast_order == podcast_order,
            r.active_panel is PodcastMenu,
            r.podcast_menu == (Menu {
                n_row: (n_row - 1) as u16,
                n_col: spec_pod_col(n_col) as u16,
                start_x: 0u16,
                top_row: 0u16,
                selected: 0u16,
                highlight: Highlight::Off,
            }),
            r.episode_menu == (Menu {
                n_row: (n_row - 1) as u16,
                n_col: spec_ep_col(n_col) as u16,
                start_x: (spec_pod_col(n_col) - 1) as u16,
                top_row: 0u16,
                selected: 0u16,
                highlight: Highlight::Off,
            }),
            r.details_panel == if n_col > DETAILS_PANEL_LENGTH {
                Some(DetailsPanel {
                    n_row: (n_row - 1) as u16,
                    n_col: spec_det_col(n_col) as u16,
                    start_x: (spec_pod_col(n_col) + spec_ep_col(n_col) - 2) as u16,
                    top_row: 0u16,
                    details: None::<Details>,
                })
            } else {
                None::<DetailsPanel>
            },
            r.notif_win.n_row == n_row,
            r.notif_win.n_col == n_col,
            r.popup_win == (PopupWin {
                n_row,
                n_col,
                welcome_win: false,
                help_win: false,
                download_win: false,
            }),
            r.notif_win.persistent is None,
            r.notif_win.timed@.len() == 0,
    {
        let (pod_col, ep_col, det_col) = Self::calculate_sizes(n_col);
        let podcast_menu = Menu::new(n_row - 1, pod_col, 0);
        let episode_menu = Menu::new(n_row - 1, ep_col, pod_col - 1);
        let details_panel = if n_col > DETAILS_PANEL_LENGTH {
            Some(DetailsPanel::new(n_row - 1, det_col, pod_col + ep_col - 2))
        } else {
            None
        };
        let notif_win = NotifWin::new(n_row, n_col);
        let popup_win = PopupWin::new(n_row, n_col);
        let mut ui = Ui {
            n_row,
            n_col,
            podcasts,
            podcast_order,
            podcast_menu,
            episodes: Vec::new(),
            episode_order: Vec::new(),
            episode_menu,
            details_panel,
            active_panel: ActivePanel::PodcastMenu,
            notif_win,
            popup_win,
        };
        let (eps, order) = ui.current_podcast_episodes();
        ui.episodes = eps;
        ui.episode_order = order;
        ui
    }

    /// Based on the current selections, the identifiers of the current
    /// podcast and episode, if they exist.
    pub fn get_current_ids(&self) -> (r: (Option<i64>, Option<i64>))
        requires
            self.podcast_menu.wf(),
            self.episode_menu.wf(),
        ensures
            r.0 == self.spec_current_pod_id(),
            r.1 == self.spec_current_ep_id(),
    {
        let pod_idx = self.podcast_menu.abs_index() as usize;
        let ep_idx = self.episode_menu.abs_index() as usize;
        let pod_id = if pod_idx < self.podcast_order.len() {
            Some(self.podcast_order[pod_idx])
        } else {
            None
        };
        let ep_id = if ep_idx < self.episode_order.len() {
            Some(self.episode_order[ep_idx])
        } else {
            None
        };
        (pod_id, ep_id)
    }

    /// Index of the podcast carrying `id` in the snapshot, if any.
    fn find_podcast(&self, id: i64) -> (r: Option<usize>)
        requires
            distinct_podcast_ids(self.podcasts@),
        ensures
            match r {
                Some(i) => i < self.podcasts@.len() && self.podcasts@[i as int].id == id
                    && self.podcasts@[i as int] == podcast_by_id(self.podcasts@, id),
                None => !has_podcast(self.podcasts@, id),
            },
    {
        let mut i: usize = 0;
        while i < self.podcasts.len()
            invariant
                distinct_podcast_ids(self.podcasts@),
                i <= self.podcasts@.len(),
                forall|k: int| 0 <= k < i ==> self.podcasts@[k].id != id,
            decreases self.podcasts@.len() - i,
        {
            if self.podcasts[i].id == id {
                proof {
                    lemma_podcast_by_id(self.podcasts@, i as int);
                }
                return Some(i);
            }
            i += 1;
        }
        None
    }

    /// Index of the episode carrying `id` in the episode list, if any.
    fn find_episode(&self, id: i64) -> (r: Option<usize>)
        requires
            distinct_episode_ids(self.episodes@),
        ensures
            match r {
                Some(i) => i < self.episodes@.len() && self.episodes@[i as int].id == id
                    && self.episodes@[i as int] == episode_by_id(self.episodes@, id),
                None => !has_episode(self.episodes@, id),
            },
    {
        let mut i: usize = 0;
        while i < self.episodes.len()
            invariant
                distinct_episode_ids(self.episodes@),
                i <= self.episodes@.len(),
                forall|k: int| 0 <= k < i ==> self.episodes@[k].id != id,
            decreases self.episodes@.len() - i,
        {
            if self.episodes[i].id == id {
                proof {
                    lemma_episode_by_id(self.episodes@, i as int);
                }
                return Some(i);
            }
            i += 1;
        }
        None
    }

    /// A copy of the episodes (and their filtered ordering) of the
    /// podcast currently selected in the podcast list; empty when no
    /// podcast is selected.
    fn current_podcast_episodes(&self) -> (r: (Vec<Episode>, Vec<i64>))
        requires
            self.podcast_menu.wf(),
            store_valid(self.podcasts@, self.podcast_order@),
        ensures
            match self.spec_current_pod_id() {
                Some(id) => {
                    &&& r.0@ == podcast_by_id(self.podcasts@, id).episodes@
                    &&& r.1@ == podcast_by_id(self.podcasts@, id).episode_order@
                },
                None => r.0@.len() == 0 && r.1@.len() == 0,
            },
    {
        let idx = self.podcast_menu.abs_index() as usize;
        if idx < self.podcast_order.len() {
            let id = self.podcast_order[idx];
            match self.find_podcast(id) {
                Some(i) => {
                    let p = &self.podcasts[i];
                    let eps = copy_episodes(&p.episodes);
                    let order = copy_ids(&p.episode_order);
                    (eps, order)
                },
                None => {
                    // unreachable: the ordering only holds live identifiers
                    (Vec::new(), Vec::new())
                },
            }
        } else {
            (Vec::new(), Vec::new())
        }
    }
}

/// Width of the podcast column for a terminal `n_col` cells wide.
pub open spec fn spec_pod_col(n_col: u16) -> int {
    if n_col > DETAILS_PANEL_LENGTH {
        (n_col + 2) / 3
    } else {
        (n_col + 1) / 2
    }
}

/// Width of the episode column.
pub open spec fn spec_ep_col(n_col: u16) -> int {
    if n_col > DETAILS_PANEL_LENGTH {
        (n_col + 2) / 3
    } else {
        n_col + 1 - spec_pod_col(n_col)
    }
}

/// Width of the details column; zero hides the pane.
pub open spec fn spec_det_col(n_col: u16) -> int {
    if n_col > DETAILS_PANEL_LENGTH {
        n_col + 2 - spec_pod_col(n_col) - spec_ep_col(n_col)
    } else {
        0
    }
}

/// The record `d` is exactly what the details pane should show for
/// podcast `pod` and episode `ep`: empty titles and descriptions map
/// to absent values, and the description is the sanitized text.
pub open spec fn details_match(d: Details, pod: Podcast, ep: Episode) -> bool {
    &&& match d.pod_title {
        Some(t) => pod.title@.len() > 0 && t@ == pod.title@,
        None => pod.title@.len() == 0,
    }
    &&& match d.ep_title {
        Some(t) => ep.title@.len() > 0 && t@ == ep.title@,
        None => ep.title@.len() == 0,
    }
    &&& d.pubdate == ep.pubdate
    &&& d.duration == ep.duration
    &&& d.explicit == pod.explicit
    &&& match d.description {
        Some(t) => ep.description@.len() > 0 && t@ == sanitize_spec(ep.description@),
        None => ep.description@.len() == 0,
    }
}

impl Ui {
    /// The podcast and episode records of the current selections, where
    /// both resolve.
    pub open spec fn spec_current_details(self) -> Option<(Podcast, Episode)> {
        match (self.spec_current_pod_id(), self.spec_current_ep_id()) {
            (Some(pid), Some(eid)) => {
                if has_podcast(self.podcasts@, pid) && has_episode(self.episodes@, eid) {
                    Some((podcast_by_id(self.podcasts@, pid), episode_by_id(self.episodes@, eid)))
                } else {
                    None
                }
            },
            _ => None,
        }
    }

    /// If the details pane exists and a selection resolves, the pane
    /// shows that selection's record, scrolled to the top.
    pub open spec fn details_consistent(self) -> bool {
        match self.details_panel {
            Some(dp) => match self.spec_current_details() {
                Some((p, e)) => {
                    &&& dp.top_row == 0
                    &&& match dp.details {
                        Some(d) => details_match(d, p, e),
                        None => false,
                    }
                },
                None => true,
            },
            None => true,
        }
    }

    /// Updates the details pane with the current podcast and episode.
    /// Nothing but the pane's content changes, and where the current
    /// selections do not both resolve the pane keeps what it showed.
    pub fn update_details_panel(&mut self)
        requires
            old(self).wf(),
        ensures
            final(self).wf(),
            *final(self) == (Ui { details_panel: final(self).details_panel, ..*old(self) }),
            final(self).details_panel is Some <==> old(self).details_panel is Some,
            final(self).details_consistent(),
            match (old(self).details_panel, final(self).details_panel) {
                (Some(dp), Some(dp2)) => {
                    &&& dp2.n_row == dp.n_row
                    &&& dp2.n_col == dp.n_col
                    &&& dp2.start_x == dp.start_x
                    &&& (old(self).spec_current_details() is None ==> dp2 == dp)
                },
                (None, None) => true,
                _ => false,
            },
    {
        if self.details_panel.is_some() {
            let (curr_pod_id, curr_ep_id) = self.get_current_ids();
            if let Some(pod_id) = curr_pod_id {
                if let Some(ep_id) = curr_ep_id {
                    let mut pod_title: Option<String> = None;
                    let mut pod_explicit: Option<bool> = None;
                    match self.find_podcast(pod_id) {
                        Some(pi) => {
                            let pod = &self.podcasts[pi];
                            pod_title = if pod.title.as_str().is_empty() {
                                None
                            } else {
                                Some(pod.title.clone())
                            };
                            pod_explicit = pod.explicit;
                        },
                        None => {},
                    }
                    match self.find_episode(ep_id) {
                        Some(ei) => {
                            let ep = &self.episodes[ei];
                            let ep_title = if ep.title.as_str().is_empty() {
                                None
                            } else {
                                Some(ep.title.clone())
                            };
                            let desc = if ep.description.as_str().is_empty() {
                                None
                            } else {
                                Some(crate::sanitize::sanitize_description(
                                    ep.description.as_str(),
                                ))
                            };
                            let details = Details {
                                pod_title,
                                ep_title,
                                pubdate: ep.pubdate,
                                duration: ep.duration,
                                explicit: pod_explicit,
                                description: desc,
                            };
                            match &mut self.details_panel {
                                Some(dp) => {
                                    dp.change_details(details);
                                },
                                None => {},
                            }
                        },
                        None => {},
                    }
                }
            }
        }
    }

    /// Re-reads the podcast collection and refreshes both lists; the
    /// episode list becomes the selected podcast's episodes while every
    /// cursor stays where it was.
    pub fn update_menus(&mut self, podcasts: Vec<Podcast>, podcast_order: Vec<i64>)
        requires
            old(self).wf(),
            store_valid(podcasts@, podcast_order@),
        ensures
            final(self).wf(),
            *final(self) == (Ui {
                podcasts,
                podcast_order,
                episodes: final(self).episodes,
                episode_order: final(self).episode_order,
                ..*old(self)
            }),
            final(self).episodes_match_selection(),
    {
        self.podcasts = podcasts;
        self.podcast_order = podcast_order;
        let (eps, order) = self.current_podcast_episodes();
        self.episodes = eps;
        self.episode_order = order;
    }

    /// First draw: focus starts on the podcast list, the details pane
    /// is filled from the initial selection, and a welcome overlay
    /// appears when there are no podcasts yet.
    pub fn init(&mut self)
        requires
            old(self).wf(),
        ensures
            final(self).wf(),
            final(self).details_consistent(),
            final(self).podcast_menu == (Menu {
                highlight: Highlight::Active,
                ..old(self).podcast_menu
            }),
            final(self).episode_menu == old(self).episode_menu,
            final(self).podcasts == old(self).podcasts,
            final(self).podcast_order == old(self).podcast_order,
            final(self).episodes == old(self).episodes,
            final(self).episode_order == old(self).episode_order,
            final(self).n_row == old(self).n_row,
            final(self).n_col == old(self).n_col,
            final(self).active_panel == old(self).active_panel,
            final(self).notif_win == old(self).notif_win,
            final(self).popup_win == (PopupWin {
                welcome_win: old(self).popup_win.welcome_win || old(self).podcasts@.len() == 0,
                ..old(self).popup_win
            }),
    {
        self.update_details_panel();
        self.podcast_menu.activate();
        if self.podcasts.len() == 0 {
            self.popup_win.spawn_welcome_win();
        }
    }

    /// Resizes and redraws every window. The details pane is destroyed
    /// when its column reaches zero (moving focus off it if needed),
    /// created and filled when room returns, and resized in place
    /// otherwise.
    pub fn resize(&mut self, n_col: u16, n_row: u16)
        requires
            old(self).wf(),
            n_row >= 3,
            n_col >= 1,
        ensures
            final(self).wf(),
            final(self).n_row == n_row,
            final(self).n_col == n_col,
            final(self).podcasts == old(self).podcasts,
            final(self).podcast_order == old(self).podcast_order,
            final(self).episodes == old(self).episodes,
            final(self).episode_order == old(self).episode_order,
            final(self).podcast_menu.spec_abs_index() == old(self).podcast_menu.spec_abs_index(),
            final(self).episode_menu.spec_abs_index() == old(self).episode_menu.spec_abs_index(),
            final(self).podcast_menu.highlight == old(self).podcast_menu.highlight,
            // both list menus are resized in place to the computed
            // geometry
            final(self).podcast_menu.n_row == n_row - 1,
            final(self).podcast_menu.n_col == spec_pod_col(n_col),
            final(self).podcast_menu.start_x == 0,
            final(self).episode_menu.n_row == n_row - 1,
            final(self).episode_menu.n_col == spec_ep_col(n_col),
            final(self).episode_menu.start_x == spec_pod_col(n_col) - 1,
            final(self).details_panel is Some <==> n_col > DETAILS_PANEL_LENGTH,
            // the pane, kept or newly built, has the computed geometry
            match final(self).details_panel {
                Some(dp) => {
                    &&& dp.n_row == n_row - 1
                    &&& dp.n_col == spec_det_col(n_col)
                    &&& dp.start_x == spec_pod_col(n_col) + spec_ep_col(n_col) - 2
                },
                None => true,
            },
            final(self).details_consistent(),
            // details pane lost: focus falls back to the episode list
            old(self).details_panel is Some && n_col <= DETAILS_PANEL_LENGTH ==> {
                &&& (old(self).active_panel is DetailsPanel ==> final(self).active_panel
                    is EpisodeMenu && final(self).episode_menu.highlight == Highlight::Active)
                &&& (!(old(self).active_panel is DetailsPanel) ==> final(self).active_panel
                    == old(self).active_panel && final(self).episode_menu.highlight
                    == old(self).episode_menu.highlight)
            },
            !(old(self).details_panel is Some && n_col <= DETAILS_PANEL_LENGTH)
                ==> final(self).active_panel == old(self).active_panel
                && final(self).episode_menu.highlight == old(self).episode_menu.highlight,
            final(self).notif_win == (NotifWin { n_row, n_col, ..old(self).notif_win }),
            final(self).popup_win == (PopupWin { n_row, n_col, ..old(self).popup_win }),
    {
        self.n_row = n_row;
        self.n_col = n_col;
        let (pod_col, ep_col, det_col) = Self::calculate_sizes(n_col);
        self.podcast_menu.resize(n_row - 1, pod_col, 0);
        self.episode_menu.resize(n_row - 1, ep_col, pod_col - 1);
        if self.details_panel.is_some() {
            if det_col > 0 {
                match &mut self.details_panel {
                    Some(det) => {
                        det.resize(n_row - 1, det_col, pod_col + ep_col - 2);
                    },
                    None => {},
                }
                // resizing the menus may change which item is selected
                self.update_details_panel();
            } else {
                self.details_panel = None;
                // the pane disappeared; if it held the focus, hand the
                // focus back to the episode list
                match self.active_panel {
                    ActivePanel::DetailsPanel => {
                        self.active_panel = ActivePanel::EpisodeMenu;
                        self.episode_menu.activate();
                    },
                    _ => {},
                }
            }
        } else if det_col > 0 {
            self.details_panel = Some(
                DetailsPanel::new(n_row - 1, det_col, pod_col + ep_col - 2),
            );
            self.update_details_panel();
        }
        self.popup_win.resize(n_row, n_col);
        self.notif_win.resize(n_row, n_col);
    }
}

/// The menu `post` is `pre` after one scroll request over `len` items.
pub open spec fn menu_scrolled(pre: Menu, post: Menu, scroll: Scroll, len: nat) -> bool {
    &&& post.n_row == pre.n_row
    &&& post.n_col == pre.n_col
    &&& post.start_x == pre.start_x
    &&& post.highlight == pre.highlight
    &&& post.spec_abs_index() == pre.spec_scroll_abs(scroll, len)
    &&& post.top_row == pre.spec_scroll_top(pre.spec_scroll_abs(scroll, len))
    &&& post.wf()
}

/// Across a list scroll the details pane survives with its geometry,
/// and keeps what it showed whenever the new selection does not
/// resolve to a podcast and an episode.
pub open spec fn details_pane_carried(pre: Ui, post: Ui) -> bool {
    match (pre.details_panel, post.details_panel) {
        (Some(dp), Some(dp2)) => {
            &&& dp2.n_row == dp.n_row
            &&& dp2.n_col == dp.n_col
            &&& dp2.start_x == dp.start_x
            &&& (post.spec_current_details() is None ==> dp2 == dp)
        },
        (None, None) => true,
        _ => false,
    }
}

/// The interface `post` is `pre` after one scroll request was
/// dispatched to whichever panel held the focus. A podcast-list scroll
/// resets the episode list to the top of the newly selected podcast's
/// episodes and refreshes the details pane; an episode-list scroll
/// refreshes only the details pane; a details scroll moves only that
/// pane's viewport.
pub open spec fn scrolled_rel(pre: Ui, post: Ui, pod_id: Option<i64>, scroll: Scroll) -> bool {
    match pre.active_panel {
        ActivePanel::PodcastMenu => if pod_id is Some {
            &&& menu_scrolled(
                pre.podcast_menu,
                post.podcast_menu,
                scroll,
                pre.podcast_order@.len(),
            )
            &&& post.episode_menu == (Menu { top_row: 0u16, selected: 0u16, ..pre.episode_menu })
            &&& post.episodes_match_selection()
            &&& post.details_consistent()
            &&& details_pane_carried(pre, post)
            &&& post == (Ui {
                podcast_menu: post.podcast_menu,
                episode_menu: post.episode_menu,
                episodes: post.episodes,
                episode_order: post.episode_order,
                details_panel: post.details_panel,
                ..pre
            })
        } else {
            post == pre
        },
        ActivePanel::EpisodeMenu => if pod_id is Some {
            &&& menu_scrolled(pre.episode_menu, post.episode_menu, scroll, pre.episode_order@.len())
            &&& post.details_consistent()
            &&& details_pane_carried(pre, post)
            &&& post == (Ui {
                episode_menu: post.episode_menu,
                details_panel: post.details_panel,
                ..pre
            })
        } else {
            post == pre
        },
        ActivePanel::DetailsPanel => match (pre.details_panel, post.details_panel) {
            (Some(dp), Some(dp2)) => {
                &&& dp2 == (DetailsPanel {
                    top_row: (spec_scrolled_top(dp.top_row, scroll)) as u16,
                    ..dp
                })
                &&& post == (Ui { details_panel: post.details_panel, ..pre })
            },
            (None, None) => post == pre,
            _ => false,
        },
    }
}

impl Ui {
    /// Scrolls whichever panel currently holds the focus and cascades
    /// the consequences: a new podcast selection replaces the episode
    /// list's contents and rewinds it to the top.
    pub fn scroll_current_window(&mut self, pod_id: Option<i64>, scroll: Scroll)
        requires
            old(self).wf(),
        ensures
            final(self).wf(),
            scrolled_rel(*old(self), *final(self), pod_id, scroll),
    {
        match self.active_panel {
            ActivePanel::PodcastMenu => {
                if pod_id.is_some() {
                    let len = self.podcast_order.len();
                    self.podcast_menu.scroll(scroll, len);
                    self.episode_menu.top_row = 0;
                    self.episode_menu.selected = 0;
                    // show the newly selected podcast's episodes
                    let (eps, order) = self.current_podcast_episodes();
                    self.episodes = eps;
                    self.episode_order = order;
                    self.update_details_panel();
                }
            },
            ActivePanel::EpisodeMenu => {
                if pod_id.is_some() {
                    let len = self.episode_order.len();
                    self.episode_menu.scroll(scroll, len);
                    self.update_details_panel();
                }
            },
            ActivePanel::DetailsPanel => {
                match &mut self.details_panel {
                    Some(det) => {
                        det.scroll(scroll);
                    },
                    None => {},
                }
            },
        }
    }

}

/// The interface `post` is `pre` after one cursor movement. Up/down
/// requests of every size go to the focused panel's scroll; left and
/// right walk the fixed panel order. Moving at all needs a selected
/// podcast; entering the details pane also needs a selected episode
/// and an existing pane, and is otherwise refused with the focus
/// unchanged.
pub open spec fn moved_rel(
    pre: Ui,
    post: Ui,
    action: UserAction,
    curr_pod_id: Option<i64>,
    curr_ep_id: Option<i64>,
) -> bool {
    match action {
        UserAction::Down => scrolled_rel(pre, post, curr_pod_id, Scroll::Down(1u16)),
        UserAction::Up => scrolled_rel(pre, post, curr_pod_id, Scroll::Up(1u16)),
        UserAction::PageUp => scrolled_rel(pre, post, curr_pod_id, Scroll::Up((pre.n_row - 3) as u16)),
        UserAction::PageDown => scrolled_rel(
            pre,
            post,
            curr_pod_id,
            Scroll::Down((pre.n_row - 3) as u16),
        ),
        UserAction::BigUp => scrolled_rel(
            pre,
            post,
            curr_pod_id,
            Scroll::Up((pre.n_row / BIG_SCROLL_AMOUNT) as u16),
        ),
        UserAction::BigDown => scrolled_rel(
            pre,
            post,
            curr_pod_id,
            Scroll::Down((pre.n_row / BIG_SCROLL_AMOUNT) as u16),
        ),
        UserAction::GoTop => scrolled_rel(pre, post, curr_pod_id, Scroll::Up(u16::MAX)),
        UserAction::GoBot => scrolled_rel(pre, post, curr_pod_id, Scroll::Down(u16::MAX)),
        UserAction::Left => if curr_pod_id is Some {
            match pre.active_panel {
                ActivePanel::PodcastMenu => post == pre,
                ActivePanel::EpisodeMenu => post == (Ui {
                    active_panel: ActivePanel::PodcastMenu,
                    podcast_menu: Menu { highlight: Highlight::Active, ..pre.podcast_menu },
                    episode_menu: Menu { highlight: Highlight::Off, ..pre.episode_menu },
                    ..pre
                }),
                ActivePanel::DetailsPanel => post == (Ui {
                    active_panel: ActivePanel::EpisodeMenu,
                    episode_menu: Menu { highlight: Highlight::Active, ..pre.episode_menu },
                    ..pre
                }),
            }
        } else {
            post == pre
        },
        UserAction::Right => match pre.active_panel {
            ActivePanel::PodcastMenu => if curr_pod_id is Some {
                post == (Ui {
                    active_panel: ActivePanel::EpisodeMenu,
                    podcast_menu: Menu { highlight: Highlight::Off, ..pre.podcast_menu },
                    episode_menu: Menu { highlight: Highlight::Active, ..pre.episode_menu },
                    ..pre
                })
            } else {
                post == pre
            },
            ActivePanel::EpisodeMenu => if curr_pod_id is Some && curr_ep_id is Some
                && pre.details_panel is Some {
                post == (Ui {
                    active_panel: ActivePanel::DetailsPanel,
                    episode_menu: Menu { highlight: Highlight::Muted, ..pre.episode_menu },
                    ..pre
                })
            } else {
                post == pre
            },
            ActivePanel::DetailsPanel => post == pre,
        },
        _ => post == pre,
    }
}

impl Ui {
    /// Moves the cursor around the panels, per `moved_rel`.
    pub fn move_cursor(
        &mut self,
        action: &UserAction,
        curr_pod_id: Option<i64>,
        curr_ep_id: Option<i64>,
    )
        requires
            old(self).wf(),
        ensures
            final(self).wf(),
            moved_rel(*old(self), *final(self), *action, curr_pod_id, curr_ep_id),
    {
        match action {
            UserAction::Down => {
                self.scroll_current_window(curr_pod_id, Scroll::Down(1));
            },
            UserAction::Up => {
                self.scroll_current_window(curr_pod_id, Scroll::Up(1));
            },
            UserAction::Left => {
                if curr_pod_id.is_some() {
                    match self.active_panel {
                        ActivePanel::PodcastMenu => {},
                        ActivePanel::EpisodeMenu => {
                            self.active_panel = ActivePanel::PodcastMenu;
                            self.podcast_menu.activate();
                            self.episode_menu.deactivate(false);
                        },
                        ActivePanel::DetailsPanel => {
                            self.active_panel = ActivePanel::EpisodeMenu;
                            self.episode_menu.activate();
                        },
                    }
                }
            },
            UserAction::Right => {
                match self.active_panel {
                    ActivePanel::PodcastMenu => {
                        // entering the episode list needs only a
                        // selected podcast
                        if curr_pod_id.is_some() {
                            self.active_panel = ActivePanel::EpisodeMenu;
                            self.podcast_menu.deactivate(false);
                            self.episode_menu.activate();
                        }
                    },
                    ActivePanel::EpisodeMenu => {
                        // the details pane also needs a selected
                        // episode, and the pane itself must exist
                        if curr_pod_id.is_some() && curr_ep_id.is_some()
                            && self.details_panel.is_some() {
                            self.active_panel = ActivePanel::DetailsPanel;
                            self.episode_menu.deactivate(true);
                        }
                    },
                    ActivePanel::DetailsPanel => {},
                }
            },
            UserAction::PageUp => {
                let amount = self.n_row - 3;
                self.scroll_current_window(curr_pod_id, Scroll::Up(amount));
            },
            UserAction::PageDown => {
                let amount = self.n_row - 3;
                self.scroll_current_window(curr_pod_id, Scroll::Down(amount));
            },
            UserAction::BigUp => {
                let amount = self.n_row / BIG_SCROLL_AMOUNT;
                self.scroll_current_window(curr_pod_id, Scroll::Up(amount));
            },
            UserAction::BigDown => {
                let amount = self.n_row / BIG_SCROLL_AMOUNT;
                self.scroll_current_window(curr_pod_id, Scroll::Down(amount));
            },
            UserAction::GoTop => {
                self.scroll_current_window(curr_pod_id, Scroll::Up(u16::MAX));
            },
            UserAction::GoBot => {
                self.scroll_current_window(curr_pod_id, Scroll::Down(u16::MAX));
            },
            // only movement actions reach this function
            _ => {},
        }
    }

    /// Which menus must redraw their highlighted item for the current
    /// focus: the podcast list alone, both lists, or (details focused)
    /// neither.
    pub fn highlight_items(&self) -> (r: (bool, bool))
        ensures
            r == match self.active_panel {
                ActivePanel::PodcastMenu => (true, false),
                ActivePanel::EpisodeMenu => (true, true),
                ActivePanel::DetailsPanel => (false, false),
            },
    {
        match self.active_panel {
            ActivePanel::PodcastMenu => (true, false),
            ActivePanel::EpisodeMenu => (true, true),
            ActivePanel::DetailsPanel => (false, false),
        }
    }
}

/// A whitespace character for the purposes of answer parsing: space,
/// tab or line break.
pub open spec fn is_space(c: char) -> bool {
    c == ' ' || c == '\t' || c == '\n' || c == '\r'
}

/// The first character of `s` that is not whitespace, if any.
pub open spec fn first_non_space(s: Seq<char>) -> Option<char>
    decreases s.len(),
{
    if s.len() == 0 {
        None
    } else if is_space(s[0]) {
        first_non_space(s.skip(1))
    } else {
        Some(s[0])
    }
}

/// How a typed line answers a yes/no question: by its first
/// non-whitespace character, `y`/`Y` for yes and `n`/`N` for no;
/// anything else (a cancelled or empty line included) is no answer.
pub open spec fn parse_yes_no(s: Seq<char>) -> Option<bool> {
    match first_non_space(s) {
        Some(c) => if c == 'y' || c == 'Y' {
            Some(true)
        } else if c == 'n' || c == 'N' {
            Some(false)
        } else {
            None
        },
        None => None,
    }
}

/// What the UI asks the surrounding event loop to do next with an
/// action: forward a finished message, or put a question to the user
/// first.
#[derive(Debug, PartialEq)]
pub enum Dispatched {
    Msg(UiMsg),
    Prompt(PromptRequest),
}

/// The blocking question that an action needs answered before its
/// message can be built.
#[derive(Clone, Copy, Debug, PartialEq, Eq, Structural)]
pub enum PromptRequest {
    FeedUrl,
    ConfirmDeleteEpisode,
    ConfirmRemovePodcast,
    ConfirmRemoveEpisode,
    ConfirmRemoveAllEpisodes,
}

impl Ui {
    /// Reads a typed yes/no answer: `y` or `Y` (after any leading
    /// whitespace) is yes, `n` or `N` is no, anything else is no
    /// answer.
    pub fn spawn_yes_no_notif(input: &str) -> (r: Option<bool>)
        ensures
            r == parse_yes_no(input@),
    {
        let n = input.unicode_len();
        let mut i: usize = 0;
        proof {
            assert(input@.skip(0) =~= input@);
        }
        while i < n
            invariant
                n == input@.len(),
                i <= n,
                first_non_space(input@) == first_non_space(input@.skip(i as int)),
            decreases n - i,
        {
            let c = input.get_char(i);
            proof {
                assert(input@.skip(i as int)[0] == input@[i as int]);
                assert(input@.skip(i as int).skip(1) =~= input@.skip(i as int + 1));
            }
            if c == ' ' || c == '\t' || c == '\n' || c == '\r' {
                i += 1;
            } else if c == 'y' || c == 'Y' {
                return Some(true);
            } else if c == 'n' || c == 'N' {
                return Some(false);
            } else {
                return None;
            }
        }
        proof {
            assert(input@.skip(n as int) =~= Seq::<char>::empty());
        }
        None
    }

    /// Reads a typed answer to a destructive-action confirmation: only
    /// an explicit yes confirms; an invalid or cancelled answer
    /// declines.
    pub fn ask_for_confirmation(input: &str) -> (r: bool)
        ensures
            r == (parse_yes_no(input@) == Some(true)),
    {
        match Self::spawn_yes_no_notif(input) {
            Some(true) => true,
            _ => false,
        }
    }

    /// The message for a typed feed URL: empty (or cancelled) input
    /// asks for nothing.
    pub fn add_feed(url: &str) -> (r: UiMsg)
        ensures
            match r {
                UiMsg::AddFeed(u) => url@.len() > 0 && u@ == url@,
                UiMsg::Noop => url@.len() == 0,
                _ => false,
            },
    {
        if url.is_empty() {
            UiMsg::Noop
        } else {
            UiMsg::AddFeed(String::from_str(url))
        }
    }

    /// Whether any episode of the given podcast has been downloaded to
    /// a local file.
    pub fn check_for_local_files(&self, pod_id: i64) -> (r: bool)
        requires
            distinct_podcast_ids(self.podcasts@),
            has_podcast(self.podcasts@, pod_id),
        ensures
            r == podcast_by_id(self.podcasts@, pod_id).spec_any_downloaded(),
    {
        match self.find_podcast(pod_id) {
            Some(i) => self.podcasts[i].any_downloaded(),
            None => {
                proof {
                    assert(false);
                }
                false
            },
        }
    }

    /// Whether the episode list's entry with this identifier has a
    /// local file; an identifier that no longer resolves counts as not
    /// downloaded.
    pub open spec fn spec_episode_downloaded(self, ep_id: i64) -> bool {
        has_episode(self.episodes@, ep_id) && episode_by_id(self.episodes@, ep_id).path is Some
    }

    pub fn episode_is_downloaded(&self, ep_id: i64) -> (r: bool)
        requires
            distinct_episode_ids(self.episodes@),
        ensures
            r == self.spec_episode_downloaded(ep_id),
    {
        match self.find_episode(ep_id) {
            Some(i) => self.episodes[i].path.is_some(),
            None => false,
        }
    }

    /// The toggle message for one episode: the opposite of its current
    /// played state, or nothing if the selection does not resolve.
    pub open spec fn spec_mark_played_msg(
        self,
        curr_pod_id: Option<i64>,
        curr_ep_id: Option<i64>,
    ) -> Option<UiMsg> {
        match (curr_pod_id, curr_ep_id) {
            (Some(p), Some(e)) => if has_episode(self.episodes@, e) {
                Some(UiMsg::MarkPlayed(p, e, !episode_by_id(self.episodes@, e).played))
            } else {
                None
            },
            _ => None,
        }
    }

    /// Marks an episode as played or unplayed (the opposite of its
    /// current state).
    pub fn mark_played(&mut self, curr_pod_id: Option<i64>, curr_ep_id: Option<i64>) -> (r: Option<
        UiMsg,
    >)
        requires
            old(self).wf(),
        ensures
            *final(self) == *old(self),
            r == old(self).spec_mark_played_msg(curr_pod_id, curr_ep_id),
    {
        if let Some(pod_id) = curr_pod_id {
            if let Some(ep_id) = curr_ep_id {
                match self.find_episode(ep_id) {
                    Some(i) => {
                        let played = self.episodes[i].is_played();
                        return Some(UiMsg::MarkPlayed(pod_id, ep_id, !played));
                    },
                    None => {
                        return None;
                    },
                }
            }
        }
        None
    }

    /// The toggle message for a whole podcast: everything becomes
    /// played unless every episode already is, and only then does
    /// everything become unplayed.
    pub open spec fn spec_mark_all_played_msg(self, curr_pod_id: Option<i64>) -> Option<UiMsg> {
        match curr_pod_id {
            Some(p) => if has_podcast(self.podcasts@, p) {
                Some(UiMsg::MarkAllPlayed(p, !podcast_by_id(self.podcasts@, p).spec_is_played()))
            } else {
                None
            },
            None => None,
        }
    }

    /// Marks all episodes of a podcast played or unplayed.
    pub fn mark_all_played(&mut self, curr_pod_id: Option<i64>) -> (r: Option<UiMsg>)
        requires
            old(self).wf(),
        ensures
            *final(self) == *old(self),
            r == old(self).spec_mark_all_played_msg(curr_pod_id),
    {
        if let Some(pod_id) = curr_pod_id {
            match self.find_podcast(pod_id) {
                Some(i) => {
                    let played = self.podcasts[i].is_played();
                    return Some(UiMsg::MarkAllPlayed(pod_id, !played));
                },
                None => {
                    return None;
                },
            }
        }
        None
    }

    /// The delete-files flag a podcast removal carries: true only when
    /// the podcast has a downloaded episode and the user, asked, typed
    /// yes; with nothing downloaded, or any other answer, files stay.
    pub open spec fn spec_podcast_delete_flag(
        self,
        pod_id: i64,
        delete_input: Option<Seq<char>>,
    ) -> bool {
        podcast_by_id(self.podcasts@, pod_id).spec_any_downloaded() && match delete_input {
            Some(d) => parse_yes_no(d) == Some(true),
            None => false,
        }
    }

    /// The outcome of the remove-podcast flow for a typed confirmation
    /// answer and an optional typed delete-files answer.
    pub open spec fn spec_remove_podcast_msg(
        self,
        curr_pod_id: Option<i64>,
        confirm: Seq<char>,
        delete_input: Option<Seq<char>>,
    ) -> Option<UiMsg> {
        if parse_yes_no(confirm) != Some(true) {
            None
        } else {
            match curr_pod_id {
                Some(p) => Some(
                    UiMsg::RemovePodcast(p, self.spec_podcast_delete_flag(p, delete_input)),
                ),
                None => None,
            }
        }
    }

    /// Removes a podcast: a declined or invalid confirmation aborts
    /// with no message; the delete-files answer (asked only when local
    /// files exist, `None` when it was not asked or was cancelled)
    /// defaults to keeping the files.
    pub fn remove_podcast(
        &mut self,
        curr_pod_id: Option<i64>,
        confirm_input: &str,
        delete_input: &Option<String>,
    ) -> (r: Option<UiMsg>)
        requires
            old(self).wf(),
            curr_pod_id matches Some(p) ==> has_podcast(old(self).podcasts@, p),
        ensures
            *final(self) == *old(self),
            r == old(self).spec_remove_podcast_msg(
                curr_pod_id,
                confirm_input@,
                match delete_input {
                    Some(d) => Some(d@),
                    None => None,
                },
            ),
    {
        let confirm = Self::ask_for_confirmation(confirm_input);
        if !confirm {
            return None;
        }
        if let Some(pod_id) = curr_pod_id {
            let mut delete = false;
            if self.check_for_local_files(pod_id) {
                delete = match delete_input {
                    Some(d) => match Self::spawn_yes_no_notif(d.as_str()) {
                        Some(b) => b,
                        None => false,
                    },
                    None => false,
                };
            }
            return Some(UiMsg::RemovePodcast(pod_id, delete));
        }
        None
    }

    /// The outcome of the remove-episode flow.
    pub open spec fn spec_remove_episode_msg(
        self,
        curr_pod_id: Option<i64>,
        curr_ep_id: Option<i64>,
        confirm: Seq<char>,
        delete_input: Option<Seq<char>>,
    ) -> Option<UiMsg> {
        if parse_yes_no(confirm) != Some(true) {
            None
        } else {
            match (curr_pod_id, curr_ep_id) {
                (Some(p), Some(e)) => Some(
                    UiMsg::RemoveEpisode(
                        p,
                        e,
                        self.spec_episode_downloaded(e) && match delete_input {
                            Some(d) => parse_yes_no(d) == Some(true),
                            None => false,
                        },
                    ),
                ),
                _ => None,
            }
        }
    }

    /// Removes one episode of the current podcast, with the same
    /// two-question protocol as podcast removal; the file question
    /// concerns this episode's own download.
    pub fn remove_episode(
        &mut self,
        curr_pod_id: Option<i64>,
        curr_ep_id: Option<i64>,
        confirm_input: &str,
        delete_input: &Option<String>,
    ) -> (r: Option<UiMsg>)
        requires
            old(self).wf(),
        ensures
            *final(self) == *old(self),
            r == old(self).spec_remove_episode_msg(
                curr_pod_id,
                curr_ep_id,
                confirm_input@,
                match delete_input {
                    Some(d) => Some(d@),
                    None => None,
                },
            ),
    {
        let confirm = Self::ask_for_confirmation(confirm_input);
        if !confirm {
            return None;
        }
        if let Some(pod_id) = curr_pod_id {
            if let Some(ep_id) = curr_ep_id {
                let mut delete = false;
                if self.episode_is_downloaded(ep_id) {
                    delete = match delete_input {
                        Some(d) => match Self::spawn_yes_no_notif(d.as_str()) {
                            Some(b) => b,
                            None => false,
                        },
                        None => false,
                    };
                }
                return Some(UiMsg::RemoveEpisode(pod_id, ep_id, delete));
            }
        }
        None
    }

    /// The outcome of the remove-all-episodes flow.
    pub open spec fn spec_remove_all_episodes_msg(
        self,
        curr_pod_id: Option<i64>,
        confirm: Seq<char>,
        delete_input: Option<Seq<char>>,
    ) -> Option<UiMsg> {
        if parse_yes_no(confirm) != Some(true) {
            None
        } else {
            match curr_pod_id {
                Some(p) => Some(
                    UiMsg::RemoveAllEpisodes(p, self.spec_podcast_delete_flag(p, delete_input)),
                ),
                None => None,
            }
        }
    }

    /// Removes every episode of the current podcast, with the same
    /// two-question protocol as podcast removal.
    pub fn remove_all_episodes(
        &mut self,
        curr_pod_id: Option<i64>,
        confirm_input: &str,
        delete_input: &Option<String>,
    ) -> (r: Option<UiMsg>)
        requires
            old(self).wf(),
            curr_pod_id matches Some(p) ==> has_podcast(old(self).podcasts@, p),
        ensures
            *final(self) == *old(self),
            r == old(self).spec_remove_all_episodes_msg(
                curr_pod_id,
                confirm_input@,
                match delete_input {
                    Some(d) => Some(d@),
                    None => None,
                },
            ),
    {
        let confirm = Self::ask_for_confirmation(confirm_input);
        if !confirm {
            return None;
        }
        if let Some(pod_id) = curr_pod_id {
            let mut delete = false;
            if self.check_for_local_files(pod_id) {
                delete = match delete_input {
                    Some(d) => match Self::spawn_yes_no_notif(d.as_str()) {
                        Some(b) => b,
                        None => false,
                    },
                    None => false,
                };
            }
            return Some(UiMsg::RemoveAllEpisodes(pod_id, delete));
        }
        None
    }

    /// Deletes the downloaded file of the current episode, after a
    /// single confirmation question; there is no delete-files question
    /// to answer.
    pub fn delete_episode(
        &mut self,
        curr_pod_id: Option<i64>,
        curr_ep_id: Option<i64>,
        confirm_input: &str,
    ) -> (r: Option<UiMsg>)
        requires
            old(self).wf(),
        ensures
            *final(self) == *old(self),
            r == if parse_yes_no(confirm_input@) == Some(true) {
                match (curr_pod_id, curr_ep_id) {
                    (Some(p), Some(e)) => Some(UiMsg::Delete(p, e)),
                    _ => None::<UiMsg>,
                }
            } else {
                None::<UiMsg>
            },
    {
        let confirm = Self::ask_for_confirmation(confirm_input);
        if !confirm {
            return None;
        }
        if let Some(pod_id) = curr_pod_id {
            if let Some(ep_id) = curr_ep_id {
                return Some(UiMsg::Delete(pod_id, ep_id));
            }
        }
        None
    }

    /// Dismisses the first-run welcome overlay once the podcast
    /// collection is no longer empty.
    pub fn check_welcome_win(&mut self)
        ensures
            *final(self) == (Ui {
                popup_win: PopupWin {
                    welcome_win: old(self).popup_win.welcome_win && old(
                        self,
                    ).podcasts@.len() == 0,
                    ..old(self).popup_win
                },
                ..*old(self)
            }),
    {
        if self.popup_win.welcome_win && self.podcasts.len() > 0 {
            self.popup_win.turn_off_welcome_win();
        }
    }

    /// Shows a message at the bottom of the screen until `duration`
    /// milliseconds past `now`.
    pub fn timed_notif(&mut self, message: String, duration: u64, error: bool, now: u64)
        ensures
            *final(self) == (Ui { notif_win: final(self).notif_win, ..*old(self) }),
            final(self).notif_win.persistent == old(self).notif_win.persistent,
            final(self).notif_win.n_row == old(self).notif_win.n_row,
            final(self).notif_win.n_col == old(self).notif_win.n_col,
            final(self).notif_win.timed@ =~= old(self).notif_win.timed@.push(
                crate::notify::TimedNotification {
                    text: message,
                    error,
                    expires_at: if now + duration <= u64::MAX {
                        (now + duration) as u64
                    } else {
                        u64::MAX
                    },
                },
            ),
    {
        self.notif_win.timed_notif(message, duration, error, now);
    }

    /// Shows a message at the bottom of the screen until it is cleared.
    pub fn persistent_notif(&mut self, message: String, error: bool)
        ensures
            *final(self) == (Ui {
                notif_win: NotifWin {
                    persistent: Some(crate::notify::Notification { text: message, error }),
                    ..old(self).notif_win
                },
                ..*old(self)
            }),
    {
        self.notif_win.persistent_notif(message, error);
    }

    /// Clears the persistent message; timed ones are untouched.
    pub fn clear_persistent_notif(&mut self)
        ensures
            *final(self) == (Ui {
                notif_win: NotifWin {
                    persistent: None::<crate::notify::Notification>,
                    ..old(self).notif_win
                },
                ..*old(self)
            }),
    {
        self.notif_win.clear_persistent_notif();
    }

    /// Expires every timed message whose deadline has passed.
    pub fn check_notifs(&mut self, now: u64)
        ensures
            *final(self) == (Ui { notif_win: final(self).notif_win, ..*old(self) }),
            final(self).notif_win.persistent == old(self).notif_win.persistent,
            final(self).notif_win.n_row == old(self).notif_win.n_row,
            final(self).notif_win.n_col == old(self).notif_win.n_col,
            final(self).notif_win.timed@ =~= old(self).notif_win.timed@.filter(
                |t: crate::notify::TimedNotification| t.expires_at > now,
            ),
    {
        self.notif_win.check_notifs(now);
    }
}

impl Ui {
    /// What dispatching `action` yields: the message to forward (or
    /// `Noop`), or the question that must be answered first. Every
    /// branch whose precondition fails yields `Noop`.
    pub open spec fn spec_dispatched(
        self,
        action: UserAction,
        pod: Option<i64>,
        ep: Option<i64>,
    ) -> Dispatched {
        match action {
            UserAction::AddFeed => Dispatched::Prompt(PromptRequest::FeedUrl),
            UserAction::Sync => Dispatched::Msg(
                match pod {
                    Some(p) => UiMsg::Sync(p),
                    None => UiMsg::Noop,
                },
            ),
            UserAction::SyncAll => Dispatched::Msg(
                if self.podcasts@.len() > 0 {
                    UiMsg::SyncAll
                } else {
                    UiMsg::Noop
                },
            ),
            UserAction::Play => Dispatched::Msg(
                match (pod, ep) {
                    (Some(p), Some(e)) => UiMsg::Play(p, e),
                    _ => UiMsg::Noop,
                },
            ),
            UserAction::MarkPlayed => Dispatched::Msg(
                if self.active_panel is EpisodeMenu {
                    match self.spec_mark_played_msg(pod, ep) {
                        Some(m) => m,
                        None => UiMsg::Noop,
                    }
                } else {
                    UiMsg::Noop
                },
            ),
            UserAction::MarkAllPlayed => Dispatched::Msg(
                match self.spec_mark_all_played_msg(pod) {
                    Some(m) => m,
                    None => UiMsg::Noop,
                },
            ),
            UserAction::Download => Dispatched::Msg(
                match (pod, ep) {
                    (Some(p), Some(e)) => UiMsg::Download(p, e),
                    _ => UiMsg::Noop,
                },
            ),
            UserAction::DownloadAll => Dispatched::Msg(
                match pod {
                    Some(p) => UiMsg::DownloadAll(p),
                    None => UiMsg::Noop,
                },
            ),
            UserAction::Delete => if self.active_panel is EpisodeMenu && pod is Some && ep
                is Some {
                Dispatched::Prompt(PromptRequest::ConfirmDeleteEpisode)
            } else {
                Dispatched::Msg(UiMsg::Noop)
            },
            UserAction::DeleteAll => Dispatched::Msg(
                match pod {
                    Some(p) => UiMsg::DeleteAll(p),
                    None => UiMsg::Noop,
                },
            ),
            UserAction::UnmarkDownloaded => Dispatched::Msg(
                if self.active_panel is EpisodeMenu {
                    match (pod, ep) {
                        (Some(p), Some(e)) => UiMsg::UnmarkDownloaded(p, e),
                        _ => UiMsg::Noop,
                    }
                } else {
                    UiMsg::Noop
                },
            ),
            UserAction::Remove => match self.active_panel {
                ActivePanel::PodcastMenu => Dispatched::Prompt(PromptRequest::ConfirmRemovePodcast),
                ActivePanel::EpisodeMenu => Dispatched::Prompt(PromptRequest::ConfirmRemoveEpisode),
                ActivePanel::DetailsPanel => Dispatched::Msg(UiMsg::Noop),
            },
            UserAction::RemoveAll => match self.active_panel {
                ActivePanel::PodcastMenu => Dispatched::Prompt(PromptRequest::ConfirmRemovePodcast),
                ActivePanel::EpisodeMenu => Dispatched::Prompt(
                    PromptRequest::ConfirmRemoveAllEpisodes,
                ),
                ActivePanel::DetailsPanel => Dispatched::Msg(UiMsg::Noop),
            },
            UserAction::FilterPlayed => Dispatched::Msg(UiMsg::FilterChange(FilterType::Played)),
            UserAction::FilterDownloaded => Dispatched::Msg(
                UiMsg::FilterChange(FilterType::Downloaded),
            ),
            UserAction::Help => Dispatched::Msg(UiMsg::Noop),
            UserAction::Quit => Dispatched::Msg(UiMsg::Quit),
            _ => Dispatched::Msg(UiMsg::Noop),
        }
    }

    /// Routes one logical action: movement goes to the cursor, the
    /// help action opens its overlay, prompt-needing actions hand back
    /// the question to ask, and everything else becomes its message
    /// (or `Noop` where a precondition fails) with the interface
    /// unchanged.
    pub fn dispatch_action(&mut self, action: &UserAction) -> (r: Dispatched)
        requires
            old(self).wf(),
        ensures
            final(self).wf(),
            match action {
                UserAction::Down | UserAction::Up | UserAction::Left | UserAction::Right
                    | UserAction::PageUp | UserAction::PageDown | UserAction::BigUp
                    | UserAction::BigDown | UserAction::GoTop | UserAction::GoBot => {
                    &&& r == Dispatched::Msg(UiMsg::Noop)
                    &&& moved_rel(
                        *old(self),
                        *final(self),
                        *action,
                        old(self).spec_current_pod_id(),
                        old(self).spec_current_ep_id(),
                    )
                },
                UserAction::Help => {
                    &&& r == Dispatched::Msg(UiMsg::Noop)
                    &&& *final(self) == (Ui {
                        popup_win: PopupWin { help_win: true, ..old(self).popup_win },
                        ..*old(self)
                    })
                },
                _ => {
                    &&& *final(self) == *old(self)
                    &&& r == old(self).spec_dispatched(
                        *action,
                        old(self).spec_current_pod_id(),
                        old(self).spec_current_ep_id(),
                    )
                },
            },
    {
        let (curr_pod_id, curr_ep_id) = self.get_current_ids();
        match action {
            UserAction::Down | UserAction::Up | UserAction::Left | UserAction::Right
                | UserAction::PageUp | UserAction::PageDown | UserAction::BigUp
                | UserAction::BigDown | UserAction::GoTop | UserAction::GoBot => {
                self.move_cursor(action, curr_pod_id, curr_ep_id);
                Dispatched::Msg(UiMsg::Noop)
            },
            UserAction::AddFeed => Dispatched::Prompt(PromptRequest::FeedUrl),
            UserAction::Sync => Dispatched::Msg(
                match curr_pod_id {
                    Some(p) => UiMsg::Sync(p),
                    None => UiMsg::Noop,
                },
            ),
            UserAction::SyncAll => Dispatched::Msg(
                // syncing everything needs only a non-empty collection
                if self.podcasts.len() > 0 {
                    UiMsg::SyncAll
                } else {
                    UiMsg::Noop
                },
            ),
            UserAction::Play => Dispatched::Msg(
                match (curr_pod_id, curr_ep_id) {
                    (Some(p), Some(e)) => UiMsg::Play(p, e),
                    _ => UiMsg::Noop,
                },
            ),
            UserAction::MarkPlayed => {
                let msg = match self.active_panel {
                    ActivePanel::EpisodeMenu => match self.mark_played(curr_pod_id, curr_ep_id) {
                        Some(m) => m,
                        None => UiMsg::Noop,
                    },
                    _ => UiMsg::Noop,
                };
                Dispatched::Msg(msg)
            },
            UserAction::MarkAllPlayed => {
                let msg = match self.mark_all_played(curr_pod_id) {
                    Some(m) => m,
                    None => UiMsg::Noop,
                };
                Dispatched::Msg(msg)
            },
            UserAction::Download => Dispatched::Msg(
                match (curr_pod_id, curr_ep_id) {
                    (Some(p), Some(e)) => UiMsg::Download(p, e),
                    _ => UiMsg::Noop,
                },
            ),
            UserAction::DownloadAll => Dispatched::Msg(
                match curr_pod_id {
                    Some(p) => UiMsg::DownloadAll(p),
                    None => UiMsg::Noop,
                },
            ),
            UserAction::Delete => {
                match self.active_panel {
                    ActivePanel::EpisodeMenu => {
                        if curr_pod_id.is_some() && curr_ep_id.is_some() {
                            Dispatched::Prompt(PromptRequest::ConfirmDeleteEpisode)
                        } else {
                            Dispatched::Msg(UiMsg::Noop)
                        }
                    },
                    _ => Dispatched::Msg(UiMsg::Noop),
                }
            },
            UserAction::DeleteAll => Dispatched::Msg(
                match curr_pod_id {
                    Some(p) => UiMsg::DeleteAll(p),
                    None => UiMsg::Noop,
                },
            ),
            UserAction::UnmarkDownloaded => {
                let msg = match self.active_panel {
                    ActivePanel::EpisodeMenu => match (curr_pod_id, curr_ep_id) {
                        (Some(p), Some(e)) => UiMsg::UnmarkDownloaded(p, e),
                        _ => UiMsg::Noop,
                    },
                    _ => UiMsg::Noop,
                };
                Dispatched::Msg(msg)
            },
            UserAction::Remove => {
                match self.active_panel {
                    ActivePanel::PodcastMenu => Dispatched::Prompt(
                        PromptRequest::ConfirmRemovePodcast,
                    ),
                    ActivePanel::EpisodeMenu => Dispatched::Prompt(
                        PromptRequest::ConfirmRemoveEpisode,
                    ),
                    ActivePanel::DetailsPanel => Dispatched::Msg(UiMsg::Noop),
                }
            },
            UserAction::RemoveAll => {
                match self.active_panel {
                    ActivePanel::PodcastMenu => Dispatched::Prompt(
                        PromptRequest::ConfirmRemovePodcast,
                    ),
                    ActivePanel::EpisodeMenu => Dispatched::Prompt(
                        PromptRequest::ConfirmRemoveAllEpisodes,
                    ),
                    ActivePanel::DetailsPanel => Dispatched::Msg(UiMsg::Noop),
                }
            },
            UserAction::FilterPlayed => Dispatched::Msg(UiMsg::FilterChange(FilterType::Played)),
            UserAction::FilterDownloaded => Dispatched::Msg(
                UiMsg::FilterChange(FilterType::Downloaded),
            ),
            UserAction::Help => {
                self.popup_win.spawn_help_win();
                Dispatched::Msg(UiMsg::Noop)
            },
            UserAction::Quit => Dispatched::Msg(UiMsg::Quit),
        }
    }
}

/// Immediately after any podcast-list scroll, the episode list holds
/// exactly the newly selected podcast's episodes and both its cursor
/// and its scroll offset are back at zero.
pub proof fn lemma_podcast_scroll_resets_episode_list(
    pre: Ui,
    post: Ui,
    pod_id: i64,
    scroll: Scroll,
)
    requires
        pre.active_panel is PodcastMenu,
        scrolled_rel(pre, post, Some(pod_id), scroll),
    ensures
        post.episode_menu.selected == 0,
        post.episode_menu.top_row == 0,
        post.episodes_match_selection(),
{
}

/// The mark-all toggle never aims at the state the podcast is already
/// in: with at least one unplayed episode it asks for everything
/// played; only with every episode played does it ask for everything
/// unplayed.
pub proof fn lemma_mark_all_played_toggle(ui: Ui, pod_id: i64)
    requires
        has_podcast(ui.podcasts@, pod_id),
    ensures
        !podcast_by_id(ui.podcasts@, pod_id).spec_is_played() ==> ui.spec_mark_all_played_msg(
            Some(pod_id),
        ) == Some(UiMsg::MarkAllPlayed(pod_id, true)),
        podcast_by_id(ui.podcasts@, pod_id).spec_is_played() ==> ui.spec_mark_all_played_msg(
            Some(pod_id),
        ) == Some(UiMsg::MarkAllPlayed(pod_id, false)),
{
}

/// A confirmed removal never deletes files unless the podcast has a
/// downloaded episode and the user explicitly typed yes to the second
/// question; in particular, with nothing downloaded the flag is false
/// whatever was answered, and a declined or cancelled second answer
/// keeps the files.
pub proof fn lemma_remove_podcast_never_destructive_by_default(
    ui: Ui,
    pod_id: i64,
    confirm: Seq<char>,
    delete_input: Option<Seq<char>>,
)
    requires
        parse_yes_no(confirm) == Some(true),
    ensures
        !podcast_by_id(ui.podcasts@, pod_id).spec_any_downloaded() ==> ui.spec_remove_podcast_msg(
            Some(pod_id),
            confirm,
            delete_input,
        ) == Some(UiMsg::RemovePodcast(pod_id, false)),
        (delete_input is None || parse_yes_no(delete_input->0) != Some(true))
            ==> ui.spec_remove_podcast_msg(Some(pod_id), confirm, delete_input) == Some(
            UiMsg::RemovePodcast(pod_id, false),
        ),
{
}

/// An unconfirmed removal (any answer but yes, a cancelled prompt
/// included) produces no message at all.
pub proof fn lemma_remove_podcast_needs_confirmation(
    ui: Ui,
    curr_pod_id: Option<i64>,
    confirm: Seq<char>,
    delete_input: Option<Seq<char>>,
)
    requires
        parse_yes_no(confirm) != Some(true),
    ensures
        ui.spec_remove_podcast_msg(curr_pod_id, confirm, delete_input) is None,
{
}

/// A rightward move out of the episode list is refused, with the focus
/// and everything else unchanged, whenever no episode is selected,
/// even if a details pane exists.
pub proof fn lemma_right_needs_episode(pre: Ui, post: Ui, curr_pod_id: Option<i64>)
    requires
        pre.active_panel is EpisodeMenu,
        moved_rel(pre, post, UserAction::Right, curr_pod_id, None),
    ensures
        post == pre,
{
}

/// An element-by-element copy of an episode list.
fn copy_episodes(v: &Vec<Episode>) -> (r: Vec<Episode>)
    ensures
        r@ == v@,
{
    let mut r: Vec<Episode> = Vec::new();
    let mut i: usize = 0;
    while i < v.len()
        invariant
            i <= v@.len(),
            r@ =~= v@.take(i as int),
        decreases v@.len() - i,
    {
        let e = &v[i];
        let copied = Episode {
            id: e.id,
            title: e.title.clone(),
            description: e.description.clone(),
            pubdate: e.pubdate,
            duration: e.duration,
            played: e.played,
            path: match &e.path {
                Some(p) => Some(p.clone()),
                None => None,
            },
        };
        assert(copied == v@[i as int]);
        r.push(copied);
        i += 1;
    }
    proof {
        assert(v@.take(v@.len() as int) =~= v@);
    }
    r
}

/// An element-by-element copy of an identifier list.
fn copy_ids(v: &Vec<i64>) -> (r: Vec<i64>)
    ensures
        r@ == v@,
{
    let mut r: Vec<i64> = Vec::new();
    let mut i: usize = 0;
    while i < v.len()
        invariant
            i <= v@.len(),
            r@ =~= v@.take(i as int),
        decreases v@.len() - i,
    {
        r.push(v[i]);
        i += 1;
    }
    proof {
        assert(v@.take(v@.len() as int) =~= v@);
    }
    r
}

} // verus!
