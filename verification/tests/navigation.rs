use podui::menu::Highlight;
use podui::types::ActivePanel;
use podui::types::Episode;
use podui::types::Podcast;
use podui::types::Scroll;
use podui::types::UserAction;
use podui::ui::Ui;

fn episode(id: i64, title: &str, played: bool, path: Option<&str>) -> Episode {
    Episode {
        id,
        title: title.to_string(),
        description: String::new(),
        pubdate: Some(1_700_000_000),
        duration: Some(1800),
        played,
        path: path.map(|p| p.to_string()),
    }
}

fn podcast(id: i64, title: &str, episodes: Vec<Episode>) -> Podcast {
    let order: Vec<i64> = episodes.iter().map(|e| e.id).collect();
    Podcast {
        id,
        title: title.to_string(),
        explicit: Some(false),
        episodes,
        episode_order: order,
    }
}

fn two_podcast_ui(n_col: u16) -> Ui {
    let pods = vec![
        podcast(1, "First", vec![episode(11, "a", false, None), episode(12, "b", true, None)]),
        podcast(2, "Second", vec![episode(21, "c", false, None)]),
    ];
    Ui::new(n_col, 30, pods, vec![1, 2])
}

#[test]
fn new_starts_on_first_podcast() {
    let ui = two_podcast_ui(80);
    let (pod, ep) = ui.get_current_ids();
    assert_eq!(pod, Some(1));
    assert_eq!(ep, Some(11));
    assert!(matches!(ui.active_panel, ActivePanel::PodcastMenu));
    assert!(ui.details_panel.is_none());
}

#[test]
fn podcast_scroll_cascades_into_episode_list() {
    let mut ui = two_podcast_ui(80);
    ui.scroll_current_window(Some(1), Scroll::Down(1));
    let (pod, ep) = ui.get_current_ids();
    assert_eq!(pod, Some(2));
    // the episode list was replaced and rewound to the top
    assert_eq!(ui.episode_menu.selected, 0);
    assert_eq!(ui.episode_menu.top_row, 0);
    assert_eq!(ui.episode_order, vec![21]);
    assert_eq!(ui.episodes.len(), 1);
    assert_eq!(ui.episodes[0].id, 21);
    assert_eq!(ep, Some(21));
}

#[test]
fn episode_scroll_leaves_podcast_list_alone() {
    let mut ui = two_podcast_ui(80);
    ui.active_panel = ActivePanel::EpisodeMenu;
    ui.scroll_current_window(Some(1), Scroll::Down(1));
    let (pod, ep) = ui.get_current_ids();
    assert_eq!(pod, Some(1));
    assert_eq!(ep, Some(12));
    assert_eq!(ui.episodes.len(), 2);
}

#[test]
fn scroll_clamps_at_both_ends() {
    let mut ui = two_podcast_ui(80);
    ui.scroll_current_window(Some(1), Scroll::Down(u16::MAX));
    assert_eq!(ui.get_current_ids().0, Some(2));
    ui.scroll_current_window(Some(2), Scroll::Up(u16::MAX));
    assert_eq!(ui.get_current_ids().0, Some(1));
}

#[test]
fn right_focus_walks_to_details_pane() {
    let mut ui = two_podcast_ui(150);
    assert!(ui.details_panel.is_some());
    ui.move_cursor(&UserAction::Right, Some(1), Some(11));
    assert!(matches!(ui.active_panel, ActivePanel::EpisodeMenu));
    ui.move_cursor(&UserAction::Right, Some(1), Some(11));
    assert!(matches!(ui.active_panel, ActivePanel::DetailsPanel));
    assert_eq!(ui.episode_menu.highlight, Highlight::Muted);
}

#[test]
fn right_into_details_is_refused_without_an_episode() {
    let mut ui = two_podcast_ui(150);
    ui.active_panel = ActivePanel::EpisodeMenu;
    assert!(ui.details_panel.is_some());
    ui.move_cursor(&UserAction::Right, Some(1), None);
    assert!(matches!(ui.active_panel, ActivePanel::EpisodeMenu));
}

#[test]
fn right_into_details_is_refused_without_a_pane() {
    let mut ui = two_podcast_ui(80);
    ui.active_panel = ActivePanel::EpisodeMenu;
    ui.move_cursor(&UserAction::Right, Some(1), Some(11));
    assert!(matches!(ui.active_panel, ActivePanel::EpisodeMenu));
}

#[test]
fn left_walks_back_and_stops() {
    let mut ui = two_podcast_ui(150);
    ui.move_cursor(&UserAction::Right, Some(1), Some(11));
    ui.move_cursor(&UserAction::Left, Some(1), Some(11));
    assert!(matches!(ui.active_panel, ActivePanel::PodcastMenu));
    ui.move_cursor(&UserAction::Left, Some(1), Some(11));
    assert!(matches!(ui.active_panel, ActivePanel::PodcastMenu));
}

#[test]
fn left_needs_a_selected_podcast() {
    let mut ui = two_podcast_ui(150);
    ui.active_panel = ActivePanel::EpisodeMenu;
    ui.move_cursor(&UserAction::Left, None, None);
    assert!(matches!(ui.active_panel, ActivePanel::EpisodeMenu));
}

#[test]
fn shrinking_resize_destroys_details_and_moves_focus() {
    let mut ui = two_podcast_ui(150);
    ui.move_cursor(&UserAction::Right, Some(1), Some(11));
    ui.move_cursor(&UserAction::Right, Some(1), Some(11));
    assert!(matches!(ui.active_panel, ActivePanel::DetailsPanel));
    ui.resize(100, 30);
    assert!(ui.details_panel.is_none());
    assert!(matches!(ui.active_panel, ActivePanel::EpisodeMenu));
    assert_eq!(ui.episode_menu.highlight, Highlight::Active);
}

#[test]
fn growing_resize_recreates_and_fills_details() {
    let mut ui = two_podcast_ui(100);
    assert!(ui.details_panel.is_none());
    ui.resize(150, 30);
    let pane = ui.details_panel.as_ref().expect("details pane exists again");
    let details = pane.details.as_ref().expect("details filled from selection");
    assert_eq!(details.pod_title.as_deref(), Some("First"));
    assert_eq!(details.ep_title.as_deref(), Some("a"));
    assert_eq!(details.pubdate, Some(1_700_000_000));
    assert_eq!(details.duration, Some(1800));
    // the empty description maps to an absent value, not a blank one
    assert!(details.description.is_none());
}

#[test]
fn resize_keeps_selections() {
    let mut ui = two_podcast_ui(150);
    ui.scroll_current_window(Some(1), Scroll::Down(1));
    ui.resize(90, 24);
    assert_eq!(ui.get_current_ids().0, Some(2));
}

#[test]
fn init_shows_welcome_only_for_an_empty_collection() {
    let mut empty = Ui::new(80, 30, Vec::new(), Vec::new());
    empty.init();
    assert!(empty.popup_win.welcome_win);
    assert_eq!(empty.get_current_ids(), (None, None));

    let mut full = two_podcast_ui(80);
    full.init();
    assert!(!full.popup_win.welcome_win);
    assert_eq!(full.podcast_menu.highlight, Highlight::Active);
}

#[test]
fn welcome_goes_away_once_podcasts_arrive() {
    let mut ui = Ui::new(80, 30, Vec::new(), Vec::new());
    ui.init();
    assert!(ui.popup_win.welcome_win);
    let pods = vec![podcast(1, "First", vec![episode(11, "a", false, None)])];
    ui.update_menus(pods, vec![1]);
    ui.check_welcome_win();
    assert!(!ui.popup_win.welcome_win);
}

#[test]
fn update_menus_refreshes_episode_contents_in_place() {
    let mut ui = two_podcast_ui(80);
    let pods = vec![
        podcast(1, "First", vec![episode(11, "a", true, None)]),
        podcast(2, "Second", vec![episode(21, "c", false, None)]),
    ];
    ui.update_menus(pods, vec![1, 2]);
    assert_eq!(ui.episodes.len(), 1);
    assert!(ui.episodes[0].played);
    // the cursor did not move
    assert_eq!(ui.get_current_ids().0, Some(1));
}

#[test]
fn highlight_items_follows_focus() {
    let mut ui = two_podcast_ui(150);
    assert_eq!(ui.highlight_items(), (true, false));
    ui.active_panel = ActivePanel::EpisodeMenu;
    assert_eq!(ui.highlight_items(), (true, true));
    ui.active_panel = ActivePanel::DetailsPanel;
    assert_eq!(ui.highlight_items(), (false, false));
}

#[test]
fn long_list_scrolling_moves_the_viewport() {
    let pods: Vec<Podcast> = (1..=40).map(|id| podcast(id, "p", Vec::new())).collect();
    let order: Vec<i64> = (1..=40).collect();
    // 10 terminal rows leave a 7-item viewport inside the list borders
    let mut ui = Ui::new(80, 10, pods, order);
    ui.scroll_current_window(Some(1), Scroll::Down(10));
    assert_eq!(ui.podcast_menu.top_row, 4);
    assert_eq!(ui.podcast_menu.selected, 6);
    assert_eq!(ui.get_current_ids().0, Some(11));
    ui.scroll_current_window(Some(11), Scroll::Up(10));
    assert_eq!(ui.podcast_menu.top_row, 0);
    assert_eq!(ui.podcast_menu.selected, 0);
    assert_eq!(ui.get_current_ids().0, Some(1));
}

#[test]
fn right_into_episode_list_needs_only_a_podcast() {
    // a selected podcast with an empty episode list still lets the
    // focus move into the episode list
    let pods = vec![podcast(1, "Empty", Vec::new())];
    let mut ui = Ui::new(150, 30, pods, vec![1]);
    let (pod, ep) = ui.get_current_ids();
    assert_eq!(pod, Some(1));
    assert_eq!(ep, None);
    ui.move_cursor(&UserAction::Right, pod, ep);
    assert!(matches!(ui.active_panel, ActivePanel::EpisodeMenu));
    assert_eq!(ui.episode_menu.highlight, Highlight::Active);
    // but not onward into the details pane
    ui.move_cursor(&UserAction::Right, pod, ep);
    assert!(matches!(ui.active_panel, ActivePanel::EpisodeMenu));
}

#[test]
fn right_needs_a_selected_podcast_at_all() {
    let mut ui = Ui::new(150, 30, Vec::new(), Vec::new());
    ui.move_cursor(&UserAction::Right, None, None);
    assert!(matches!(ui.active_panel, ActivePanel::PodcastMenu));
}

#[test]
fn resize_recomputes_widget_geometry() {
    let mut ui = two_podcast_ui(80);
    assert_eq!(ui.podcast_menu.n_col, 40);
    assert_eq!(ui.episode_menu.n_col, 41);
    assert_eq!(ui.episode_menu.start_x, 39);
    ui.resize(150, 24);
    assert_eq!(ui.podcast_menu.n_row, 23);
    assert_eq!(ui.podcast_menu.n_col, 50);
    assert_eq!(ui.episode_menu.n_row, 23);
    assert_eq!(ui.episode_menu.n_col, 50);
    assert_eq!(ui.episode_menu.start_x, 49);
    let pane = ui.details_panel.as_ref().expect("details pane after growing");
    assert_eq!(pane.n_row, 23);
    assert_eq!(pane.n_col, 52);
    assert_eq!(pane.start_x, 98);
}
