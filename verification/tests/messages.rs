use podui::types::ActivePanel;
use podui::types::Episode;
use podui::types::FilterType;
use podui::types::Podcast;
use podui::types::UiMsg;
use podui::types::UserAction;
use podui::ui::Dispatched;
use podui::ui::PromptRequest;
use podui::ui::Ui;

fn episode(id: i64, played: bool, path: Option<&str>) -> Episode {
    Episode {
        id,
        title: format!("episode {id}"),
        description: String::new(),
        pubdate: None,
        duration: None,
        played,
        path: path.map(|p| p.to_string()),
    }
}

fn podcast(id: i64, episodes: Vec<Episode>) -> Podcast {
    let order: Vec<i64> = episodes.iter().map(|e| e.id).collect();
    Podcast {
        id,
        title: format!("podcast {id}"),
        explicit: None,
        episodes,
        episode_order: order,
    }
}

fn ui_with(pods: Vec<Podcast>) -> Ui {
    let order: Vec<i64> = pods.iter().map(|p| p.id).collect();
    Ui::new(80, 30, pods, order)
}

#[test]
fn mark_played_toggles_the_current_state() {
    let mut ui = ui_with(vec![podcast(1, vec![episode(11, false, None), episode(12, true, None)])]);
    assert_eq!(ui.mark_played(Some(1), Some(11)), Some(UiMsg::MarkPlayed(1, 11, true)));
    assert_eq!(ui.mark_played(Some(1), Some(12)), Some(UiMsg::MarkPlayed(1, 12, false)));
    assert_eq!(ui.mark_played(Some(1), Some(99)), None);
    assert_eq!(ui.mark_played(Some(1), None), None);
}

#[test]
fn mark_all_played_targets_played_while_any_is_unplayed() {
    let mut ui = ui_with(vec![podcast(1, vec![episode(11, true, None), episode(12, false, None)])]);
    assert_eq!(ui.mark_all_played(Some(1)), Some(UiMsg::MarkAllPlayed(1, true)));
}

#[test]
fn mark_all_played_flips_back_only_when_all_are_played() {
    let mut ui = ui_with(vec![podcast(1, vec![episode(11, true, None), episode(12, true, None)])]);
    assert_eq!(ui.mark_all_played(Some(1)), Some(UiMsg::MarkAllPlayed(1, false)));
    assert_eq!(ui.mark_all_played(None), None);
}

#[test]
fn yes_no_answers_parse_by_first_meaningful_character() {
    assert_eq!(Ui::spawn_yes_no_notif("y"), Some(true));
    assert_eq!(Ui::spawn_yes_no_notif("  Yes"), Some(true));
    assert_eq!(Ui::spawn_yes_no_notif("N"), Some(false));
    assert_eq!(Ui::spawn_yes_no_notif("\tno"), Some(false));
    assert_eq!(Ui::spawn_yes_no_notif(""), None);
    assert_eq!(Ui::spawn_yes_no_notif("maybe"), None);
    assert!(Ui::ask_for_confirmation("y"));
    assert!(!Ui::ask_for_confirmation("n"));
    assert!(!Ui::ask_for_confirmation(""));
}

#[test]
fn confirmed_removal_without_downloads_never_deletes_files() {
    let mut ui = ui_with(vec![podcast(1, vec![episode(11, false, None)])]);
    assert!(!ui.check_for_local_files(1));
    // even an affirmative delete answer cannot turn the flag on
    let msg = ui.remove_podcast(Some(1), "y", &Some("y".to_string()));
    assert_eq!(msg, Some(UiMsg::RemovePodcast(1, false)));
}

#[test]
fn confirmed_removal_with_downloads_obeys_the_second_answer() {
    let mut ui = ui_with(vec![podcast(1, vec![episode(11, false, Some("/tmp/a.mp3"))])]);
    assert!(ui.check_for_local_files(1));
    assert_eq!(
        ui.remove_podcast(Some(1), "y", &Some("y".to_string())),
        Some(UiMsg::RemovePodcast(1, true))
    );
    assert_eq!(
        ui.remove_podcast(Some(1), "y", &Some("n".to_string())),
        Some(UiMsg::RemovePodcast(1, false))
    );
    // a cancelled or invalid answer defaults to keeping the files
    assert_eq!(ui.remove_podcast(Some(1), "y", &None), Some(UiMsg::RemovePodcast(1, false)));
    assert_eq!(
        ui.remove_podcast(Some(1), "y", &Some("whatever".to_string())),
        Some(UiMsg::RemovePodcast(1, false))
    );
}

#[test]
fn unconfirmed_removal_emits_nothing() {
    let mut ui = ui_with(vec![podcast(1, vec![episode(11, false, Some("/tmp/a.mp3"))])]);
    assert_eq!(ui.remove_podcast(Some(1), "n", &Some("y".to_string())), None);
    assert_eq!(ui.remove_podcast(Some(1), "", &Some("y".to_string())), None);
    assert_eq!(ui.remove_podcast(None, "y", &None), None);
}

#[test]
fn remove_episode_checks_that_episodes_own_file() {
    let mut ui = ui_with(vec![podcast(
        1,
        vec![episode(11, false, Some("/tmp/a.mp3")), episode(12, false, None)],
    )]);
    assert_eq!(
        ui.remove_episode(Some(1), Some(11), "y", &Some("y".to_string())),
        Some(UiMsg::RemoveEpisode(1, 11, true))
    );
    assert_eq!(
        ui.remove_episode(Some(1), Some(12), "y", &Some("y".to_string())),
        Some(UiMsg::RemoveEpisode(1, 12, false))
    );
    assert_eq!(ui.remove_episode(Some(1), Some(11), "n", &None), None);
    assert_eq!(ui.remove_episode(Some(1), None, "y", &None), None);
}

#[test]
fn remove_all_episodes_runs_the_same_protocol() {
    let mut ui = ui_with(vec![podcast(1, vec![episode(11, false, Some("/tmp/a.mp3"))])]);
    assert_eq!(
        ui.remove_all_episodes(Some(1), "y", &Some("y".to_string())),
        Some(UiMsg::RemoveAllEpisodes(1, true))
    );
    assert_eq!(ui.remove_all_episodes(Some(1), "y", &None), Some(UiMsg::RemoveAllEpisodes(1, false)));
    assert_eq!(ui.remove_all_episodes(Some(1), "x", &None), None);
}

#[test]
fn delete_episode_needs_only_the_confirmation() {
    let mut ui = ui_with(vec![podcast(1, vec![episode(11, false, Some("/tmp/a.mp3"))])]);
    assert_eq!(ui.delete_episode(Some(1), Some(11), "y"), Some(UiMsg::Delete(1, 11)));
    assert_eq!(ui.delete_episode(Some(1), Some(11), "n"), None);
    assert_eq!(ui.delete_episode(Some(1), None, "y"), None);
}

#[test]
fn add_feed_url_round_trips_and_empty_input_is_noop() {
    assert_eq!(
        Ui::add_feed("http://example.com/feed"),
        UiMsg::AddFeed("http://example.com/feed".to_string())
    );
    assert_eq!(Ui::add_feed(""), UiMsg::Noop);
}

#[test]
fn dispatch_asks_for_a_url_on_add_feed() {
    let mut ui = ui_with(Vec::new());
    assert_eq!(ui.dispatch_action(&UserAction::AddFeed), Dispatched::Prompt(PromptRequest::FeedUrl));
}

#[test]
fn dispatch_respects_preconditions() {
    let mut empty = ui_with(Vec::new());
    assert_eq!(empty.dispatch_action(&UserAction::Sync), Dispatched::Msg(UiMsg::Noop));
    assert_eq!(empty.dispatch_action(&UserAction::SyncAll), Dispatched::Msg(UiMsg::Noop));
    assert_eq!(empty.dispatch_action(&UserAction::Play), Dispatched::Msg(UiMsg::Noop));
    assert_eq!(empty.dispatch_action(&UserAction::DownloadAll), Dispatched::Msg(UiMsg::Noop));

    let mut ui = ui_with(vec![podcast(7, vec![episode(71, false, None)])]);
    assert_eq!(ui.dispatch_action(&UserAction::Sync), Dispatched::Msg(UiMsg::Sync(7)));
    assert_eq!(ui.dispatch_action(&UserAction::SyncAll), Dispatched::Msg(UiMsg::SyncAll));
    assert_eq!(ui.dispatch_action(&UserAction::Play), Dispatched::Msg(UiMsg::Play(7, 71)));
    assert_eq!(ui.dispatch_action(&UserAction::Download), Dispatched::Msg(UiMsg::Download(7, 71)));
    assert_eq!(ui.dispatch_action(&UserAction::DownloadAll), Dispatched::Msg(UiMsg::DownloadAll(7)));
    assert_eq!(ui.dispatch_action(&UserAction::DeleteAll), Dispatched::Msg(UiMsg::DeleteAll(7)));
    assert_eq!(ui.dispatch_action(&UserAction::Quit), Dispatched::Msg(UiMsg::Quit));
}

#[test]
fn dispatch_gates_episode_actions_on_the_episode_list_focus() {
    let mut ui = ui_with(vec![podcast(7, vec![episode(71, false, None)])]);
    // focus is on the podcast list
    assert_eq!(ui.dispatch_action(&UserAction::MarkPlayed), Dispatched::Msg(UiMsg::Noop));
    assert_eq!(ui.dispatch_action(&UserAction::UnmarkDownloaded), Dispatched::Msg(UiMsg::Noop));
    assert_eq!(ui.dispatch_action(&UserAction::Delete), Dispatched::Msg(UiMsg::Noop));

    ui.active_panel = ActivePanel::EpisodeMenu;
    assert_eq!(
        ui.dispatch_action(&UserAction::MarkPlayed),
        Dispatched::Msg(UiMsg::MarkPlayed(7, 71, true))
    );
    assert_eq!(
        ui.dispatch_action(&UserAction::UnmarkDownloaded),
        Dispatched::Msg(UiMsg::UnmarkDownloaded(7, 71))
    );
    assert_eq!(
        ui.dispatch_action(&UserAction::Delete),
        Dispatched::Prompt(PromptRequest::ConfirmDeleteEpisode)
    );
}

#[test]
fn dispatch_routes_removal_flows_by_focus() {
    let mut ui = ui_with(vec![podcast(7, vec![episode(71, false, None)])]);
    assert_eq!(
        ui.dispatch_action(&UserAction::Remove),
        Dispatched::Prompt(PromptRequest::ConfirmRemovePodcast)
    );
    assert_eq!(
        ui.dispatch_action(&UserAction::RemoveAll),
        Dispatched::Prompt(PromptRequest::ConfirmRemovePodcast)
    );
    ui.active_panel = ActivePanel::EpisodeMenu;
    assert_eq!(
        ui.dispatch_action(&UserAction::Remove),
        Dispatched::Prompt(PromptRequest::ConfirmRemoveEpisode)
    );
    assert_eq!(
        ui.dispatch_action(&UserAction::RemoveAll),
        Dispatched::Prompt(PromptRequest::ConfirmRemoveAllEpisodes)
    );
    ui.active_panel = ActivePanel::DetailsPanel;
    assert_eq!(ui.dispatch_action(&UserAction::Remove), Dispatched::Msg(UiMsg::Noop));
    assert_eq!(ui.dispatch_action(&UserAction::RemoveAll), Dispatched::Msg(UiMsg::Noop));
}

#[test]
fn dispatch_emits_filter_changes_and_opens_help() {
    let mut ui = ui_with(Vec::new());
    assert_eq!(
        ui.dispatch_action(&UserAction::FilterPlayed),
        Dispatched::Msg(UiMsg::FilterChange(FilterType::Played))
    );
    assert_eq!(
        ui.dispatch_action(&UserAction::FilterDownloaded),
        Dispatched::Msg(UiMsg::FilterChange(FilterType::Downloaded))
    );
    assert!(!ui.popup_win.help_win);
    assert_eq!(ui.dispatch_action(&UserAction::Help), Dispatched::Msg(UiMsg::Noop));
    assert!(ui.popup_win.help_win);
    assert!(ui.popup_win.is_non_welcome_popup_active());
}

#[test]
fn dispatch_movement_returns_noop_and_moves() {
    let mut ui = ui_with(vec![podcast(1, Vec::new()), podcast(2, Vec::new())]);
    assert_eq!(ui.dispatch_action(&UserAction::Down), Dispatched::Msg(UiMsg::Noop));
    assert_eq!(ui.get_current_ids().0, Some(2));
}

#[test]
fn notifications_expire_on_their_deadline() {
    let mut ui = ui_with(Vec::new());
    ui.timed_notif("syncing...".to_string(), 1000, false, 5000);
    ui.timed_notif("boom".to_string(), 200, true, 5000);
    assert_eq!(ui.notif_win.timed.len(), 2);
    ui.check_notifs(5100);
    assert_eq!(ui.notif_win.timed.len(), 2);
    ui.check_notifs(5200);
    assert_eq!(ui.notif_win.timed.len(), 1);
    assert_eq!(ui.notif_win.timed[0].text, "syncing...");
    ui.check_notifs(6000);
    assert!(ui.notif_win.timed.is_empty());
}

#[test]
fn persistent_notification_stays_until_cleared() {
    let mut ui = ui_with(Vec::new());
    ui.persistent_notif("offline".to_string(), true);
    let n = ui.notif_win.persistent.as_ref().expect("persistent set");
    assert_eq!(n.text, "offline");
    assert!(n.error);
    ui.timed_notif("hi".to_string(), 10, false, 0);
    ui.check_notifs(100);
    assert!(ui.notif_win.persistent.is_some());
    ui.clear_persistent_notif();
    assert!(ui.notif_win.persistent.is_none());
}

#[test]
fn sync_all_needs_only_a_non_empty_collection() {
    let mut ui = ui_with(vec![podcast(7, Vec::new())]);
    // push the cursor past the end of the (single-item) ordering
    ui.podcast_menu.top_row = 5;
    assert_eq!(ui.get_current_ids().0, None);
    assert_eq!(ui.dispatch_action(&UserAction::SyncAll), Dispatched::Msg(UiMsg::SyncAll));
    assert_eq!(ui.dispatch_action(&UserAction::Sync), Dispatched::Msg(UiMsg::Noop));
}
