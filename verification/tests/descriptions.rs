use podui::sanitize::sanitize_description;
use podui::sanitize::sanitize_twice;
use podui::types::Episode;
use podui::types::Podcast;
use podui::ui::Ui;

#[test]
fn tags_break_tags_and_entities_are_rewritten() {
    let out = sanitize_description("Hello<br/>World<p>Bold</p>&amp;more");
    assert_eq!(out, "Hello\nWorldBold&more");
}

#[test]
fn four_line_breaks_collapse_to_two() {
    assert_eq!(sanitize_description("A\n\n\n\nB"), "A\n\nB");
}

#[test]
fn two_line_breaks_survive() {
    assert_eq!(sanitize_description("A\n\nB"), "A\n\nB");
}

#[test]
fn br_tags_absorb_their_surrounding_breaks() {
    assert_eq!(sanitize_description("A\n\n<br />\nB"), "A\nB");
    assert_eq!(sanitize_description("A<br>B<br  />C"), "A\nB\nC");
}

#[test]
fn entities_are_decoded() {
    // would fail if decoding handed its argument back unchanged
    assert_eq!(sanitize_description("&amp;"), "&");
    assert_eq!(sanitize_description("&lt;i&gt;"), "<i>");
    assert_eq!(sanitize_description("fish &#38; chips"), "fish & chips");
}

#[test]
fn malformed_entities_fall_back_to_the_stripped_text() {
    assert_eq!(sanitize_description("50% &off"), "50% &off");
    assert_eq!(sanitize_description("a &nosuchentity; b"), "a &nosuchentity; b");
}

#[test]
fn unmatched_angle_brackets_stay() {
    assert_eq!(sanitize_description("a<b"), "a<b");
    assert_eq!(sanitize_description("a<b<c>d"), "a<bd");
    assert_eq!(sanitize_description("5 > 4"), "5 > 4");
}

#[test]
fn second_pass_changes_nothing_on_the_example() {
    let (first, second) = sanitize_twice("Hello<br/>World<p>Bold</p>&amp;more");
    assert_eq!(first, "Hello\nWorldBold&more");
    assert_eq!(second, first);
}

#[test]
fn second_pass_changes_nothing_on_break_collapse() {
    let (first, second) = sanitize_twice("A\r\n\r\n\r\nB<br>C");
    assert_eq!(first, "A\n\nB\nC");
    assert_eq!(second, first);
}

#[test]
fn details_pane_gets_the_sanitized_description() {
    let episodes = vec![Episode {
        id: 11,
        title: "pilot".to_string(),
        description: "Intro<br/>Notes<p>x</p>&amp;co\n\n\n\nEnd".to_string(),
        pubdate: Some(42),
        duration: Some(60),
        played: false,
        path: None,
    }];
    let pods = vec![Podcast {
        id: 1,
        title: String::new(),
        explicit: Some(true),
        episodes,
        episode_order: vec![11],
    }];
    let mut ui = Ui::new(150, 30, pods, vec![1]);
    ui.init();
    let pane = ui.details_panel.as_ref().expect("wide terminal has a details pane");
    let details = pane.details.as_ref().expect("details filled");
    // the empty podcast title maps to an absent value
    assert!(details.pod_title.is_none());
    assert_eq!(details.ep_title.as_deref(), Some("pilot"));
    assert_eq!(details.explicit, Some(true));
    assert_eq!(details.description.as_deref(), Some("Intro\nNotesx&co\n\nEnd"));
}
