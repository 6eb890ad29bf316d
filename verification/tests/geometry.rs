use podui::ui::Ui;

#[test]
fn narrow_terminal_splits_in_two_halves() {
    // 80 columns: no details pane; the two lists share width + 1
    let (pod, ep, det) = Ui::calculate_sizes(80);
    assert_eq!(pod, 40);
    assert_eq!(ep, 41);
    assert_eq!(det, 0);
    assert_eq!(pod + ep + det, 81);
}

#[test]
fn wide_terminal_splits_in_three() {
    let (pod, ep, det) = Ui::calculate_sizes(150);
    assert_eq!(pod, 50);
    assert_eq!(ep, 50);
    assert_eq!(det, 52);
    assert_eq!(pod + ep + det, 152);
}

#[test]
fn details_pane_appears_exactly_above_the_threshold() {
    let (_, _, det135) = Ui::calculate_sizes(135);
    assert_eq!(det135, 0);
    let (pod, ep, det136) = Ui::calculate_sizes(136);
    assert!(det136 > 0);
    assert_eq!(pod + ep + det136, 138);
}

#[test]
fn odd_width_rounds_deterministically() {
    let first = Ui::calculate_sizes(99);
    let second = Ui::calculate_sizes(99);
    assert_eq!(first, second);
    assert_eq!(first, (50, 50, 0));
}

#[test]
fn tiny_width_still_sums() {
    let (pod, ep, det) = Ui::calculate_sizes(1);
    assert_eq!(pod + ep + det, 2);
    assert_eq!(det, 0);
}
