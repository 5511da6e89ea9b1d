use zr_alshasha::buffer::{drop_oldest_run, DisplayState};
use zr_alshasha::keys::BACK_SPACE;

fn wide(erase: bool) -> DisplayState {
    DisplayState::new(100_000, 10, erase)
}

fn press(d: &mut DisplayState, tokens: &[&str]) {
    for t in tokens {
        d.on_key_token(t);
    }
}

fn width(s: &str, font_size: u32) -> u32 {
    s.chars().filter(|c| *c != ' ').count() as u32 * font_size
}

#[test]
fn five_repeats_collapse_and_sixth_replaces() {
    let mut d = wide(false);
    press(&mut d, &["A", "A", "A", "A", "A"]);
    assert!(d.text().ends_with("A...x5 "));
    assert_eq!(d.text(), "A...x5 ");
    assert_eq!(d.repeat_count, 5);
    d.on_key_token("A");
    assert_eq!(d.text(), "A...x6 ");
    assert!(!d.text().contains("...x5"));
}

#[test]
fn repeats_collapse_after_other_keys() {
    let mut d = wide(false);
    press(&mut d, &["B", "C", "C", "C", "C"]);
    assert_eq!(d.text(), "B C...x4 ");
    d.on_key_token("C");
    assert_eq!(d.text(), "B C...x5 ");
    d.on_key_token("B");
    assert_eq!(d.text(), "B C...x5 B ");
    assert_eq!(d.repeat_count, 1);
}

#[test]
fn three_repeats_do_not_collapse() {
    let mut d = wide(false);
    press(&mut d, &["A", "A", "A", "B"]);
    assert_eq!(d.text(), "A A A B ");
    assert!(d.text().ends_with("A A A B "));
    assert_eq!(d.repeat_count, 1);
}

#[test]
fn fourth_repeat_collapses_runs() {
    let mut d = wide(false);
    press(&mut d, &["A", "A", "A"]);
    assert_eq!(d.text(), "A A A ");
    d.on_key_token("A");
    assert_eq!(d.text(), "A...x4 ");
}

#[test]
fn backspace_erases_last_run() {
    let mut d = wide(true);
    press(&mut d, &["A", "B"]);
    let r = d.on_key_token(BACK_SPACE);
    assert_eq!(d.text(), "A ");
    assert_eq!(r, None);
    assert_eq!(d.repeat_count, 0);
    assert!(d.last_token.is_none());
}

#[test]
fn backspace_on_single_run_clears() {
    let mut d = wide(true);
    d.on_key_token("A");
    d.on_key_token(BACK_SPACE);
    assert_eq!(d.text(), "");
    d.on_key_token(BACK_SPACE);
    assert_eq!(d.text(), "");
}

#[test]
fn backspace_removes_a_collapsed_label() {
    let mut d = wide(true);
    press(&mut d, &["X", "A", "A", "A", "A"]);
    assert_eq!(d.text(), "X A...x4 ");
    d.on_key_token(BACK_SPACE);
    assert_eq!(d.text(), "X ");
    d.on_key_token("A");
    assert_eq!(d.text(), "X A ");
    assert_eq!(d.repeat_count, 1);
}

#[test]
fn backspace_is_shown_when_erasing_is_off() {
    let mut d = wide(false);
    press(&mut d, &["A", "B", BACK_SPACE]);
    assert_eq!(d.text(), "A B \u{232b} ");
}

#[test]
fn key_asks_for_full_width_and_one_line() {
    let mut d = DisplayState::new(500, 30, false);
    assert_eq!(d.on_key_token("A"), Some((500, 40)));
    let mut big = DisplayState::new(500, u32::MAX, false);
    assert_eq!(big.on_key_token("A"), Some((500, u32::MAX)));
}

#[test]
fn wide_line_is_cut_from_the_front() {
    let mut d = DisplayState::new(50, 10, false);
    press(&mut d, &["A", "B", "C", "D"]);
    assert_eq!(d.text(), "A B C D ");
    d.on_key_token("E");
    assert_eq!(d.text(), "...D E ");
    d.on_key_token("F");
    assert_eq!(d.text(), "...E F ");
}

#[test]
fn cut_keeps_whole_labels() {
    let mut d = DisplayState::new(100, 10, false);
    press(&mut d, &["B", "C", "D"]);
    for _ in 0..10 {
        d.on_key_token("A");
        assert!(!d.text().starts_with("...."));
    }
    assert_eq!(d.text(), "...A...x10 ");
    d.on_key_token("A");
    assert_eq!(d.text(), "...A...x11 ");
}

#[test]
fn cut_never_lands_inside_a_label() {
    let mut d = DisplayState::new(85, 10, false);
    d.text = "...A...x4 ".chars().collect();
    d.last_token = Some(vec!['A']);
    d.repeat_count = 4;
    d.on_key_token("A");
    assert!(!d.text().starts_with("......"));
    assert_eq!(d.text(), "...");
    let mut narrow = DisplayState::new(95, 10, false);
    press(&mut narrow, &["B", "C", "D"]);
    for _ in 0..10 {
        narrow.on_key_token("A");
        assert!(!narrow.text().starts_with("......"));
    }
}

#[test]
fn backspace_trims_all_white_space() {
    let mut d = wide(true);
    d.text = "A \t".chars().collect();
    d.on_key_token(BACK_SPACE);
    assert_eq!(d.text(), "");
    d.text = "A B\u{3000}\n ".chars().collect();
    d.on_key_token(BACK_SPACE);
    assert_eq!(d.text(), "A ");
}

#[test]
fn cut_line_stays_within_width() {
    let mut d = DisplayState::new(120, 10, false);
    let tokens = ["Q", "W", "F12", "E", "Alt", "R", "T", "Y", "esc", "U"];
    for t in tokens.iter() {
        d.on_key_token(t);
        assert!(width(&d.text(), 10) <= 120);
    }
    let text = d.text();
    assert!(text.starts_with("..."));
    assert!(!text.starts_with("......"));
    assert!(text.ends_with("esc U "));
}

#[test]
fn marker_alone_when_nothing_fits() {
    let mut d = DisplayState::new(10, 10, false);
    d.on_key_token("A");
    assert_eq!(d.text(), "...");
}

#[test]
fn oldest_run_dropped() {
    assert_eq!(drop_oldest_run("A B C "), Some("B C ".to_string()));
    assert_eq!(drop_oldest_run(" A"), Some("A".to_string()));
    assert_eq!(drop_oldest_run("AB"), None);
    assert_eq!(drop_oldest_run(""), None);
}
