use completion::{Completion, Entry, Isupport, Parameter, CaseMap};

fn strings(v: &[&str]) -> Vec<String> {
    v.iter().map(|s| s.to_string()).collect()
}

fn tab_text(c: &mut Completion, reverse: bool) -> Option<String> {
    match c.tab(reverse) {
        Some(Entry::Text(t)) => Some(t),
        Some(Entry::Command(_)) => panic!("unexpected command entry"),
        None => None,
    }
}

fn text(s: &str) -> Entry {
    Entry::Text(s.to_string())
}

#[test]
fn nicknames_complete_ignoring_case() {
    let users = strings(&["Alice", "alan", "Bob"]);
    let mut c = Completion::default();
    c.process("hello AL", &users, &[], &Isupport::new());
    assert_eq!(tab_text(&mut c, false).as_deref(), Some("Alice"));
    assert_eq!(tab_text(&mut c, false).as_deref(), Some("alan"));
    assert_eq!(tab_text(&mut c, false), None);
    assert_eq!(tab_text(&mut c, false).as_deref(), Some("Alice"));
}

#[test]
fn shift_tab_walks_nicknames_backwards() {
    let users = strings(&["Alice", "alan", "Bob"]);
    let mut c = Completion::default();
    c.process("al", &users, &[], &Isupport::new());
    assert_eq!(tab_text(&mut c, true).as_deref(), Some("alan"));
    assert_eq!(tab_text(&mut c, true).as_deref(), Some("Alice"));
    assert_eq!(tab_text(&mut c, true), None);
}

#[test]
fn tab_then_shift_tab_returns_to_the_same_word() {
    let users = strings(&["Alice", "alan", "albert"]);
    let mut c = Completion::default();
    c.process("al", &users, &[], &Isupport::new());
    assert_eq!(tab_text(&mut c, false).as_deref(), Some("Alice"));
    assert_eq!(tab_text(&mut c, false).as_deref(), Some("alan"));
    assert_eq!(tab_text(&mut c, true).as_deref(), Some("Alice"));
    assert_eq!(tab_text(&mut c, false).as_deref(), Some("alan"));
}

#[test]
fn empty_word_completes_nothing() {
    let users = strings(&["Alice"]);
    let mut c = Completion::default();
    c.process("hello ", &users, &[], &Isupport::new());
    assert_eq!(tab_text(&mut c, false), None);
    c.process("", &users, &[], &Isupport::new());
    assert_eq!(tab_text(&mut c, false), None);
}

#[test]
fn no_matching_nickname_completes_nothing() {
    let users = strings(&["Alice"]);
    let mut c = Completion::default();
    c.process("zed", &users, &[], &Isupport::new());
    assert_eq!(tab_text(&mut c, false), None);
    assert_eq!(tab_text(&mut c, true), None);
}

#[test]
fn channels_complete_with_the_case_mapping() {
    let channels = strings(&["#rust", "#Rust-beginners", "#other", "#{a}"]);
    let mut c = Completion::default();
    c.process("join #RU", &[], &channels, &Isupport::new());
    assert_eq!(tab_text(&mut c, false).as_deref(), Some("#rust"));
    assert_eq!(tab_text(&mut c, false), None);

    c.process("see #[A", &[], &channels, &Isupport::new());
    assert_eq!(tab_text(&mut c, false).as_deref(), Some("#{a}"));

    let mut is = Isupport::new();
    is.insert(Parameter::CASEMAPPING(CaseMap::ASCII));
    c.process("see #[A", &[], &channels, &is);
    assert_eq!(tab_text(&mut c, false), None);
}

#[test]
fn channel_part_of_the_word_is_completed() {
    let channels = strings(&["#rust"]);
    let users = strings(&["@op"]);
    let mut c = Completion::default();
    c.process("@#r", &users, &channels, &Isupport::new());
    assert_eq!(tab_text(&mut c, false).as_deref(), Some("#rust"));
}

#[test]
fn word_completion_is_off_while_commands_are_listed() {
    let users = strings(&["Alice"]);
    let mut c = Completion::default();
    c.process("/al", &users, &[], &Isupport::new());
    assert!(c.tab(false).is_none());
    c.process("/msg al", &users, &[], &Isupport::new());
    assert_eq!(tab_text(&mut c, false).as_deref(), Some("Alice"));
}

#[test]
fn completion_at_line_start_appends_colon() {
    assert_eq!(text("Alice").complete_input("al", &['#']), "Alice: ");
    assert_eq!(text("Alice").complete_input("", &['#']), "Alice: ");
    assert_eq!(text("Bob").complete_input("Alice: ", &['#']), "Bob: ");
    assert_eq!(text("Bob").complete_input("Alice: : ", &['#']), "Bob: ");
}

#[test]
fn completion_later_in_line_appends_space() {
    assert_eq!(text("Alice").complete_input("hello al", &['#']), "hello Alice ");
    assert_eq!(text("Alice").complete_input("  hello   al", &['#']), "hello Alice ");
    assert_eq!(text("Alice").complete_input("hello\u{3000}al", &['#']), "hello Alice ");
}

#[test]
fn channel_completion_appends_space() {
    assert_eq!(text("#rust").complete_input("#ru", &['#', '&']), "#rust ");
    assert_eq!(text("&local").complete_input("", &['#', '&']), "&local ");
    assert_eq!(text("#rust").complete_input("join #ru", &['&']), "join #rust ");
    assert_eq!(text("#rust").complete_input("#ru", &[]), "#rust: ");
}

#[test]
fn reset_clears_word_completion() {
    let users = strings(&["Alice"]);
    let mut c = Completion::default();
    c.process("al", &users, &[], &Isupport::new());
    c.reset();
    assert_eq!(tab_text(&mut c, false), None);
}
