use completion::command::{aliases_for, arg_index, description_for};
use completion::{
    CaseMap, ChannelLimit, CommandHint, CommandTargetLimit, Completion, CompletionView, Entry,
    Isupport, Parameter,
};

fn isupport(params: Vec<Parameter>) -> Isupport {
    let mut is = Isupport::new();
    for p in params {
        is.insert(p);
    }
    is
}

fn typed(input: &str, is: &Isupport) -> Completion {
    let mut c = Completion::default();
    c.process(input, &[], &[], is);
    c
}

fn listed(c: &Completion, input: &str) -> Vec<(usize, String, bool)> {
    match c.view(input) {
        Some(CompletionView::Commands(entries)) => entries
            .into_iter()
            .map(|e| (e.index, e.label, e.selected))
            .collect(),
        other => panic!("expected a list of commands, got {:?}", other),
    }
}

fn labels(c: &Completion, input: &str) -> Vec<String> {
    listed(c, input).into_iter().map(|(_, l, _)| l).collect()
}

fn hint(c: &Completion, input: &str) -> CommandHint {
    match c.view(input) {
        Some(CompletionView::Command(h)) => h,
        other => panic!("expected a command hint, got {:?}", other),
    }
}

fn arg_labels(h: &CommandHint) -> Vec<String> {
    h.args.iter().map(|a| a.label.clone()).collect()
}

fn tooltip(h: &CommandHint, i: usize) -> Option<String> {
    h.args[i].tooltip.clone()
}

fn select_title(c: &mut Completion) -> Option<String> {
    match c.select() {
        Some(Entry::Command(cmd)) => Some(cmd.title().clone()),
        Some(Entry::Text(t)) => panic!("unexpected text entry {}", t),
        None => None,
    }
}

#[test]
fn slash_lists_the_first_five_commands() {
    let c = typed("/", &Isupport::new());
    assert_eq!(
        listed(&c, "/"),
        vec![
            (0, "/join".to_string(), false),
            (1, "/motd".to_string(), false),
            (2, "/nick".to_string(), false),
            (3, "/quit".to_string(), false),
            (4, "/msg".to_string(), false),
        ]
    );
}

#[test]
fn typed_command_word_filters_ignoring_case() {
    let c = typed("/JO", &Isupport::new());
    assert_eq!(labels(&c, "/JO"), vec!["/join"]);
    let c = typed("/m", &Isupport::new());
    assert_eq!(labels(&c, "/m"), vec!["/motd", "/msg", "/me", "/mode"]);
}

#[test]
fn text_before_the_slash_completes_no_command() {
    let c = typed("x/join", &Isupport::new());
    assert!(c.view("x/join").is_none());
    let c = typed("join", &Isupport::new());
    assert!(c.view("join").is_none());
}

#[test]
fn no_matching_command_shows_nothing() {
    let c = typed("/zzz", &Isupport::new());
    assert!(c.view("/zzz").is_none());
    let c = typed("/zzz ", &Isupport::new());
    assert!(c.view("/zzz ").is_none());
}

#[test]
fn tab_cycles_through_listed_commands() {
    let mut c = typed("/m", &Isupport::new());
    assert!(c.tab(false).is_none());
    assert_eq!(
        listed(&c, "/m"),
        vec![
            (0, "/motd".to_string(), true),
            (1, "/msg".to_string(), false),
            (2, "/me".to_string(), false),
            (3, "/mode".to_string(), false),
        ]
    );
    for _ in 0..4 {
        c.tab(false);
    }
    assert!(listed(&c, "/m")[0].2);
    c.tab(true);
    assert!(listed(&c, "/m")[3].2);
    c.tab(false);
    assert!(listed(&c, "/m")[0].2);
}

#[test]
fn shift_tab_starts_at_the_last_command() {
    let mut c = typed("/m", &Isupport::new());
    c.tab(true);
    assert!(listed(&c, "/m")[3].2);
}

#[test]
fn tab_then_shift_tab_returns_to_the_same_command() {
    let mut c = typed("/m", &Isupport::new());
    c.tab(false);
    c.tab(false);
    let before = listed(&c, "/m");
    c.tab(false);
    c.tab(true);
    assert_eq!(listed(&c, "/m"), before);
    c.tab(true);
    c.tab(false);
    assert_eq!(listed(&c, "/m"), before);
}

#[test]
fn list_window_follows_the_highlight() {
    let mut c = typed("/", &Isupport::new());
    for _ in 0..6 {
        c.tab(false);
    }
    let entries = listed(&c, "/");
    assert_eq!(entries.len(), 5);
    assert_eq!(entries[0].0, 1);
    assert_eq!(entries[4], (5, "/whois".to_string(), true));
}

#[test]
fn select_picks_the_highlighted_command() {
    let mut c = typed("/m", &Isupport::new());
    assert_eq!(select_title(&mut c), None);
    c.tab(false);
    c.tab(false);
    assert_eq!(select_title(&mut c), Some("MSG".to_string()));
    let h = hint(&c, "/msg");
    assert_eq!(h.title, "MSG");
    assert_eq!(select_title(&mut c), None);
}

#[test]
fn selected_command_completes_to_its_lowercase_title() {
    let mut c = typed("/mo", &Isupport::new());
    c.tab(false);
    match c.select() {
        Some(entry) => assert_eq!(entry.complete_input("/mo", &['#']), "/motd"),
        None => panic!("nothing selected"),
    }
}

#[test]
fn typed_command_shows_its_hint() {
    let input = "/join ";
    let c = typed(input, &Isupport::new());
    let h = hint(&c, input);
    assert_eq!(h.title, "JOIN");
    assert_eq!(h.description.as_deref(), Some("Join channel(s) with optional key(s)"));
    assert_eq!(arg_labels(&h), vec!["<channels>", "[<keys>]"]);
    assert_eq!(tooltip(&h, 0).as_deref(), Some("comma-separated"));
    assert_eq!(tooltip(&h, 1).as_deref(), Some("comma-separated"));
    assert_eq!(h.active_arg, 0);
}

#[test]
fn active_argument_follows_the_typed_words() {
    let c = typed("/join ", &Isupport::new());
    assert_eq!(hint(&c, "/join ").active_arg, 0);
    assert_eq!(hint(&c, "/join #a").active_arg, 0);
    assert_eq!(hint(&c, "/join #a ").active_arg, 1);
    assert_eq!(hint(&c, "/join #a b c d").active_arg, 1);
    assert_eq!(hint(&c, "/JOIN #a ").active_arg, 1);
}

#[test]
fn aliases_select_their_command() {
    let c = typed("/j ", &Isupport::new());
    assert_eq!(hint(&c, "/j ").title, "JOIN");
    let c = typed("/LEAVE ", &Isupport::new());
    assert_eq!(hint(&c, "/leave ").title, "PART");
    let c = typed("/describe ", &Isupport::new());
    assert_eq!(hint(&c, "/describe ").title, "ME");
    let c = typed("/ ", &Isupport::new());
    assert_eq!(hint(&c, "/ ").title, "QUIT");
}

#[test]
fn descriptions_and_optional_arguments() {
    let c = typed("/mode ", &Isupport::new());
    let h = hint(&c, "/mode ");
    assert_eq!(
        h.description.as_deref(),
        Some("Set mode(s) on a target or retrieve the current mode(s) set. A target can be a channel or an user")
    );
    assert_eq!(arg_labels(&h), vec!["<target>", "[<modestring>]", "[<arguments>]"]);
    let c = typed("/kick ", &Isupport::new());
    let h = hint(&c, "/kick ");
    assert_eq!(h.description, None);
    assert_eq!(arg_labels(&h), vec!["<channel>", "<user>", "[<comment>]"]);
}

#[test]
fn plain_msg_tooltip() {
    let c = typed("/msg ", &Isupport::new());
    let h = hint(&c, "/msg ");
    assert_eq!(
        tooltip(&h, 0).as_deref(),
        Some("comma-separated\n   {user}: user directly\n{channel}: all users in channel")
    );
}

#[test]
fn server_lengths_shape_the_hints() {
    let is = isupport(vec![
        Parameter::AWAYLEN(Some(200)),
        Parameter::NICKLEN(30),
        Parameter::TOPICLEN(307),
        Parameter::CHANNELLEN(50),
    ]);
    let h = hint(&typed("/away ", &is), "/away ");
    assert_eq!(tooltip(&h, 0).as_deref(), Some("maximum length: 200"));
    let h = hint(&typed("/nick ", &is), "/nick ");
    assert_eq!(tooltip(&h, 0).as_deref(), Some("maximum length: 30"));
    let h = hint(&typed("/topic ", &is), "/topic ");
    assert_eq!(tooltip(&h, 1).as_deref(), Some("maximum length: 307"));
    let h = hint(&typed("/part ", &is), "/part ");
    assert_eq!(tooltip(&h, 0).as_deref(), Some("comma-separated\nmaximum length of each: 50"));
    let h = hint(&typed("/join ", &is), "/join ");
    assert_eq!(tooltip(&h, 0).as_deref(), Some("comma-separated\nmaximum length of each: 50"));
    assert_eq!(tooltip(&h, 1).as_deref(), Some("comma-separated"));
}

#[test]
fn awaylen_without_value_keeps_plain_away() {
    let is = isupport(vec![Parameter::AWAYLEN(None)]);
    let h = hint(&typed("/away ", &is), "/away ");
    assert_eq!(tooltip(&h, 0), None);
}

#[test]
fn join_shows_channel_limits_and_key_length() {
    let is = isupport(vec![
        Parameter::CHANLIMIT(vec![
            ChannelLimit { prefix: '#', limit: Some(25) },
            ChannelLimit { prefix: '&', limit: None },
        ]),
        Parameter::KEYLEN(23),
    ]);
    let h = hint(&typed("/join ", &is), "/join ");
    assert_eq!(
        tooltip(&h, 0).as_deref(),
        Some("comma-separated\nup to 25 # channels per client\nunlimited & channels per client")
    );
    assert_eq!(tooltip(&h, 1).as_deref(), Some("comma-separated\nmaximum length of each: 23"));
}

fn targmax() -> Parameter {
    Parameter::TARGMAX(vec![
        CommandTargetLimit { command: "PRIVMSG".to_string(), limit: Some(4) },
        CommandTargetLimit { command: "NAMES".to_string(), limit: Some(1) },
        CommandTargetLimit { command: "WHOIS".to_string(), limit: None },
        CommandTargetLimit { command: "LIST".to_string(), limit: Some(2) },
    ])
}

#[test]
fn target_limits_shape_the_hints() {
    let is = isupport(vec![targmax(), Parameter::STATUSMSG(vec!['~', '@', 'x', '+'])]);
    let h = hint(&typed("/msg ", &is), "/msg ");
    assert_eq!(
        tooltip(&h, 0).as_deref(),
        Some(
            "comma-separated\n    {user}: user directly\n {channel}: all users in channel\n~{channel}: all founders in channel\n@{channel}: all operators in channel\n+{channel}: all voiced users in channel\nup to 4 targets"
        )
    );
    let h = hint(&typed("/names ", &is), "/names ");
    assert_eq!(tooltip(&h, 0).as_deref(), Some("comma-separated\nup to 1 channel"));
    let h = hint(&typed("/whois ", &is), "/whois ");
    assert_eq!(tooltip(&h, 0).as_deref(), Some("comma-separated"));
}

#[test]
fn whox_extends_who() {
    let is = isupport(vec![Parameter::WHOX]);
    let h = hint(&typed("/who ", &is), "/who ");
    assert_eq!(arg_labels(&h), vec!["<target>", "[<fields>]", "[<token>]"]);
    assert_eq!(tooltip(&h, 2).as_deref(), Some("1-3 digits"));
    let h = hint(&typed("/who ", &Isupport::new()), "/who ");
    assert_eq!(arg_labels(&h), vec!["<target>"]);
}

#[test]
fn advertised_commands_are_added_after_the_catalogue() {
    let is = isupport(vec![Parameter::KNOCK, Parameter::CPRIVMSG, Parameter::USERIP, Parameter::CNOTICE]);
    let c = typed("/c", &is);
    assert_eq!(labels(&c, "/c"), vec!["/cprivmsg", "/cnotice"]);
    let c = typed("/k", &is);
    assert_eq!(labels(&c, "/k"), vec!["/kick", "/knock"]);
    let c = typed("/us", &is);
    assert_eq!(labels(&c, "/us"), vec!["/userip"]);
}

#[test]
fn safelist_adds_list() {
    let is = isupport(vec![Parameter::SAFELIST]);
    let h = hint(&typed("/list ", &is), "/list ");
    assert_eq!(arg_labels(&h), vec!["[<channels>]"]);
    assert_eq!(tooltip(&h, 0).as_deref(), Some("comma-separated"));

    let is = isupport(vec![Parameter::SAFELIST, Parameter::ELIST("CMNTUX".to_string()), targmax()]);
    let h = hint(&typed("/list ", &is), "/list ");
    assert_eq!(arg_labels(&h), vec!["[<channels>]", "[<elistconds>]"]);
    assert_eq!(tooltip(&h, 0).as_deref(), Some("comma-separated\nup to 2 channels"));
    assert_eq!(
        tooltip(&h, 1).as_deref(),
        Some(
            "comma-separated\n  C<{#}: created < # min ago\n  C>{#}: created > # min ago\n {mask}: matches mask\n!{mask}: does not match mask\n  T<{#}: topic changed < # min ago\n  T>{#}: topic changed > # min ago\n   <{#}: fewer than # users\n   >{#}: more than # users"
        )
    );
}

#[test]
fn chathistory_subcommands() {
    let is = isupport(vec![Parameter::CHATHISTORY(100)]);
    let mut c = typed("/chathistory ", &is);
    let h = hint(&c, "/chathistory ");
    assert_eq!(h.title, "CHATHISTORY");
    assert_eq!(arg_labels(&h), vec!["<subcommand>"]);
    c.process("/chathistory after ", &[], &[], &is);
    let h = hint(&c, "/chathistory after ");
    assert_eq!(h.title, "CHATHISTORY AFTER");
    assert_eq!(h.description, None);
    assert_eq!(arg_labels(&h), vec!["<target>", "<timestamp | msgid>", "<limit>"]);
    assert_eq!(tooltip(&h, 2).as_deref(), Some("up to 100 messages"));
    c.process("/chathistory targets ", &[], &[], &is);
    let h = hint(&c, "/chathistory targets ");
    assert_eq!(h.title, "CHATHISTORY TARGETS");
    assert_eq!(tooltip(&h, 2).as_deref(), Some("up to 100 targets"));
    c.process("/chathistory nothing ", &[], &[], &is);
    assert_eq!(hint(&c, "/chathistory nothing ").title, "CHATHISTORY");
}

#[test]
fn chathistory_limit_of_one() {
    let is = isupport(vec![Parameter::CHATHISTORY(1)]);
    let mut c = typed("/chathistory ", &is);
    c.process("/chathistory latest x", &[], &[], &is);
    let h = hint(&c, "/chathistory latest x");
    assert_eq!(h.title, "CHATHISTORY LATEST");
    assert_eq!(tooltip(&h, 2).as_deref(), Some("up to 1 message"));
    assert_eq!(h.active_arg, 0);
}

#[test]
fn monitor_subcommands() {
    let is = isupport(vec![Parameter::MONITOR(Some(100))]);
    let mut c = typed("/monitor ", &is);
    let h = hint(&c, "/monitor ");
    assert_eq!(h.description.as_deref(), Some("System to notify when users become online/offline"));
    c.process("/monitor + ", &[], &[], &is);
    let h = hint(&c, "/monitor + ");
    assert_eq!(h.title, "MONITOR +");
    assert_eq!(h.description.as_deref(), Some("Add user(s) to list being monitored"));
    assert_eq!(tooltip(&h, 0).as_deref(), Some("comma-separated users\nup to 100 targets in total"));
    c.process("/monitor c", &[], &[], &is);
    let h = hint(&c, "/monitor c");
    assert_eq!(h.title, "MONITOR C");
    assert!(h.args.is_empty());
}

#[test]
fn monitor_limit_of_one_target() {
    let is = isupport(vec![Parameter::MONITOR(Some(1))]);
    let mut c = typed("/monitor ", &is);
    c.process("/monitor + ", &[], &[], &is);
    let h = hint(&c, "/monitor + ");
    assert_eq!(tooltip(&h, 0).as_deref(), Some("comma-separated users\nup to 1 target in total"));
}

#[test]
fn selected_command_without_subcommands_stays() {
    let is = Isupport::new();
    let mut c = typed("/join ", &is);
    c.process("/nick foo", &[], &[], &is);
    assert_eq!(hint(&c, "/nick foo").title, "JOIN");
    c.process("/ni", &[], &[], &is);
    assert_eq!(labels(&c, "/ni"), vec!["/nick"]);
}

#[test]
fn reset_forgets_everything() {
    let mut c = typed("/m", &Isupport::new());
    c.tab(false);
    c.reset();
    assert!(c.view("/m").is_none());
    assert!(c.tab(false).is_none());
}

#[test]
fn isupport_insert_replaces_same_kind() {
    let mut is = Isupport::new();
    is.insert(Parameter::NICKLEN(9));
    is.insert(Parameter::WHOX);
    is.insert(Parameter::NICKLEN(30));
    assert_eq!(is.len(), 2);
    match is.get(completion::Kind::NICKLEN) {
        Some(Parameter::NICKLEN(n)) => assert_eq!(*n, 30),
        other => panic!("unexpected {:?}", other),
    }
    assert!(is.get(completion::Kind::TOPICLEN).is_none());
    assert!(matches!(is.at(1), Parameter::WHOX));
}

#[test]
fn casemap_folds_per_mapping() {
    let s: Vec<char> = "AZ[]\\~^".chars().collect();
    let folded: String = CaseMap::RFC1459.normalize(&s).into_iter().collect();
    assert_eq!(folded, "az{}|^^");
    let folded: String = CaseMap::RFC1459_STRICT.normalize(&s).into_iter().collect();
    assert_eq!(folded, "az{}|~^");
    let folded: String = CaseMap::ASCII.normalize(&s).into_iter().collect();
    assert_eq!(folded, "az[]\\~^");
}

fn chars(s: &str) -> Vec<char> {
    s.chars().collect()
}

#[test]
fn descriptions_by_lowercase_title() {
    assert_eq!(
        description_for(&chars("monitor s")).as_deref(),
        Some("For each user in the list being monitored, get the current status")
    );
    assert_eq!(description_for(&chars("format")).as_deref(), Some("Format text using markdown or $ sequences"));
    assert_eq!(description_for(&chars("FORMAT")), None);
    assert_eq!(description_for(&chars("kick")), None);
}

#[test]
fn aliases_by_lowercase_title() {
    assert_eq!(aliases_for(&chars("quit")), vec![String::new()]);
    assert_eq!(aliases_for(&chars("topic")), vec!["t".to_string()]);
    assert_eq!(aliases_for(&chars("format")), vec!["f".to_string()]);
    assert!(aliases_for(&chars("away")).is_empty());
}

#[test]
fn argument_index_counts_typed_words() {
    assert_eq!(arg_index(&chars(""), 3), 0);
    assert_eq!(arg_index(&chars(" "), 3), 0);
    assert_eq!(arg_index(&chars(" a"), 3), 0);
    assert_eq!(arg_index(&chars(" a "), 3), 1);
    assert_eq!(arg_index(&chars(" a\tb "), 3), 2);
    assert_eq!(arg_index(&chars(" a b c d "), 3), 2);
    assert_eq!(arg_index(&chars(" a b "), 0), 0);
    assert_eq!(arg_index(&chars(" a\u{3000}b "), 3), 1);
}
