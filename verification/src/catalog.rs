//! The commands offered for completion: the fixed catalogue, the variants
//! built from the server's ISUPPORT parameters, and the full list.

use vstd::prelude::*;
use crate::command::{
    arg, arg_model, args1, args2, args3, args4, command, command_model, commands_model, Command,
    CommandModel,
};
use crate::isupport::{
    lookup, CaseMap, ChannelLimit, CommandTargetLimit, Isupport, Kind, Parameter,
};
use crate::strings::{
    chars_eq, chars_of, decimal, owned, push_char, push_decimal, push_str,
};

verus! {

// ---------------------------------------------------------------------------
// Tooltip texts
// ---------------------------------------------------------------------------

/// Tooltip of list arguments.
pub const COMMA_SEPARATED: &'static str = "comma-separated";

/// Tooltip of timestamp arguments.
pub const TIMESTAMP_TOOLTIP: &'static str = "timestamp format: timestamp=YYYY-MM-DDThh:mm:ss.sssZ";

/// Tooltip of the second argument of CHATHISTORY LATEST.
pub const LATEST_TOOLTIP: &'static str =
    "               *: no restriction on returned messages\ntimestamp format: timestamp=YYYY-MM-DDThh:mm:ss.sssZ";

/// Tooltip of the subcommand argument of CHATHISTORY.
pub const CHATHISTORY_TOOLTIP: &'static str =
    " BEFORE: Request messages before a timestamp or msgid\n  AFTER: Request after before a timestamp or msgid\n LATEST: Request most recent messages that have been sent\n AROUND: Request messages before or after a timestamp or msgid\nBETWEEN: Request messages between a timestamp or msgid and another timestamp or msgid\nTARGETS: List channels with visible history and users that have sent direct messages";

/// Tooltip of the subcommand argument of MONITOR.
pub const MONITOR_TOOLTIP: &'static str =
    "+: Add user(s) to list being monitored\n-: Remove user(s) from list being monitored\nC: Clear the list of users being monitored\nL: Get list of users being monitored\nS: For each user in the list being monitored, get their current status";

/// Tooltip of the targets of the plain MSG command.
pub const MSG_TOOLTIP: &'static str =
    "comma-separated\n   {user}: user directly\n{channel}: all users in channel";

/// Tooltip of the targets of MSG when the server advertises its limits.
pub const MSG_TARGETS_TOOLTIP: &'static str =
    "comma-separated\n    {user}: user directly\n {channel}: all users in channel";

/// Tooltip of the fields argument of WHO with WHOX.
pub const WHOX_FIELDS_TOOLTIP: &'static str =
    "t: token\nc: channel\nu: username\ni: IP address\nh: hostname\ns: server name\nn: nickname\nf: WHO flags\nd: hop count\nl: idle seconds\na: account name\no: channel op level\nr: realname";

/// Tooltip of the text argument of FORMAT.
pub const FORMAT_TOOLTIP: &'static str =
    "markdown:\n  *italic*  **bold**  ~~strikethrough~~  `code`  ||spoiler||\n$ sequences:\n  $b bold  $i italic  $m monospace  $s strikethrough  $u underline\n  $c[fg,bg] color  $r reset";

// ---------------------------------------------------------------------------
// Note texts
// ---------------------------------------------------------------------------

/// `"s"` unless the count is one.
pub open spec fn plural(n: u16) -> Seq<char> {
    if n != 1 {
        seq!['s']
    } else {
        seq![]
    }
}

/// `"\nup to <n><noun>"`, with a plural `s` unless `n` is one; nothing
/// when there is no limit.
pub open spec fn limit_note(noun: Seq<char>, limit: Option<u16>) -> Seq<char> {
    match limit {
        Some(n) => "\nup to "@ + decimal(n as nat) + noun + plural(n),
        None => seq![],
    }
}

/// `"\nmaximum length of each: <n>"`, or nothing.
pub open spec fn length_note(max_len: Option<u16>) -> Seq<char> {
    match max_len {
        Some(n) => "\nmaximum length of each: "@ + decimal(n as nat),
        None => seq![],
    }
}

/// The line describing one channel limit.
pub open spec fn chanlimit_note(c: ChannelLimit) -> Seq<char> {
    match c.limit {
        Some(n) => "\nup to "@ + decimal(n as nat) + " "@ + seq![c.prefix]
            + " channels per client"@,
        None => "\nunlimited "@ + seq![c.prefix] + " channels per client"@,
    }
}

/// The lines describing channel limits, in order.
pub open spec fn chanlimit_notes(s: Seq<ChannelLimit>) -> Seq<char>
    decreases s.len(),
{
    if s.len() == 0 {
        seq![]
    } else {
        chanlimit_notes(s.drop_last()) + chanlimit_note(s.last())
    }
}

/// The line describing one membership prefix of STATUSMSG.
pub open spec fn prefix_note(c: char) -> Seq<char> {
    if c == '~' {
        "\n~{channel}: all founders in channel"@
    } else if c == '&' {
        "\n&{channel}: all protected users in channel"@
    } else if c == '!' {
        "\n!{channel}: all protected users in channel"@
    } else if c == '@' {
        "\n@{channel}: all operators in channel"@
    } else if c == '%' {
        "\n%{channel}: all half-operators in channel"@
    } else if c == '+' {
        "\n+{channel}: all voiced users in channel"@
    } else {
        seq![]
    }
}

/// The lines describing membership prefixes, in order.
pub open spec fn prefix_notes(s: Seq<char>) -> Seq<char>
    decreases s.len(),
{
    if s.len() == 0 {
        seq![]
    } else {
        prefix_notes(s.drop_last()) + prefix_note(s.last())
    }
}

/// The lines describing one ELIST search extension.
pub open spec fn elist_note(c: char) -> Seq<char> {
    if c == 'C' {
        "\n  C<{#}: created < # min ago\n  C>{#}: created > # min ago"@
    } else if c == 'M' {
        "\n {mask}: matches mask"@
    } else if c == 'N' {
        "\n!{mask}: does not match mask"@
    } else if c == 'T' {
        "\n  T<{#}: topic changed < # min ago\n  T>{#}: topic changed > # min ago"@
    } else if c == 'U' {
        "\n   <{#}: fewer than # users\n   >{#}: more than # users"@
    } else {
        seq![]
    }
}

/// The lines describing ELIST search extensions, in order.
pub open spec fn elist_notes(s: Seq<char>) -> Seq<char>
    decreases s.len(),
{
    if s.len() == 0 {
        seq![]
    } else {
        elist_notes(s.drop_last()) + elist_note(s.last())
    }
}

/// How many messages (or targets) CHATHISTORY returns at most.
pub open spec fn history_limit_note(max: u16, one: Seq<char>, noun: Seq<char>) -> Seq<char> {
    if max == 1 {
        one
    } else {
        "up to "@ + decimal(max as nat) + noun
    }
}

// ---------------------------------------------------------------------------
// Exec helpers for notes
// ---------------------------------------------------------------------------

fn push_limit_note(s: &mut String, noun: &str, limit: Option<u16>)
    ensures
        final(s)@ == old(s)@ + limit_note(noun@, limit),
{
    if let Some(n) = limit {
        push_str(s, "\nup to ");
        push_decimal(s, n);
        push_str(s, noun);
        if n != 1 {
            push_char(s, 's');
        }
    }
    assert(s@ =~= old(s)@ + limit_note(noun@, limit));
}

fn push_length_note(s: &mut String, max_len: Option<u16>)
    ensures
        final(s)@ == old(s)@ + length_note(max_len),
{
    if let Some(n) = max_len {
        push_str(s, "\nmaximum length of each: ");
        push_decimal(s, n);
    }
    assert(s@ =~= old(s)@ + length_note(max_len));
}

fn tooltip(s: &str) -> (res: Option<String>)
    ensures
        res matches Some(t) && t@ == s@,
{
    Some(owned(s))
}

fn history_limit(max: u16, one: &str, noun: &str) -> (res: String)
    ensures
        res@ == history_limit_note(max, one@, noun@),
{
    if max == 1 {
        owned(one)
    } else {
        let mut s = owned("up to ");
        push_decimal(&mut s, max);
        push_str(&mut s, noun);
        s
    }
}

// ---------------------------------------------------------------------------
// The fixed catalogue
// ---------------------------------------------------------------------------

/// JOIN without server limits.
pub open spec fn join_default_model() -> CommandModel {
    command_model(
        "JOIN"@,
        seq![
            arg_model("channels"@, false, Some(COMMA_SEPARATED@)),
            arg_model("keys"@, true, Some(COMMA_SEPARATED@)),
        ],
        None,
    )
}

/// MOTD.
pub open spec fn motd_model() -> CommandModel {
    command_model("MOTD"@, seq![arg_model("server"@, true, None)], None)
}

/// NICK without a length limit.
pub open spec fn nick_default_model() -> CommandModel {
    command_model("NICK"@, seq![arg_model("nickname"@, false, None)], None)
}

/// QUIT.
pub open spec fn quit_model() -> CommandModel {
    command_model("QUIT"@, seq![arg_model("reason"@, true, None)], None)
}

/// MSG without server limits.
pub open spec fn msg_default_model() -> CommandModel {
    command_model(
        "MSG"@,
        seq![
            arg_model("targets"@, false, Some(MSG_TOOLTIP@)),
            arg_model("text"@, false, None),
        ],
        None,
    )
}

/// WHOIS without a target limit.
pub open spec fn whois_default_model() -> CommandModel {
    command_model("WHOIS"@, seq![arg_model("nicks"@, false, Some(COMMA_SEPARATED@))], None)
}

/// AWAY without a length limit.
pub open spec fn away_default_model() -> CommandModel {
    command_model("AWAY"@, seq![arg_model("reason"@, true, None)], None)
}

/// ME.
pub open spec fn me_model() -> CommandModel {
    command_model("ME"@, seq![arg_model("action"@, false, None)], None)
}

/// MODE.
pub open spec fn mode_model() -> CommandModel {
    command_model(
        "MODE"@,
        seq![
            arg_model("target"@, false, None),
            arg_model("modestring"@, true, None),
            arg_model("arguments"@, true, None),
        ],
        None,
    )
}

/// PART without a length limit.
pub open spec fn part_default_model() -> CommandModel {
    command_model(
        "PART"@,
        seq![
            arg_model("channels"@, false, Some(COMMA_SEPARATED@)),
            arg_model("reason"@, true, None),
        ],
        None,
    )
}

/// TOPIC without a length limit.
pub open spec fn topic_default_model() -> CommandModel {
    command_model(
        "TOPIC"@,
        seq![arg_model("channel"@, false, None), arg_model("topic"@, true, None)],
        None,
    )
}

/// WHO without WHOX.
pub open spec fn who_default_model() -> CommandModel {
    command_model("WHO"@, seq![arg_model("target"@, false, None)], None)
}

/// NAMES without a target limit.
pub open spec fn names_default_model() -> CommandModel {
    command_model("NAMES"@, seq![arg_model("channels"@, false, Some(COMMA_SEPARATED@))], None)
}

/// KICK.
pub open spec fn kick_model() -> CommandModel {
    command_model(
        "KICK"@,
        seq![
            arg_model("channel"@, false, None),
            arg_model("user"@, false, None),
            arg_model("comment"@, true, None),
        ],
        None,
    )
}

/// RAW.
pub open spec fn raw_model() -> CommandModel {
    command_model(
        "RAW"@,
        seq![arg_model("command"@, false, None), arg_model("args"@, true, None)],
        None,
    )
}

/// FORMAT.
pub open spec fn format_model() -> CommandModel {
    command_model("FORMAT"@, seq![arg_model("text"@, false, Some(FORMAT_TOOLTIP@))], None)
}

fn join_default() -> (res: Command)
    ensures
        res@ == join_default_model(),
{
    command(
        "JOIN",
        args2(
            arg("channels", false, tooltip(COMMA_SEPARATED)),
            arg("keys", true, tooltip(COMMA_SEPARATED)),
        ),
        None,
    )
}

fn motd() -> (res: Command)
    ensures
        res@ == motd_model(),
{
    command("MOTD", args1(arg("server", true, None)), None)
}

fn nick_default() -> (res: Command)
    ensures
        res@ == nick_default_model(),
{
    command("NICK", args1(arg("nickname", false, None)), None)
}

fn quit() -> (res: Command)
    ensures
        res@ == quit_model(),
{
    command("QUIT", args1(arg("reason", true, None)), None)
}

fn msg_default() -> (res: Command)
    ensures
        res@ == msg_default_model(),
{
    command(
        "MSG",
        args2(arg("targets", false, tooltip(MSG_TOOLTIP)), arg("text", false, None)),
        None,
    )
}

fn whois_default() -> (res: Command)
    ensures
        res@ == whois_default_model(),
{
    command("WHOIS", args1(arg("nicks", false, tooltip(COMMA_SEPARATED))), None)
}

fn away_default() -> (res: Command)
    ensures
        res@ == away_default_model(),
{
    command("AWAY", args1(arg("reason", true, None)), None)
}

fn me() -> (res: Command)
    ensures
        res@ == me_model(),
{
    command("ME", args1(arg("action", false, None)), None)
}

fn mode() -> (res: Command)
    ensures
        res@ == mode_model(),
{
    command(
        "MODE",
        args3(
            arg("target", false, None),
            arg("modestring", true, None),
            arg("arguments", true, None),
        ),
        None,
    )
}

fn part_default() -> (res: Command)
    ensures
        res@ == part_default_model(),
{
    command(
        "PART",
        args2(arg("channels", false, tooltip(COMMA_SEPARATED)), arg("reason", true, None)),
        None,
    )
}

fn topic_default() -> (res: Command)
    ensures
        res@ == topic_default_model(),
{
    command("TOPIC", args2(arg("channel", false, None), arg("topic", true, None)), None)
}

fn who_default() -> (res: Command)
    ensures
        res@ == who_default_model(),
{
    command("WHO", args1(arg("target", false, None)), None)
}

fn names_default() -> (res: Command)
    ensures
        res@ == names_default_model(),
{
    command("NAMES", args1(arg("channels", false, tooltip(COMMA_SEPARATED))), None)
}

fn kick() -> (res: Command)
    ensures
        res@ == kick_model(),
{
    command(
        "KICK",
        args3(arg("channel", false, None), arg("user", false, None), arg("comment", true, None)),
        None,
    )
}

fn raw() -> (res: Command)
    ensures
        res@ == raw_model(),
{
    command("RAW", args2(arg("command", false, None), arg("args", true, None)), None)
}

fn format() -> (res: Command)
    ensures
        res@ == format_model(),
{
    command("FORMAT", args1(arg("text", false, tooltip(FORMAT_TOOLTIP))), None)
}


// ---------------------------------------------------------------------------
// Commands shaped by the server's parameters
// ---------------------------------------------------------------------------

/// AWAY whose reason may be up to `max_len` long.
pub open spec fn away_model(max_len: u16) -> CommandModel {
    command_model(
        "AWAY"@,
        seq![arg_model("reason"@, true, Some("maximum length: "@ + decimal(max_len as nat)))],
        None,
    )
}

/// NICK whose nickname may be up to `max_len` long.
pub open spec fn nick_model(max_len: u16) -> CommandModel {
    command_model(
        "NICK"@,
        seq![arg_model("nickname"@, false, Some("maximum length: "@ + decimal(max_len as nat)))],
        None,
    )
}

/// PART with channel names up to `max_len` long.
pub open spec fn part_model(max_len: u16) -> CommandModel {
    command_model(
        "PART"@,
        seq![
            arg_model(
                "channels"@,
                false,
                Some("comma-separated\nmaximum length of each: "@ + decimal(max_len as nat)),
            ),
            arg_model("reason"@, true, None),
        ],
        None,
    )
}

/// TOPIC whose topic may be up to `max_len` long.
pub open spec fn topic_model(max_len: u16) -> CommandModel {
    command_model(
        "TOPIC"@,
        seq![
            arg_model("channel"@, false, None),
            arg_model("topic"@, true, Some("maximum length: "@ + decimal(max_len as nat))),
        ],
        None,
    )
}

/// NAMES with the server's target limit.
pub open spec fn names_model(limit: Option<u16>) -> CommandModel {
    command_model(
        "NAMES"@,
        seq![
            arg_model("channels"@, false, Some(COMMA_SEPARATED@ + limit_note(" channel"@, limit))),
        ],
        None,
    )
}

/// WHOIS with the server's target limit.
pub open spec fn whois_model(limit: Option<u16>) -> CommandModel {
    command_model(
        "WHOIS"@,
        seq![arg_model("nicks"@, false, Some(COMMA_SEPARATED@ + limit_note(" nick"@, limit)))],
        None,
    )
}

/// MSG with the membership prefixes the server accepts and its target limit.
pub open spec fn msg_model(prefixes: Seq<char>, limit: Option<u16>) -> CommandModel {
    command_model(
        "MSG"@,
        seq![
            arg_model(
                "targets"@,
                false,
                Some(MSG_TARGETS_TOOLTIP@ + prefix_notes(prefixes) + limit_note(" target"@, limit)),
            ),
            arg_model("text"@, false, None),
        ],
        None,
    )
}

/// JOIN with the server's channel name length, channel limits and key length.
pub open spec fn join_model(
    channel_len: Option<u16>,
    channel_limits: Option<Seq<ChannelLimit>>,
    key_len: Option<u16>,
) -> CommandModel {
    let limits = match channel_limits {
        Some(l) => chanlimit_notes(l),
        None => seq![],
    };
    command_model(
        "JOIN"@,
        seq![
            arg_model("channels"@, false, Some(COMMA_SEPARATED@ + length_note(channel_len) + limits)),
            arg_model("keys"@, true, Some(COMMA_SEPARATED@ + length_note(key_len))),
        ],
        None,
    )
}

/// LIST with the server's search extensions and target limit.
pub open spec fn list_model(search_extensions: Option<Seq<char>>, limit: Option<u16>) -> CommandModel {
    let channels = arg_model("channels"@, true, Some(COMMA_SEPARATED@ + limit_note(" channel"@, limit)));
    match search_extensions {
        Some(e) => command_model(
            "LIST"@,
            seq![channels, arg_model("elistconds"@, true, Some(COMMA_SEPARATED@ + elist_notes(e)))],
            None,
        ),
        None => command_model("LIST"@, seq![channels], None),
    }
}

/// LIST without server details.
pub open spec fn list_default_model() -> CommandModel {
    command_model("LIST"@, seq![arg_model("channels"@, true, Some(COMMA_SEPARATED@))], None)
}

/// MONITOR + with the server's limit on monitored targets.
pub open spec fn monitor_add_model(target_limit: Option<u16>) -> CommandModel {
    let note = match target_limit {
        Some(n) => "\nup to "@ + decimal(n as nat) + " target"@ + plural(n) + " in total"@,
        None => seq![],
    };
    command_model(
        "MONITOR +"@,
        seq![arg_model("targets"@, false, Some("comma-separated users"@ + note))],
        None,
    )
}

/// MONITOR -.
pub open spec fn monitor_remove_model() -> CommandModel {
    command_model("MONITOR -"@, seq![arg_model("targets"@, false, Some(COMMA_SEPARATED@))], None)
}

/// MONITOR C.
pub open spec fn monitor_clear_model() -> CommandModel {
    command_model("MONITOR C"@, seq![], None)
}

/// MONITOR L.
pub open spec fn monitor_list_model() -> CommandModel {
    command_model("MONITOR L"@, seq![], None)
}

/// MONITOR S.
pub open spec fn monitor_status_model() -> CommandModel {
    command_model("MONITOR S"@, seq![], None)
}

/// MONITOR with its subcommands.
pub open spec fn monitor_model(target_limit: Option<u16>) -> CommandModel {
    command_model(
        "MONITOR"@,
        seq![arg_model("subcommand"@, false, Some(MONITOR_TOOLTIP@))],
        Some(
            seq![
                monitor_add_model(target_limit),
                monitor_remove_model(),
                monitor_clear_model(),
                monitor_list_model(),
                monitor_status_model(),
            ],
        ),
    )
}

/// The limit argument of a CHATHISTORY subcommand that returns messages.
pub open spec fn history_limit_arg(max: u16) -> crate::command::ArgModel {
    arg_model(
        "limit"@,
        false,
        Some(history_limit_note(max, "up to 1 message"@, " messages"@)),
    )
}

/// A CHATHISTORY subcommand taking a target, one reference and a limit.
pub open spec fn history_model(title: Seq<char>, max: u16) -> CommandModel {
    command_model(
        title,
        seq![
            arg_model("target"@, false, None),
            arg_model("timestamp | msgid"@, false, Some(TIMESTAMP_TOOLTIP@)),
            history_limit_arg(max),
        ],
        None,
    )
}

/// CHATHISTORY BETWEEN.
pub open spec fn history_between_model(max: u16) -> CommandModel {
    command_model(
        "CHATHISTORY BETWEEN"@,
        seq![
            arg_model("target"@, false, None),
            arg_model("timestamp | msgid"@, false, Some(TIMESTAMP_TOOLTIP@)),
            arg_model("timestamp | msgid"@, false, Some(TIMESTAMP_TOOLTIP@)),
            history_limit_arg(max),
        ],
        None,
    )
}

/// CHATHISTORY LATEST.
pub open spec fn history_latest_model(max: u16) -> CommandModel {
    command_model(
        "CHATHISTORY LATEST"@,
        seq![
            arg_model("target"@, false, None),
            arg_model("* | timestamp | msgid"@, false, Some(LATEST_TOOLTIP@)),
            history_limit_arg(max),
        ],
        None,
    )
}

/// CHATHISTORY TARGETS.
pub open spec fn history_targets_model(max: u16) -> CommandModel {
    command_model(
        "CHATHISTORY TARGETS"@,
        seq![
            arg_model("timestamp"@, false, Some(TIMESTAMP_TOOLTIP@)),
            arg_model("timestamp"@, false, Some(TIMESTAMP_TOOLTIP@)),
            arg_model(
                "limit"@,
                false,
                Some(history_limit_note(max, "up to 1 target"@, " targets"@)),
            ),
        ],
        None,
    )
}

/// CHATHISTORY with its subcommands.
pub open spec fn chathistory_model(max: u16) -> CommandModel {
    command_model(
        "CHATHISTORY"@,
        seq![arg_model("subcommand"@, false, Some(CHATHISTORY_TOOLTIP@))],
        Some(
            seq![
                history_model("CHATHISTORY AFTER"@, max),
                history_model("CHATHISTORY AROUND"@, max),
                history_model("CHATHISTORY BEFORE"@, max),
                history_between_model(max),
                history_latest_model(max),
                history_targets_model(max),
            ],
        ),
    )
}

/// CNOTICE.
pub open spec fn cnotice_model() -> CommandModel {
    command_model(
        "CNOTICE"@,
        seq![
            arg_model("nickname"@, false, None),
            arg_model("channel"@, false, None),
            arg_model("message"@, false, None),
        ],
        None,
    )
}

/// CPRIVMSG.
pub open spec fn cprivmsg_model() -> CommandModel {
    command_model(
        "CPRIVMSG"@,
        seq![
            arg_model("nickname"@, false, None),
            arg_model("channel"@, false, None),
            arg_model("message"@, false, None),
        ],
        None,
    )
}

/// KNOCK.
pub open spec fn knock_model() -> CommandModel {
    command_model(
        "KNOCK"@,
        seq![arg_model("channel"@, false, None), arg_model("message"@, true, None)],
        None,
    )
}

/// USERIP.
pub open spec fn userip_model() -> CommandModel {
    command_model("USERIP"@, seq![arg_model("nickname"@, false, None)], None)
}

/// WHO with the WHOX fields and token.
pub open spec fn whox_model() -> CommandModel {
    command_model(
        "WHO"@,
        seq![
            arg_model("target"@, false, None),
            arg_model("fields"@, true, Some(WHOX_FIELDS_TOOLTIP@)),
            arg_model("token"@, true, Some("1-3 digits"@)),
        ],
        None,
    )
}

/// The limit of a target limit, if there is one.
pub open spec fn limit_of(target_limit: Option<CommandTargetLimit>) -> Option<u16> {
    match target_limit {
        Some(t) => t.limit,
        None => None,
    }
}

/// AWAY limited to `max_len`.
pub fn away_command(max_len: &u16) -> (res: Command)
    ensures
        res@ == away_model(*max_len),
{
    let mut tip = owned("maximum length: ");
    push_decimal(&mut tip, *max_len);
    command("AWAY", args1(arg("reason", true, Some(tip))), None)
}

/// NICK limited to `max_len`.
pub fn nick_command(max_len: &u16) -> (res: Command)
    ensures
        res@ == nick_model(*max_len),
{
    let mut tip = owned("maximum length: ");
    push_decimal(&mut tip, *max_len);
    command("NICK", args1(arg("nickname", false, Some(tip))), None)
}

/// PART with channel names limited to `max_len`.
pub fn part_command(max_len: &u16) -> (res: Command)
    ensures
        res@ == part_model(*max_len),
{
    let mut tip = owned("comma-separated\nmaximum length of each: ");
    push_decimal(&mut tip, *max_len);
    command("PART", args2(arg("channels", false, Some(tip)), arg("reason", true, None)), None)
}

/// TOPIC limited to `max_len`.
pub fn topic_command(max_len: &u16) -> (res: Command)
    ensures
        res@ == topic_model(*max_len),
{
    let mut tip = owned("maximum length: ");
    push_decimal(&mut tip, *max_len);
    command("TOPIC", args2(arg("channel", false, None), arg("topic", true, Some(tip))), None)
}

/// NAMES with a target limit.
pub fn names_command(target_limit: &CommandTargetLimit) -> (res: Command)
    ensures
        res@ == names_model(target_limit.limit),
{
    let mut tip = owned(COMMA_SEPARATED);
    push_limit_note(&mut tip, " channel", target_limit.limit);
    command("NAMES", args1(arg("channels", false, Some(tip))), None)
}

/// WHOIS with a target limit.
pub fn whois_command(target_limit: &CommandTargetLimit) -> (res: Command)
    ensures
        res@ == whois_model(target_limit.limit),
{
    let mut tip = owned(COMMA_SEPARATED);
    push_limit_note(&mut tip, " nick", target_limit.limit);
    command("WHOIS", args1(arg("nicks", false, Some(tip))), None)
}

/// MSG with membership prefixes and an optional target limit.
pub fn msg_command(
    channel_membership_prefixes: Vec<char>,
    target_limit: Option<&CommandTargetLimit>,
) -> (res: Command)
    ensures
        res@ == msg_model(
            channel_membership_prefixes@,
            match target_limit {
                Some(t) => t.limit,
                None => None,
            },
        ),
{
    let mut tip = owned(MSG_TARGETS_TOOLTIP);
    let mut i: usize = 0;
    while i < channel_membership_prefixes.len()
        invariant
            i <= channel_membership_prefixes@.len(),
            tip@ =~= MSG_TARGETS_TOOLTIP@ + prefix_notes(
                channel_membership_prefixes@.subrange(0, i as int),
            ),
        decreases channel_membership_prefixes@.len() - i,
    {
        let c = channel_membership_prefixes[i];
        let ghost pre = channel_membership_prefixes@.subrange(0, i as int);
        assert(channel_membership_prefixes@.subrange(0, i + 1).drop_last() =~= pre);
        if c == '~' {
            push_str(&mut tip, "\n~{channel}: all founders in channel");
        } else if c == '&' {
            push_str(&mut tip, "\n&{channel}: all protected users in channel");
        } else if c == '!' {
            push_str(&mut tip, "\n!{channel}: all protected users in channel");
        } else if c == '@' {
            push_str(&mut tip, "\n@{channel}: all operators in channel");
        } else if c == '%' {
            push_str(&mut tip, "\n%{channel}: all half-operators in channel");
        } else if c == '+' {
            push_str(&mut tip, "\n+{channel}: all voiced users in channel");
        }
        i = i + 1;
    }
    assert(channel_membership_prefixes@.subrange(0, channel_membership_prefixes@.len() as int)
        =~= channel_membership_prefixes@);
    let limit = match target_limit {
        Some(t) => t.limit,
        None => None,
    };
    push_limit_note(&mut tip, " target", limit);
    command("MSG", args2(arg("targets", false, Some(tip)), arg("text", false, None)), None)
}

/// JOIN with the server's channel name length, channel limits and key length.
pub fn join_command(
    channel_len: Option<u16>,
    channel_limits: Option<&Vec<ChannelLimit>>,
    key_len: Option<u16>,
) -> (res: Command)
    ensures
        res@ == join_model(
            channel_len,
            match channel_limits {
                Some(l) => Some(l@),
                None => None,
            },
            key_len,
        ),
{
    let mut channels_tip = owned(COMMA_SEPARATED);
    push_length_note(&mut channels_tip, channel_len);
    let ghost base = channels_tip@;
    if let Some(limits) = channel_limits {
        let mut i: usize = 0;
        while i < limits.len()
            invariant
                i <= limits@.len(),
                channels_tip@ =~= base + chanlimit_notes(limits@.subrange(0, i as int)),
            decreases limits@.len() - i,
        {
            let c = limits[i];
            assert(limits@.subrange(0, i + 1).drop_last() =~= limits@.subrange(0, i as int));
            match c.limit {
                Some(n) => {
                    push_str(&mut channels_tip, "\nup to ");
                    push_decimal(&mut channels_tip, n);
                    push_str(&mut channels_tip, " ");
                    push_char(&mut channels_tip, c.prefix);
                    push_str(&mut channels_tip, " channels per client");
                },
                None => {
                    push_str(&mut channels_tip, "\nunlimited ");
                    push_char(&mut channels_tip, c.prefix);
                    push_str(&mut channels_tip, " channels per client");
                },
            }
            i = i + 1;
        }
        assert(limits@.subrange(0, limits@.len() as int) =~= limits@);
    } else {
        assert(channels_tip@ =~= base + seq![]);
    }
    let mut keys_tip = owned(COMMA_SEPARATED);
    push_length_note(&mut keys_tip, key_len);
    command(
        "JOIN",
        args2(arg("channels", false, Some(channels_tip)), arg("keys", true, Some(keys_tip))),
        None,
    )
}

/// LIST with optional search extensions and target limit.
pub fn list_command(
    search_extensions: Option<&String>,
    target_limit: Option<&CommandTargetLimit>,
) -> (res: Command)
    ensures
        res@ == list_model(
            match search_extensions {
                Some(e) => Some(e@),
                None => None,
            },
            match target_limit {
                Some(t) => t.limit,
                None => None,
            },
        ),
{
    let limit = match target_limit {
        Some(t) => t.limit,
        None => None,
    };
    let mut channels_tip = owned(COMMA_SEPARATED);
    push_limit_note(&mut channels_tip, " channel", limit);
    if let Some(ext) = search_extensions {
        let e = chars_of(ext.as_str());
        let mut conds = owned(COMMA_SEPARATED);
        let mut i: usize = 0;
        while i < e.len()
            invariant
                i <= e@.len(),
                conds@ =~= COMMA_SEPARATED@ + elist_notes(e@.subrange(0, i as int)),
            decreases e@.len() - i,
        {
            let c = e[i];
            assert(e@.subrange(0, i + 1).drop_last() =~= e@.subrange(0, i as int));
            if c == 'C' {
                push_str(&mut conds, "\n  C<{#}: created < # min ago\n  C>{#}: created > # min ago");
            } else if c == 'M' {
                push_str(&mut conds, "\n {mask}: matches mask");
            } else if c == 'N' {
                push_str(&mut conds, "\n!{mask}: does not match mask");
            } else if c == 'T' {
                push_str(
                    &mut conds,
                    "\n  T<{#}: topic changed < # min ago\n  T>{#}: topic changed > # min ago",
                );
            } else if c == 'U' {
                push_str(&mut conds, "\n   <{#}: fewer than # users\n   >{#}: more than # users");
            }
            i = i + 1;
        }
        assert(e@.subrange(0, e@.len() as int) =~= e@);
        command(
            "LIST",
            args2(arg("channels", true, Some(channels_tip)), arg("elistconds", true, Some(conds))),
            None,
        )
    } else {
        command("LIST", args1(arg("channels", true, Some(channels_tip))), None)
    }
}

/// LIST without server details.
pub fn list_default() -> (res: Command)
    ensures
        res@ == list_default_model(),
{
    command("LIST", args1(arg("channels", true, tooltip(COMMA_SEPARATED))), None)
}

/// MONITOR + with an optional limit on monitored targets.
pub fn monitor_add_command(target_limit: &Option<u16>) -> (res: Command)
    ensures
        res@ == monitor_add_model(*target_limit),
{
    let mut tip = owned("comma-separated users");
    let ghost base = tip@;
    if let Some(n) = target_limit {
        push_str(&mut tip, "\nup to ");
        push_decimal(&mut tip, *n);
        push_str(&mut tip, " target");
        if *n != 1 {
            push_char(&mut tip, 's');
        }
        push_str(&mut tip, " in total");
        assert(tip@ =~= base + ("\nup to "@ + decimal(*n as nat) + " target"@ + plural(*n)
            + " in total"@));
    } else {
        assert(tip@ =~= base + seq![]);
    }
    command("MONITOR +", args1(arg("targets", false, Some(tip))), None)
}

fn monitor_remove() -> (res: Command)
    ensures
        res@ == monitor_remove_model(),
{
    command("MONITOR -", args1(arg("targets", false, tooltip(COMMA_SEPARATED))), None)
}

fn no_args() -> (res: Vec<crate::command::Arg>)
    ensures
        crate::command::args_model(res@) == Seq::<crate::command::ArgModel>::empty(),
{
    let v: Vec<crate::command::Arg> = Vec::new();
    assert(crate::command::args_model(v@) =~= Seq::<crate::command::ArgModel>::empty());
    v
}

/// MONITOR with its subcommands.
pub fn monitor_command(target_limit: &Option<u16>) -> (res: Command)
    ensures
        res@ == monitor_model(*target_limit),
{
    let mut subs: Vec<Command> = Vec::new();
    subs.push(monitor_add_command(target_limit));
    subs.push(monitor_remove());
    subs.push(command("MONITOR C", no_args(), None));
    subs.push(command("MONITOR L", no_args(), None));
    subs.push(command("MONITOR S", no_args(), None));
    assert(commands_model(subs@) =~= seq![
        monitor_add_model(*target_limit),
        monitor_remove_model(),
        monitor_clear_model(),
        monitor_list_model(),
        monitor_status_model(),
    ]);
    command("MONITOR", args1(arg("subcommand", false, tooltip(MONITOR_TOOLTIP))), Some(subs))
}

fn history_limit_arg_of(max: u16) -> (res: crate::command::Arg)
    ensures
        res@ == history_limit_arg(max),
{
    arg("limit", false, Some(history_limit(max, "up to 1 message", " messages")))
}

fn history_command(title: &str, max: u16) -> (res: Command)
    ensures
        res@ == history_model(title@, max),
{
    command(
        title,
        args3(
            arg("target", false, None),
            arg("timestamp | msgid", false, tooltip(TIMESTAMP_TOOLTIP)),
            history_limit_arg_of(max),
        ),
        None,
    )
}

/// CHATHISTORY AFTER.
pub fn chathistory_after_command(maximum_limit: &u16) -> (res: Command)
    ensures
        res@ == history_model("CHATHISTORY AFTER"@, *maximum_limit),
{
    history_command("CHATHISTORY AFTER", *maximum_limit)
}

/// CHATHISTORY AROUND.
pub fn chathistory_around_command(maximum_limit: &u16) -> (res: Command)
    ensures
        res@ == history_model("CHATHISTORY AROUND"@, *maximum_limit),
{
    history_command("CHATHISTORY AROUND", *maximum_limit)
}

/// CHATHISTORY BEFORE.
pub fn chathistory_before_command(maximum_limit: &u16) -> (res: Command)
    ensures
        res@ == history_model("CHATHISTORY BEFORE"@, *maximum_limit),
{
    history_command("CHATHISTORY BEFORE", *maximum_limit)
}

/// CHATHISTORY BETWEEN.
pub fn chathistory_between_command(maximum_limit: &u16) -> (res: Command)
    ensures
        res@ == history_between_model(*maximum_limit),
{
    command(
        "CHATHISTORY BETWEEN",
        args4(
            arg("target", false, None),
            arg("timestamp | msgid", false, tooltip(TIMESTAMP_TOOLTIP)),
            arg("timestamp | msgid", false, tooltip(TIMESTAMP_TOOLTIP)),
            history_limit_arg_of(*maximum_limit),
        ),
        None,
    )
}

/// CHATHISTORY LATEST.
pub fn chathistory_latest_command(maximum_limit: &u16) -> (res: Command)
    ensures
        res@ == history_latest_model(*maximum_limit),
{
    command(
        "CHATHISTORY LATEST",
        args3(
            arg("target", false, None),
            arg("* | timestamp | msgid", false, tooltip(LATEST_TOOLTIP)),
            history_limit_arg_of(*maximum_limit),
        ),
        None,
    )
}

/// CHATHISTORY TARGETS.
pub fn chathistory_targets_command(maximum_limit: &u16) -> (res: Command)
    ensures
        res@ == history_targets_model(*maximum_limit),
{
    command(
        "CHATHISTORY TARGETS",
        args3(
            arg("timestamp", false, tooltip(TIMESTAMP_TOOLTIP)),
            arg("timestamp", false, tooltip(TIMESTAMP_TOOLTIP)),
            arg(
                "limit",
                false,
                Some(history_limit(*maximum_limit, "up to 1 target", " targets")),
            ),
        ),
        None,
    )
}

/// CHATHISTORY with its subcommands.
pub fn chathistory_command(maximum_limit: &u16) -> (res: Command)
    ensures
        res@ == chathistory_model(*maximum_limit),
{
    let mut subs: Vec<Command> = Vec::new();
    subs.push(chathistory_after_command(maximum_limit));
    subs.push(chathistory_around_command(maximum_limit));
    subs.push(chathistory_before_command(maximum_limit));
    subs.push(chathistory_between_command(maximum_limit));
    subs.push(chathistory_latest_command(maximum_limit));
    subs.push(chathistory_targets_command(maximum_limit));
    assert(commands_model(subs@) =~= seq![
        history_model("CHATHISTORY AFTER"@, *maximum_limit),
        history_model("CHATHISTORY AROUND"@, *maximum_limit),
        history_model("CHATHISTORY BEFORE"@, *maximum_limit),
        history_between_model(*maximum_limit),
        history_latest_model(*maximum_limit),
        history_targets_model(*maximum_limit),
    ]);
    command(
        "CHATHISTORY",
        args1(arg("subcommand", false, tooltip(CHATHISTORY_TOOLTIP))),
        Some(subs),
    )
}

fn cnotice() -> (res: Command)
    ensures
        res@ == cnotice_model(),
{
    command(
        "CNOTICE",
        args3(arg("nickname", false, None), arg("channel", false, None), arg("message", false, None)),
        None,
    )
}

fn cprivmsg() -> (res: Command)
    ensures
        res@ == cprivmsg_model(),
{
    command(
        "CPRIVMSG",
        args3(arg("nickname", false, None), arg("channel", false, None), arg("message", false, None)),
        None,
    )
}

fn knock() -> (res: Command)
    ensures
        res@ == knock_model(),
{
    command("KNOCK", args2(arg("channel", false, None), arg("message", true, None)), None)
}

fn userip() -> (res: Command)
    ensures
        res@ == userip_model(),
{
    command("USERIP", args1(arg("nickname", false, None)), None)
}

fn whox() -> (res: Command)
    ensures
        res@ == whox_model(),
{
    command(
        "WHO",
        args3(
            arg("target", false, None),
            arg("fields", true, tooltip(WHOX_FIELDS_TOOLTIP)),
            arg("token", true, tooltip("1-3 digits")),
        ),
        None,
    )
}

// ---------------------------------------------------------------------------
// Reading the parameters
// ---------------------------------------------------------------------------

/// The advertised maximum away-message length.
pub open spec fn awaylen(is: Seq<Parameter>) -> Option<u16> {
    match lookup(is, Kind::AWAYLEN) {
        Some(Parameter::AWAYLEN(Some(m))) => Some(m),
        _ => None,
    }
}

/// The advertised maximum channel name length.
pub open spec fn channellen(is: Seq<Parameter>) -> Option<u16> {
    match lookup(is, Kind::CHANNELLEN) {
        Some(Parameter::CHANNELLEN(m)) => Some(m),
        _ => None,
    }
}

/// The advertised channel limits.
pub open spec fn chanlimit(is: Seq<Parameter>) -> Option<Seq<ChannelLimit>> {
    match lookup(is, Kind::CHANLIMIT) {
        Some(Parameter::CHANLIMIT(v)) => Some(v@),
        _ => None,
    }
}

/// The advertised maximum key length.
pub open spec fn keylen(is: Seq<Parameter>) -> Option<u16> {
    match lookup(is, Kind::KEYLEN) {
        Some(Parameter::KEYLEN(m)) => Some(m),
        _ => None,
    }
}

/// The advertised maximum nickname length.
pub open spec fn nicklen(is: Seq<Parameter>) -> Option<u16> {
    match lookup(is, Kind::NICKLEN) {
        Some(Parameter::NICKLEN(m)) => Some(m),
        _ => None,
    }
}

/// The advertised maximum topic length.
pub open spec fn topiclen(is: Seq<Parameter>) -> Option<u16> {
    match lookup(is, Kind::TOPICLEN) {
        Some(Parameter::TOPICLEN(m)) => Some(m),
        _ => None,
    }
}

/// The membership prefixes messages may be addressed to, or none.
pub open spec fn statusmsg(is: Seq<Parameter>) -> Seq<char> {
    match lookup(is, Kind::STATUSMSG) {
        Some(Parameter::STATUSMSG(v)) => v@,
        _ => seq![],
    }
}

/// The advertised LIST search extensions.
pub open spec fn elist(is: Seq<Parameter>) -> Option<Seq<char>> {
    match lookup(is, Kind::ELIST) {
        Some(Parameter::ELIST(e)) => Some(e@),
        _ => None,
    }
}

/// Whether WHOX is advertised.
pub open spec fn has_whox(is: Seq<Parameter>) -> bool {
    lookup(is, Kind::WHOX) is Some
}

/// The advertised case mapping, RFC1459 when there is none.
pub open spec fn casemapping(is: Seq<Parameter>) -> CaseMap {
    match lookup(is, Kind::CASEMAPPING) {
        Some(Parameter::CASEMAPPING(c)) => c,
        _ => CaseMap::RFC1459,
    }
}

/// The first limit in `ls` for the command `name`.
pub open spec fn first_target_limit(ls: Seq<CommandTargetLimit>, name: Seq<char>) -> Option<
    CommandTargetLimit,
>
    decreases ls.len(),
{
    if ls.len() == 0 {
        None
    } else if ls[0].command@ == name {
        Some(ls[0])
    } else {
        first_target_limit(ls.drop_first(), name)
    }
}

/// The advertised target limit for the command `name`.
pub open spec fn target_limit(is: Seq<Parameter>, name: Seq<char>) -> Option<CommandTargetLimit> {
    match lookup(is, Kind::TARGMAX) {
        Some(Parameter::TARGMAX(v)) => first_target_limit(v@, name),
        _ => None,
    }
}

fn awaylen_of(is: &Isupport) -> (res: Option<u16>)
    ensures
        res == awaylen(is.params()),
{
    match is.get(Kind::AWAYLEN) {
        Some(Parameter::AWAYLEN(Some(m))) => Some(*m),
        _ => None,
    }
}

fn channellen_of(is: &Isupport) -> (res: Option<u16>)
    ensures
        res == channellen(is.params()),
{
    match is.get(Kind::CHANNELLEN) {
        Some(Parameter::CHANNELLEN(m)) => Some(*m),
        _ => None,
    }
}

fn chanlimit_of(is: &Isupport) -> (res: Option<&Vec<ChannelLimit>>)
    ensures
        match res {
            Some(v) => chanlimit(is.params()) == Some(v@),
            None => chanlimit(is.params()) is None,
        },
{
    match is.get(Kind::CHANLIMIT) {
        Some(Parameter::CHANLIMIT(v)) => Some(v),
        _ => None,
    }
}

fn keylen_of(is: &Isupport) -> (res: Option<u16>)
    ensures
        res == keylen(is.params()),
{
    match is.get(Kind::KEYLEN) {
        Some(Parameter::KEYLEN(m)) => Some(*m),
        _ => None,
    }
}

fn nicklen_of(is: &Isupport) -> (res: Option<u16>)
    ensures
        res == nicklen(is.params()),
{
    match is.get(Kind::NICKLEN) {
        Some(Parameter::NICKLEN(m)) => Some(*m),
        _ => None,
    }
}

fn topiclen_of(is: &Isupport) -> (res: Option<u16>)
    ensures
        res == topiclen(is.params()),
{
    match is.get(Kind::TOPICLEN) {
        Some(Parameter::TOPICLEN(m)) => Some(*m),
        _ => None,
    }
}

fn statusmsg_of(is: &Isupport) -> (res: Vec<char>)
    ensures
        res@ == statusmsg(is.params()),
{
    match is.get(Kind::STATUSMSG) {
        Some(Parameter::STATUSMSG(v)) => v.clone(),
        _ => Vec::new(),
    }
}

fn elist_of(is: &Isupport) -> (res: Option<&String>)
    ensures
        match res {
            Some(e) => elist(is.params()) == Some(e@),
            None => elist(is.params()) is None,
        },
{
    match is.get(Kind::ELIST) {
        Some(Parameter::ELIST(e)) => Some(e),
        _ => None,
    }
}

/// The casemapping the server advertises, RFC1459 when it advertises none.
pub fn casemapping_of(is: &Isupport) -> (res: CaseMap)
    ensures
        res == casemapping(is.params()),
{
    match is.get(Kind::CASEMAPPING) {
        Some(Parameter::CASEMAPPING(c)) => *c,
        _ => CaseMap::default_map(),
    }
}

/// The target limit the server advertises for the command `command`.
pub fn find_target_limit<'a>(isupport: &'a Isupport, command: &str) -> (res: Option<
    &'a CommandTargetLimit,
>)
    ensures
        match res {
            Some(t) => target_limit(isupport.params(), command@) == Some(*t),
            None => target_limit(isupport.params(), command@) is None,
        },
{
    if let Some(Parameter::TARGMAX(target_limits)) = isupport.get(Kind::TARGMAX) {
        let name = chars_of(command);
        let mut i: usize = 0;
        assert(target_limits@.subrange(0, target_limits@.len() as int) =~= target_limits@);
        while i < target_limits.len()
            invariant
                i <= target_limits@.len(),
                first_target_limit(target_limits@, command@) == first_target_limit(
                    target_limits@.subrange(i as int, target_limits@.len() as int),
                    command@,
                ),
                name@ == command@,
                target_limit(isupport.params(), command@) == first_target_limit(
                    target_limits@,
                    command@,
                ),
            decreases target_limits@.len() - i,
        {
            let ghost rest = target_limits@.subrange(i as int, target_limits@.len() as int);
            let t = &target_limits[i];
            let c = chars_of(t.command.as_str());
            if chars_eq(&c, &name) {
                assert(rest[0] == *t);
                return Some(t);
            }
            assert(rest.drop_first() =~= target_limits@.subrange(
                i + 1,
                target_limits@.len() as int,
            ));
            i = i + 1;
        }
        None
    } else {
        None
    }
}

// ---------------------------------------------------------------------------
// The list of commands
// ---------------------------------------------------------------------------

/// JOIN as the server's parameters shape it.
pub open spec fn join_entry(is: Seq<Parameter>) -> CommandModel {
    if channellen(is) is Some || chanlimit(is) is Some || keylen(is) is Some {
        join_model(channellen(is), chanlimit(is), keylen(is))
    } else {
        join_default_model()
    }
}

/// NICK as the server's parameters shape it.
pub open spec fn nick_entry(is: Seq<Parameter>) -> CommandModel {
    match nicklen(is) {
        Some(m) => nick_model(m),
        None => nick_default_model(),
    }
}

/// MSG as the server's parameters shape it.
pub open spec fn msg_entry(is: Seq<Parameter>) -> CommandModel {
    let limit = target_limit(is, "PRIVMSG"@);
    if statusmsg(is).len() > 0 || limit is Some {
        msg_model(statusmsg(is), limit_of(limit))
    } else {
        msg_default_model()
    }
}

/// WHOIS as the server's parameters shape it.
pub open spec fn whois_entry(is: Seq<Parameter>) -> CommandModel {
    match target_limit(is, "WHOIS"@) {
        Some(t) => whois_model(t.limit),
        None => whois_default_model(),
    }
}

/// AWAY as the server's parameters shape it.
pub open spec fn away_entry(is: Seq<Parameter>) -> CommandModel {
    match awaylen(is) {
        Some(m) => away_model(m),
        None => away_default_model(),
    }
}

/// PART as the server's parameters shape it.
pub open spec fn part_entry(is: Seq<Parameter>) -> CommandModel {
    match channellen(is) {
        Some(m) => part_model(m),
        None => part_default_model(),
    }
}

/// TOPIC as the server's parameters shape it.
pub open spec fn topic_entry(is: Seq<Parameter>) -> CommandModel {
    match topiclen(is) {
        Some(m) => topic_model(m),
        None => topic_default_model(),
    }
}

/// WHO as the server's parameters shape it.
pub open spec fn who_entry(is: Seq<Parameter>) -> CommandModel {
    if has_whox(is) {
        whox_model()
    } else {
        who_default_model()
    }
}

/// NAMES as the server's parameters shape it.
pub open spec fn names_entry(is: Seq<Parameter>) -> CommandModel {
    match target_limit(is, "NAMES"@) {
        Some(t) => names_model(t.limit),
        None => names_default_model(),
    }
}

/// The fixed catalogue, each command shaped by the server's parameters.
pub open spec fn catalogue(is: Seq<Parameter>) -> Seq<CommandModel> {
    seq![
        join_entry(is),
        motd_model(),
        nick_entry(is),
        quit_model(),
        msg_entry(is),
        whois_entry(is),
        away_entry(is),
        me_model(),
        mode_model(),
        part_entry(is),
        topic_entry(is),
        who_entry(is),
        names_entry(is),
        kick_model(),
        raw_model(),
        format_model(),
    ]
}

/// The command that a parameter without further details adds.
pub open spec fn parameter_command(p: Parameter) -> Option<CommandModel> {
    match p {
        Parameter::KNOCK => Some(knock_model()),
        Parameter::USERIP => Some(userip_model()),
        Parameter::CNOTICE => Some(cnotice_model()),
        Parameter::CPRIVMSG => Some(cprivmsg_model()),
        _ => None,
    }
}

/// The command a parameter adds to the catalogue, if any.
pub open spec fn extra_of(p: Parameter, is: Seq<Parameter>) -> Option<CommandModel> {
    match p {
        Parameter::CHATHISTORY(m) => Some(chathistory_model(m)),
        Parameter::MONITOR(t) => Some(monitor_model(t)),
        Parameter::SAFELIST => {
            let limit = target_limit(is, "LIST"@);
            if elist(is) is Some || limit is Some {
                Some(list_model(elist(is), limit_of(limit)))
            } else {
                Some(list_default_model())
            }
        },
        _ => parameter_command(p),
    }
}

/// The commands the first `n` parameters add, in their order.
pub open spec fn extras(is: Seq<Parameter>, n: int) -> Seq<CommandModel>
    decreases n,
{
    if n <= 0 {
        seq![]
    } else {
        let prev = extras(is, n - 1);
        match extra_of(is[n - 1], is) {
            Some(c) => prev.push(c),
            None => prev,
        }
    }
}

/// Every command that can be suggested: the catalogue, then the commands
/// the parameters add, in the order the parameters are walked.
pub open spec fn command_list(is: Seq<Parameter>) -> Seq<CommandModel> {
    catalogue(is) + extras(is, is.len() as int)
}

/// KNOCK, USERIP, CNOTICE or CPRIVMSG for the parameter of that name.
pub fn isupport_parameter_to_command(isupport_parameter: &Parameter) -> (res: Option<Command>)
    ensures
        match res {
            Some(c) => parameter_command(*isupport_parameter) == Some(c@),
            None => parameter_command(*isupport_parameter) is None,
        },
{
    match isupport_parameter {
        Parameter::KNOCK => Some(knock()),
        Parameter::USERIP => Some(userip()),
        Parameter::CNOTICE => Some(cnotice()),
        Parameter::CPRIVMSG => Some(cprivmsg()),
        _ => None,
    }
}

fn extra_command(p: &Parameter, is: &Isupport) -> (res: Option<Command>)
    ensures
        match res {
            Some(c) => extra_of(*p, is.params()) == Some(c@),
            None => extra_of(*p, is.params()) is None,
        },
{
    match p {
        Parameter::CHATHISTORY(m) => Some(chathistory_command(m)),
        Parameter::MONITOR(t) => Some(monitor_command(t)),
        Parameter::SAFELIST => {
            let ext = elist_of(is);
            let limit = find_target_limit(is, "LIST");
            if ext.is_some() || limit.is_some() {
                Some(list_command(ext, limit))
            } else {
                Some(list_default())
            }
        },
        _ => isupport_parameter_to_command(p),
    }
}

fn join_entry_of(is: &Isupport) -> (res: Command)
    ensures
        res@ == join_entry(is.params()),
{
    let channel_len = channellen_of(is);
    let channel_limits = chanlimit_of(is);
    let key_len = keylen_of(is);
    if channel_len.is_some() || channel_limits.is_some() || key_len.is_some() {
        join_command(channel_len, channel_limits, key_len)
    } else {
        join_default()
    }
}

fn nick_entry_of(is: &Isupport) -> (res: Command)
    ensures
        res@ == nick_entry(is.params()),
{
    match nicklen_of(is) {
        Some(m) => nick_command(&m),
        None => nick_default(),
    }
}

fn msg_entry_of(is: &Isupport) -> (res: Command)
    ensures
        res@ == msg_entry(is.params()),
{
    let prefixes = statusmsg_of(is);
    let limit = find_target_limit(is, "PRIVMSG");
    if prefixes.len() > 0 || limit.is_some() {
        msg_command(prefixes, limit)
    } else {
        msg_default()
    }
}

fn whois_entry_of(is: &Isupport) -> (res: Command)
    ensures
        res@ == whois_entry(is.params()),
{
    match find_target_limit(is, "WHOIS") {
        Some(t) => whois_command(t),
        None => whois_default(),
    }
}

fn away_entry_of(is: &Isupport) -> (res: Command)
    ensures
        res@ == away_entry(is.params()),
{
    match awaylen_of(is) {
        Some(m) => away_command(&m),
        None => away_default(),
    }
}

fn part_entry_of(is: &Isupport) -> (res: Command)
    ensures
        res@ == part_entry(is.params()),
{
    match channellen_of(is) {
        Some(m) => part_command(&m),
        None => part_default(),
    }
}

fn topic_entry_of(is: &Isupport) -> (res: Command)
    ensures
        res@ == topic_entry(is.params()),
{
    match topiclen_of(is) {
        Some(m) => topic_command(&m),
        None => topic_default(),
    }
}

fn who_entry_of(is: &Isupport) -> (res: Command)
    ensures
        res@ == who_entry(is.params()),
{
    if is.get(Kind::WHOX).is_some() {
        whox()
    } else {
        who_default()
    }
}

fn names_entry_of(is: &Isupport) -> (res: Command)
    ensures
        res@ == names_entry(is.params()),
{
    match find_target_limit(is, "NAMES") {
        Some(t) => names_command(t),
        None => names_default(),
    }
}

fn catalogue_of(is: &Isupport) -> (res: Vec<Command>)
    ensures
        commands_model(res@) == catalogue(is.params()),
{
    let mut list: Vec<Command> = Vec::new();
    list.push(join_entry_of(is));
    list.push(motd());
    list.push(nick_entry_of(is));
    list.push(quit());
    list.push(msg_entry_of(is));
    list.push(whois_entry_of(is));
    list.push(away_entry_of(is));
    list.push(me());
    list.push(mode());
    list.push(part_entry_of(is));
    list.push(topic_entry_of(is));
    list.push(who_entry_of(is));
    list.push(names_entry_of(is));
    list.push(kick());
    list.push(raw());
    list.push(format());
    assert(commands_model(list@) =~= catalogue(is.params()));
    list
}

/// Every command that can be suggested with these server parameters.
pub fn commands_for(isupport: &Isupport) -> (res: Vec<Command>)
    ensures
        commands_model(res@) == command_list(isupport.params()),
{
    let is = isupport;
    let mut list = catalogue_of(is);
    assert(extras(is.params(), 0) =~= Seq::<CommandModel>::empty());
    assert(commands_model(list@) =~= catalogue(is.params()) + extras(is.params(), 0));
    let n = is.len();
    let mut i: usize = 0;
    while i < n
        invariant
            n == is.params().len(),
            i <= n,
            commands_model(list@) =~= catalogue(is.params()) + extras(is.params(), i as int),
        decreases n - i,
    {
        let ghost before = list@;
        match extra_command(is.at(i), is) {
            Some(c) => {
                list.push(c);
                assert(commands_model(list@) =~= commands_model(before).push(c@));
            },
            None => {},
        }
        i = i + 1;
    }
    assert(n as int == is.params().len());
    list
}

} // verus!
