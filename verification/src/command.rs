//! Commands that can be completed: their title, arguments and subcommands,
//! with their descriptions, aliases and the hint shown while typing one.

use vstd::prelude::*;
use crate::strings::{
    ascii_word_count, chars_eq, chars_of, copy_string, count_ascii_words, has_prefix, lowercase,
    lowercase_of, owned, push_str, slice_from, starts_with,
};

verus! {

/// One argument of a command, as listed in its hint.
#[derive(Debug)]
pub struct Arg {
    text: String,
    optional: bool,
    tooltip: Option<String>,
}

/// The contents of an argument.
pub struct ArgModel {
    pub text: Seq<char>,
    pub optional: bool,
    pub tooltip: Option<Seq<char>>,
}

/// The view of an optional string.
pub open spec fn opt_chars(s: Option<String>) -> Option<Seq<char>> {
    match s {
        Some(t) => Some(t@),
        None => None,
    }
}

impl View for Arg {
    type V = ArgModel;

    closed spec fn view(&self) -> ArgModel {
        ArgModel { text: self.text@, optional: self.optional, tooltip: opt_chars(self.tooltip) }
    }
}

/// A command that can be suggested, with its arguments and, for commands
/// such as MONITOR, its subcommands.
#[derive(Debug)]
pub struct Command {
    title: String,
    args: Vec<Arg>,
    subcommands: Option<Vec<Command>>,
}

/// The contents of a command.
pub struct CommandModel {
    pub title: Seq<char>,
    pub args: Seq<ArgModel>,
    pub subcommands: Option<Seq<CommandModel>>,
}

/// An argument with the given contents.
pub open spec fn arg_model(text: Seq<char>, optional: bool, tooltip: Option<Seq<char>>) -> ArgModel {
    ArgModel { text, optional, tooltip }
}

/// A command with the given contents.
pub open spec fn command_model(
    title: Seq<char>,
    args: Seq<ArgModel>,
    subcommands: Option<Seq<CommandModel>>,
) -> CommandModel {
    CommandModel { title, args, subcommands }
}

/// The views of a sequence of arguments.
pub open spec fn args_model(s: Seq<Arg>) -> Seq<ArgModel> {
    s.map_values(|a: Arg| a@)
}

/// The views of a sequence of commands.
pub open spec fn commands_model(s: Seq<Command>) -> Seq<CommandModel> {
    s.map_values(|c: Command| c@)
}

/// The views of a sequence of strings.
pub open spec fn strings_model(s: Seq<String>) -> Seq<Seq<char>> {
    s.map_values(|t: String| t@)
}

closed spec fn model_of(c: Command) -> CommandModel
    decreases c,
{
    CommandModel {
        title: c.title@,
        args: args_model(c.args@),
        subcommands: match c.subcommands {
            Some(v) => Some(
                Seq::new(
                    v@.len(),
                    |i: int|
                        if 0 <= i < v@.len() {
                            model_of(v@[i])
                        } else {
                            arbitrary()
                        },
                ),
            ),
            None => None,
        },
    }
}

impl View for Command {
    type V = CommandModel;

    closed spec fn view(&self) -> CommandModel {
        model_of(*self)
    }
}

/// An argument.
pub fn arg(text: &str, optional: bool, tooltip: Option<String>) -> (res: Arg)
    ensures
        res@ == arg_model(text@, optional, opt_chars(tooltip)),
{
    Arg { text: owned(text), optional, tooltip }
}

/// A command.
pub fn command(title: &str, args: Vec<Arg>, subcommands: Option<Vec<Command>>) -> (res: Command)
    ensures
        res@ == command_model(
            title@,
            args_model(args@),
            match subcommands {
                Some(v) => Some(commands_model(v@)),
                None => None,
            },
        ),
{
    let ghost subs = subcommands;
    let res = Command { title: owned(title), args, subcommands };
    proof {
        if subs is Some {
            let v = subs->0;
            assert(res@.subcommands->0 =~= commands_model(v@));
        }
    }
    res
}

/// The argument list `[a]`.
pub fn args1(a: Arg) -> (res: Vec<Arg>)
    ensures
        args_model(res@) == seq![a@],
{
    let mut v = Vec::new();
    v.push(a);
    assert(args_model(v@) =~= seq![a@]);
    v
}

/// The argument list `[a, b]`.
pub fn args2(a: Arg, b: Arg) -> (res: Vec<Arg>)
    ensures
        args_model(res@) == seq![a@, b@],
{
    let mut v = Vec::new();
    v.push(a);
    v.push(b);
    assert(args_model(v@) =~= seq![a@, b@]);
    v
}

/// The argument list `[a, b, c]`.
pub fn args3(a: Arg, b: Arg, c: Arg) -> (res: Vec<Arg>)
    ensures
        args_model(res@) == seq![a@, b@, c@],
{
    let mut v = Vec::new();
    v.push(a);
    v.push(b);
    v.push(c);
    assert(args_model(v@) =~= seq![a@, b@, c@]);
    v
}

/// The argument list `[a, b, c, d]`.
pub fn args4(a: Arg, b: Arg, c: Arg, d: Arg) -> (res: Vec<Arg>)
    ensures
        args_model(res@) == seq![a@, b@, c@, d@],
{
    let mut v = Vec::new();
    v.push(a);
    v.push(b);
    v.push(c);
    v.push(d);
    assert(args_model(v@) =~= seq![a@, b@, c@, d@]);
    v
}

impl Arg {
    /// A copy of this argument.
    pub fn copy(&self) -> (res: Arg)
        ensures
            res@ == self@,
    {
        let tooltip = match &self.tooltip {
            Some(t) => Some(copy_string(t)),
            None => None,
        };
        Arg { text: copy_string(&self.text), optional: self.optional, tooltip }
    }

    /// How the argument is written in a hint: `<text>`, or `[<text>]` when
    /// it may be left out.
    pub fn label(&self) -> (res: String)
        ensures
            res@ == arg_label(self@),
    {
        let mut s = String::new();
        if self.optional {
            push_str(&mut s, "[<");
        } else {
            push_str(&mut s, "<");
        }
        push_str(&mut s, self.text.as_str());
        if self.optional {
            push_str(&mut s, ">]");
        } else {
            push_str(&mut s, ">");
        }
        s
    }
}

/// How an argument is written in a hint.
pub open spec fn arg_label(a: ArgModel) -> Seq<char> {
    if a.optional {
        "[<"@ + a.text + ">]"@
    } else {
        "<"@ + a.text + ">"@
    }
}

fn copy_args(v: &Vec<Arg>) -> (res: Vec<Arg>)
    ensures
        args_model(res@) == args_model(v@),
{
    let mut res: Vec<Arg> = Vec::new();
    let mut i: usize = 0;
    while i < v.len()
        invariant
            i <= v.len(),
            args_model(res@) =~= args_model(v@.subrange(0, i as int)),
        decreases v.len() - i,
    {
        let ghost r0 = res@;
        let a = v[i].copy();
        res.push(a);
        assert(v@.subrange(0, i + 1) =~= v@.subrange(0, i as int).push(v@[i as int]));
        assert(args_model(res@) =~= args_model(r0).push(v@[i as int]@));
        i = i + 1;
    }
    assert(v@.subrange(0, v.len() as int) =~= v@);
    res
}

/// Copies of the commands of a list.
pub fn copy_commands(v: &Vec<Command>) -> (res: Vec<Command>)
    ensures
        commands_model(res@) == commands_model(v@),
    decreases v,
{
    let mut res: Vec<Command> = Vec::new();
    let mut i: usize = 0;
    while i < v.len()
        invariant
            i <= v.len(),
            commands_model(res@) =~= commands_model(v@.subrange(0, i as int)),
        decreases v.len() - i,
    {
        assert(decreases_to!(v => v@[i as int]));
        let ghost r0 = res@;
        let c = v[i].copy();
        res.push(c);
        assert(v@.subrange(0, i + 1) =~= v@.subrange(0, i as int).push(v@[i as int]));
        assert(commands_model(res@) =~= commands_model(r0).push(v@[i as int]@));
        i = i + 1;
    }
    assert(v@.subrange(0, v.len() as int) =~= v@);
    res
}

impl Command {
    /// A copy of this command.
    pub fn copy(&self) -> (res: Command)
        ensures
            res@ == self@,
        decreases self,
    {
        let subcommands = match &self.subcommands {
            Some(v) => {
                assert(decreases_to!(self => v));
                Some(copy_commands(v))
            },
            None => None,
        };
        let ghost subs = subcommands;
        let res = Command { title: copy_string(&self.title), args: copy_args(&self.args), subcommands };
        proof {
            if self.subcommands is Some {
                let v = self.subcommands->0;
                let w = subs->0;
                assert(res.subcommands == Some(w));
                assert(res@.subcommands->0 =~= self@.subcommands->0) by {
                    assert(commands_model(w@) == commands_model(v@));
                    assert(commands_model(w@).len() == w@.len());
                    assert(commands_model(v@).len() == v@.len());
                    assert forall|i: int| 0 <= i < w@.len() implies #[trigger] model_of(w@[i])
                        == model_of(v@[i]) by {
                        assert(commands_model(w@)[i] == commands_model(v@)[i]);
                        assert(commands_model(w@)[i] == w@[i]@);
                        assert(commands_model(v@)[i] == v@[i]@);
                    }
                    assert(res@.subcommands->0.len() == w@.len());
                    assert(self@.subcommands->0.len() == v@.len());
                    assert forall|i: int| 0 <= i < w@.len() implies res@.subcommands->0[i]
                        == self@.subcommands->0[i] by {
                        assert(res@.subcommands->0[i] == model_of(w@[i]));
                        assert(self@.subcommands->0[i] == model_of(v@[i]));
                    }
                }
            }
        }
        res
    }

    /// The title, such as `JOIN` or `MONITOR +`.
    pub fn title(&self) -> (res: &String)
        ensures
            res@ == self@.title,
    {
        &self.title
    }

    /// The subcommands, if the command has any.
    pub fn subcommands(&self) -> (res: &Option<Vec<Command>>)
        ensures
            match res {
                Some(v) => self@.subcommands == Some(commands_model(v@)),
                None => self@.subcommands is None,
            },
    {
        proof {
            if self.subcommands is Some {
                let v = self.subcommands->0;
                assert(self@.subcommands->0 =~= commands_model(v@));
            }
        }
        &self.subcommands
    }

    /// A short description of what the command does, chosen by its title.
    pub fn description(&self) -> (res: Option<String>)
        ensures
            opt_chars(res) == description_of(lowercase(self@.title)),
    {
        let t = lowercase_of(self.title.as_str());
        description_for(&t)
    }

    /// The other names under which the command can be typed.
    pub fn alias(&self) -> (res: Vec<String>)
        ensures
            strings_model(res@) == alias_of(lowercase(self@.title)),
    {
        let t = lowercase_of(self.title.as_str());
        aliases_for(&t)
    }

    /// What to show while the command is being typed: the title, the
    /// description, each argument with its tooltip, and which argument the
    /// cursor is on.
    pub fn hint(&self, input: &str) -> (res: CommandHint)
        ensures
            res@ == hint_of(self@, input@),
    {
        let mut prefix: Vec<char> = Vec::new();
        prefix.push('/');
        let lt = lowercase_of(self.title.as_str());
        let mut j: usize = 0;
        while j < lt.len()
            invariant
                j <= lt.len(),
                prefix@ =~= seq!['/'] + lt@.subrange(0, j as int),
            decreases lt.len() - j,
        {
            prefix.push(lt[j]);
            j = j + 1;
        }
        assert(lt@.subrange(0, lt.len() as int) =~= lt@);
        let lower_input = lowercase_of(input);
        let rest = if has_prefix(&lower_input, &prefix) {
            slice_from(&lower_input, prefix.len())
        } else {
            chars_of(input)
        };
        let active_arg = arg_index(&rest, self.args.len());

        let mut args: Vec<ArgHint> = Vec::new();
        let mut i: usize = 0;
        while i < self.args.len()
            invariant
                i <= self.args@.len(),
                args@.len() == i,
                forall|m: int| 0 <= m < i ==> #[trigger] args@[m]@ == arg_hint(self.args@[m]@),
            decreases self.args@.len() - i,
        {
            let a = &self.args[i];
            let tooltip = match &a.tooltip {
                Some(t) => Some(copy_string(t)),
                None => None,
            };
            args.push(ArgHint { label: a.label(), tooltip });
            i = i + 1;
        }
        let res = CommandHint {
            title: copy_string(&self.title),
            description: self.description(),
            args,
            active_arg,
        };
        assert(res@.args =~= self@.args.map_values(|a: ArgModel| arg_hint(a)));
        res
    }
}

/// The description of a command, by its lowercase title.
pub fn description_for(t: &Vec<char>) -> (res: Option<String>)
    ensures
        opt_chars(res) == description_of(t@),
{
    let d = if chars_eq(t, &chars_of("away")) {
        "Mark yourself as away. If already away, the status is removed"
    } else if chars_eq(t, &chars_of("join")) {
        "Join channel(s) with optional key(s)"
    } else if chars_eq(t, &chars_of("me")) {
        "Send an action message to the channel"
    } else if chars_eq(t, &chars_of("mode")) {
        "Set mode(s) on a target or retrieve the current mode(s) set. A target can be a channel or an user"
    } else if chars_eq(t, &chars_of("monitor")) {
        "System to notify when users become online/offline"
    } else if chars_eq(t, &chars_of("monitor +")) {
        "Add user(s) to list being monitored"
    } else if chars_eq(t, &chars_of("monitor -")) {
        "Remove user(s) from list being monitored"
    } else if chars_eq(t, &chars_of("monitor c")) {
        "Clear the list of users being monitored"
    } else if chars_eq(t, &chars_of("monitor l")) {
        "Get list of users being monitored"
    } else if chars_eq(t, &chars_of("monitor s")) {
        "For each user in the list being monitored, get the current status"
    } else if chars_eq(t, &chars_of("msg")) {
        "Open a query with a nickname and send an optional message"
    } else if chars_eq(t, &chars_of("nick")) {
        "Change your nickname on the current server"
    } else if chars_eq(t, &chars_of("part")) {
        "Leave channel(s) with an optional reason"
    } else if chars_eq(t, &chars_of("quit")) {
        "Disconnect from the server with an optional reason"
    } else if chars_eq(t, &chars_of("raw")) {
        "Send data to the server without modifying it"
    } else if chars_eq(t, &chars_of("topic")) {
        "Retrieve the topic of a channel or set a new topic"
    } else if chars_eq(t, &chars_of("whois")) {
        "Retrieve information about user(s)"
    } else if chars_eq(t, &chars_of("format")) {
        "Format text using markdown or $ sequences"
    } else {
        return None;
    };
    Some(owned(d))
}

/// The description of a command, by its lowercase title.
pub open spec fn description_of(t: Seq<char>) -> Option<Seq<char>> {
    if t == "away"@ {
        Some("Mark yourself as away. If already away, the status is removed"@)
    } else if t == "join"@ {
        Some("Join channel(s) with optional key(s)"@)
    } else if t == "me"@ {
        Some("Send an action message to the channel"@)
    } else if t == "mode"@ {
        Some(
            "Set mode(s) on a target or retrieve the current mode(s) set. A target can be a channel or an user"@,
        )
    } else if t == "monitor"@ {
        Some("System to notify when users become online/offline"@)
    } else if t == "monitor +"@ {
        Some("Add user(s) to list being monitored"@)
    } else if t == "monitor -"@ {
        Some("Remove user(s) from list being monitored"@)
    } else if t == "monitor c"@ {
        Some("Clear the list of users being monitored"@)
    } else if t == "monitor l"@ {
        Some("Get list of users being monitored"@)
    } else if t == "monitor s"@ {
        Some("For each user in the list being monitored, get the current status"@)
    } else if t == "msg"@ {
        Some("Open a query with a nickname and send an optional message"@)
    } else if t == "nick"@ {
        Some("Change your nickname on the current server"@)
    } else if t == "part"@ {
        Some("Leave channel(s) with an optional reason"@)
    } else if t == "quit"@ {
        Some("Disconnect from the server with an optional reason"@)
    } else if t == "raw"@ {
        Some("Send data to the server without modifying it"@)
    } else if t == "topic"@ {
        Some("Retrieve the topic of a channel or set a new topic"@)
    } else if t == "whois"@ {
        Some("Retrieve information about user(s)"@)
    } else if t == "format"@ {
        Some("Format text using markdown or $ sequences"@)
    } else {
        None
    }
}

/// The aliases of a command, by its lowercase title.
pub fn aliases_for(t: &Vec<char>) -> (res: Vec<String>)
    ensures
        strings_model(res@) == alias_of(t@),
{
    let mut res: Vec<String> = Vec::new();
    if chars_eq(t, &chars_of("join")) {
        res.push(owned("j"));
    } else if chars_eq(t, &chars_of("me")) {
        res.push(owned("describe"));
    } else if chars_eq(t, &chars_of("mode")) {
        res.push(owned("m"));
    } else if chars_eq(t, &chars_of("part")) {
        res.push(owned("leave"));
    } else if chars_eq(t, &chars_of("quit")) {
        res.push(owned(""));
    } else if chars_eq(t, &chars_of("topic")) {
        res.push(owned("t"));
    } else if chars_eq(t, &chars_of("format")) {
        res.push(owned("f"));
    }
    assert(strings_model(res@) =~= alias_of(t@));
    res
}

/// The aliases of a command, by its lowercase title.
pub open spec fn alias_of(t: Seq<char>) -> Seq<Seq<char>> {
    if t == "join"@ {
        seq!["j"@]
    } else if t == "me"@ {
        seq!["describe"@]
    } else if t == "mode"@ {
        seq!["m"@]
    } else if t == "part"@ {
        seq!["leave"@]
    } else if t == "quit"@ {
        seq![""@]
    } else if t == "topic"@ {
        seq!["t"@]
    } else if t == "format"@ {
        seq!["f"@]
    } else {
        seq![]
    }
}

/// One argument as shown in a hint.
#[derive(Debug)]
pub struct ArgHint {
    pub label: String,
    pub tooltip: Option<String>,
}

/// The contents of an argument hint.
pub struct ArgHintModel {
    pub label: Seq<char>,
    pub tooltip: Option<Seq<char>>,
}

impl View for ArgHint {
    type V = ArgHintModel;

    open spec fn view(&self) -> ArgHintModel {
        ArgHintModel { label: self.label@, tooltip: opt_chars(self.tooltip) }
    }
}

/// The hint for an argument.
pub open spec fn arg_hint(a: ArgModel) -> ArgHintModel {
    ArgHintModel { label: arg_label(a), tooltip: a.tooltip }
}

/// What is shown while a command is being typed.
#[derive(Debug)]
pub struct CommandHint {
    pub title: String,
    pub description: Option<String>,
    pub args: Vec<ArgHint>,
    pub active_arg: usize,
}

/// The contents of a command hint.
pub struct CommandHintModel {
    pub title: Seq<char>,
    pub description: Option<Seq<char>>,
    pub args: Seq<ArgHintModel>,
    pub active_arg: nat,
}

impl View for CommandHint {
    type V = CommandHintModel;

    open spec fn view(&self) -> CommandHintModel {
        CommandHintModel {
            title: self.title@,
            description: opt_chars(self.description),
            args: self.args@.map_values(|a: ArgHint| a@),
            active_arg: self.active_arg as nat,
        }
    }
}

/// The index of the argument being typed, given what follows the command
/// word: the number of words in it less one, capped at the last argument.
pub fn arg_index(rest: &Vec<char>, arg_count: usize) -> (res: usize)
    ensures
        res == typed_arg(rest@, arg_count as nat),
{
    let mut wrapped: Vec<char> = Vec::new();
    wrapped.push('_');
    let mut k: usize = 0;
    while k < rest.len()
        invariant
            k <= rest.len(),
            wrapped@ =~= seq!['_'] + rest@.subrange(0, k as int),
        decreases rest.len() - k,
    {
        wrapped.push(rest[k]);
        k = k + 1;
    }
    wrapped.push('_');
    assert(wrapped@ =~= seq!['_'] + rest@ + seq!['_']);
    let count = count_ascii_words(&wrapped);
    let typed = if count >= 2 {
        count - 2
    } else {
        0
    };
    let last = if arg_count >= 1 {
        arg_count - 1
    } else {
        0
    };
    let active_arg = if typed < last {
        typed
    } else {
        last
    };
    active_arg
}

/// The index of the argument being typed, given what follows the command
/// word: the ASCII-whitespace-separated words of it with `_` glued to both
/// ends, less two, capped at the last of `arg_count` arguments. A trailing
/// space thus moves on to the next argument.
pub open spec fn typed_arg(rest: Seq<char>, arg_count: nat) -> nat {
    let count = ascii_word_count(seq!['_'] + rest + seq!['_']);
    let typed: nat = if count >= 2 {
        (count - 2) as nat
    } else {
        0
    };
    let last: nat = if arg_count >= 1 {
        (arg_count - 1) as nat
    } else {
        0
    };
    if typed < last {
        typed
    } else {
        last
    }
}

/// The index of the argument being typed: the number of words typed after
/// the command, less one, capped at the last argument. The words are counted
/// in what follows `/` and the lowercase title in the lowercased input, or
/// in the whole input when it does not start that way.
pub open spec fn active_arg(c: CommandModel, input: Seq<char>) -> nat {
    let prefix = seq!['/'] + lowercase(c.title);
    let lower = lowercase(input);
    let rest = if starts_with(lower, prefix) {
        lower.subrange(prefix.len() as int, lower.len() as int)
    } else {
        input
    };
    typed_arg(rest, c.args.len())
}

/// The hint for a command while `input` is typed.
pub open spec fn hint_of(c: CommandModel, input: Seq<char>) -> CommandHintModel {
    CommandHintModel {
        title: c.title,
        description: description_of(lowercase(c.title)),
        args: c.args.map_values(|a: ArgModel| arg_hint(a)),
        active_arg: active_arg(c, input),
    }
}

} // verus!
