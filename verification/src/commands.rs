//! Completion of commands: while the command word is typed, the matching
//! commands are listed and can be cycled through; once it is typed, the
//! command (and subcommand) is selected and its hint shown.

use vstd::prelude::*;
use crate::catalog::{command_list, commands_for};
use crate::command::{
    alias_of, commands_model, hint_of, Command, CommandHint, CommandHintModel, CommandModel,
};
use crate::isupport::{Isupport, Parameter};
use crate::strings::{
    chars_eq, chars_of, find_char, first_index, has_prefix, lemma_first_index, lowercase,
    lowercase_chars, lowercase_of, push_char, push_chars, slice, slice_from, starts_with,
};

verus! {

/// The state of command completion.
pub enum CommandsState {
    /// No command is being typed.
    Idle,
    /// The command word is being typed; `filtered` are the commands it may
    /// become and `highlighted` the one tab has moved to.
    Selecting { highlighted: Option<nat>, filtered: Seq<CommandModel> },
    /// The command word has been typed.
    Selected { command: CommandModel, subcommand: Option<CommandModel> },
}

/// The highlighted entry, when there is one, is an entry of the list.
pub open spec fn commands_wf(s: CommandsState) -> bool {
    match s {
        CommandsState::Selecting { highlighted: Some(i), filtered } => i < filtered.len(),
        _ => true,
    }
}

/// `c` is called `name` (lowercase), by its title or one of its aliases.
pub open spec fn is_named(c: CommandModel, name: Seq<char>) -> bool {
    let aliases = alias_of(lowercase(c.title));
    lowercase(c.title) == name || exists|j: int| 0 <= j < aliases.len() && lowercase(aliases[j]) == name
}

/// The first command of `list` called `name`.
pub open spec fn find_named(list: Seq<CommandModel>, name: Seq<char>) -> Option<CommandModel>
    decreases list.len(),
{
    if list.len() == 0 {
        None
    } else if is_named(list[0], name) {
        Some(list[0])
    } else {
        find_named(list.drop_first(), name)
    }
}

/// The commands of `list` whose lowercase title starts with `prefix`, in order.
pub open spec fn filter_prefixed(list: Seq<CommandModel>, prefix: Seq<char>) -> Seq<CommandModel>
    decreases list.len(),
{
    if list.len() == 0 {
        seq![]
    } else {
        let prev = filter_prefixed(list.drop_last(), prefix);
        if starts_with(lowercase(list.last().title), prefix) {
            prev.push(list.last())
        } else {
            prev
        }
    }
}

/// The state after `input` is typed with the server's parameters `is`.
///
/// Only input that starts with `/` completes commands. Until a space
/// follows the command word, the commands whose title starts with the word
/// (ignoring case) are listed. Once the space is typed, the command called
/// by that word (title or alias) is selected, or nothing when none is.
/// Once selected, a command with subcommands selects the subcommand named
/// by its first two words; a command without subcommands stays as it is.
pub open spec fn commands_after_process(
    state: CommandsState,
    input: Seq<char>,
    is: Seq<Parameter>,
) -> CommandsState {
    if !(input.len() > 0 && input[0] == '/') {
        CommandsState::Idle
    } else {
        let rest = input.subrange(1, input.len() as int);
        let i = first_index(rest, ' ');
        let cmd = rest.subrange(0, i as int);
        let list = command_list(is);
        if i >= rest.len() {
            CommandsState::Selecting {
                highlighted: None,
                filtered: filter_prefixed(list, lowercase(cmd)),
            }
        } else {
            match state {
                CommandsState::Selected { command, subcommand } => match command.subcommands {
                    Some(subs) => {
                        let tail = rest.subrange(i + 1 as int, rest.len() as int);
                        let j = first_index(tail, ' ');
                        let subcmd = if j < tail.len() {
                            rest.subrange(0, (i + 1 + j) as int)
                        } else {
                            rest
                        };
                        CommandsState::Selected {
                            command,
                            subcommand: find_named(subs, lowercase(subcmd)),
                        }
                    },
                    None => state,
                },
                _ => match find_named(list, lowercase(cmd)) {
                    Some(c) => CommandsState::Selected { command: c, subcommand: None },
                    None => CommandsState::Idle,
                },
            }
        }
    }
}

/// The state after `select`: the highlighted command becomes the selected one.
pub open spec fn commands_after_select(state: CommandsState) -> CommandsState {
    match state {
        CommandsState::Selecting { highlighted: Some(i), filtered } => if i < filtered.len() {
            CommandsState::Selected { command: filtered[i as int], subcommand: None }
        } else {
            state
        },
        _ => state,
    }
}

/// What `select` returns: the highlighted command, if any.
pub open spec fn selected_by(state: CommandsState) -> Option<CommandModel> {
    match state {
        CommandsState::Selecting { highlighted: Some(i), filtered } => if i < filtered.len() {
            Some(filtered[i as int])
        } else {
            None
        },
        _ => None,
    }
}

/// The highlight after tab (or shift-tab when `reverse`) in a list of
/// `len` commands: it moves one step, wrapping around, and starts at the
/// first (or last) entry.
pub open spec fn next_highlight(highlighted: Option<nat>, len: nat, reverse: bool) -> Option<nat> {
    if len == 0 {
        None
    } else {
        match highlighted {
            Some(i) => if reverse {
                if i > 0 {
                    Some((i - 1) as nat)
                } else {
                    Some((len - 1) as nat)
                }
            } else {
                Some((i + 1) % len)
            },
            None => if reverse {
                Some((len - 1) as nat)
            } else {
                Some(0)
            },
        }
    }
}

/// The state after tab: only a list of candidates reacts.
pub open spec fn commands_after_tab(state: CommandsState, reverse: bool) -> CommandsState {
    match state {
        CommandsState::Selecting { highlighted, filtered } => CommandsState::Selecting {
            highlighted: next_highlight(highlighted, filtered.len(), reverse),
            filtered,
        },
        _ => state,
    }
}

/// One entry of the list of candidate commands.
#[derive(Debug)]
pub struct ListedCommand {
    pub index: usize,
    pub label: String,
    pub selected: bool,
}

/// The contents of a listed command.
pub struct ListedModel {
    pub index: nat,
    pub label: Seq<char>,
    pub selected: bool,
}

impl View for ListedCommand {
    type V = ListedModel;

    open spec fn view(&self) -> ListedModel {
        ListedModel { index: self.index as nat, label: self.label@, selected: self.selected }
    }
}

/// What command completion shows.
#[derive(Debug)]
pub enum CompletionView {
    /// Up to five candidate commands, around the highlighted one.
    Commands(Vec<ListedCommand>),
    /// The hint for the selected command.
    Command(CommandHint),
}

/// The contents of what command completion shows.
pub enum CompletionViewModel {
    Commands(Seq<ListedModel>),
    Command(CommandHintModel),
}

/// The contents of an optional view.
pub open spec fn view_model(v: Option<CompletionView>) -> Option<CompletionViewModel> {
    match v {
        Some(CompletionView::Commands(l)) => Some(
            CompletionViewModel::Commands(l@.map_values(|e: ListedCommand| e@)),
        ),
        Some(CompletionView::Command(h)) => Some(CompletionViewModel::Command(h@)),
        None => None,
    }
}

/// Most candidate commands shown at once.
pub const MAX_SHOWN_ENTRIES: usize = 5;

/// The first candidate shown: the window of five ends at the highlighted
/// entry once it is past the fifth.
pub open spec fn window_start(highlighted: Option<nat>) -> nat {
    let index: nat = match highlighted {
        Some(i) => i,
        None => 0,
    };
    if index >= 4 {
        (index - 4) as nat
    } else {
        0
    }
}

/// The candidates shown, each with its position and whether it is highlighted.
pub open spec fn listed(filtered: Seq<CommandModel>, highlighted: Option<nat>) -> Seq<ListedModel> {
    let start = window_start(highlighted);
    let count: int = if start >= filtered.len() {
        0
    } else if filtered.len() - start >= 5 {
        5
    } else {
        filtered.len() - start
    };
    Seq::new(
        count as nat,
        |k: int|
            ListedModel {
                index: (start + k) as nat,
                label: seq!['/'] + lowercase(filtered[start + k].title),
                selected: highlighted == Some((start + k) as nat),
            },
    )
}

/// What command completion shows for a state while `input` is typed.
pub open spec fn commands_view(state: CommandsState, input: Seq<char>) -> Option<CompletionViewModel> {
    match state {
        CommandsState::Idle => None,
        CommandsState::Selecting { highlighted, filtered } => {
            let entries = listed(filtered, highlighted);
            if entries.len() == 0 {
                None
            } else {
                Some(CompletionViewModel::Commands(entries))
            }
        },
        CommandsState::Selected { command, subcommand } => match subcommand {
            Some(s) => Some(CompletionViewModel::Command(hint_of(s, input))),
            None => Some(CompletionViewModel::Command(hint_of(command, input))),
        },
    }
}

/// Command completion.
#[derive(Debug)]
pub enum Commands {
    Idle,
    Selecting { highlighted: Option<usize>, filtered: Vec<Command> },
    Selected { command: Command, subcommand: Option<Command> },
}

impl Default for Commands {
    /// Nothing being completed.
    fn default() -> (res: Commands)
        ensures
            res.state() == CommandsState::Idle,
    {
        Commands::Idle
    }
}

/// Whether `c` is called `name` (lowercase).
fn named(c: &Command, name: &Vec<char>) -> (res: bool)
    ensures
        res == is_named(c@, name@),
{
    let t = lowercase_of(c.title().as_str());
    if chars_eq(&t, name) {
        return true;
    }
    let aliases = c.alias();
    let ghost model = alias_of(lowercase(c@.title));
    let mut j: usize = 0;
    while j < aliases.len()
        invariant
            j <= aliases@.len(),
            model == alias_of(lowercase(c@.title)),
            model.len() == aliases@.len(),
            forall|m: int| 0 <= m < aliases@.len() ==> #[trigger] model[m] == aliases@[m]@,
            forall|m: int| 0 <= m < j ==> lowercase(model[m]) != name@,
        decreases aliases@.len() - j,
    {
        let a = lowercase_of(aliases[j].as_str());
        if chars_eq(&a, name) {
            assert(lowercase(model[j as int]) == name@);
            assert(is_named(c@, name@));
            return true;
        }
        j = j + 1;
    }
    false
}

/// The first command of `list` called `name`, copied.
fn find_named_in(list: &Vec<Command>, name: &Vec<char>) -> (res: Option<Command>)
    ensures
        match res {
            Some(c) => find_named(commands_model(list@), name@) == Some(c@),
            None => find_named(commands_model(list@), name@) is None,
        },
{
    let ghost all = commands_model(list@);
    let mut i: usize = 0;
    assert(all.subrange(0, all.len() as int) =~= all);
    while i < list.len()
        invariant
            i <= list@.len(),
            all == commands_model(list@),
            find_named(all, name@) == find_named(all.subrange(i as int, all.len() as int), name@),
        decreases list@.len() - i,
    {
        let ghost rest = all.subrange(i as int, all.len() as int);
        assert(rest[0] == list@[i as int]@);
        if named(&list[i], name) {
            return Some(list[i].copy());
        }
        assert(rest.drop_first() =~= all.subrange(i + 1, all.len() as int));
        i = i + 1;
    }
    None
}

impl Commands {
    /// The state of command completion.
    pub closed spec fn state(&self) -> CommandsState {
        match self {
            Commands::Idle => CommandsState::Idle,
            Commands::Selecting { highlighted, filtered } => CommandsState::Selecting {
                highlighted: match highlighted {
                    Some(i) => Some(*i as nat),
                    None => None,
                },
                filtered: commands_model(filtered@),
            },
            Commands::Selected { command, subcommand } => CommandsState::Selected {
                command: command@,
                subcommand: match subcommand {
                    Some(s) => Some(s@),
                    None => None,
                },
            },
        }
    }

    /// Whether candidates are being listed.
    pub fn is_selecting(&self) -> (res: bool)
        ensures
            res == (self.state() is Selecting),
    {
        match self {
            Commands::Selecting { .. } => true,
            _ => false,
        }
    }

    /// Updates command completion for what is typed.
    pub fn process(&mut self, input: &str, isupport: &Isupport)
        ensures
            final(self).state() == commands_after_process(
                old(self).state(),
                input@,
                isupport.params(),
            ),
    {
        let chars = chars_of(input);
        if chars.len() == 0 || chars[0] != '/' {
            *self = Commands::Idle;
            return;
        }
        let rest = slice_from(&chars, 1);
        let i = find_char(&rest, ' ');
        let has_space = i < rest.len();
        proof {
            lemma_first_index(rest@, ' ');
        }
        let cmd = slice(&rest, 0, i);
        let lower_cmd = lowercase_chars(&cmd);

        let command_list = commands_for(isupport);

        if !has_space {
            let ghost list = commands_model(command_list@);
            let mut filtered: Vec<Command> = Vec::new();
            let mut k: usize = 0;
            while k < command_list.len()
                invariant
                    k <= command_list@.len(),
                    list == commands_model(command_list@),
                    commands_model(filtered@) =~= filter_prefixed(
                        list.subrange(0, k as int),
                        lower_cmd@,
                    ),
                decreases command_list@.len() - k,
            {
                let c = &command_list[k];
                let ghost before = filtered@;
                assert(list.subrange(0, k + 1).drop_last() =~= list.subrange(0, k as int));
                assert(list.subrange(0, k + 1).last() == c@);
                let t = lowercase_of(c.title().as_str());
                if has_prefix(&t, &lower_cmd) {
                    filtered.push(c.copy());
                    assert(commands_model(filtered@) =~= commands_model(before).push(c@));
                }
                k = k + 1;
            }
            assert(list.subrange(0, list.len() as int) =~= list);
            *self = Commands::Selecting { highlighted: None, filtered };
            return;
        }

        let next = match self {
            Commands::Selected { command, subcommand } => {
                match command.subcommands() {
                    Some(subcommands) => {
                        let tail = slice_from(&rest, i + 1);
                        let j = find_char(&tail, ' ');
                        proof {
                            lemma_first_index(tail@, ' ');
                        }
                        let subcmd = if j < tail.len() {
                            slice(&rest, 0, i + 1 + j)
                        } else {
                            slice_from(&rest, 0)
                        };
                        assert(rest@.subrange(0, rest@.len() as int) =~= rest@);
                        let lower_sub = lowercase_chars(&subcmd);
                        let found = find_named_in(subcommands, &lower_sub);
                        Some(Commands::Selected { command: command.copy(), subcommand: found })
                    },
                    None => None,
                }
            },
            _ => {
                match find_named_in(&command_list, &lower_cmd) {
                    Some(c) => Some(Commands::Selected { command: c, subcommand: None }),
                    None => Some(Commands::Idle),
                }
            },
        };
        if let Some(n) = next {
            *self = n;
        }
    }

    /// Selects the highlighted command, if any, and returns it.
    pub fn select(&mut self) -> (res: Option<Command>)
        ensures
            final(self).state() == commands_after_select(old(self).state()),
            match res {
                Some(c) => selected_by(old(self).state()) == Some(c@),
                None => selected_by(old(self).state()) is None,
            },
    {
        let picked = match self {
            Commands::Selecting { highlighted: Some(index), filtered } => {
                if *index < filtered.len() {
                    Some(filtered[*index].copy())
                } else {
                    None
                }
            },
            _ => None,
        };
        match picked {
            Some(command) => {
                let copy = command.copy();
                *self = Commands::Selected { command: copy, subcommand: None };
                Some(command)
            },
            None => None,
        }
    }

    /// Moves the highlight forward (or back when `reverse`); returns whether
    /// candidates were being listed.
    pub fn tab(&mut self, reverse: bool) -> (res: bool)
        requires
            commands_wf(old(self).state()),
        ensures
            final(self).state() == commands_after_tab(old(self).state(), reverse),
            res == (old(self).state() is Selecting),
            commands_wf(final(self).state()),
    {
        match self {
            Commands::Selecting { highlighted, filtered } => {
                let len = filtered.len();
                let next = if len == 0 {
                    None
                } else {
                    match *highlighted {
                        Some(index) => {
                            if reverse {
                                if index > 0 {
                                    Some(index - 1)
                                } else {
                                    Some(len - 1)
                                }
                            } else {
                                Some((index + 1) % len)
                            }
                        },
                        None => {
                            if reverse {
                                Some(len - 1)
                            } else {
                                Some(0)
                            }
                        },
                    }
                };
                *highlighted = next;
                true
            },
            _ => false,
        }
    }

    /// What command completion shows while `input` is typed.
    pub fn view(&self, input: &str) -> (res: Option<CompletionView>)
        ensures
            view_model(res) == commands_view(self.state(), input@),
    {
        match self {
            Commands::Idle => None,
            Commands::Selecting { highlighted, filtered } => {
                let index = match highlighted {
                    Some(i) => *i,
                    None => 0,
                };
                let to = if index > MAX_SHOWN_ENTRIES - 1 {
                    index
                } else {
                    MAX_SHOWN_ENTRIES - 1
                };
                let skip = to - (MAX_SHOWN_ENTRIES - 1);
                let ghost want = listed(commands_model(filtered@), self.state()->highlighted);
                let mut entries: Vec<ListedCommand> = Vec::new();
                let mut k: usize = skip;
                while k < filtered.len() && k - skip < MAX_SHOWN_ENTRIES
                    invariant
                        skip == window_start(self.state()->highlighted),
                        skip <= k,
                        skip <= filtered@.len() ==> k <= filtered@.len(),
                        skip > filtered@.len() ==> k == skip,
                        k - skip <= MAX_SHOWN_ENTRIES,
                        entries@.len() == k - skip,
                        want == listed(commands_model(filtered@), self.state()->highlighted),
                        self.state() == (CommandsState::Selecting {
                            highlighted: match highlighted {
                                Some(i) => Some(*i as nat),
                                None => None,
                            },
                            filtered: commands_model(filtered@),
                        }),
                        forall|m: int| 0 <= m < entries@.len() ==> #[trigger] entries@[m]@ == want[m],
                    decreases filtered@.len() - k,
                {
                    let c = &filtered[k];
                    let mut label = String::new();
                    push_char(&mut label, '/');
                    let t = lowercase_of(c.title().as_str());
                    push_chars(&mut label, &t);
                    let selected = match highlighted {
                        Some(h) => *h == k,
                        None => false,
                    };
                    assert(commands_model(filtered@)[k as int] == c@);
                    entries.push(ListedCommand { index: k, label, selected });
                    k = k + 1;
                }
                assert(want.len() == (if skip >= filtered@.len() {
                    0
                } else if filtered@.len() - skip >= 5 {
                    5
                } else {
                    filtered@.len() - skip
                }));
                assert(entries@.len() == want.len());
                assert(entries@.map_values(|e: ListedCommand| e@) =~= want);
                if entries.len() == 0 {
                    None
                } else {
                    Some(CompletionView::Commands(entries))
                }
            },
            Commands::Selected { command, subcommand } => match subcommand {
                Some(s) => Some(CompletionView::Command(s.hint(input))),
                None => Some(CompletionView::Command(command.hint(input))),
            },
        }
    }
}

} // verus!
