//! Input completion as a whole: command completion for input that starts
//! with `/`, word completion otherwise, and how a chosen entry rewrites the
//! input.

use vstd::prelude::*;
use crate::catalog::{casemapping, casemapping_of};
use crate::command::{strings_model, Command, CommandModel};
use crate::commands::{
    commands_after_process, commands_after_select, commands_after_tab, commands_view, commands_wf,
    selected_by, Commands, CommandsState, CompletionView, view_model,
};
use crate::isupport::{Isupport, Parameter};
use crate::strings::{
    chars_of, join_spaced, join_with_spaces, lowercase, lowercase_of, push_char, push_chars,
    push_str, split_words, trim_colon_space, trim_end_colon_space, words,
};
use crate::text::{
    text_after_process, text_after_tab, text_candidate, text_empty, text_wf, Text, TextState,
};

verus! {

/// A completion chosen by the user.
#[derive(Debug)]
pub enum Entry {
    /// A command picked from the list.
    Command(Command),
    /// A nickname or channel.
    Text(String),
}

/// The contents of an entry.
pub enum EntryModel {
    Command(CommandModel),
    Text(Seq<char>),
}

impl View for Entry {
    type V = EntryModel;

    open spec fn view(&self) -> EntryModel {
        match self {
            Entry::Command(c) => EntryModel::Command(c@),
            Entry::Text(s) => EntryModel::Text(s@),
        }
    }
}

/// The view of an optional entry.
pub open spec fn entry_model(e: Option<Entry>) -> Option<EntryModel> {
    match e {
        Some(x) => Some(x@),
        None => None,
    }
}

/// The input after an entry is completed into it.
///
/// A command replaces the input with `/` and its lowercase title. A word
/// replaces the last word of the input (after trailing `": "` are removed),
/// or becomes the only word of an empty input; the words are joined by
/// single spaces and followed by `": "` when the completion is the only word
/// and not a channel, and by a space otherwise. A word is a channel when it
/// starts with one of `chantypes`.
pub open spec fn completed_input(e: EntryModel, input: Seq<char>, chantypes: Seq<char>) -> Seq<char> {
    match e {
        EntryModel::Command(c) => seq!['/'] + lowercase(c.title),
        EntryModel::Text(next) => {
            let is_channel = next.len() > 0 && chantypes.contains(next[0]);
            let ws = words(trim_colon_space(input));
            let replaced = if ws.len() > 0 {
                ws.update(ws.len() - 1, next)
            } else {
                seq![next]
            };
            join_spaced(replaced) + if replaced.len() == 1 && !is_channel {
                ": "@
            } else {
                seq![' ']
            }
        },
    }
}

impl Entry {
    /// The input after this entry is completed into it.
    pub fn complete_input(&self, input: &str, chantypes: &[char]) -> (res: String)
        ensures
            res@ == completed_input(self@, input@, chantypes@),
    {
        match self {
            Entry::Command(command) => {
                let mut s = String::new();
                push_char(&mut s, '/');
                let t = lowercase_of(command.title().as_str());
                push_chars(&mut s, &t);
                s
            },
            Entry::Text(next) => {
                let next_chars = chars_of(next.as_str());
                let mut is_channel = false;
                if next_chars.len() > 0 {
                    let first = next_chars[0];
                    let mut i: usize = 0;
                    while i < chantypes.len()
                        invariant
                            i <= chantypes@.len(),
                            is_channel <==> exists|j: int| 0 <= j < i && chantypes@[j] == first,
                        decreases chantypes@.len() - i,
                    {
                        if chantypes[i] == first {
                            is_channel = true;
                        }
                        i = i + 1;
                    }
                }
                let trimmed = trim_end_colon_space(&chars_of(input));
                let mut ws = split_words(&trimmed);
                let ghost before = ws@.map_values(|w: Vec<char>| w@);
                assert(before =~= words(trimmed@));
                if ws.len() > 0 {
                    let last = ws.len() - 1;
                    ws.set(last, next_chars);
                    assert(ws@.map_values(|w: Vec<char>| w@) =~= before.update(
                        last as int,
                        next@,
                    ));
                } else {
                    ws.push(next_chars);
                    assert(ws@.map_values(|w: Vec<char>| w@) =~= seq![next@]);
                }
                let mut s = join_with_spaces(&ws);
                if ws.len() == 1 && !is_channel {
                    push_str(&mut s, ": ");
                } else {
                    push_char(&mut s, ' ');
                }
                proof {
                    let n = next@;
                    assert(is_channel == (n.len() > 0 && chantypes@.contains(n[0])));
                }
                s
            },
        }
    }
}

/// The state of input completion.
pub struct CompletionState {
    pub commands: CommandsState,
    pub text: TextState,
}

/// The state of a fresh completion: nothing to complete.
pub open spec fn completion_empty() -> CompletionState {
    CompletionState { commands: CommandsState::Idle, text: text_empty() }
}

/// Highlight and selection point into their lists.
pub open spec fn completion_wf(s: CompletionState) -> bool {
    commands_wf(s.commands) && text_wf(s.text)
}

/// The state after `input` is typed, with the users and channels known and
/// the server's parameters.
///
/// Input that starts with `/` completes commands; while candidate commands
/// are listed no word is completed, otherwise the word being typed is.
/// Other input completes words only.
pub open spec fn completion_after_process(
    s: CompletionState,
    input: Seq<char>,
    users: Seq<Seq<char>>,
    channels: Seq<Seq<char>>,
    is: Seq<Parameter>,
) -> CompletionState {
    let text = text_after_process(input, casemapping(is), users, channels);
    if input.len() > 0 && input[0] == '/' {
        let commands = commands_after_process(s.commands, input, is);
        if commands is Selecting {
            CompletionState { commands, text: text_empty() }
        } else {
            CompletionState { commands, text }
        }
    } else {
        CompletionState { commands: CommandsState::Idle, text }
    }
}

/// The state after tab: a list of candidate commands takes it, otherwise
/// word completion does.
pub open spec fn completion_after_tab(s: CompletionState, reverse: bool) -> CompletionState {
    if s.commands is Selecting {
        CompletionState { commands: commands_after_tab(s.commands, reverse), text: s.text }
    } else {
        CompletionState { commands: s.commands, text: text_after_tab(s.text, reverse) }
    }
}

/// What tab returns: the word now selected, unless candidate commands are
/// listed.
pub open spec fn tab_entry(s: CompletionState, reverse: bool) -> Option<EntryModel> {
    if s.commands is Selecting {
        None
    } else {
        match text_candidate(text_after_tab(s.text, reverse)) {
            Some(w) => Some(EntryModel::Text(w)),
            None => None,
        }
    }
}

/// The state after `select`: the highlighted command becomes the selected one.
pub open spec fn completion_after_select(s: CompletionState) -> CompletionState {
    CompletionState { commands: commands_after_select(s.commands), text: s.text }
}

/// What `select` returns: the highlighted command, if any.
pub open spec fn select_entry(s: CompletionState) -> Option<EntryModel> {
    match selected_by(s.commands) {
        Some(c) => Some(EntryModel::Command(c)),
        None => None,
    }
}

/// Completion of what is typed in the input line.
#[derive(Debug)]
pub struct Completion {
    commands: Commands,
    text: Text,
}

impl Completion {
    /// The state of completion.
    pub closed spec fn state(&self) -> CompletionState {
        CompletionState { commands: self.commands.state(), text: self.text.state() }
    }

    /// Highlight and selection point into their lists.
    pub open spec fn wf(&self) -> bool {
        completion_wf(self.state())
    }

    /// Forgets what was being completed.
    pub fn reset(&mut self)
        ensures
            final(self).state() == completion_empty(),
            final(self).wf(),
    {
        *self = Self::default();
    }

    /// Updates completion for the input line as it now reads.
    pub fn process(
        &mut self,
        input: &str,
        users: &[String],
        channels: &[String],
        isupport: &Isupport,
    )
        ensures
            final(self).state() == completion_after_process(
                old(self).state(),
                input@,
                strings_model(users@),
                strings_model(channels@),
                isupport.params(),
            ),
            final(self).wf(),
    {
        let chars = chars_of(input);
        let is_command = chars.len() > 0 && chars[0] == '/';
        let casemapping = casemapping_of(isupport);
        if is_command {
            self.commands.process(input, isupport);
            if self.commands.is_selecting() {
                self.text = Text::default();
            } else {
                self.text.process(input, casemapping, users, channels);
            }
        } else {
            self.text.process(input, casemapping, users, channels);
            self.commands = Commands::default();
        }
    }

    /// Picks the highlighted command, if any.
    pub fn select(&mut self) -> (res: Option<Entry>)
        ensures
            final(self).state() == completion_after_select(old(self).state()),
            entry_model(res) == select_entry(old(self).state()),
            old(self).wf() ==> final(self).wf(),
    {
        match self.commands.select() {
            Some(c) => Some(Entry::Command(c)),
            None => None,
        }
    }

    /// Moves to the next candidate (or the previous one when `reverse`) and
    /// returns the word to complete, if any.
    pub fn tab(&mut self, reverse: bool) -> (res: Option<Entry>)
        requires
            old(self).wf(),
        ensures
            final(self).state() == completion_after_tab(old(self).state(), reverse),
            entry_model(res) == tab_entry(old(self).state(), reverse),
            final(self).wf(),
    {
        if !self.commands.tab(reverse) {
            match self.text.tab(reverse) {
                Some(s) => Some(Entry::Text(s)),
                None => None,
            }
        } else {
            None
        }
    }

    /// What to show for the input line as it now reads.
    pub fn view(&self, input: &str) -> (res: Option<CompletionView>)
        ensures
            view_model(res) == commands_view(self.state().commands, input@),
    {
        self.commands.view(input)
    }
}

impl Default for Completion {
    fn default() -> (res: Completion)
        ensures
            res.state() == completion_empty(),
            res.wf(),
    {
        Completion { commands: Commands::default(), text: Text::default() }
    }
}

} // verus!
