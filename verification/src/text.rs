//! Completion of the word being typed: a channel when it holds `#`,
//! otherwise a nickname, cycled through with tab.

use vstd::prelude::*;
use crate::command::strings_model;
use crate::isupport::{fold, CaseMap};
use crate::strings::{
    after_last, chars_of, copy_string, find_char, first_index, has_prefix, lemma_first_index,
    lowercase, lowercase_chars, lowercase_of, slice_from, starts_with, string_of,
    suffix_after_last,
};

verus! {

/// The state of word completion.
pub struct TextState {
    /// What the candidates complete.
    pub prompt: Seq<char>,
    /// The candidates, in order.
    pub filtered: Seq<Seq<char>>,
    /// The candidate tab has moved to.
    pub selected: Option<nat>,
}

/// Nothing to complete.
pub open spec fn text_empty() -> TextState {
    TextState { prompt: seq![], filtered: seq![], selected: None }
}

/// The selection, when there is one, is a candidate.
pub open spec fn text_wf(t: TextState) -> bool {
    match t.selected {
        Some(i) => i < t.filtered.len(),
        None => true,
    }
}

/// The channels that start with `prefix`, in order.
pub open spec fn channels_with_prefix(channels: Seq<Seq<char>>, prefix: Seq<char>) -> Seq<
    Seq<char>,
>
    decreases channels.len(),
{
    if channels.len() == 0 {
        seq![]
    } else {
        let prev = channels_with_prefix(channels.drop_last(), prefix);
        if starts_with(channels.last(), prefix) {
            prev.push(channels.last())
        } else {
            prev
        }
    }
}

/// The nicknames whose lowercase form starts with `prefix`, in order.
pub open spec fn nicks_with_prefix(nicks: Seq<Seq<char>>, prefix: Seq<char>) -> Seq<Seq<char>>
    decreases nicks.len(),
{
    if nicks.len() == 0 {
        seq![]
    } else {
        let prev = nicks_with_prefix(nicks.drop_last(), prefix);
        if starts_with(lowercase(nicks.last()), prefix) {
            prev.push(nicks.last())
        } else {
            prev
        }
    }
}

/// The state after `input` is typed.
///
/// The word being typed is what follows the last space. When it holds a
/// `#`, the channel name from there on is completed: the candidates are the
/// channels that start with `#` and the rest folded by the server's case
/// mapping. Otherwise a non-empty word completes the nicknames that start
/// with it, ignoring case; an empty word completes nothing.
pub open spec fn text_after_process(
    input: Seq<char>,
    casemap: CaseMap,
    users: Seq<Seq<char>>,
    channels: Seq<Seq<char>>,
) -> TextState {
    let last = after_last(input, ' ');
    let k = first_index(last, '#');
    if k < last.len() {
        let rest = last.subrange(k + 1 as int, last.len() as int);
        TextState {
            prompt: seq!['#'] + rest,
            filtered: channels_with_prefix(channels, seq!['#'] + fold(casemap, rest)),
            selected: None,
        }
    } else if last.len() == 0 {
        text_empty()
    } else {
        TextState { prompt: last, filtered: nicks_with_prefix(users, lowercase(last)), selected: None }
    }
}

/// The selection after tab (or shift-tab when `reverse`): it walks the
/// candidates and, past either end, returns to no selection.
pub open spec fn next_selected(selected: Option<nat>, len: nat, reverse: bool) -> Option<nat> {
    if len == 0 {
        selected
    } else {
        match selected {
            Some(i) => if reverse {
                if i > 0 {
                    Some((i - 1) as nat)
                } else {
                    None
                }
            } else if i + 1 < len {
                Some(i + 1)
            } else {
                None
            },
            None => if reverse {
                Some((len - 1) as nat)
            } else {
                Some(0)
            },
        }
    }
}

/// The state after tab.
pub open spec fn text_after_tab(t: TextState, reverse: bool) -> TextState {
    TextState { selected: next_selected(t.selected, t.filtered.len(), reverse), ..t }
}

/// The candidate at the selection, if any.
pub open spec fn text_candidate(t: TextState) -> Option<Seq<char>> {
    match t.selected {
        Some(i) => if i < t.filtered.len() {
            Some(t.filtered[i as int])
        } else {
            None
        },
        None => None,
    }
}

/// Word completion.
#[derive(Debug)]
pub struct Text {
    prompt: String,
    filtered: Vec<String>,
    selected: Option<usize>,
}

impl Text {
    /// The state of word completion.
    pub closed spec fn state(&self) -> TextState {
        TextState {
            prompt: self.prompt@,
            filtered: strings_model(self.filtered@),
            selected: match self.selected {
                Some(i) => Some(i as nat),
                None => None,
            },
        }
    }

    /// Updates word completion for what is typed.
    pub fn process(&mut self, input: &str, casemapping: CaseMap, users: &[String], channels: &[String])
        ensures
            final(self).state() == text_after_process(
                input@,
                casemapping,
                strings_model(users@),
                strings_model(channels@),
            ),
    {
        if !self.process_channels(input, casemapping, channels) {
            self.process_users(input, users);
        }
    }

    /// Completes a nickname from the word being typed.
    fn process_users(&mut self, input: &str, users: &[String])
        requires
            first_index(after_last(input@, ' '), '#') >= after_last(input@, ' ').len(),
        ensures
            final(self).state() == text_after_process(input@, CaseMap::RFC1459, strings_model(users@), seq![]),
    {
        let chars = chars_of(input);
        let rest = suffix_after_last(&chars, ' ');
        if rest.len() == 0 {
            *self = Text::default();
            return;
        }
        let nick = lowercase_chars(&rest);
        let ghost all = strings_model(users@);
        let mut filtered: Vec<String> = Vec::new();
        let mut i: usize = 0;
        while i < users.len()
            invariant
                i <= users@.len(),
                all == strings_model(users@),
                nick@ == lowercase(rest@),
                strings_model(filtered@) =~= nicks_with_prefix(all.subrange(0, i as int), nick@),
            decreases users@.len() - i,
        {
            let u = &users[i];
            let ghost before = filtered@;
            assert(all.subrange(0, i + 1).drop_last() =~= all.subrange(0, i as int));
            assert(all.subrange(0, i + 1).last() == u@);
            let lower = lowercase_of(u.as_str());
            if has_prefix(&lower, &nick) {
                filtered.push(copy_string(u));
                assert(strings_model(filtered@) =~= strings_model(before).push(u@));
            }
            i = i + 1;
        }
        assert(all.subrange(0, all.len() as int) =~= all);
        self.selected = None;
        self.prompt = string_of(&rest);
        self.filtered = filtered;
    }

    /// Completes a channel when the word being typed holds `#`; returns
    /// whether it does.
    fn process_channels(&mut self, input: &str, casemapping: CaseMap, channels: &[String]) -> (res: bool)
        ensures
            res == (first_index(after_last(input@, ' '), '#') < after_last(input@, ' ').len()),
            res ==> final(self).state() == text_after_process(
                input@,
                casemapping,
                seq![],
                strings_model(channels@),
            ),
            !res ==> final(self).state() == text_empty(),
    {
        let chars = chars_of(input);
        let last = suffix_after_last(&chars, ' ');
        let k = find_char(&last, '#');
        proof {
            lemma_first_index(last@, '#');
        }
        if k >= last.len() {
            *self = Text::default();
            return false;
        }
        let rest = slice_from(&last, k + 1);
        let folded = casemapping.normalize(&rest);
        let mut wanted: Vec<char> = Vec::new();
        wanted.push('#');
        let mut j: usize = 0;
        while j < folded.len()
            invariant
                j <= folded@.len(),
                wanted@ =~= seq!['#'] + folded@.subrange(0, j as int),
            decreases folded@.len() - j,
        {
            wanted.push(folded[j]);
            j = j + 1;
        }
        assert(folded@.subrange(0, folded@.len() as int) =~= folded@);
        let ghost all = strings_model(channels@);
        let mut filtered: Vec<String> = Vec::new();
        let mut i: usize = 0;
        while i < channels.len()
            invariant
                i <= channels@.len(),
                all == strings_model(channels@),
                strings_model(filtered@) =~= channels_with_prefix(
                    all.subrange(0, i as int),
                    wanted@,
                ),
            decreases channels@.len() - i,
        {
            let c = &channels[i];
            let ghost before = filtered@;
            assert(all.subrange(0, i + 1).drop_last() =~= all.subrange(0, i as int));
            assert(all.subrange(0, i + 1).last() == c@);
            let name = chars_of(c.as_str());
            if has_prefix(&name, &wanted) {
                filtered.push(copy_string(c));
                assert(strings_model(filtered@) =~= strings_model(before).push(c@));
            }
            i = i + 1;
        }
        assert(all.subrange(0, all.len() as int) =~= all);
        let mut prompt_chars: Vec<char> = Vec::new();
        prompt_chars.push('#');
        let mut m: usize = 0;
        while m < rest.len()
            invariant
                m <= rest@.len(),
                prompt_chars@ =~= seq!['#'] + rest@.subrange(0, m as int),
            decreases rest@.len() - m,
        {
            prompt_chars.push(rest[m]);
            m = m + 1;
        }
        assert(rest@.subrange(0, rest@.len() as int) =~= rest@);
        self.selected = None;
        self.prompt = string_of(&prompt_chars);
        self.filtered = filtered;
        true
    }

    /// Moves the selection forward (or back when `reverse`) and returns the
    /// selected candidate, if any.
    pub fn tab(&mut self, reverse: bool) -> (res: Option<String>)
        requires
            text_wf(old(self).state()),
        ensures
            final(self).state() == text_after_tab(old(self).state(), reverse),
            text_wf(final(self).state()),
            match res {
                Some(s) => text_candidate(final(self).state()) == Some(s@),
                None => text_candidate(final(self).state()) is None,
            },
    {
        let len = self.filtered.len();
        if len > 0 {
            let next = match self.selected {
                Some(index) => {
                    if reverse {
                        if index > 0 {
                            Some(index - 1)
                        } else {
                            None
                        }
                    } else if index < len - 1 {
                        Some(index + 1)
                    } else {
                        None
                    }
                },
                None => {
                    if reverse {
                        Some(len - 1)
                    } else {
                        Some(0)
                    }
                },
            };
            self.selected = next;
        }
        match self.selected {
            Some(index) => {
                if index < self.filtered.len() {
                    Some(copy_string(&self.filtered[index]))
                } else {
                    None
                }
            },
            None => None,
        }
    }
}

impl Default for Text {
    /// Nothing to complete.
    fn default() -> (res: Text)
        ensures
            res.state() == text_empty(),
    {
        let res = Text { prompt: String::new(), filtered: Vec::new(), selected: None };
        assert(res.state().filtered =~= Seq::<Seq<char>>::empty());
        assert(res.state().prompt =~= Seq::<char>::empty());
        res
    }
}

} // verus!
