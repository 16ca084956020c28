//! Properties of completion that hold across calls and for all inputs.

use vstd::prelude::*;
use crate::command::CommandModel;
use crate::commands::{
    commands_after_select, commands_after_tab, commands_wf, filter_prefixed, selected_by,
    CommandsState,
};
use crate::completion::{completed_input, completion_after_process, EntryModel};
use crate::isupport::{
    distinct_kinds, inserted, kind_index, kind_of, lemma_kind_index, lemma_lookup, lemma_lookup_at,
    lookup, Kind, Parameter,
};
use crate::strings::{join_spaced, lowercase, starts_with, trim_colon_space, words};
use crate::text::{
    channels_with_prefix, nicks_with_prefix, text_after_tab, text_empty, text_wf, TextState,
};

verus! {

/// Under distinct kinds, `lookup` finds the parameter of that kind when
/// there is one, and nothing otherwise.
proof fn lemma_lookup_distinct(s: Seq<Parameter>, k: Kind)
    requires
        distinct_kinds(s),
    ensures
        forall|j: int| 0 <= j < s.len() && kind_of(s[j]) == k ==> lookup(s, k) == Some(s[j]),
        (forall|j: int| 0 <= j < s.len() ==> kind_of(#[trigger] s[j]) != k) ==> lookup(s, k) is None,
{
    lemma_lookup(s, k);
    assert forall|j: int| 0 <= j < s.len() && kind_of(s[j]) == k implies lookup(s, k) == Some(s[j]) by {
        lemma_lookup_at(s, j);
    }
}

/// Storing a parameter keeps the kinds distinct; afterwards its kind gives
/// back the stored parameter, and every other kind gives what it gave before.
pub proof fn law_lookup_after_insert(s: Seq<Parameter>, p: Parameter)
    requires
        distinct_kinds(s),
    ensures
        distinct_kinds(inserted(s, p)),
        lookup(inserted(s, p), kind_of(p)) == Some(p),
        forall|k: Kind| k != kind_of(p) ==> lookup(#[trigger] inserted(s, p), k) == lookup(s, k),
{
    let t = inserted(s, p);
    let i = kind_index(s, kind_of(p)) as int;
    lemma_kind_index(s, kind_of(p));
    assert forall|a: int, b: int| 0 <= a < t.len() && 0 <= b < t.len() && a != b implies kind_of(
        #[trigger] t[a],
    ) != kind_of(#[trigger] t[b]) by {
        if i < s.len() {
            if a != i {
                assert(t[a] == s[a]);
            }
            if b != i {
                assert(t[b] == s[b]);
            }
        } else {
            if a < s.len() {
                assert(t[a] == s[a]);
            }
            if b < s.len() {
                assert(t[b] == s[b]);
            }
        }
    }
    let at = if i < s.len() {
        i
    } else {
        s.len() as int
    };
    assert(t[at] == p);
    lemma_lookup_at(t, at);
    assert forall|k: Kind| k != kind_of(p) implies lookup(#[trigger] inserted(s, p), k) == lookup(
        s,
        k,
    ) by {
        lemma_lookup_distinct(s, k);
        lemma_lookup_distinct(t, k);
        if exists|j: int| 0 <= j < s.len() && kind_of(s[j]) == k {
            let j = choose|j: int| 0 <= j < s.len() && kind_of(s[j]) == k;
            assert(j != at);
            assert(t[j] == s[j]);
        } else {
            assert forall|j: int| 0 <= j < t.len() implies kind_of(#[trigger] t[j]) != k by {
                if j != at {
                    assert(t[j] == s[j]);
                }
            }
        }
    }
}

/// Tab then shift-tab, or shift-tab then tab, leaves a highlighted entry of
/// the command list where it was.
pub proof fn law_commands_tab_undo(s: CommandsState)
    requires
        commands_wf(s),
        s matches CommandsState::Selecting { highlighted: Some(_), .. },
    ensures
        commands_after_tab(commands_after_tab(s, false), true) == s,
        commands_after_tab(commands_after_tab(s, true), false) == s,
{
    if let CommandsState::Selecting { highlighted: Some(h), filtered } = s {
        let n = filtered.len() as int;
        let i = h as int;
        if i + 1 < n {
            vstd::arithmetic::div_mod::lemma_small_mod((i + 1) as nat, n as nat);
        } else {
            vstd::arithmetic::div_mod::lemma_mod_self_0(n);
        }
        if i > 0 {
            vstd::arithmetic::div_mod::lemma_small_mod(i as nat, n as nat);
        } else {
            vstd::arithmetic::div_mod::lemma_mod_self_0(n);
        }
    }
}

/// The command list after `k` tabs.
pub open spec fn commands_tabbed(s: CommandsState, k: nat) -> CommandsState
    decreases k,
{
    if k == 0 {
        s
    } else {
        commands_after_tab(commands_tabbed(s, (k - 1) as nat), false)
    }
}

proof fn lemma_commands_tabbed(s: CommandsState, k: nat)
    requires
        commands_wf(s),
        s matches CommandsState::Selecting { highlighted: Some(_), .. },
    ensures
        match (s, commands_tabbed(s, k)) {
            (
                CommandsState::Selecting { highlighted: Some(i), filtered },
                CommandsState::Selecting { highlighted: h, filtered: f },
            ) => f == filtered && h == Some(((i + k) % filtered.len()) as nat),
            _ => false,
        },
    decreases k,
{
    if let CommandsState::Selecting { highlighted: Some(h), filtered } = s {
        let n = filtered.len() as int;
        let i = h as int;
        if k == 0 {
            vstd::arithmetic::div_mod::lemma_small_mod(i as nat, n as nat);
        } else {
            lemma_commands_tabbed(s, (k - 1) as nat);
            let prev = (i + k - 1) % n;
            vstd::arithmetic::div_mod::lemma_mod_bound(i + k - 1, n);
            vstd::arithmetic::div_mod::lemma_add_mod_noop(i + k - 1, 1, n);
            if n > 1 {
                vstd::arithmetic::div_mod::lemma_small_mod(1, n as nat);
                assert(1int % n == 1);
            } else {
                assert(1int % n == 0) by {
                    vstd::arithmetic::div_mod::lemma_mod_self_0(n);
                }
                assert(prev == 0);
                assert((prev + 0) % n == (prev + 1) % n) by {
                    vstd::arithmetic::div_mod::lemma_mod_self_0(n);
                }
            }
        }
    }
}

/// Tabbing as many times as there are listed commands comes back to the
/// entry the highlight started on.
pub proof fn law_commands_tab_cycle(s: CommandsState)
    requires
        commands_wf(s),
        s matches CommandsState::Selecting { highlighted: Some(_), .. },
    ensures
        commands_tabbed(s, s->filtered.len()) == s,
{
    lemma_commands_tabbed(s, s->filtered.len());
    if let CommandsState::Selecting { highlighted: Some(h), filtered } = s {
        let n = filtered.len() as int;
        let i = h as int;
        vstd::arithmetic::div_mod::lemma_add_mod_noop(i, n, n);
        vstd::arithmetic::div_mod::lemma_mod_self_0(n);
        vstd::arithmetic::div_mod::lemma_small_mod(i as nat, n as nat);
    }
}

/// Tab then shift-tab, or shift-tab then tab, leaves the word selection
/// where it was.
pub proof fn law_text_tab_undo(t: TextState)
    requires
        text_wf(t),
    ensures
        text_after_tab(text_after_tab(t, false), true) == t,
        text_after_tab(text_after_tab(t, true), false) == t,
{
}

/// Tab after a new list of commands highlights its first entry, and select
/// then picks that entry.
pub proof fn law_tab_then_select(filtered: Seq<CommandModel>)
    requires
        filtered.len() > 0,
    ensures
        ({
            let s = commands_after_tab(
                CommandsState::Selecting { highlighted: None, filtered },
                false,
            );
            &&& selected_by(s) == Some(filtered[0])
            &&& commands_after_select(s) == CommandsState::Selected {
                command: filtered[0],
                subcommand: None,
            }
        }),
{
}

/// The commands listed while the command word is typed are exactly those
/// of the list whose lowercase title starts with the word.
pub proof fn law_listed_commands(list: Seq<CommandModel>, prefix: Seq<char>)
    ensures
        forall|c: CommandModel|
            filter_prefixed(list, prefix).contains(c) <==> (list.contains(c) && starts_with(
                lowercase(c.title),
                prefix,
            )),
    decreases list.len(),
{
    if list.len() > 0 {
        law_listed_commands(list.drop_last(), prefix);
        assert(list =~= list.drop_last().push(list.last()));
        assert forall|c: CommandModel|
            filter_prefixed(list, prefix).contains(c) <==> (list.contains(c) && starts_with(
                lowercase(c.title),
                prefix,
            )) by {
            let prev = filter_prefixed(list.drop_last(), prefix);
            if list.contains(c) {
                let j = choose|j: int| 0 <= j < list.len() && list[j] == c;
                if j < list.len() - 1 {
                    assert(list.drop_last()[j] == c);
                }
            }
            if list.drop_last().contains(c) {
                let j = choose|j: int| 0 <= j < list.drop_last().len() && list.drop_last()[j] == c;
                assert(list[j] == c);
            }
            if starts_with(lowercase(list.last().title), prefix) {
                if prev.push(list.last()).contains(c) {
                    let j = choose|j: int| 0 <= j < prev.push(list.last()).len() && prev.push(list.last())[j] == c;
                    if j < prev.len() {
                        assert(prev[j] == c);
                    }
                }
                if prev.contains(c) {
                    let j = choose|j: int| 0 <= j < prev.len() && prev[j] == c;
                    assert(prev.push(list.last())[j] == c);
                }
                assert(prev.push(list.last())[prev.len() as int] == list.last());
            }
        }
    }
}

/// The channels offered are exactly the known channels that start with
/// what is completed.
pub proof fn law_offered_channels(channels: Seq<Seq<char>>, prefix: Seq<char>)
    ensures
        forall|c: Seq<char>|
            channels_with_prefix(channels, prefix).contains(c) <==> (channels.contains(c)
                && starts_with(c, prefix)),
    decreases channels.len(),
{
    if channels.len() > 0 {
        law_offered_channels(channels.drop_last(), prefix);
        assert forall|c: Seq<char>|
            channels_with_prefix(channels, prefix).contains(c) <==> (channels.contains(c)
                && starts_with(c, prefix)) by {
            let prev = channels_with_prefix(channels.drop_last(), prefix);
            if channels.contains(c) {
                let j = choose|j: int| 0 <= j < channels.len() && channels[j] == c;
                if j < channels.len() - 1 {
                    assert(channels.drop_last()[j] == c);
                }
            }
            if channels.drop_last().contains(c) {
                let j = choose|j: int|
                    0 <= j < channels.drop_last().len() && channels.drop_last()[j] == c;
                assert(channels[j] == c);
            }
            if starts_with(channels.last(), prefix) {
                if prev.push(channels.last()).contains(c) {
                    let j = choose|j: int|
                        0 <= j < prev.push(channels.last()).len() && prev.push(
                            channels.last(),
                        )[j] == c;
                    if j < prev.len() {
                        assert(prev[j] == c);
                    }
                }
                if prev.contains(c) {
                    let j = choose|j: int| 0 <= j < prev.len() && prev[j] == c;
                    assert(prev.push(channels.last())[j] == c);
                }
                assert(prev.push(channels.last())[prev.len() as int] == channels.last());
            }
            assert(channels[channels.len() - 1] == channels.last());
        }
    }
}

/// The nicknames offered are exactly the known nicknames whose lowercase
/// form starts with what is completed.
pub proof fn law_offered_nicks(nicks: Seq<Seq<char>>, prefix: Seq<char>)
    ensures
        forall|n: Seq<char>|
            nicks_with_prefix(nicks, prefix).contains(n) <==> (nicks.contains(n) && starts_with(
                lowercase(n),
                prefix,
            )),
    decreases nicks.len(),
{
    if nicks.len() > 0 {
        law_offered_nicks(nicks.drop_last(), prefix);
        assert forall|n: Seq<char>|
            nicks_with_prefix(nicks, prefix).contains(n) <==> (nicks.contains(n) && starts_with(
                lowercase(n),
                prefix,
            )) by {
            let prev = nicks_with_prefix(nicks.drop_last(), prefix);
            if nicks.contains(n) {
                let j = choose|j: int| 0 <= j < nicks.len() && nicks[j] == n;
                if j < nicks.len() - 1 {
                    assert(nicks.drop_last()[j] == n);
                }
            }
            if nicks.drop_last().contains(n) {
                let j = choose|j: int| 0 <= j < nicks.drop_last().len() && nicks.drop_last()[j] == n;
                assert(nicks[j] == n);
            }
            if starts_with(lowercase(nicks.last()), prefix) {
                if prev.push(nicks.last()).contains(n) {
                    let j = choose|j: int|
                        0 <= j < prev.push(nicks.last()).len() && prev.push(nicks.last())[j] == n;
                    if j < prev.len() {
                        assert(prev[j] == n);
                    }
                }
                if prev.contains(n) {
                    let j = choose|j: int| 0 <= j < prev.len() && prev[j] == n;
                    assert(prev.push(nicks.last())[j] == n);
                }
                assert(prev.push(nicks.last())[prev.len() as int] == nicks.last());
            }
            assert(nicks[nicks.len() - 1] == nicks.last());
        }
    }
}

/// While candidate commands are listed no word is completed; input that
/// does not start with `/` completes no command; and typing always starts
/// over, with nothing highlighted or selected.
pub proof fn law_process(
    s: crate::completion::CompletionState,
    input: Seq<char>,
    users: Seq<Seq<char>>,
    channels: Seq<Seq<char>>,
    is: Seq<Parameter>,
)
    ensures
        ({
            let after = completion_after_process(s, input, users, channels, is);
            &&& after.commands is Selecting ==> after.text == text_empty()
            &&& !(input.len() > 0 && input[0] == '/') ==> after.commands is Idle
            &&& after.commands matches CommandsState::Selecting { highlighted, .. } ==> highlighted
                is None
            &&& after.text.selected is None
        }),
{
}

/// Completing a word into an empty line gives the word followed by `": "`,
/// or by a space when it is a channel.
pub proof fn law_complete_empty_line(next: Seq<char>, chantypes: Seq<char>)
    ensures
        completed_input(EntryModel::Text(next), seq![], chantypes) == if next.len() > 0
            && chantypes.contains(next[0]) {
            next + seq![' ']
        } else {
            next + ": "@
        },
{
    assert(trim_colon_space(seq![]) =~= Seq::<char>::empty());
    assert(words(Seq::<char>::empty()) =~= Seq::<Seq<char>>::empty());
    assert(join_spaced(seq![next]) == next);
}

/// A completed word is always followed by a space.
pub proof fn law_completion_ends_with_space(next: Seq<char>, input: Seq<char>, chantypes: Seq<char>)
    ensures
        ({
            let out = completed_input(EntryModel::Text(next), input, chantypes);
            out.len() > 0 && out.last() == ' '
        }),
{
    reveal_strlit(": ");
}

/// Word completion after `k` tabs.
pub open spec fn text_tabbed(t: TextState, k: nat) -> TextState
    decreases k,
{
    if k == 0 {
        t
    } else {
        text_after_tab(text_tabbed(t, (k - 1) as nat), false)
    }
}

/// Where the selection stands in the cycle of tab: at its candidate, or
/// past the last one when there is none.
pub open spec fn text_position(t: TextState) -> nat {
    match t.selected {
        Some(i) => i,
        None => t.filtered.len(),
    }
}

proof fn lemma_text_tabbed(t: TextState, k: nat)
    requires
        text_wf(t),
        t.filtered.len() > 0,
    ensures
        text_tabbed(t, k).prompt == t.prompt,
        text_tabbed(t, k).filtered == t.filtered,
        text_wf(text_tabbed(t, k)),
        text_position(text_tabbed(t, k)) == (text_position(t) + k) % (t.filtered.len() + 1),
    decreases k,
{
    let n = (t.filtered.len() + 1) as int;
    if k == 0 {
        vstd::arithmetic::div_mod::lemma_small_mod(text_position(t), n as nat);
    } else {
        lemma_text_tabbed(t, (k - 1) as nat);
        let p = text_position(t) + k - 1;
        vstd::arithmetic::div_mod::lemma_mod_bound(p, n);
        vstd::arithmetic::div_mod::lemma_add_mod_noop(p, 1, n);
        vstd::arithmetic::div_mod::lemma_small_mod(1, n as nat);
        let q = p % n;
        if q + 1 < n {
            vstd::arithmetic::div_mod::lemma_small_mod((q + 1) as nat, n as nat);
        } else {
            vstd::arithmetic::div_mod::lemma_mod_self_0(n);
        }
    }
}

/// Tabbing once more than there are candidates comes back to the word
/// completion the tabbing started from.
pub proof fn law_text_tab_cycle(t: TextState)
    requires
        text_wf(t),
    ensures
        text_tabbed(t, t.filtered.len() + 1) == t,
{
    if t.filtered.len() > 0 {
        let n = (t.filtered.len() + 1) as int;
        lemma_text_tabbed(t, t.filtered.len() + 1);
        vstd::arithmetic::div_mod::lemma_add_mod_noop(text_position(t) as int, n, n);
        vstd::arithmetic::div_mod::lemma_mod_self_0(n);
        vstd::arithmetic::div_mod::lemma_small_mod(text_position(t), n as nat);
        let after = text_tabbed(t, t.filtered.len() + 1);
        assert(text_position(after) == text_position(t));
        assert(after.selected == t.selected);
    } else {
        lemma_text_tabbed_empty(t, t.filtered.len() + 1);
    }
}

proof fn lemma_text_tabbed_empty(t: TextState, k: nat)
    requires
        t.filtered.len() == 0,
    ensures
        text_tabbed(t, k) == t,
    decreases k,
{
    if k > 0 {
        lemma_text_tabbed_empty(t, (k - 1) as nat);
    }
}

} // verus!
