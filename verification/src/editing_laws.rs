//! What word completion offers for the word being typed, and how a chosen
//! word rewrites the line, stated over the words of the input.

use vstd::prelude::*;
use crate::completion::{completed_input, EntryModel};
use crate::isupport::{fold, CaseMap};
use crate::laws::law_offered_channels;
use crate::strings::{
    after_last, first_index, is_unicode_space, join_spaced, last_index, lemma_first_index_unique,
    starts_with, trim_colon_space, words,
};
use crate::text::text_after_process;

verus! {

proof fn lemma_last_index(s: Seq<char>, c: char)
    ensures
        -1 <= last_index(s, c) < s.len(),
        last_index(s, c) >= 0 ==> s[last_index(s, c)] == c,
        forall|j: int| last_index(s, c) < j < s.len() ==> s[j] != c,
    decreases s.len(),
{
    if s.len() > 0 && s.last() != c {
        lemma_last_index(s.drop_last(), c);
        assert forall|j: int| last_index(s, c) < j < s.len() implies s[j] != c by {
            if j < s.len() - 1 {
                assert(s[j] == s.drop_last()[j]);
            }
        }
    }
}

/// The word being typed is what follows the last space of the input.
proof fn lemma_typed_word(pre: Seq<char>, w: Seq<char>)
    requires
        !w.contains(' '),
        pre.len() == 0 || pre.last() == ' ',
    ensures
        after_last(pre + w, ' ') == w,
{
    let s = pre + w;
    lemma_last_index(s, ' ');
    let r = last_index(s, ' ');
    let p = pre.len() - 1;
    if r > p {
        assert(s[r] == w[r - pre.len()]);
    } else if r < p {
        assert(s[p] == pre[p]);
    }
    assert(s.subrange(pre.len() as int, s.len() as int) =~= w);
}

/// When the word being typed holds a `#`, what follows its first `#` is the
/// channel name being completed: the prompt is `#` and that name, and the
/// channels offered are exactly the known channels that start with `#` and
/// the name folded by the server's case mapping.
pub proof fn law_channel_completion(
    pre: Seq<char>,
    a: Seq<char>,
    r: Seq<char>,
    casemap: CaseMap,
    users: Seq<Seq<char>>,
    channels: Seq<Seq<char>>,
)
    requires
        pre.len() == 0 || pre.last() == ' ',
        !a.contains(' '),
        !a.contains('#'),
        !r.contains(' '),
    ensures
        ({
            let t = text_after_process(pre + (a + seq!['#'] + r), casemap, users, channels);
            &&& t.prompt == seq!['#'] + r
            &&& t.selected is None
            &&& forall|c: Seq<char>|
                t.filtered.contains(c) <==> (channels.contains(c) && starts_with(
                    c,
                    seq!['#'] + fold(casemap, r),
                ))
        }),
{
    let w = a + seq!['#'] + r;
    assert forall|i: int| 0 <= i < w.len() implies w[i] != ' ' by {
        if i < a.len() {
            assert(w[i] == a[i]);
            assert(a.contains(a[i]));
        } else if i > a.len() {
            assert(w[i] == r[i - a.len() - 1]);
            assert(r.contains(r[i - a.len() - 1]));
        }
    }
    lemma_typed_word(pre, w);
    assert forall|i: int| 0 <= i < a.len() implies w[i] != '#' by {
        assert(w[i] == a[i]);
        assert(a.contains(a[i]));
    }
    lemma_first_index_unique(w, '#', a.len() as int);
    assert(w.subrange(a.len() + 1 as int, w.len() as int) =~= r);
    law_offered_channels(channels, seq!['#'] + fold(casemap, r));
}

/// No word of `ws` is empty or holds whitespace.
pub open spec fn plain_words(ws: Seq<Seq<char>>) -> bool {
    forall|i: int|
        0 <= i < ws.len() ==> (#[trigger] ws[i]).len() > 0 && forall|j: int|
            0 <= j < ws[i].len() ==> !is_unicode_space(ws[i][j])
}

proof fn lemma_words_plain(s: Seq<char>)
    ensures
        plain_words(words(s)),
    decreases s.len(),
{
    if s.len() > 0 {
        lemma_words_plain(s.drop_last());
        let w = words(s.drop_last());
        if is_unicode_space(s.last()) {
        } else if s.len() >= 2 && !is_unicode_space(s[s.len() - 2]) {
            lemma_words_nonempty(s.drop_last());
            let v = w.update(w.len() - 1, w.last().push(s.last()));
            assert forall|i: int| 0 <= i < v.len() implies (#[trigger] v[i]).len() > 0 && forall|
                j: int,
            | 0 <= j < v[i].len() ==> !is_unicode_space(v[i][j]) by {
                if i == w.len() - 1 {
                    assert forall|j: int| 0 <= j < v[i].len() implies !is_unicode_space(v[i][j]) by {
                        if j < w.last().len() {
                            assert(v[i][j] == w[i][j]);
                        }
                    }
                } else {
                    assert(v[i] == w[i]);
                }
            }
        } else {
            let v = w.push(seq![s.last()]);
            assert forall|i: int| 0 <= i < v.len() implies (#[trigger] v[i]).len() > 0 && forall|
                j: int,
            | 0 <= j < v[i].len() ==> !is_unicode_space(v[i][j]) by {
                if i < w.len() {
                    assert(v[i] == w[i]);
                }
            }
        }
    }
}

/// A sequence ending in a character that is not whitespace has a word.
proof fn lemma_words_nonempty(s: Seq<char>)
    requires
        s.len() > 0,
        !is_unicode_space(s.last()),
    ensures
        words(s).len() > 0,
    decreases s.len(),
{
    if s.len() >= 2 && !is_unicode_space(s[s.len() - 2]) {
        lemma_words_nonempty(s.drop_last());
    }
}

/// Appending a word after a space (or at the start) adds it as a new word.
proof fn lemma_words_append(y: Seq<char>, w: Seq<char>)
    requires
        y.len() == 0 || is_unicode_space(y.last()),
        w.len() > 0,
        forall|j: int| 0 <= j < w.len() ==> !is_unicode_space(w[j]),
    ensures
        words(y + w) == words(y).push(w),
    decreases w.len(),
{
    let s = y + w;
    assert(s.drop_last() =~= y + w.drop_last());
    assert(s.last() == w.last());
    if w.len() == 1 {
        assert(y + w.drop_last() =~= y);
        if s.len() >= 2 {
            assert(s[s.len() - 2] == y.last());
        }
        assert(seq![s.last()] =~= w);
    } else {
        lemma_words_append(y, w.drop_last());
        assert(s[s.len() - 2] == w[w.len() - 2]);
        let prev = words(y).push(w.drop_last());
        assert(w.drop_last().push(w.last()) =~= w);
        assert(prev.update(prev.len() - 1, prev.last().push(s.last())) =~= words(y).push(w));
    }
}

/// Splitting joined plain words gives them back.
proof fn lemma_words_join(ws: Seq<Seq<char>>)
    requires
        plain_words(ws),
    ensures
        words(join_spaced(ws)) == ws,
    decreases ws.len(),
{
    if ws.len() == 0 {
    } else if ws.len() == 1 {
        lemma_words_append(seq![], ws[0]);
        assert(Seq::<char>::empty() + ws[0] =~= ws[0]);
        assert(words(Seq::<char>::empty()).push(ws[0]) =~= ws);
    } else {
        let init = ws.drop_last();
        assert forall|i: int| 0 <= i < init.len() implies (#[trigger] init[i]).len() > 0 && forall|
            j: int,
        | 0 <= j < init[i].len() ==> !is_unicode_space(init[i][j]) by {
            assert(init[i] == ws[i]);
        }
        lemma_words_join(init);
        let y = join_spaced(init) + seq![' '];
        assert(y.drop_last() =~= join_spaced(init));
        assert(words(y) == words(join_spaced(init)));
        lemma_words_append(y, ws.last());
        assert(init.push(ws.last()) =~= ws);
    }
}

/// Completing a plain word rewrites the line as follows: the words of the
/// line (after trailing `": "` are removed) stay, but for the last one,
/// which becomes the completed word; an empty line gets it as its only word.
/// When that word is alone and not a channel, `": "` follows it, so its last
/// word reads with a colon; otherwise a space follows it.
pub proof fn law_completion_replaces_last_word(next: Seq<char>, input: Seq<char>, chantypes: Seq<char>)
    requires
        next.len() > 0,
        forall|j: int| 0 <= j < next.len() ==> !is_unicode_space(next[j]),
    ensures
        ({
            let before = words(trim_colon_space(input));
            let after = words(completed_input(EntryModel::Text(next), input, chantypes));
            let alone = before.len() <= 1 && !chantypes.contains(next[0]);
            &&& after.len() == if before.len() > 0 {
                before.len()
            } else {
                1
            }
            &&& forall|i: int| 0 <= i < before.len() - 1 ==> after[i] == before[i]
            &&& after.last() == if alone {
                next + seq![':']
            } else {
                next
            }
        }),
{
    reveal_strlit(": ");
    let before = words(trim_colon_space(input));
    lemma_words_plain(trim_colon_space(input));
    let replaced = if before.len() > 0 {
        before.update(before.len() - 1, next)
    } else {
        seq![next]
    };
    assert forall|i: int| 0 <= i < replaced.len() implies (#[trigger] replaced[i]).len() > 0 && forall|
        j: int,
    | 0 <= j < replaced[i].len() ==> !is_unicode_space(replaced[i][j]) by {
        if before.len() > 0 && i < before.len() - 1 {
            assert(replaced[i] == before[i]);
        }
    }
    let joined = join_spaced(replaced);
    let alone = replaced.len() == 1 && !chantypes.contains(next[0]);
    let out = completed_input(EntryModel::Text(next), input, chantypes);
    if alone {
        assert(joined == next);
        let nc = next + seq![':'];
        assert forall|j: int| 0 <= j < nc.len() implies !is_unicode_space(nc[j]) by {
            if j < next.len() {
                assert(nc[j] == next[j]);
            }
        }
        assert(out =~= nc + seq![' ']);
        assert((nc + seq![' ']).drop_last() =~= nc);
        lemma_words_append(seq![], nc);
        assert(Seq::<char>::empty() + nc =~= nc);
        assert(words(out) == seq![nc]);
    } else {
        lemma_words_join(replaced);
        assert(out =~= joined + seq![' ']);
        assert((joined + seq![' ']).drop_last() =~= joined);
        assert(words(out) == replaced);
    }
}

} // verus!
