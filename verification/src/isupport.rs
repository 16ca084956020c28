//! The server's advertised ISUPPORT parameters that completion reads, and a
//! keyed store of them in which each kind of parameter occurs at most once.

use vstd::prelude::*;

verus! {

/// How a server folds the case of nicknames and channel names.
#[allow(non_camel_case_types)]
#[derive(Clone, Copy, Debug, PartialEq, Eq, Structural)]
pub enum CaseMap {
    ASCII,
    RFC1459,
    RFC1459_STRICT,
}

/// The case folding of one character under a case mapping.
pub open spec fn fold_char(casemap: CaseMap, c: char) -> char {
    if 'A' <= c && c <= 'Z' {
        ((c as u32) + 32) as char
    } else {
        match casemap {
            CaseMap::ASCII => c,
            CaseMap::RFC1459 => if c == '[' {
                '{'
            } else if c == ']' {
                '}'
            } else if c == '\\' {
                '|'
            } else if c == '~' {
                '^'
            } else {
                c
            },
            CaseMap::RFC1459_STRICT => if c == '[' {
                '{'
            } else if c == ']' {
                '}'
            } else if c == '\\' {
                '|'
            } else {
                c
            },
        }
    }
}

/// The case folding of a string under a case mapping, character by character.
pub open spec fn fold(casemap: CaseMap, s: Seq<char>) -> Seq<char> {
    s.map_values(|c: char| fold_char(casemap, c))
}

impl CaseMap {
    /// The mapping a server uses when it advertises none.
    pub fn default_map() -> (res: CaseMap)
        ensures
            res == CaseMap::RFC1459,
    {
        CaseMap::RFC1459
    }

    /// Folds one character.
    pub fn fold_char(&self, c: char) -> (res: char)
        ensures
            res == fold_char(*self, c),
    {
        if 'A' <= c && c <= 'Z' {
            let b: u8 = c as u8;
            assert(b == c as u32);
            (b + 32) as char
        } else {
            match self {
                CaseMap::ASCII => c,
                CaseMap::RFC1459 => {
                    if c == '[' {
                        '{'
                    } else if c == ']' {
                        '}'
                    } else if c == '\\' {
                        '|'
                    } else if c == '~' {
                        '^'
                    } else {
                        c
                    }
                },
                CaseMap::RFC1459_STRICT => {
                    if c == '[' {
                        '{'
                    } else if c == ']' {
                        '}'
                    } else if c == '\\' {
                        '|'
                    } else {
                        c
                    }
                },
            }
        }
    }

    /// Folds every character of `s`.
    pub fn normalize(&self, s: &Vec<char>) -> (res: Vec<char>)
        ensures
            res@ == fold(*self, s@),
    {
        let mut res: Vec<char> = Vec::new();
        let mut i: usize = 0;
        while i < s.len()
            invariant
                i <= s.len(),
                res@ =~= fold(*self, s@.subrange(0, i as int)),
            decreases s.len() - i,
        {
            res.push(self.fold_char(s[i]));
            i = i + 1;
        }
        assert(s@.subrange(0, s.len() as int) =~= s@);
        res
    }
}

/// The maximum number of targets a command accepts (TARGMAX).
#[derive(Debug)]
pub struct CommandTargetLimit {
    pub command: String,
    pub limit: Option<u16>,
}

/// How many channels of one prefix a client may join (CHANLIMIT).
#[derive(Clone, Copy, Debug)]
pub struct ChannelLimit {
    pub prefix: char,
    pub limit: Option<u16>,
}

/// The ISUPPORT parameters that completion looks at.
#[allow(non_camel_case_types)]
#[derive(Debug)]
pub enum Parameter {
    AWAYLEN(Option<u16>),
    CASEMAPPING(CaseMap),
    CHANLIMIT(Vec<ChannelLimit>),
    CHANNELLEN(u16),
    CHATHISTORY(u16),
    CNOTICE,
    CPRIVMSG,
    ELIST(String),
    KEYLEN(u16),
    KNOCK,
    MONITOR(Option<u16>),
    NICKLEN(u16),
    SAFELIST,
    STATUSMSG(Vec<char>),
    TARGMAX(Vec<CommandTargetLimit>),
    TOPICLEN(u16),
    USERIP,
    WHOX,
}

/// The key under which a parameter is stored: which parameter it is.
#[allow(non_camel_case_types)]
#[derive(Clone, Copy, Debug, PartialEq, Eq, Structural)]
pub enum Kind {
    AWAYLEN,
    CASEMAPPING,
    CHANLIMIT,
    CHANNELLEN,
    CHATHISTORY,
    CNOTICE,
    CPRIVMSG,
    ELIST,
    KEYLEN,
    KNOCK,
    MONITOR,
    NICKLEN,
    SAFELIST,
    STATUSMSG,
    TARGMAX,
    TOPICLEN,
    USERIP,
    WHOX,
}

/// The kind of a parameter.
pub open spec fn kind_of(p: Parameter) -> Kind {
    match p {
        Parameter::AWAYLEN(_) => Kind::AWAYLEN,
        Parameter::CASEMAPPING(_) => Kind::CASEMAPPING,
        Parameter::CHANLIMIT(_) => Kind::CHANLIMIT,
        Parameter::CHANNELLEN(_) => Kind::CHANNELLEN,
        Parameter::CHATHISTORY(_) => Kind::CHATHISTORY,
        Parameter::CNOTICE => Kind::CNOTICE,
        Parameter::CPRIVMSG => Kind::CPRIVMSG,
        Parameter::ELIST(_) => Kind::ELIST,
        Parameter::KEYLEN(_) => Kind::KEYLEN,
        Parameter::KNOCK => Kind::KNOCK,
        Parameter::MONITOR(_) => Kind::MONITOR,
        Parameter::NICKLEN(_) => Kind::NICKLEN,
        Parameter::SAFELIST => Kind::SAFELIST,
        Parameter::STATUSMSG(_) => Kind::STATUSMSG,
        Parameter::TARGMAX(_) => Kind::TARGMAX,
        Parameter::TOPICLEN(_) => Kind::TOPICLEN,
        Parameter::USERIP => Kind::USERIP,
        Parameter::WHOX => Kind::WHOX,
    }
}

impl Parameter {
    /// The kind of this parameter.
    pub fn kind(&self) -> (res: Kind)
        ensures
            res == kind_of(*self),
    {
        match self {
            Parameter::AWAYLEN(_) => Kind::AWAYLEN,
            Parameter::CASEMAPPING(_) => Kind::CASEMAPPING,
            Parameter::CHANLIMIT(_) => Kind::CHANLIMIT,
            Parameter::CHANNELLEN(_) => Kind::CHANNELLEN,
            Parameter::CHATHISTORY(_) => Kind::CHATHISTORY,
            Parameter::CNOTICE => Kind::CNOTICE,
            Parameter::CPRIVMSG => Kind::CPRIVMSG,
            Parameter::ELIST(_) => Kind::ELIST,
            Parameter::KEYLEN(_) => Kind::KEYLEN,
            Parameter::KNOCK => Kind::KNOCK,
            Parameter::MONITOR(_) => Kind::MONITOR,
            Parameter::NICKLEN(_) => Kind::NICKLEN,
            Parameter::SAFELIST => Kind::SAFELIST,
            Parameter::STATUSMSG(_) => Kind::STATUSMSG,
            Parameter::TARGMAX(_) => Kind::TARGMAX,
            Parameter::TOPICLEN(_) => Kind::TOPICLEN,
            Parameter::USERIP => Kind::USERIP,
            Parameter::WHOX => Kind::WHOX,
        }
    }
}

/// No kind of parameter occurs twice.
pub open spec fn distinct_kinds(s: Seq<Parameter>) -> bool {
    forall|i: int, j: int|
        0 <= i < s.len() && 0 <= j < s.len() && i != j ==> kind_of(#[trigger] s[i]) != kind_of(
            #[trigger] s[j],
        )
}

/// The parameter of kind `k` in `s`: the first one, which under
/// `distinct_kinds` is the only one.
pub open spec fn lookup(s: Seq<Parameter>, k: Kind) -> Option<Parameter>
    decreases s.len(),
{
    if s.len() == 0 {
        None
    } else if kind_of(s[0]) == k {
        Some(s[0])
    } else {
        lookup(s.drop_first(), k)
    }
}

/// `lookup` finds a parameter of `s` of the asked kind, and finds one
/// whenever `s` holds one.
pub proof fn lemma_lookup(s: Seq<Parameter>, k: Kind)
    ensures
        lookup(s, k) matches Some(p) ==> kind_of(p) == k && s.contains(p),
        lookup(s, k) is None <==> forall|i: int| 0 <= i < s.len() ==> kind_of(#[trigger] s[i])
            != k,
    decreases s.len(),
{
    if s.len() > 0 && kind_of(s[0]) != k {
        lemma_lookup(s.drop_first(), k);
        if lookup(s, k) is Some {
            let p = lookup(s, k)->0;
            let j = choose|j: int| 0 <= j < s.drop_first().len() && s.drop_first()[j] == p;
            assert(s[j + 1] == p);
        }
        assert((forall|i: int| 0 <= i < s.len() ==> kind_of(#[trigger] s[i]) != k) <==> (
        forall|i: int| 0 <= i < s.drop_first().len() ==> kind_of(#[trigger] s.drop_first()[i])
            != k)) by {
            if forall|i: int| 0 <= i < s.drop_first().len() ==> kind_of(
                #[trigger] s.drop_first()[i],
            ) != k {
                assert forall|i: int| 0 <= i < s.len() implies kind_of(#[trigger] s[i]) != k by {
                    if i > 0 {
                        assert(s[i] == s.drop_first()[i - 1]);
                    }
                }
            }
        }
    } else if s.len() > 0 {
        assert(s[0] == s[0]);
    }
}

/// Under `distinct_kinds`, the parameter at position `i` is what `lookup`
/// finds for its kind.
pub proof fn lemma_lookup_at(s: Seq<Parameter>, i: int)
    requires
        distinct_kinds(s),
        0 <= i < s.len(),
    ensures
        lookup(s, kind_of(s[i])) == Some(s[i]),
    decreases i,
{
    if i > 0 {
        assert(kind_of(s[0]) != kind_of(s[i]));
        assert(s.drop_first()[i - 1] == s[i]);
        assert forall|a: int, b: int|
            0 <= a < s.drop_first().len() && 0 <= b < s.drop_first().len() && a != b implies kind_of(
            #[trigger] s.drop_first()[a],
        ) != kind_of(#[trigger] s.drop_first()[b]) by {
            assert(s.drop_first()[a] == s[a + 1]);
            assert(s.drop_first()[b] == s[b + 1]);
        }
        lemma_lookup_at(s.drop_first(), i - 1);
    }
}

/// Position of the first parameter of kind `k` in `s`, or `s.len()`.
pub open spec fn kind_index(s: Seq<Parameter>, k: Kind) -> nat
    decreases s.len(),
{
    if s.len() == 0 {
        0
    } else if kind_of(s[0]) == k {
        0
    } else {
        1 + kind_index(s.drop_first(), k)
    }
}

/// `kind_index` is the least position of kind `k`, or the length.
pub proof fn lemma_kind_index(s: Seq<Parameter>, k: Kind)
    ensures
        kind_index(s, k) <= s.len(),
        forall|j: int| 0 <= j < kind_index(s, k) ==> kind_of(#[trigger] s[j]) != k,
        kind_index(s, k) < s.len() ==> kind_of(s[kind_index(s, k) as int]) == k,
    decreases s.len(),
{
    if s.len() > 0 && kind_of(s[0]) != k {
        lemma_kind_index(s.drop_first(), k);
        assert forall|j: int| 0 <= j < kind_index(s, k) implies kind_of(#[trigger] s[j]) != k by {
            if j > 0 {
                assert(s[j] == s.drop_first()[j - 1]);
            }
        }
    }
}

/// Any position with the properties of `kind_index` is `kind_index`.
pub proof fn lemma_kind_index_unique(s: Seq<Parameter>, k: Kind, r: int)
    requires
        0 <= r <= s.len(),
        forall|j: int| 0 <= j < r ==> kind_of(#[trigger] s[j]) != k,
        r < s.len() ==> kind_of(s[r]) == k,
    ensures
        kind_index(s, k) == r,
{
    lemma_kind_index(s, k);
    let f = kind_index(s, k) as int;
    if f < r {
        assert(kind_of(s[f]) == k);
    } else if r < f {
        assert(kind_of(s[r]) != k);
    }
}

/// The parameters after `p` is stored: it takes the place of the parameter
/// of its kind, or goes at the end when there is none.
pub open spec fn inserted(s: Seq<Parameter>, p: Parameter) -> Seq<Parameter> {
    let i = kind_index(s, kind_of(p));
    if i < s.len() {
        s.update(i as int, p)
    } else {
        s.push(p)
    }
}

/// The advertised parameters, keyed by their kind; the order is the one in
/// which they are walked.
#[derive(Debug)]
pub struct Isupport {
    params: Vec<Parameter>,
}

impl Isupport {
    /// The parameters in the order in which they are walked.
    pub closed spec fn params(&self) -> Seq<Parameter> {
        self.params@
    }

    /// No kind occurs twice.
    pub open spec fn wf(&self) -> bool {
        distinct_kinds(self.params())
    }

    /// No parameters.
    pub fn new() -> (res: Isupport)
        ensures
            res.wf(),
            res.params() == Seq::<Parameter>::empty(),
    {
        Isupport { params: Vec::new() }
    }

    /// Number of parameters held.
    pub fn len(&self) -> (res: usize)
        ensures
            res == self.params().len(),
    {
        self.params.len()
    }

    /// The parameter at position `i` of the walk.
    pub fn at(&self, i: usize) -> (res: &Parameter)
        requires
            i < self.params().len(),
        ensures
            *res == self.params()[i as int],
    {
        &self.params[i]
    }

    /// The parameter stored under kind `k`, if any.
    pub fn get(&self, k: Kind) -> (res: Option<&Parameter>)
        ensures
            match res {
                Some(p) => lookup(self.params(), k) == Some(*p),
                None => lookup(self.params(), k) is None,
            },
    {
        let mut i: usize = 0;
        assert(self.params@.subrange(0, self.params@.len() as int) =~= self.params@);
        while i < self.params.len()
            invariant
                i <= self.params@.len(),
                lookup(self.params@, k) == lookup(
                    self.params@.subrange(i as int, self.params@.len() as int),
                    k,
                ),
            decreases self.params@.len() - i,
        {
            let ghost rest = self.params@.subrange(i as int, self.params@.len() as int);
            if self.params[i].kind() == k {
                assert(rest[0] == self.params@[i as int]);
                return Some(&self.params[i]);
            }
            assert(rest.drop_first() =~= self.params@.subrange(
                i + 1,
                self.params@.len() as int,
            ));
            i = i + 1;
        }
        None
    }

    /// Stores `p` under its kind: in place of the parameter of that kind,
    /// or at the end of the walk when there is none.
    pub fn insert(&mut self, p: Parameter)
        requires
            old(self).wf(),
        ensures
            final(self).wf(),
            final(self).params() == inserted(old(self).params(), p),
    {
        let k = p.kind();
        let mut i: usize = 0;
        while i < self.params.len()
            invariant
                i <= self.params@.len(),
                self.params@ == old(self).params@,
                old(self).wf(),
                k == kind_of(p),
                forall|j: int| 0 <= j < i ==> kind_of(self.params@[j]) != k,
            decreases self.params@.len() - i,
        {
            if self.params[i].kind() == k {
                proof {
                    lemma_kind_index_unique(old(self).params@, k, i as int);
                }
                let ghost pv = p;
                self.params.set(i, p);
                assert(self.params@ == old(self).params@.update(i as int, pv));
                assert(kind_of(old(self).params@[i as int]) == kind_of(pv));
                assert forall|a: int, b: int|
                    0 <= a < self.params@.len() && 0 <= b < self.params@.len() && a != b implies kind_of(
                    #[trigger] self.params@[a],
                ) != kind_of(#[trigger] self.params@[b]) by {
                    if a != i && b != i {
                        assert(self.params@[a] == old(self).params@[a]);
                        assert(self.params@[b] == old(self).params@[b]);
                    } else if a == i {
                        assert(self.params@[b] == old(self).params@[b]);
                    } else {
                        assert(self.params@[a] == old(self).params@[a]);
                    }
                }
                return;
            }
            i = i + 1;
        }
        proof {
            lemma_kind_index_unique(old(self).params@, k, i as int);
        }
        self.params.push(p);
        assert forall|a: int, b: int|
            0 <= a < self.params@.len() && 0 <= b < self.params@.len() && a != b implies kind_of(
            #[trigger] self.params@[a],
        ) != kind_of(#[trigger] self.params@[b]) by {
            if a < old(self).params@.len() && b < old(self).params@.len() {
                assert(self.params@[a] == old(self).params@[a]);
                assert(self.params@[b] == old(self).params@[b]);
            } else if a < old(self).params@.len() {
                assert(self.params@[a] == old(self).params@[a]);
            } else {
                assert(self.params@[b] == old(self).params@[b]);
            }
        }
    }
}

} // verus!
