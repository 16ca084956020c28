//! What the command catalogue holds, stated independently of how it is built.

use vstd::prelude::*;
use crate::catalog::{
    chathistory_model, command_list, extra_of, extras, history_limit_note, parameter_command,
    TIMESTAMP_TOOLTIP,
};
use crate::command::{alias_of, CommandModel};
use crate::isupport::Parameter;

verus! {

/// The alias table: a lowercase title has the alias given here and no
/// other; titles not in the table have none.
pub proof fn law_alias_table(t: Seq<char>)
    ensures
        t == "join"@ ==> alias_of(t) == seq!["j"@],
        t == "me"@ ==> alias_of(t) == seq!["describe"@],
        t == "mode"@ ==> alias_of(t) == seq!["m"@],
        t == "part"@ ==> alias_of(t) == seq!["leave"@],
        t == "quit"@ ==> alias_of(t) == seq![""@],
        t == "topic"@ ==> alias_of(t) == seq!["t"@],
        t == "format"@ ==> alias_of(t) == seq!["f"@],
        t != "join"@ && t != "me"@ && t != "mode"@ && t != "part"@ && t != "quit"@ && t
            != "topic"@ && t != "format"@ ==> alias_of(t).len() == 0,
{
    reveal_strlit("join");
    reveal_strlit("me");
    reveal_strlit("mode");
    reveal_strlit("part");
    reveal_strlit("quit");
    reveal_strlit("topic");
    reveal_strlit("format");
    assert("me"@.len() != "join"@.len());
    assert("mode"@[0] != "join"@[0]);
    assert("mode"@[1] != "me"@[1]);
    assert("part"@[0] != "join"@[0] && "part"@[0] != "me"@[0] && "part"@[0] != "mode"@[0]);
    assert("quit"@[0] != "join"@[0] && "quit"@[0] != "me"@[0] && "quit"@[0] != "mode"@[0]
        && "quit"@[0] != "part"@[0]);
    assert("topic"@.len() != "join"@.len() && "topic"@.len() != "me"@.len() && "topic"@.len()
        != "mode"@.len() && "topic"@.len() != "part"@.len() && "topic"@.len() != "quit"@.len());
    assert("format"@.len() != "join"@.len() && "format"@.len() != "me"@.len() && "format"@.len()
        != "mode"@.len() && "format"@.len() != "part"@.len() && "format"@.len() != "quit"@.len()
        && "format"@.len() != "topic"@.len());
}

/// The titles every command list starts with, in order.
pub open spec fn catalogue_titles() -> Seq<Seq<char>> {
    seq![
        "JOIN"@,
        "MOTD"@,
        "NICK"@,
        "QUIT"@,
        "MSG"@,
        "WHOIS"@,
        "AWAY"@,
        "ME"@,
        "MODE"@,
        "PART"@,
        "TOPIC"@,
        "WHO"@,
        "NAMES"@,
        "KICK"@,
        "RAW"@,
        "FORMAT"@,
    ]
}

/// The titles of the commands that server parameters may add.
pub open spec fn is_added_title(t: Seq<char>) -> bool {
    t == "CHATHISTORY"@ || t == "MONITOR"@ || t == "LIST"@ || t == "KNOCK"@ || t == "USERIP"@
        || t == "CNOTICE"@ || t == "CPRIVMSG"@
}

proof fn lemma_extras_titles(is: Seq<Parameter>, n: int)
    ensures
        forall|i: int| 0 <= i < extras(is, n).len() ==> is_added_title(#[trigger] extras(is, n)[i].title),
    decreases n,
{
    if n > 0 {
        lemma_extras_titles(is, n - 1);
        let prev = extras(is, n - 1);
        match extra_of(is[n - 1], is) {
            Some(c) => {
                assert(is_added_title(c.title));
                assert forall|i: int| 0 <= i < extras(is, n).len() implies is_added_title(
                    #[trigger] extras(is, n)[i].title,
                ) by {
                    if i < prev.len() {
                        assert(extras(is, n)[i] == prev[i]);
                    }
                }
            },
            None => {},
        }
    }
}

/// Whatever the server advertises, the command list is the sixteen fixed
/// commands, in their order, followed only by commands that parameters add.
pub proof fn law_command_list_titles(is: Seq<Parameter>)
    ensures
        command_list(is).len() >= 16,
        forall|i: int| 0 <= i < 16 ==> #[trigger] command_list(is)[i].title == catalogue_titles()[i],
        forall|i: int|
            16 <= i < command_list(is).len() ==> is_added_title(#[trigger] command_list(is)[i].title),
{
    lemma_extras_titles(is, is.len() as int);
    let l = command_list(is);
    assert forall|i: int| 16 <= i < l.len() implies is_added_title(#[trigger] l[i].title) by {
        assert(l[i] == extras(is, is.len() as int)[i - 16]);
    }
}

/// CHATHISTORY has the subcommands AFTER, AROUND, BEFORE, BETWEEN, LATEST
/// and TARGETS, in that order. Each ends with its limit. AFTER, AROUND and
/// BEFORE take a target and one reference; BETWEEN takes a target and two
/// references; LATEST a target and one reference or `*`; TARGETS two
/// timestamps.
pub proof fn law_chathistory_subcommands(max: u16)
    ensures
        ({
            let c = chathistory_model(max);
            let ts = Some(TIMESTAMP_TOOLTIP@);
            let limit = Some(history_limit_note(max, "up to 1 message"@, " messages"@));
            &&& c.title == "CHATHISTORY"@
            &&& c.args.len() == 1
            &&& c.subcommands is Some
            &&& c.subcommands->0.len() == 6
            &&& c.subcommands->0[0].title == "CHATHISTORY AFTER"@
            &&& c.subcommands->0[1].title == "CHATHISTORY AROUND"@
            &&& c.subcommands->0[2].title == "CHATHISTORY BEFORE"@
            &&& c.subcommands->0[3].title == "CHATHISTORY BETWEEN"@
            &&& c.subcommands->0[4].title == "CHATHISTORY LATEST"@
            &&& c.subcommands->0[5].title == "CHATHISTORY TARGETS"@
            &&& forall|k: int|
                0 <= k < 6 ==> {
                    let s = #[trigger] c.subcommands->0[k];
                    &&& s.subcommands is None
                    &&& s.args.last().text == "limit"@
                    &&& !s.args.last().optional
                    &&& forall|m: int| 0 <= m < s.args.len() ==> !(#[trigger] s.args[m]).optional
                }
            &&& forall|k: int|
                0 <= k < 3 ==> {
                    let s = #[trigger] c.subcommands->0[k];
                    &&& s.args.len() == 3
                    &&& s.args[0].text == "target"@
                    &&& s.args[1].text == "timestamp | msgid"@
                    &&& s.args[1].tooltip == ts
                    &&& s.args[2].tooltip == limit
                }
            &&& c.subcommands->0[3].args.len() == 4
            &&& c.subcommands->0[3].args[0].text == "target"@
            &&& c.subcommands->0[3].args[1].text == "timestamp | msgid"@
            &&& c.subcommands->0[3].args[2].text == "timestamp | msgid"@
            &&& c.subcommands->0[3].args[1].tooltip == ts
            &&& c.subcommands->0[3].args[2].tooltip == ts
            &&& c.subcommands->0[3].args[3].tooltip == limit
            &&& c.subcommands->0[4].args.len() == 3
            &&& c.subcommands->0[4].args[0].text == "target"@
            &&& c.subcommands->0[4].args[1].text == "* | timestamp | msgid"@
            &&& c.subcommands->0[4].args[2].tooltip == limit
            &&& c.subcommands->0[5].args.len() == 3
            &&& c.subcommands->0[5].args[0].text == "timestamp"@
            &&& c.subcommands->0[5].args[1].text == "timestamp"@
            &&& c.subcommands->0[5].args[0].tooltip == ts
            &&& c.subcommands->0[5].args[1].tooltip == ts
            &&& c.subcommands->0[5].args[2].tooltip == Some(
                history_limit_note(max, "up to 1 target"@, " targets"@),
            )
        }),
{
    let c = chathistory_model(max);
    let subs = c.subcommands->0;
    assert forall|k: int| 0 <= k < 6 implies {
        let s = #[trigger] subs[k];
        &&& s.subcommands is None
        &&& s.args.last().text == "limit"@
        &&& !s.args.last().optional
        &&& forall|m: int| 0 <= m < s.args.len() ==> !(#[trigger] s.args[m]).optional
    } by {
        let s = subs[k];
        if k == 0 || k == 1 || k == 2 || k == 4 || k == 5 {
            assert(s.args.len() == 3);
        } else {
            assert(s.args.len() == 4);
        }
    }
}

} // verus!
