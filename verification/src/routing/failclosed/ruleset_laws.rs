//! What a reader finds in the rulesets' texts.
//!
//! A ruleset is loaded as text, so its meaning is what the packet filter reads there.
//! The readers here take a line apart by the filter's own words, and the laws say
//! that every rule reads back as it was meant, and that every ruleset is made of the
//! lines of its rules.

use vstd::prelude::*;
use crate::ip::IpAddr;
use crate::reading::{
    a_numeral_reads_back, an_address_text_shows_its_family, fields, free_of, lemma_fields_join, lemma_fields_some,
    lemma_one_field, number,
};
use crate::routing::failclosed::pf_rules::{
    lockdown_rules, lockdown_ruleset, newline_ended, passes, passes_from, restore_ruleset, rule_lines,
    transient_rules, transient_ruleset, Packet, PfRuleView, PfVerb, LOCKDOWN_PF_LABEL,
};
use crate::text::numeral;

verus! {

pub type Words = Seq<Seq<char>>;

/// A rule as it is read.
pub struct ReadRule {
    pub verb: PfVerb,
    pub inbound: bool,
    pub quick: bool,
    pub on: Option<Seq<char>>,
    pub inet6: bool,
    pub tcp: bool,
    /// The destination's text; `None` is everything.
    pub to: Option<Seq<char>>,
    pub port: Option<int>,
    pub stateless: bool,
    pub label: Option<Seq<char>>,
}

/// The first word is `key`, and it is passed over.
pub open spec fn read_flag(w: Words, key: Seq<char>) -> (bool, Words) {
    if w.len() > 0 && w[0] == key {
        (true, w.skip(1))
    } else {
        (false, w)
    }
}

/// The first word is `key`, and the second is its value.
pub open spec fn read_value(w: Words, key: Seq<char>) -> (Option<Seq<char>>, Words) {
    if w.len() > 1 && w[0] == key {
        (Some(w[1]), w.skip(2))
    } else {
        (None, w)
    }
}

pub open spec fn read_verb(w: Words) -> (PfVerb, Words) {
    if w[0] == "pass"@ {
        (PfVerb::Pass, w.skip(1))
    } else if w.len() > 1 && w[1] == "drop"@ {
        (PfVerb::BlockDrop, w.skip(2))
    } else {
        (PfVerb::Block, w.skip(1))
    }
}

/// Where the packets go: the address text and the port.
pub open spec fn read_target(w: Words) -> (Option<Seq<char>>, Option<int>, Words) {
    if w[0] == "all"@ {
        (None, None, w.skip(1))
    } else {
        let (port, rest) = read_value(w.skip(4), "port"@);
        (Some(w[3]), match port {
            Some(digits) => Some(number(digits, 10)),
            None => None,
        }, rest)
    }
}

/// A rule's words in the order the packet filter takes them.
pub open spec fn read_words(w: Words) -> (ReadRule, Words) {
    let (verb, w1) = read_verb(w);
    let (inbound, _) = read_flag(w1, "in"@);
    let (quick, w2) = read_flag(w1.skip(1), "quick"@);
    let (on, w3) = read_value(w2, "on"@);
    let (inet6, w4) = read_flag(w3, "inet6"@);
    let (proto, w5) = read_value(w4, "proto"@);
    let (to, port, w6) = read_target(w5);
    let (no, w7) = read_value(w6, "no"@);
    let (label, w8) = read_value(w7, "label"@);
    (
        ReadRule {
            verb,
            inbound,
            quick,
            on,
            inet6,
            tcp: proto == Some("tcp"@),
            to,
            port,
            stateless: no == Some("state"@),
            label,
        },
        w8,
    )
}

/// A line is one rule and a newline, and every word of it is read.
pub open spec fn reads_as(line: Seq<char>, rule: ReadRule) -> bool {
    &&& line.len() > 0 && line.last() == '\n'
    &&& free_of(line.drop_last(), '\n')
    &&& read_words(fields(line.drop_last(), ' ')).0 == rule
    &&& read_words(fields(line.drop_last(), ' ')).1.len() == 0
}

/// What a reader should find: the rule's own parts.
pub open spec fn meant(r: PfRuleView) -> ReadRule {
    ReadRule {
        verb: r.verb,
        inbound: r.inbound,
        quick: r.quick,
        on: r.on,
        inet6: r.inet6,
        tcp: r.to matches Some(t) && t.tcp,
        to: match r.to {
            Some(t) => Some(t.ip.text()),
            None => None,
        },
        port: match r.to {
            Some(t) => match t.port {
                Some(port) => Some(port as int),
                None => None,
            },
            None => None,
        },
        stateless: r.stateless,
        label: if r.labelled {
            Some("\"hole-lockdown\""@)
        } else {
            None
        },
    }
}

/// The text is these words, each behind a space.
spec fn spells(p: Seq<char>, w: Words) -> bool {
    if p.len() == 0 {
        w.len() == 0
    } else {
        p[0] == ' ' && fields(p.skip(1), ' ') == w
    }
}

proof fn lemma_spells_behind(a: Seq<char>, p: Seq<char>, w: Words)
    requires
        spells(p, w),
    ensures
        fields(a + p, ' ') == fields(a, ' ') + w,
{
    if p.len() == 0 {
        assert(a + p =~= a);
        assert(fields(a, ' ') + w =~= fields(a, ' '));
    } else {
        lemma_fields_join(a, p.skip(1), ' ');
        assert(a + p =~= a.push(' ') + p.skip(1));
    }
}

proof fn lemma_spells_both(p: Seq<char>, v: Words, q: Seq<char>, w: Words)
    requires
        spells(p, v),
        spells(q, w),
    ensures
        spells(p + q, v + w),
{
    if p.len() == 0 {
        assert(p + q =~= q);
        assert(v + w =~= w);
    } else {
        lemma_spells_behind(p.skip(1), q, w);
        assert((p + q).skip(1) =~= p.skip(1) + q);
    }
}

proof fn lemma_spells_word(s: Seq<char>, w: Seq<char>)
    requires
        free_of(w, ' '),
        s == seq![' '] + w,
    ensures
        spells(s, seq![w]),
{
    lemma_one_field(w, ' ');
    assert(s.skip(1) =~= w);
}

/// The words that rules are written in.
proof fn lemma_keywords()
    ensures
        "pass"@ == seq!['p', 'a', 's', 's'],
        "block"@ == seq!['b', 'l', 'o', 'c', 'k'],
        "drop"@ == seq!['d', 'r', 'o', 'p'],
        "in"@ == seq!['i', 'n'],
        "out"@ == seq!['o', 'u', 't'],
        "quick"@ == seq!['q', 'u', 'i', 'c', 'k'],
        "on"@ == seq!['o', 'n'],
        "inet6"@ == seq!['i', 'n', 'e', 't', '6'],
        "proto"@ == seq!['p', 'r', 'o', 't', 'o'],
        "tcp"@ == seq!['t', 'c', 'p'],
        "all"@ == seq!['a', 'l', 'l'],
        "from"@ == seq!['f', 'r', 'o', 'm'],
        "any"@ == seq!['a', 'n', 'y'],
        "to"@ == seq!['t', 'o'],
        "port"@ == seq!['p', 'o', 'r', 't'],
        "no"@ == seq!['n', 'o'],
        "state"@ == seq!['s', 't', 'a', 't', 'e'],
        "label"@ == seq!['l', 'a', 'b', 'e', 'l'],
{
    reveal_strlit("pass");
    reveal_strlit("block");
    reveal_strlit("drop");
    reveal_strlit("in");
    reveal_strlit("out");
    reveal_strlit("quick");
    reveal_strlit("on");
    reveal_strlit("inet6");
    reveal_strlit("proto");
    reveal_strlit("tcp");
    reveal_strlit("all");
    reveal_strlit("from");
    reveal_strlit("any");
    reveal_strlit("to");
    reveal_strlit("port");
    reveal_strlit("no");
    reveal_strlit("state");
    reveal_strlit("label");
    assert("pass"@ =~= seq!['p', 'a', 's', 's']);
    assert("block"@ =~= seq!['b', 'l', 'o', 'c', 'k']);
    assert("drop"@ =~= seq!['d', 'r', 'o', 'p']);
    assert("in"@ =~= seq!['i', 'n']);
    assert("out"@ =~= seq!['o', 'u', 't']);
    assert("quick"@ =~= seq!['q', 'u', 'i', 'c', 'k']);
    assert("on"@ =~= seq!['o', 'n']);
    assert("inet6"@ =~= seq!['i', 'n', 'e', 't', '6']);
    assert("proto"@ =~= seq!['p', 'r', 'o', 't', 'o']);
    assert("tcp"@ =~= seq!['t', 'c', 'p']);
    assert("all"@ =~= seq!['a', 'l', 'l']);
    assert("from"@ =~= seq!['f', 'r', 'o', 'm']);
    assert("any"@ =~= seq!['a', 'n', 'y']);
    assert("to"@ =~= seq!['t', 'o']);
    assert("port"@ =~= seq!['p', 'o', 'r', 't']);
    assert("no"@ =~= seq!['n', 'o']);
    assert("state"@ =~= seq!['s', 't', 'a', 't', 'e']);
    assert("label"@ =~= seq!['l', 'a', 'b', 'e', 'l']);
}

spec fn verb_words(r: PfRuleView) -> Words {
    match r.verb {
        PfVerb::Pass => seq!["pass"@],
        PfVerb::Block => seq!["block"@],
        PfVerb::BlockDrop => seq!["block"@, "drop"@],
    }
}

spec fn direction_words(r: PfRuleView) -> Words {
    seq![if r.inbound { "in"@ } else { "out"@ }]
}

spec fn quick_words(r: PfRuleView) -> Words {
    if r.quick { seq!["quick"@] } else { seq![] }
}

spec fn on_words(r: PfRuleView) -> Words {
    match r.on {
        Some(name) => seq!["on"@, name],
        None => seq![],
    }
}

spec fn inet6_words(r: PfRuleView) -> Words {
    if r.inet6 { seq!["inet6"@] } else { seq![] }
}

spec fn proto_words(r: PfRuleView) -> Words {
    if r.to matches Some(t) && t.tcp { seq!["proto"@, "tcp"@] } else { seq![] }
}

spec fn to_words(r: PfRuleView) -> Words {
    match r.to {
        None => seq!["all"@],
        Some(t) => seq!["from"@, "any"@, "to"@, t.ip.text()],
    }
}

spec fn port_words(r: PfRuleView) -> Words {
    match r.to {
        Some(t) => match t.port {
            Some(port) => seq!["port"@, numeral(port as nat, 10)],
            None => seq![],
        },
        None => seq![],
    }
}

spec fn state_words(r: PfRuleView) -> Words {
    if r.stateless { seq!["no"@, "state"@] } else { seq![] }
}

spec fn label_words(r: PfRuleView) -> Words {
    if r.labelled { seq!["label"@, "\"hole-lockdown\""@] } else { seq![] }
}

proof fn lemma_two_words(s: Seq<char>, v: Seq<char>, w: Seq<char>)
    requires
        free_of(v, ' '),
        free_of(w, ' '),
        s == seq![' '] + v + seq![' '] + w,
    ensures
        spells(s, seq![v, w]),
{
    lemma_spells_word(seq![' '] + v, v);
    lemma_spells_word(seq![' '] + w, w);
    lemma_spells_both(seq![' '] + v, seq![v], seq![' '] + w, seq![w]);
    assert(s =~= (seq![' '] + v) + (seq![' '] + w));
    assert(seq![v] + seq![w] =~= seq![v, w]);
}

proof fn lemma_scope(r: PfRuleView)
    requires
        r.on matches Some(name) ==> free_of(name, ' '),
    ensures
        spells(r.scope_text(), direction_words(r) + quick_words(r) + on_words(r) + inet6_words(r)),
{
    lemma_keywords();
    reveal_strlit(" in");
    reveal_strlit(" out");
    reveal_strlit(" quick");
    reveal_strlit(" on ");
    reveal_strlit(" inet6");
    reveal_strlit("");
    let d = if r.inbound { " in"@ } else { " out"@ };
    let q = if r.quick { " quick"@ } else { ""@ };
    let o = match r.on {
        Some(name) => " on "@ + name,
        None => ""@,
    };
    let i = if r.inet6 { " inet6"@ } else { ""@ };
    assert(" in"@ =~= seq![' '] + "in"@);
    assert(" out"@ =~= seq![' '] + "out"@);
    assert(" quick"@ =~= seq![' '] + "quick"@);
    assert(" inet6"@ =~= seq![' '] + "inet6"@);
    lemma_spells_word(d, direction_words(r)[0]);
    assert(direction_words(r) =~= seq![direction_words(r)[0]]);
    if r.quick {
        lemma_spells_word(q, "quick"@);
    }
    if let Some(name) = r.on {
        assert(o =~= seq![' '] + "on"@ + seq![' '] + name);
        lemma_two_words(o, "on"@, name);
    }
    if r.inet6 {
        lemma_spells_word(i, "inet6"@);
    }
    assert(spells(q, quick_words(r)));
    assert(spells(o, on_words(r)));
    assert(spells(i, inet6_words(r)));
    lemma_spells_both(d, direction_words(r), q, quick_words(r));
    lemma_spells_both(d + q, direction_words(r) + quick_words(r), o, on_words(r));
    lemma_spells_both(d + q + o, direction_words(r) + quick_words(r) + on_words(r), i, inet6_words(r));
    assert(r.scope_text() == d + q + o + i);
}

proof fn lemma_target(r: PfRuleView)
    ensures
        spells(r.target_text(), proto_words(r) + to_words(r) + port_words(r)),
{
    lemma_keywords();
    reveal_strlit(" all");
    reveal_strlit(" proto tcp");
    reveal_strlit(" from any to ");
    reveal_strlit(" port ");
    reveal_strlit("");
    match r.to {
        None => {
            assert(" all"@ =~= seq![' '] + "all"@);
            lemma_spells_word(" all"@, "all"@);
            assert(proto_words(r) + to_words(r) + port_words(r) =~= seq!["all"@]);
        }
        Some(t) => {
            let p = if t.tcp { " proto tcp"@ } else { ""@ };
            let ip = t.ip.text();
            let f = " from any to "@ + ip;
            let n = match t.port {
                Some(port) => " port "@ + numeral(port as nat, 10),
                None => ""@,
            };
            assert(" proto tcp"@ =~= seq![' '] + "proto"@ + seq![' '] + "tcp"@);
            if t.tcp {
                lemma_two_words(p, "proto"@, "tcp"@);
            }
            an_address_text_shows_its_family(t.ip);
            let f1 = seq![' '] + "from"@ + seq![' '] + "any"@;
            let f2 = seq![' '] + "to"@ + seq![' '] + ip;
            lemma_two_words(f1, "from"@, "any"@);
            lemma_two_words(f2, "to"@, ip);
            lemma_spells_both(f1, seq!["from"@, "any"@], f2, seq!["to"@, ip]);
            assert(f =~= f1 + f2);
            assert(seq!["from"@, "any"@] + seq!["to"@, ip] =~= to_words(r));
            if let Some(port) = t.port {
                a_numeral_reads_back(port as nat, 10);
                assert(n =~= seq![' '] + "port"@ + seq![' '] + numeral(port as nat, 10));
                lemma_two_words(n, "port"@, numeral(port as nat, 10));
            }
            assert(spells(p, proto_words(r)));
            assert(spells(n, port_words(r)));
            lemma_spells_both(p, proto_words(r), f, to_words(r));
            lemma_spells_both(p + f, proto_words(r) + to_words(r), n, port_words(r));
            assert(r.target_text() =~= p + f + n);
        }
    }
}

proof fn lemma_options(r: PfRuleView)
    ensures
        spells(r.option_text(), state_words(r) + label_words(r)),
{
    lemma_keywords();
    reveal_strlit(" no state");
    reveal_strlit(" label \"");
    reveal_strlit("\"");
    reveal_strlit("hole-lockdown");
    reveal_strlit("\"hole-lockdown\"");
    reveal_strlit("");
    let s = if r.stateless { " no state"@ } else { ""@ };
    let l = if r.labelled { " label \""@ + LOCKDOWN_PF_LABEL@ + "\""@ } else { ""@ };
    assert(" no state"@ =~= seq![' '] + "no"@ + seq![' '] + "state"@);
    if r.stateless {
        lemma_two_words(s, "no"@, "state"@);
    }
    if r.labelled {
        assert(l =~= seq![' '] + "label"@ + seq![' '] + "\"hole-lockdown\""@);
        lemma_two_words(l, "label"@, "\"hole-lockdown\""@);
    }
    lemma_spells_both(s, state_words(r), l, label_words(r));
    assert(r.option_text() =~= s + l);
}

/// Every word of a rule's line.
spec fn all_words(r: PfRuleView) -> Words {
    verb_words(r) + (direction_words(r) + quick_words(r) + on_words(r) + inet6_words(r)) + (proto_words(r) + to_words(r)
        + port_words(r)) + (state_words(r) + label_words(r))
}

proof fn lemma_words(r: PfRuleView)
    requires
        r.on matches Some(name) ==> free_of(name, ' '),
    ensures
        r.line() == (r.verb_text() + r.scope_text() + r.target_text() + r.option_text()).push('\n'),
        fields(r.verb_text() + r.scope_text() + r.target_text() + r.option_text(), ' ') == all_words(r),
{
    lemma_keywords();
    reveal_strlit("\n");
    reveal_strlit("block drop");
    lemma_scope(r);
    lemma_target(r);
    lemma_options(r);
    let v = r.verb_text();
    match r.verb {
        PfVerb::Pass => lemma_one_field("pass"@, ' '),
        PfVerb::Block => lemma_one_field("block"@, ' '),
        PfVerb::BlockDrop => {
            lemma_one_field("block"@, ' ');
            lemma_one_field("drop"@, ' ');
            assert("block drop"@ =~= "block"@.push(' ') + "drop"@);
            lemma_fields_join("block"@, "drop"@, ' ');
            assert(seq!["block"@] + seq!["drop"@] =~= seq!["block"@, "drop"@]);
        }
    }
    assert(fields(v, ' ') =~= verb_words(r));
    let scope = direction_words(r) + quick_words(r) + on_words(r) + inet6_words(r);
    let target = proto_words(r) + to_words(r) + port_words(r);
    let options = state_words(r) + label_words(r);
    lemma_spells_behind(v, r.scope_text(), scope);
    lemma_spells_behind(v + r.scope_text(), r.target_text(), target);
    lemma_spells_behind(v + r.scope_text() + r.target_text(), r.option_text(), options);
    assert("\n"@ =~= seq!['\n']);
    assert(r.line() =~= (v + r.scope_text() + r.target_text() + r.option_text()).push('\n'));
}

proof fn lemma_free_both(a: Seq<char>, b: Seq<char>, c: char)
    requires
        free_of(a, c),
        free_of(b, c),
    ensures
        free_of(a + b, c),
{
}

proof fn lemma_one_line(r: PfRuleView)
    requires
        r.on matches Some(name) ==> free_of(name, '\n'),
    ensures
        free_of(r.verb_text() + r.scope_text() + r.target_text() + r.option_text(), '\n'),
{
    reveal_strlit("");
    reveal_strlit("pass");
    reveal_strlit("block");
    reveal_strlit("block drop");
    reveal_strlit(" in");
    reveal_strlit(" out");
    reveal_strlit(" quick");
    reveal_strlit(" on ");
    reveal_strlit(" inet6");
    reveal_strlit(" all");
    reveal_strlit(" proto tcp");
    reveal_strlit(" from any to ");
    reveal_strlit(" port ");
    reveal_strlit(" no state");
    reveal_strlit(" label \"");
    reveal_strlit("\"");
    reveal_strlit("hole-lockdown");
    assert(free_of(r.verb_text(), '\n'));
    assert(free_of(r.scope_text(), '\n'));
    if let Some(t) = r.to {
        an_address_text_shows_its_family(t.ip);
        let head = (if t.tcp { " proto tcp"@ } else { ""@ }) + " from any to "@ + t.ip.text();
        assert(free_of(head, '\n'));
        if let Some(port) = t.port {
            a_numeral_reads_back(port as nat, 10);
            assert(free_of(numeral(port as nat, 10), '\n'));
        }
    }
    assert(free_of(r.target_text(), '\n'));
    assert(free_of(r.option_text(), '\n'));
    lemma_free_both(r.verb_text(), r.scope_text(), '\n');
    lemma_free_both(r.verb_text() + r.scope_text(), r.target_text(), '\n');
    lemma_free_both(r.verb_text() + r.scope_text() + r.target_text(), r.option_text(), '\n');
}

proof fn lemma_read_verb(r: PfRuleView, rest: Words)
    requires
        rest.len() > 0,
        rest[0] != "drop"@,
    ensures
        read_verb(verb_words(r) + rest) == (r.verb, rest),
{
    lemma_keywords();
    let w = verb_words(r) + rest;
    assert("block"@.len() == 5 && "pass"@.len() == 4);
    match r.verb {
        PfVerb::Pass => assert(w.skip(1) =~= rest),
        PfVerb::Block => {
            assert(w[1] == rest[0]);
            assert(w.skip(1) =~= rest);
        }
        PfVerb::BlockDrop => assert(w.skip(2) =~= rest),
    }
}

proof fn lemma_read_flag(on: bool, key: Seq<char>, rest: Words)
    requires
        rest.len() > 0 ==> rest[0] != key,
    ensures
        read_flag((if on { seq![key] } else { seq![] }) + rest, key) == (on, rest),
{
    if on {
        assert((seq![key] + rest).skip(1) =~= rest);
    } else {
        assert(Seq::<Seq<char>>::empty() + rest =~= rest);
    }
}

proof fn lemma_read_value(value: Option<Seq<char>>, key: Seq<char>, rest: Words)
    requires
        rest.len() > 0 ==> rest[0] != key,
    ensures
        read_value(
            (match value {
                Some(v) => seq![key, v],
                None => seq![],
            }) + rest,
            key,
        ) == (value, rest),
{
    match value {
        Some(v) => assert((seq![key, v] + rest).skip(2) =~= rest),
        None => assert(Seq::<Seq<char>>::empty() + rest =~= rest),
    }
}

proof fn lemma_read_target(r: PfRuleView, rest: Words)
    requires
        rest.len() > 0 ==> rest[0] != "port"@,
    ensures
        read_target(to_words(r) + (port_words(r) + rest)) == (meant(r).to, meant(r).port, rest),
{
    let w = to_words(r) + (port_words(r) + rest);
    match r.to {
        None => {
            assert(w.skip(1) =~= rest);
        }
        Some(t) => {
            lemma_keywords();
            assert("all"@.len() == 3 && "from"@.len() == 4);
            assert(w[0] == "from"@);
            assert(w.skip(4) =~= port_words(r) + rest);
            match t.port {
                Some(port) => {
                    a_numeral_reads_back(port as nat, 10);
                    lemma_read_value(Some(numeral(port as nat, 10)), "port"@, rest);
                }
                None => lemma_read_value(None, "port"@, rest),
            }
        }
    }
}

/// The words that may come first in what is left tell the parts apart.
proof fn lemma_distinct()
    ensures
        "in"@ != "out"@,
        "in"@ != "drop"@,
        "out"@ != "drop"@,
        "quick"@ != "on"@,
        "quick"@ != "inet6"@,
        "quick"@ != "proto"@,
        "quick"@ != "all"@,
        "quick"@ != "from"@,
        "on"@ != "inet6"@,
        "on"@ != "proto"@,
        "on"@ != "all"@,
        "on"@ != "from"@,
        "inet6"@ != "proto"@,
        "inet6"@ != "all"@,
        "inet6"@ != "from"@,
        "proto"@ != "all"@,
        "proto"@ != "from"@,
        "port"@ != "no"@,
        "port"@ != "label"@,
        "no"@ != "label"@,
{
    lemma_keywords();
    assert("in"@.len() == 2 && "out"@.len() == 3 && "drop"@.len() == 4 && "quick"@.len() == 5 && "on"@.len() == 2);
    assert("inet6"@.len() == 5 && "proto"@.len() == 5 && "all"@.len() == 3 && "from"@.len() == 4);
    assert("port"@.len() == 4 && "no"@.len() == 2 && "label"@.len() == 5);
    assert("quick"@[0] == 'q' && "inet6"@[0] == 'i' && "proto"@[0] == 'p');
}

/// What is left of a rule's words once the parts before are read.
spec fn rest_words(r: PfRuleView, k: int) -> Words
    decreases 10 - k,
{
    if k == 1 {
        direction_words(r) + rest_words(r, 2)
    } else if k == 2 {
        quick_words(r) + rest_words(r, 3)
    } else if k == 3 {
        on_words(r) + rest_words(r, 4)
    } else if k == 4 {
        inet6_words(r) + rest_words(r, 5)
    } else if k == 5 {
        proto_words(r) + rest_words(r, 6)
    } else if k == 6 {
        to_words(r) + (port_words(r) + rest_words(r, 7))
    } else if k == 7 {
        state_words(r) + rest_words(r, 8)
    } else if k == 8 {
        label_words(r) + rest_words(r, 9)
    } else {
        seq![]
    }
}

proof fn lemma_rest_options(r: PfRuleView)
    ensures
        rest_words(r, 9) == Seq::<Seq<char>>::empty(),
        rest_words(r, 8) == label_words(r) + rest_words(r, 9),
        rest_words(r, 7) == state_words(r) + rest_words(r, 8),
        rest_words(r, 6) == to_words(r) + (port_words(r) + rest_words(r, 7)),
        rest_words(r, 8).len() > 0 ==> rest_words(r, 8)[0] == "label"@,
        rest_words(r, 7).len() > 0 ==> rest_words(r, 7)[0] == "no"@ || rest_words(r, 7)[0] == "label"@,
        rest_words(r, 6).len() > 0,
        rest_words(r, 6)[0] == "all"@ || rest_words(r, 6)[0] == "from"@,
{
    reveal_with_fuel(rest_words, 5);
}

proof fn lemma_rest_scope(r: PfRuleView)
    ensures
        rest_words(r, 5) == proto_words(r) + rest_words(r, 6),
        rest_words(r, 4) == inet6_words(r) + rest_words(r, 5),
        rest_words(r, 3) == on_words(r) + rest_words(r, 4),
        rest_words(r, 2) == quick_words(r) + rest_words(r, 3),
        rest_words(r, 1) == direction_words(r) + rest_words(r, 2),
        rest_words(r, 5).len() > 0,
        rest_words(r, 5)[0] == "proto"@ || rest_words(r, 5)[0] == rest_words(r, 6)[0],
        rest_words(r, 4).len() > 0,
        rest_words(r, 4)[0] == "inet6"@ || rest_words(r, 4)[0] == rest_words(r, 5)[0],
        rest_words(r, 3).len() > 0,
        rest_words(r, 3)[0] == "on"@ || rest_words(r, 3)[0] == rest_words(r, 4)[0],
        rest_words(r, 1).len() > 0,
        rest_words(r, 1)[0] == direction_words(r)[0],
        rest_words(r, 1).skip(1) == rest_words(r, 2),
{
    lemma_rest_options(r);
    assert(rest_words(r, 5) == proto_words(r) + rest_words(r, 6));
    assert(rest_words(r, 4) == inet6_words(r) + rest_words(r, 5));
    assert(rest_words(r, 3) == on_words(r) + rest_words(r, 4));
    assert(rest_words(r, 2) == quick_words(r) + rest_words(r, 3));
    assert(rest_words(r, 1) == direction_words(r) + rest_words(r, 2));
    assert(rest_words(r, 1).skip(1) =~= rest_words(r, 2));
}

proof fn lemma_nested(
    a: Words,
    b: Words,
    c: Words,
    d: Words,
    e: Words,
    f: Words,
    g: Words,
    h: Words,
    i: Words,
    j: Words,
)
    ensures
        a + (b + c + d + e) + (f + g + h) + (i + j) == a + (b + (c + (d + (e + (f + (g + (h + (i + (j
            + Seq::<Seq<char>>::empty()))))))))),
{
    let z = Seq::<Seq<char>>::empty();
    let k = i + (j + z);
    assert(i + j =~= k);
    let m = f + (g + (h + k));
    assert((f + g + h) + k =~= m);
    let n = b + (c + (d + (e + m)));
    assert((b + c + d + e) + m =~= n);
    assert(a + (b + c + d + e) + (f + g + h) + (i + j) =~= a + ((b + c + d + e) + ((f + g + h) + (i + j))));
}

#[verifier::rlimit(40)]
proof fn lemma_reads(r: PfRuleView)
    ensures
        read_words(all_words(r)).0 == meant(r),
        read_words(all_words(r)).1.len() == 0,
{
    lemma_distinct();
    lemma_rest_options(r);
    lemma_rest_scope(r);
    lemma_nested(
        verb_words(r),
        direction_words(r),
        quick_words(r),
        on_words(r),
        inet6_words(r),
        proto_words(r),
        to_words(r),
        port_words(r),
        state_words(r),
        label_words(r),
    );
    let w = all_words(r);
    assert(w == verb_words(r) + rest_words(r, 1));
    lemma_read_verb(r, rest_words(r, 1));
    lemma_read_flag(r.quick, "quick"@, rest_words(r, 3));
    lemma_read_value(r.on, "on"@, rest_words(r, 4));
    lemma_read_flag(r.inet6, "inet6"@, rest_words(r, 5));
    let tcp = r.to matches Some(t) && t.tcp;
    let proto: Option<Seq<char>> = if tcp { Some("tcp"@) } else { None };
    lemma_read_value(proto, "proto"@, rest_words(r, 6));
    lemma_read_target(r, rest_words(r, 7));
    let no: Option<Seq<char>> = if r.stateless { Some("state"@) } else { None };
    lemma_read_value(no, "no"@, rest_words(r, 8));
    let label: Option<Seq<char>> = if r.labelled { Some("\"hole-lockdown\""@) } else { None };
    lemma_read_value(label, "label"@, rest_words(r, 9));
    assert(read_verb(w) == (r.verb, rest_words(r, 1)));
    assert(read_flag(rest_words(r, 1), "in"@).0 == r.inbound);
    assert(read_flag(rest_words(r, 2), "quick"@) == (r.quick, rest_words(r, 3)));
    assert(read_value(rest_words(r, 3), "on"@) == (r.on, rest_words(r, 4)));
    assert(read_flag(rest_words(r, 4), "inet6"@) == (r.inet6, rest_words(r, 5)));
    assert(read_value(rest_words(r, 5), "proto"@) == (proto, rest_words(r, 6)));
    assert(read_target(rest_words(r, 6)) == (meant(r).to, meant(r).port, rest_words(r, 7)));
    assert(read_value(rest_words(r, 7), "no"@) == (no, rest_words(r, 8)));
    assert(read_value(rest_words(r, 8), "label"@) == (label, rest_words(r, 9)));
}

/// A rule reads back from its line as it was meant, whatever it permits or blocks:
/// the verb, the direction, the interface, the family, the protocol, the address of
/// either family, the port behind it, and the options. No word is left over.
pub proof fn a_rule_reads_back(r: PfRuleView)
    requires
        r.on matches Some(name) ==> free_of(name, ' ') && free_of(name, '\n'),
    ensures
        reads_as(r.line(), meant(r)),
{
    lemma_words(r);
    lemma_one_line(r);
    lemma_reads(r);
    let text = r.verb_text() + r.scope_text() + r.target_text() + r.option_text();
    assert(r.line().drop_last() =~= text);
}

/// Two rules that differ in a part have different lines: no part is lost in the text.
pub proof fn rules_that_differ_read_differently(a: PfRuleView, b: PfRuleView)
    requires
        a.on matches Some(name) ==> free_of(name, ' ') && free_of(name, '\n'),
        b.on matches Some(name) ==> free_of(name, ' ') && free_of(name, '\n'),
        a.line() == b.line(),
    ensures
        a.verb == b.verb,
        a.inbound == b.inbound,
        a.quick == b.quick,
        a.on == b.on,
        a.inet6 == b.inet6,
        a.to is Some <==> b.to is Some,
        a.to is Some ==> a.to->0.ip.text() == b.to->0.ip.text() && a.to->0.tcp == b.to->0.tcp && a.to->0.port
            == b.to->0.port,
        a.stateless == b.stateless,
        a.labelled == b.labelled,
{
    a_rule_reads_back(a);
    a_rule_reads_back(b);
    assert(meant(a) == meant(b));
}

/// Text reads as these rules, a line each and nothing else.
pub open spec fn reads_as_rules(text: Seq<char>, rules: Seq<PfRuleView>) -> bool {
    let f = fields(text, '\n');
    &&& f.len() == rules.len() + 1
    &&& f.last().len() == 0
    &&& forall|k: int| 0 <= k < rules.len() ==> reads_as((#[trigger] f[k]).push('\n'), meant(rules[k]))
}

/// The interface names in rules can be told from the words around them.
pub open spec fn plain_names(rules: Seq<PfRuleView>) -> bool {
    forall|k: int|
        0 <= k < rules.len() ==> ((#[trigger] rules[k]).on matches Some(name) ==> free_of(name, ' ') && free_of(
            name,
            '\n',
        ))
}

proof fn lemma_rule_lines(rules: Seq<PfRuleView>)
    requires
        plain_names(rules),
    ensures
        reads_as_rules(rule_lines(rules), rules),
        rules.len() > 0 ==> rule_lines(rules).len() > 0 && rule_lines(rules).last() == '\n',
    decreases rules.len(),
{
    let text = rule_lines(rules);
    if rules.len() == 0 {
        assert(text =~= seq![]);
        assert(fields(text, '\n') =~= seq![seq![]]);
    } else {
        let front = rules.drop_last();
        let a = rule_lines(front);
        assert(plain_names(front)) by {
            assert forall|k: int| 0 <= k < front.len() implies ((#[trigger] front[k]).on matches Some(name) ==> free_of(
                name,
                ' ',
            ) && free_of(name, '\n')) by {
                assert(front[k] == rules[k]);
            }
        }
        lemma_rule_lines(front);
        let r = rules.last();
        assert(r == rules[rules.len() - 1]);
        a_rule_reads_back(r);
        let b = r.line().drop_last();
        assert(r.line() =~= b.push('\n'));
        lemma_one_field(b, '\n');
        assert(text =~= (a + b).push('\n'));
        assert(text.drop_last() =~= a + b);
        if a.len() == 0 {
            assert(front.len() == 0);
            assert(a + b =~= b);
        } else {
            let c = a.drop_last();
            assert(a =~= c.push('\n'));
            assert(front.len() > 0) by {
                if front.len() == 0 {
                    assert(a =~= seq![]);
                }
            }
            lemma_fields_join(c, b, '\n');
            lemma_fields_some(c, '\n');
            assert(fields(a, '\n') == fields(c, '\n').push(seq![]));
        }
        let f = fields(text, '\n');
        assert(f == fields(a + b, '\n').push(seq![]));
        assert(f.len() == rules.len() + 1);
        assert forall|k: int| 0 <= k < rules.len() implies reads_as((#[trigger] f[k]).push('\n'), meant(rules[k])) by {
            if k < front.len() {
                assert(f[k] == fields(a, '\n')[k]);
                assert(front[k] == rules[k]);
            } else {
                assert(f[k] == b);
            }
        }
    }
}

/// The options of a cover's ruleset: what is blocked is dropped, and loopback is left
/// out of the filter.
pub open spec fn cover_options() -> Seq<char> {
    "set block-policy drop\nset skip on lo0\n"@
}

/// The transient cover's ruleset is its options and then the lines of its rules,
/// whatever the families of the server and the resolver.
pub proof fn the_transient_text_is_its_rules(server: IpAddr, resolver: Option<IpAddr>)
    ensures
        ({
            let text = transient_ruleset(server, resolver);
            let n = cover_options().len() as int;
            &&& text.len() > n
            &&& text.take(n) == cover_options()
            &&& reads_as_rules(text.skip(n), transient_rules(server, resolver))
        }),
{
    let rules = transient_rules(server, resolver);
    let text = transient_ruleset(server, resolver);
    let n = cover_options().len() as int;
    reveal_strlit("lo0");
    assert(plain_names(rules));
    lemma_rule_lines(rules);
    assert(text.take(n) =~= cover_options());
    assert(text.skip(n) =~= rule_lines(rules));
}

/// A ruleset that carries text from the host: what stands before it, the text itself,
/// a newline where it lacks one, and what follows.
pub open spec fn carries(text: Seq<char>, before: Seq<char>, carried: Seq<char>, after: Seq<char>) -> bool {
    let n = before.len() as int;
    let m = n + carried.len();
    let ends = carried.len() == 0 || carried[carried.len() - 1] == '\n';
    &&& text.len() == m + after.len() + if ends { 0int } else { 1int }
    &&& text.subrange(0, n) == before
    &&& text.subrange(n, m) == carried
    &&& !ends ==> text[m] == '\n'
    &&& text.subrange(text.len() - after.len(), text.len() as int) == after
}

proof fn lemma_carries(before: Seq<char>, carried: Seq<char>, after: Seq<char>)
    ensures
        carries(before + newline_ended(carried) + after, before, carried, after),
{
    let text = before + newline_ended(carried) + after;
    let n = before.len() as int;
    assert(text.subrange(0, n) =~= before);
    assert(text.subrange(n, n + carried.len()) =~= carried);
    assert(text.subrange(text.len() - after.len(), text.len() as int) =~= after);
}

/// The lockdown's ruleset is its options, then the host's translation rules word for
/// word, and then the lines of its own rules. Nothing else of the host's is in it.
pub proof fn the_lockdown_text_is_the_translation_and_its_rules(
    tun: Seq<char>,
    server: IpAddr,
    translation: Seq<char>,
)
    requires
        free_of(tun, ' '),
        free_of(tun, '\n'),
    ensures
        ({
            let text = lockdown_ruleset(tun, server, translation);
            exists|own: Seq<char>|
                #[trigger] carries(text, cover_options(), translation, own) && reads_as_rules(
                    own,
                    lockdown_rules(tun, server),
                )
        }),
{
    let rules = lockdown_rules(tun, server);
    reveal_strlit("lo0");
    assert(plain_names(rules));
    lemma_rule_lines(rules);
    lemma_carries(cover_options(), translation, rule_lines(rules));
    assert(carries(lockdown_ruleset(tun, server, translation), cover_options(), translation, rule_lines(rules)));
}

/// Two lockdowns of one tunnel and one server differ in the translation rules that
/// they carry, and in nothing else: the rules that block and permit are the same.
pub proof fn the_translation_changes_no_rule(
    tun: Seq<char>,
    server: IpAddr,
    one: Seq<char>,
    other: Seq<char>,
)
    ensures
        exists|own: Seq<char>|
            carries(lockdown_ruleset(tun, server, one), cover_options(), one, own) && #[trigger] carries(
                lockdown_ruleset(tun, server, other),
                cover_options(),
                other,
                own,
            ),
{
    let own = rule_lines(lockdown_rules(tun, server));
    lemma_carries(cover_options(), one, own);
    lemma_carries(cover_options(), other, own);
    assert(carries(lockdown_ruleset(tun, server, one), cover_options(), one, own));
    assert(carries(lockdown_ruleset(tun, server, other), cover_options(), other, own));
}

/// What restores the host ends in the filter rules that were captured, word for word
/// and all of them, and carries the captured translation rules word for word before
/// them. Either may be empty.
pub proof fn a_restore_carries_both_snapshots(translation: Seq<char>, main: Seq<char>)
    ensures
        carries(
            restore_ruleset(translation, main),
            "set require-order no\nset block-policy drop\n"@,
            translation,
            main,
        ),
{
    lemma_carries("set require-order no\nset block-policy drop\n"@, translation, main);
}

/// Neither cover blocks what comes in: only egress is closed.
pub proof fn no_cover_blocks_ingress(tun: Seq<char>, server: IpAddr, resolver: Option<IpAddr>, p: Packet)
    requires
        p.inbound,
    ensures
        passes(transient_rules(server, resolver), p),
        passes(lockdown_rules(tun, server), p),
{
    reveal_with_fuel(passes_from, 7);
}

/// Rules are written one behind the other, each as its own line, whatever their names.
pub proof fn rules_are_written_one_by_one(a: Seq<PfRuleView>, b: Seq<PfRuleView>, r: PfRuleView)
    ensures
        rule_lines(a + b) == rule_lines(a) + rule_lines(b),
        rule_lines(seq![r]) == r.line(),
    decreases b.len(),
{
    let one = seq![r];
    assert(one.drop_last() =~= Seq::<PfRuleView>::empty());
    assert(rule_lines(one.drop_last()) =~= Seq::<char>::empty());
    assert(rule_lines(one) =~= r.line());
    if b.len() == 0 {
        assert(a + b =~= a);
        assert(rule_lines(a) + rule_lines(b) =~= rule_lines(a));
    } else {
        rules_are_written_one_by_one(a, b.drop_last(), r);
        assert((a + b).drop_last() =~= a + b.drop_last());
        assert(rule_lines(a + b) =~= rule_lines(a) + rule_lines(b));
    }
}

/// An interface is named in a rule as it is called, whatever the name: a rule with it
/// has that name behind its direction, and is otherwise the rule without it.
pub proof fn an_interface_is_named_as_it_is(r: PfRuleView, name: Seq<char>)
    requires
        r.on == Some(name),
    ensures
        ({
            let without = PfRuleView { on: None, ..r };
            exists|cut: int|
                {
                    &&& 0 <= cut <= without.line().len()
                    &&& r.line() == #[trigger] without.line().take(cut) + " on "@ + name + without.line().skip(cut)
                    &&& without.line().take(cut) == r.verb_text() + (if r.inbound {
                        " in"@
                    } else {
                        " out"@
                    }) + (if r.quick {
                        " quick"@
                    } else {
                        ""@
                    })
                }
        }),
{
    let without = PfRuleView { on: None, ..r };
    let d = if r.inbound {
        " in"@
    } else {
        " out"@
    };
    let q = if r.quick {
        " quick"@
    } else {
        ""@
    };
    let i = if r.inet6 {
        " inet6"@
    } else {
        ""@
    };
    reveal_strlit("");
    assert(""@ =~= Seq::<char>::empty());
    lemma_parts(r.verb_text(), d, q, ""@, i, r.target_text(), r.option_text(), "\n"@);
    lemma_parts(r.verb_text(), d, q, " on "@ + name, i, r.target_text(), r.option_text(), "\n"@);
    assert(without.verb_text() == r.verb_text());
    assert(without.target_text() == r.target_text());
    assert(without.option_text() == r.option_text());
    let head = r.verb_text() + d + q;
    let tail = i + r.target_text() + r.option_text() + "\n"@;
    assert(without.line() == head + ""@ + tail);
    assert(r.line() == head + (" on "@ + name) + tail);
    lemma_cut(without.line(), head, tail, " on "@, name);
}

proof fn lemma_parts(
    v: Seq<char>,
    d: Seq<char>,
    q: Seq<char>,
    o: Seq<char>,
    i: Seq<char>,
    t: Seq<char>,
    p: Seq<char>,
    n: Seq<char>,
)
    ensures
        v + (d + q + o + i) + t + p + n == (v + d + q) + o + (i + t + p + n),
{
    assert(v + (d + q + o + i) + t + p + n =~= (v + d + q) + o + (i + t + p + n));
}

proof fn lemma_cut(s: Seq<char>, head: Seq<char>, tail: Seq<char>, on: Seq<char>, name: Seq<char>)
    requires
        s == head + Seq::<char>::empty() + tail,
    ensures
        s.len() >= head.len(),
        s.take(head.len() as int) == head,
        head + (on + name) + tail == s.take(head.len() as int) + on + name + s.skip(head.len() as int),
{
    assert(s.take(head.len() as int) =~= head);
    assert(s.skip(head.len() as int) =~= tail);
    assert(head + (on + name) + tail =~= head + on + name + tail);
}

/// Whatever the tunnel is called, the lockdown's ruleset carries the translation rules
/// and then the lines of its own rules.
pub proof fn any_lockdown_text_is_the_translation_and_its_lines(
    tun: Seq<char>,
    server: IpAddr,
    translation: Seq<char>,
)
    ensures
        carries(
            lockdown_ruleset(tun, server, translation),
            cover_options(),
            translation,
            rule_lines(lockdown_rules(tun, server)),
        ),
{
    lemma_carries(cover_options(), translation, rule_lines(lockdown_rules(tun, server)));
}

} // verus!
