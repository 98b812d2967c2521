//! The packet filter's rulesets, as rules and as the text that loads them.

use vstd::prelude::*;
use crate::ip::IpAddr;
use crate::text::{numeral, push_numeral};

verus! {

/// The one port a resolver permit opens: DNS over HTTPS.
pub const RESOLVER_PERMIT_PORT: u16 = 443;

/// The label of the lockdown's block-all rule, by which the packet filter can be
/// asked whether the lockdown is loaded.
pub const LOCKDOWN_PF_LABEL: &'static str = "hole-lockdown";

#[derive(Debug, Clone, Copy, PartialEq, Eq, Structural)]
pub enum PfVerb {
    Pass,
    Block,
    BlockDrop,
}

/// Where a rule's packets go.
#[derive(Debug, Clone, Copy)]
pub struct PfTarget {
    pub ip: IpAddr,
    /// TCP alone.
    pub tcp: bool,
    /// This port alone.
    pub port: Option<u16>,
}

/// One filter rule.
#[derive(Debug, Clone)]
pub struct PfRule {
    pub verb: PfVerb,
    pub inbound: bool,
    /// A match ends the evaluation. Without it the last match counts.
    pub quick: bool,
    pub on: Option<String>,
    pub inet6: bool,
    pub to: Option<PfTarget>,
    /// The rule matches every packet and makes no state entry. Without it a pass
    /// rule matches, of TCP, only the packet that opens a connection.
    pub stateless: bool,
    pub labelled: bool,
}

/// [`PfRule`] with its interface name as characters.
pub struct PfRuleView {
    pub verb: PfVerb,
    pub inbound: bool,
    pub quick: bool,
    pub on: Option<Seq<char>>,
    pub inet6: bool,
    pub to: Option<PfTarget>,
    pub stateless: bool,
    pub labelled: bool,
}

impl View for PfRule {
    type V = PfRuleView;

    open spec fn view(&self) -> PfRuleView {
        PfRuleView {
            verb: self.verb,
            inbound: self.inbound,
            quick: self.quick,
            on: match self.on {
                Some(name) => Some(name@),
                None => None,
            },
            inet6: self.inet6,
            to: self.to,
            stateless: self.stateless,
            labelled: self.labelled,
        }
    }
}

impl PfRuleView {
    pub open spec fn verb_text(self) -> Seq<char> {
        match self.verb {
            PfVerb::Pass => "pass"@,
            PfVerb::Block => "block"@,
            PfVerb::BlockDrop => "block drop"@,
        }
    }

    pub open spec fn scope_text(self) -> Seq<char> {
        (if self.inbound {
            " in"@
        } else {
            " out"@
        }) + (if self.quick {
            " quick"@
        } else {
            ""@
        }) + (match self.on {
            Some(name) => " on "@ + name,
            None => ""@,
        }) + (if self.inet6 {
            " inet6"@
        } else {
            ""@
        })
    }

    pub open spec fn target_text(self) -> Seq<char> {
        match self.to {
            None => " all"@,
            Some(t) => (if t.tcp {
                " proto tcp"@
            } else {
                ""@
            }) + " from any to "@ + t.ip.text() + (match t.port {
                Some(port) => " port "@ + numeral(port as nat, 10),
                None => ""@,
            }),
        }
    }

    pub open spec fn option_text(self) -> Seq<char> {
        (if self.stateless {
            " no state"@
        } else {
            ""@
        }) + (if self.labelled {
            " label \""@ + LOCKDOWN_PF_LABEL@ + "\""@
        } else {
            ""@
        })
    }

    /// The rule as a line of a ruleset.
    pub open spec fn line(self) -> Seq<char> {
        self.verb_text() + self.scope_text() + self.target_text() + self.option_text() + "\n"@
    }
}

/// Rules as lines, the first first.
pub open spec fn rule_lines(rules: Seq<PfRuleView>) -> Seq<char>
    decreases rules.len(),
{
    if rules.len() == 0 {
        seq![]
    } else {
        rule_lines(rules.drop_last()) + rules.last().line()
    }
}

impl PfRule {
    fn push_line(&self, out: &mut String)
        ensures
            final(out)@ == old(out)@ + self@.line(),
    {
        self.push_verb(out);
        self.push_scope(out);
        self.push_target(out);
        self.push_options(out);
        out.append("\n");
        assert(out@ =~= old(out)@ + self@.line());
    }

    fn push_verb(&self, out: &mut String)
        ensures
            final(out)@ == old(out)@ + self@.verb_text(),
    {
        match self.verb {
            PfVerb::Pass => out.append("pass"),
            PfVerb::Block => out.append("block"),
            PfVerb::BlockDrop => out.append("block drop"),
        }
    }

    fn push_options(&self, out: &mut String)
        ensures
            final(out)@ == old(out)@ + self@.option_text(),
    {
        if self.stateless {
            out.append(" no state");
        } else {
            out.append("");
        }
        if self.labelled {
            out.append(" label \"");
            out.append(LOCKDOWN_PF_LABEL);
            out.append("\"");
        } else {
            out.append("");
        }
        assert(out@ =~= old(out)@ + self@.option_text());
    }

    fn push_scope(&self, out: &mut String)
        ensures
            final(out)@ == old(out)@ + self@.scope_text(),
    {
        if self.inbound {
            out.append(" in");
        } else {
            out.append(" out");
        }
        if self.quick {
            out.append(" quick");
        } else {
            out.append("");
        }
        match &self.on {
            Some(name) => {
                out.append(" on ");
                out.append(name.as_str());
            }
            None => {
                out.append("");
            }
        }
        if self.inet6 {
            out.append(" inet6");
        } else {
            out.append("");
        }
        assert(out@ =~= old(out)@ + self@.scope_text());
    }

    fn push_target(&self, out: &mut String)
        ensures
            final(out)@ == old(out)@ + self@.target_text(),
    {
        match &self.to {
            None => {
                out.append(" all");
            }
            Some(t) => {
                if t.tcp {
                    out.append(" proto tcp");
                } else {
                    out.append("");
                }
                out.append(" from any to ");
                out.append(t.ip.to_text().as_str());
                match t.port {
                    Some(port) => {
                        out.append(" port ");
                        push_numeral(out, port as u64, 10);
                    }
                    None => {
                        out.append("");
                    }
                }
            }
        }
        assert(out@ =~= old(out)@ + self@.target_text());
    }
}

fn push_rules(out: &mut String, rules: &Vec<PfRule>)
    ensures
        final(out)@ == old(out)@ + rule_lines(rules@.map_values(|r: PfRule| r@)),
{
    let ghost views = rules@.map_values(|r: PfRule| r@);
    let mut i: usize = 0;
    while i < rules.len()
        invariant
            i <= rules.len(),
            views == rules@.map_values(|r: PfRule| r@),
            out@ == old(out)@ + rule_lines(views.take(i as int)),
        decreases rules.len() - i,
    {
        rules[i].push_line(out);
        assert(views.take(i + 1).drop_last() =~= views.take(i as int));
        i = i + 1;
        assert(out@ =~= old(out)@ + rule_lines(views.take(i as int)));
    }
    assert(views.take(views.len() as int) =~= views);
}

/// Loopback in one direction, without state.
pub open spec fn loopback_pass(inbound: bool) -> PfRuleView {
    PfRuleView {
        verb: PfVerb::Pass,
        inbound,
        quick: true,
        on: Some("lo0"@),
        inet6: false,
        to: None,
        stateless: true,
        labelled: false,
    }
}

/// Everything to the server, or its TCP alone.
pub open spec fn server_pass(server: IpAddr, tcp: bool, stateless: bool) -> PfRuleView {
    PfRuleView {
        verb: PfVerb::Pass,
        inbound: false,
        quick: true,
        on: None,
        inet6: false,
        to: Some(PfTarget { ip: server, tcp, port: None }),
        stateless,
        labelled: false,
    }
}

/// DNS over HTTPS to the resolver.
pub open spec fn resolver_pass(resolver: IpAddr) -> PfRuleView {
    PfRuleView {
        verb: PfVerb::Pass,
        inbound: false,
        quick: true,
        on: None,
        inet6: false,
        to: Some(PfTarget { ip: resolver, tcp: true, port: Some(RESOLVER_PERMIT_PORT) }),
        stateless: false,
        labelled: false,
    }
}

/// The block-all base that later quick rules make exceptions from.
pub open spec fn block_out() -> PfRuleView {
    PfRuleView {
        verb: PfVerb::Block,
        inbound: false,
        quick: false,
        on: None,
        inet6: false,
        to: None,
        stateless: false,
        labelled: false,
    }
}

/// The transient cover: all egress is blocked but for loopback, the server and,
/// where there is one, the resolver.
///
/// Loopback is exempted twice. Skipping its interface keeps it out of the filter,
/// but loading a ruleset clears that option before the new one is set, and across
/// that gap the pass rules of the outgoing ruleset carry it. They and the server
/// permit are stateless, because engaging this cover purges the state table: a
/// permit that matches opening packets alone would cut every flow under way.
pub open spec fn transient_rules(server: IpAddr, resolver: Option<IpAddr>) -> Seq<PfRuleView> {
    let base = seq![block_out(), loopback_pass(false), loopback_pass(true), server_pass(server, false, true)];
    match resolver {
        Some(ip) => base.push(resolver_pass(ip)),
        None => base,
    }
}

pub open spec fn tunnel_pass(tun: Seq<char>) -> PfRuleView {
    PfRuleView {
        verb: PfVerb::Pass,
        inbound: false,
        quick: true,
        on: Some(tun),
        inet6: false,
        to: None,
        stateless: false,
        labelled: false,
    }
}

pub open spec fn block_drop(inet6: bool, labelled: bool) -> PfRuleView {
    PfRuleView {
        verb: PfVerb::BlockDrop,
        inbound: false,
        quick: true,
        on: None,
        inet6,
        to: None,
        stateless: false,
        labelled,
    }
}

/// The standing lockdown: all egress is blocked but for loopback, the server's TCP
/// and the tunnel. The permits stand before the IPv6 block, which would end the
/// evaluation, and the labelled block-all stands last.
pub open spec fn lockdown_rules(tun: Seq<char>, server: IpAddr) -> Seq<PfRuleView> {
    seq![
        loopback_pass(false),
        loopback_pass(true),
        server_pass(server, true, false),
        tunnel_pass(tun),
        block_drop(true, false),
        block_drop(false, true),
    ]
}

/// `s` ended by a newline, an empty `s` left empty.
pub open spec fn newline_ended(s: Seq<char>) -> Seq<char> {
    if s.len() == 0 || s.last() == '\n' {
        s
    } else {
        s.push('\n')
    }
}

/// The text of the transient cover's ruleset.
pub open spec fn transient_ruleset(server: IpAddr, resolver: Option<IpAddr>) -> Seq<char> {
    "set block-policy drop\nset skip on lo0\n"@ + rule_lines(transient_rules(server, resolver))
}

/// The text of the lockdown's ruleset: options, then the host's translation rules,
/// then the filter rules, which is the order the packet filter demands.
pub open spec fn lockdown_ruleset(tun: Seq<char>, server: IpAddr, translation: Seq<char>) -> Seq<char> {
    "set block-policy drop\nset skip on lo0\n"@ + newline_ended(translation) + rule_lines(lockdown_rules(tun, server))
}

/// The text that restores what the lockdown replaced. A snapshot's rules are not
/// in the demanded order, so the order is switched off first.
pub open spec fn restore_ruleset(translation: Seq<char>, main: Seq<char>) -> Seq<char> {
    "set require-order no\nset block-policy drop\n"@ + newline_ended(translation) + main
}

fn loopback_pass_rule(inbound: bool) -> (r: PfRule)
    ensures
        r@ == loopback_pass(inbound),
{
    PfRule {
        verb: PfVerb::Pass,
        inbound,
        quick: true,
        on: Some("lo0".to_owned()),
        inet6: false,
        to: None,
        stateless: true,
        labelled: false,
    }
}

fn permit_rule(to: Option<PfTarget>, on: Option<String>, stateless: bool) -> (r: PfRule)
    ensures
        r@ == (PfRuleView {
            verb: PfVerb::Pass,
            inbound: false,
            quick: true,
            on: match on {
                Some(name) => Some(name@),
                None => None,
            },
            inet6: false,
            to,
            stateless,
            labelled: false,
        }),
{
    PfRule { verb: PfVerb::Pass, inbound: false, quick: true, on, inet6: false, to, stateless, labelled: false }
}

fn block_rule(verb: PfVerb, quick: bool, inet6: bool, labelled: bool) -> (r: PfRule)
    ensures
        r@ == (PfRuleView {
            verb,
            inbound: false,
            quick,
            on: None,
            inet6,
            to: None,
            stateless: false,
            labelled,
        }),
{
    PfRule { verb, inbound: false, quick, on: None, inet6, to: None, stateless: false, labelled }
}

/// Build the transient cover's ruleset.
pub fn build_pf_ruleset(server_ip: IpAddr, resolver_ip: Option<IpAddr>) -> (r: String)
    ensures
        r@ == transient_ruleset(server_ip, resolver_ip),
{
    let mut rules: Vec<PfRule> = vec![
        block_rule(PfVerb::Block, false, false, false),
        loopback_pass_rule(false),
        loopback_pass_rule(true),
        permit_rule(Some(PfTarget { ip: server_ip, tcp: false, port: None }), None, true),
    ];
    if let Some(ip) = resolver_ip {
        rules.push(permit_rule(Some(PfTarget { ip, tcp: true, port: Some(RESOLVER_PERMIT_PORT) }), None, false));
    }
    assert(rules@.map_values(|r: PfRule| r@) =~= transient_rules(server_ip, resolver_ip));
    let mut out = "set block-policy drop\nset skip on lo0\n".to_owned();
    push_rules(&mut out, &rules);
    out
}

/// A string ended by a newline. An empty one stays empty, so that it adds no
/// blank line.
pub fn ensure_trailing_nl(s: &str) -> (r: String)
    ensures
        r@ == newline_ended(s@),
{
    let n: usize = s.unicode_len();
    let mut out = s.to_owned();
    if n > 0 && s.get_char(n - 1) != '\n' {
        out.push('\n');
    }
    out
}

/// Build the standing lockdown's ruleset, carrying the host's translation rules
/// forward.
pub fn build_lockdown_main_ruleset(tun_name: &str, server_ip: IpAddr, nat_snapshot: &str) -> (r: String)
    ensures
        r@ == lockdown_ruleset(tun_name@, server_ip, nat_snapshot@),
{
    let rules: Vec<PfRule> = vec![
        loopback_pass_rule(false),
        loopback_pass_rule(true),
        permit_rule(Some(PfTarget { ip: server_ip, tcp: true, port: None }), None, false),
        permit_rule(None, Some(tun_name.to_owned()), false),
        block_rule(PfVerb::BlockDrop, true, true, false),
        block_rule(PfVerb::BlockDrop, true, false, true),
    ];
    assert(rules@.map_values(|r: PfRule| r@) =~= lockdown_rules(tun_name@, server_ip));
    let mut out = "set block-policy drop\nset skip on lo0\n".to_owned();
    out.append(ensure_trailing_nl(nat_snapshot).as_str());
    push_rules(&mut out, &rules);
    out
}

/// Build the ruleset that restores what the lockdown replaced.
pub fn build_lockdown_restore_ruleset(nat_snapshot: &str, main_snapshot: &str) -> (r: String)
    ensures
        r@ == restore_ruleset(nat_snapshot@, main_snapshot@),
{
    let mut out = "set require-order no\nset block-policy drop\n".to_owned();
    out.append(ensure_trailing_nl(nat_snapshot).as_str());
    out.append(main_snapshot);
    out
}

/// A packet that no state entry matches.
pub struct Packet {
    pub inbound: bool,
    pub interface: Seq<char>,
    pub inet6: bool,
    pub dest: IpAddr,
    pub tcp: bool,
    /// The packet opens a TCP connection.
    pub opens: bool,
    pub port: u16,
}

/// The rule applies to the packet.
pub open spec fn applies(r: PfRuleView, p: Packet) -> bool {
    &&& r.inbound == p.inbound
    &&& r.on matches Some(name) ==> name == p.interface
    &&& r.inet6 ==> p.inet6
    &&& r.to matches Some(t) ==> t.ip == p.dest && (t.tcp ==> p.tcp) && (t.port matches Some(port) ==> port == p.port)
    &&& r.verb is Pass && !r.stateless && p.tcp ==> p.opens
}

/// Whether the packet passes the rules from index `i` on, when `passes` is the
/// verdict so far: the last rule that applies counts, unless an earlier one is
/// quick.
pub open spec fn passes_from(rules: Seq<PfRuleView>, p: Packet, i: int, passes: bool) -> bool
    decreases rules.len() - i,
{
    if i < 0 || i >= rules.len() {
        passes
    } else if applies(rules[i], p) {
        if rules[i].quick {
            rules[i].verb is Pass
        } else {
            passes_from(rules, p, i + 1, rules[i].verb is Pass)
        }
    } else {
        passes_from(rules, p, i + 1, passes)
    }
}

/// Whether the packet passes a ruleset. What no rule applies to passes.
pub open spec fn passes(rules: Seq<PfRuleView>, p: Packet) -> bool {
    passes_from(rules, p, 0, true)
}

/// The transient cover permits, of what leaves over any interface but loopback,
/// what goes to the server and the DNS over HTTPS that opens to the resolver, and
/// nothing else.
pub proof fn transient_cover_permits_only_the_server_and_the_resolver(
    server: IpAddr,
    resolver: Option<IpAddr>,
    p: Packet,
)
    requires
        !p.inbound,
        p.interface != "lo0"@,
    ensures
        passes(transient_rules(server, resolver), p) <==> {
            ||| p.dest == server
            ||| resolver == Some(p.dest) && p.tcp && p.port == RESOLVER_PERMIT_PORT && p.opens
        },
{
    reveal_with_fuel(passes_from, 6);
}

/// The lockdown permits, of what leaves over any interface but loopback, what
/// opens a TCP connection to the server and what the tunnel carries, and nothing
/// else.
pub proof fn lockdown_permits_only_the_server_and_the_tunnel(tun: Seq<char>, server: IpAddr, p: Packet)
    requires
        !p.inbound,
        p.interface != "lo0"@,
    ensures
        passes(lockdown_rules(tun, server), p) <==> {
            ||| p.dest == server && p.tcp && p.opens
            ||| p.interface == tun && (p.tcp ==> p.opens)
        },
{
    reveal_with_fuel(passes_from, 7);
}

/// Loopback passes either cover in both directions, in the middle of a connection
/// too.
pub proof fn loopback_passes_every_cover(
    tun: Seq<char>,
    server: IpAddr,
    resolver: Option<IpAddr>,
    p: Packet,
)
    requires
        p.interface == "lo0"@,
    ensures
        passes(transient_rules(server, resolver), p),
        passes(lockdown_rules(tun, server), p),
{
    reveal_with_fuel(passes_from, 7);
}

/// Every filter rule of the lockdown is quick, and its block-all stands last and
/// alone carries the label.
pub proof fn lockdown_ends_in_its_labelled_block(tun: Seq<char>, server: IpAddr, i: int)
    requires
        0 <= i < lockdown_rules(tun, server).len(),
    ensures
        lockdown_rules(tun, server)[i].quick,
        lockdown_rules(tun, server)[i].labelled <==> i == lockdown_rules(tun, server).len() - 1,
        lockdown_rules(tun, server).last() == block_drop(false, true),
{
}

} // verus!
