//! The source-address whitelist. A rule is either a CIDR network
//! (IPv4 or IPv6) or an IPv4 wildcard pattern whose dot-separated
//! segments are each a decimal octet or `*`. An empty rule set allows
//! every address; otherwise an address is allowed exactly when some
//! rule matches it.

use vstd::prelude::*;
use crate::numfmt::dec_of;
use vstd::string::StrSliceExecFns;
use vstd::string::StringExecFns;
use vstd::string::StringSliceAdditionalSpecFns;

verus! {

/// An IP address held as plain integers: a 32-bit IPv4 value or a
/// 128-bit IPv6 value, both in network (big-endian) order.
#[derive(Debug, Clone, Copy, PartialEq, Eq, Structural)]
pub enum HostAddr {
    V4(u32),
    V6(u128),
}

/// A CIDR network as plain values: the family, the masked network
/// address (an IPv4 network sits in the low 32 bits), and the prefix
/// length.
#[derive(Debug, Clone, Copy, PartialEq, Eq, Structural)]
pub struct CidrNet {
    pub v4: bool,
    pub net: u128,
    pub prefix: u8,
}

/// The prefix never exceeds the address width and an IPv4 network
/// fits in 32 bits.
pub open spec fn cidr_wf(c: CidrNet) -> bool {
    if c.v4 {
        c.prefix <= 32 && c.net < 0x1_0000_0000u128
    } else {
        c.prefix <= 128
    }
}

/// Membership of an address in a CIDR network: same family, and the
/// address agrees with the network on the first `prefix` bits.
pub open spec fn cidr_matches(c: CidrNet, ip: HostAddr) -> bool {
    match ip {
        HostAddr::V4(a) => c.v4 && c.prefix <= 32 && (a as u128) >> ((32 - c.prefix) as u128)
            == c.net >> ((32 - c.prefix) as u128),
        HostAddr::V6(a) => !c.v4 && (c.prefix == 0 || (c.prefix <= 128 && a >> ((128
            - c.prefix) as u128) == c.net >> ((128 - c.prefix) as u128))),
    }
}

/// What ipnet's `FromStr` parse of a whitelist pattern yields: the
/// network and prefix for a valid CIDR string, `None` otherwise.
pub uninterp spec fn cidr_of(s: Seq<char>) -> Option<CidrNet>;

/// Relies on ipnet's `IpNet::from_str`, `IpNet::network` and
/// `IpNet::prefix_len`: parsing is a function of the string alone,
/// and a parsed prefix length never exceeds the family's address
/// width, so the parsed network is well formed.
#[verifier::external_body]
fn parse_cidr(pattern: &str) -> (r: Option<CidrNet>)
    ensures
        r == cidr_of(pattern@),
        r matches Some(c) ==> cidr_wf(c),
{
    match pattern.parse::<ipnet::IpNet>() {
        Ok(ipnet::IpNet::V4(n)) => Some(
            CidrNet { v4: true, net: u32::from(n.network()) as u128, prefix: n.prefix_len() },
        ),
        Ok(ipnet::IpNet::V6(n)) => Some(
            CidrNet { v4: false, net: u128::from(n.network()), prefix: n.prefix_len() },
        ),
        Err(_) => None,
    }
}

/// One segment of a stored wildcard rule: `*`, or the literal text of
/// a decimal octet.
#[derive(Debug, Clone)]
pub enum WildSeg {
    Star,
    Lit(Vec<u8>),
}

/// The UTF-8 bytes of a text, for speaking about a pattern's
/// segments.
pub open spec fn text_bytes(s: Seq<char>) -> Seq<u8> {
    vstd::utf8::encode_utf8(s)
}

/// A whitelist rule, parsed at startup.
#[derive(Debug, Clone)]
pub enum Rule {
    Cidr(CidrNet),
    WildcardV4 { segs: Vec<WildSeg> },
}

/// `s` split on `.`: always at least one segment, and the segments
/// never contain a dot.
pub open spec fn split_segs(s: Seq<u8>) -> Seq<Seq<u8>>
    decreases s.len(),
{
    if s.len() == 0 {
        seq![Seq::<u8>::empty()]
    } else if s[0] == 46 {
        seq![Seq::<u8>::empty()] + split_segs(s.drop_first())
    } else {
        let r = split_segs(s.drop_first());
        seq![seq![s[0]] + r[0]] + r.drop_first()
    }
}

pub proof fn lemma_split_len(s: Seq<u8>)
    ensures
        split_segs(s).len() >= 1,
    decreases s.len(),
{
    if s.len() > 0 {
        lemma_split_len(s.drop_first());
    }
}

/// Appending one byte extends the last segment, or begins a fresh
/// empty segment when the byte is a dot.
pub proof fn lemma_split_snoc(p: Seq<u8>, c: u8)
    ensures
        c == 46 ==> split_segs(p.push(c)) == split_segs(p).push(Seq::<u8>::empty()),
        c != 46 ==> split_segs(p.push(c)) == split_segs(p).update(
            split_segs(p).len() - 1,
            split_segs(p).last().push(c),
        ),
    decreases p.len(),
{
    lemma_split_len(p);
    if p.len() == 0 {
        assert(p.push(c).len() == 1);
        assert(p.push(c)[0] == c);
        assert(p.push(c).drop_first() =~= Seq::<u8>::empty());
        assert(split_segs(Seq::<u8>::empty()) == seq![Seq::<u8>::empty()]);
        if c == 46 {
            assert(split_segs(p.push(c)) =~~= split_segs(p).push(Seq::<u8>::empty()));
        } else {
            assert(split_segs(p.push(c)) =~~= split_segs(p).update(
                0,
                split_segs(p).last().push(c),
            ));
        }
    } else {
        let q = p.drop_first();
        lemma_split_len(q);
        lemma_split_snoc(q, c);
        assert(p.push(c).drop_first() =~= q.push(c));
        assert(p.push(c)[0] == p[0]);
        if p[0] == 46 {
            if c == 46 {
                assert(split_segs(p.push(c)) =~~= split_segs(p).push(Seq::<u8>::empty()));
            } else {
                assert(split_segs(q).len() >= 1);
                assert((seq![Seq::<u8>::empty()] + split_segs(q).update(
                    split_segs(q).len() - 1,
                    split_segs(q).last().push(c),
                )) =~~= (seq![Seq::<u8>::empty()] + split_segs(q)).update(
                    split_segs(q).len() as int,
                    split_segs(q).last().push(c),
                ));
                assert(split_segs(p).last() == split_segs(q).last());
                assert(split_segs(p.push(c)) =~~= split_segs(p).update(
                    split_segs(p).len() - 1,
                    split_segs(p).last().push(c),
                ));
            }
        } else {
            let r = split_segs(q);
            if c == 46 {
                let rr = r.push(Seq::<u8>::empty());
                assert(rr[0] == r[0]);
                assert(rr.drop_first() =~~= r.drop_first().push(Seq::<u8>::empty()));
                assert(split_segs(p.push(c)) =~~= split_segs(p).push(Seq::<u8>::empty()));
            } else {
                let rr = r.update(r.len() - 1, r.last().push(c));
                if r.len() == 1 {
                    assert(rr[0] == r[0].push(c));
                    assert(rr.drop_first() =~~= r.drop_first());
                    assert(seq![p[0]] + r[0].push(c) =~= (seq![p[0]] + r[0]).push(c));
                    assert(split_segs(p).last() == seq![p[0]] + r[0]);
                    assert(split_segs(p.push(c)) =~~= split_segs(p).update(
                        split_segs(p).len() - 1,
                        split_segs(p).last().push(c),
                    ));
                } else {
                    assert(rr[0] == r[0]);
                    assert(rr.drop_first() =~~= r.drop_first().update(
                        r.len() - 2,
                        r.last().push(c),
                    ));
                    assert(split_segs(p).last() == r.last());
                    assert(split_segs(p.push(c)) =~~= split_segs(p).update(
                        split_segs(p).len() - 1,
                        split_segs(p).last().push(c),
                    ));
                }
            }
        }
    }
}

/// The numeric value of a digit string, most significant digit first.
pub open spec fn dec_val(s: Seq<u8>) -> int
    decreases s.len(),
{
    if s.len() == 0 {
        0
    } else {
        dec_val(s.drop_last()) * 10 + (s.last() - 48)
    }
}

pub open spec fn all_digits(s: Seq<u8>) -> bool {
    forall|i: int| 0 <= i < s.len() ==> 48 <= #[trigger] s[i] <= 57
}

/// A pattern segment is valid when it is `*` or the text of a decimal
/// number no greater than 255.
pub open spec fn seg_valid(s: Seq<u8>) -> bool {
    s == seq![42u8] || (s.len() > 0 && all_digits(s) && dec_val(s) <= 255)
}

/// A wildcard pattern is valid when it has at most four
/// dot-separated segments (an address renders as four) and every
/// segment is valid.
pub open spec fn wild_valid(p: Seq<u8>) -> bool {
    split_segs(p).len() <= 4 && (forall|i: int|
        0 <= i < split_segs(p).len() ==> seg_valid(#[trigger] split_segs(p)[i]))
}

/// A stored segment stands for one piece of the pattern's text.
pub open spec fn seg_rep(w: WildSeg, part: Seq<u8>) -> bool {
    match w {
        WildSeg::Star => part == seq![42u8],
        WildSeg::Lit(t) => t@ == part && part != seq![42u8],
    }
}

pub open spec fn segs_rep(ws: Seq<WildSeg>, parts: Seq<Seq<u8>>) -> bool {
    ws.len() == parts.len() && forall|i: int|
        0 <= i < ws.len() ==> seg_rep(#[trigger] ws[i], parts[i])
}

/// A stored segment is well formed: a literal is nonempty digit text
/// with value at most 255.
pub open spec fn seg_wf(w: WildSeg) -> bool {
    match w {
        WildSeg::Star => true,
        WildSeg::Lit(t) => t@.len() > 0 && all_digits(t@) && dec_val(t@) <= 255,
    }
}

/// Octet `i` (0 = most significant) of an IPv4 address.
pub open spec fn octet(a: u32, i: int) -> int {
    if i == 0 {
        (a as int / 0x1000000) % 256
    } else if i == 1 {
        (a as int / 0x10000) % 256
    } else if i == 2 {
        (a as int / 0x100) % 256
    } else {
        a as int % 256
    }
}

/// One wildcard segment against one octet: `*` matches anything, a
/// literal matches exactly the canonical decimal text of the octet.
pub open spec fn wild_seg_matches(w: WildSeg, oct: int) -> bool {
    match w {
        WildSeg::Star => true,
        WildSeg::Lit(t) => t@ == dec_of(oct as nat),
    }
}

/// A wildcard rule matches an IPv4 address when the segment counts
/// agree (an address renders as four segments) and every segment
/// matches its octet.
pub open spec fn wild_matches(segs: Seq<WildSeg>, a: u32) -> bool {
    segs.len() == 4 && forall|i: int|
        0 <= i < 4 ==> wild_seg_matches(#[trigger] segs[i], octet(a, i))
}

pub open spec fn rule_wf(r: Rule) -> bool {
    match r {
        Rule::Cidr(c) => cidr_wf(c),
        Rule::WildcardV4 { segs } => forall|j: int|
            0 <= j < segs@.len() ==> seg_wf(#[trigger] segs@[j]),
    }
}

pub open spec fn rule_matches(r: Rule, ip: HostAddr) -> bool {
    match r {
        Rule::Cidr(c) => cidr_matches(c, ip),
        Rule::WildcardV4 { segs } => match ip {
            HostAddr::V4(a) => wild_matches(segs@, a),
            HostAddr::V6(_) => false,
        },
    }
}

/// The compiled whitelist.
#[derive(Debug, Clone, Default)]
pub struct IpFilter {
    rules: Vec<Rule>,
}

/// Acceptance of one pattern: a CIDR rule when ipnet parses it, else
/// a wildcard rule standing for the pattern's segments.
pub open spec fn added_rule_ok(chars: Seq<char>, bytes: Seq<u8>, r: Rule) -> bool {
    match cidr_of(chars) {
        Some(c) => r == Rule::Cidr(c),
        None => wild_valid(bytes) && (r matches Rule::WildcardV4 { segs } && segs_rep(
            segs@,
            split_segs(bytes),
        )),
    }
}

/// A pattern is accepted when ipnet parses it or it is a valid
/// wildcard.
pub open spec fn pattern_ok(chars: Seq<char>, bytes: Seq<u8>) -> bool {
    cidr_of(chars) is Some || wild_valid(bytes)
}

impl IpFilter {
    pub closed spec fn rules(self) -> Seq<Rule> {
        self.rules@
    }

    pub closed spec fn wf(self) -> bool {
        forall|i: int| 0 <= i < self.rules@.len() ==> rule_wf(#[trigger] self.rules@[i])
    }

    /// An empty rule set allows everything; otherwise some rule must
    /// match.
    pub open spec fn allows_spec(self, ip: HostAddr) -> bool {
        self.rules().len() == 0 || exists|i: int|
            0 <= i < self.rules().len() && rule_matches(#[trigger] self.rules()[i], ip)
    }

    pub fn new() -> (r: Self)
        ensures
            r.wf(),
            r.rules().len() == 0,
    {
        IpFilter { rules: Vec::new() }
    }

    /// Compiles the whitelist, stopping at the first invalid pattern.
    pub fn from_strings(patterns: &Vec<String>) -> (r: Result<Self, String>)
        ensures
            match r {
                Ok(f) => f.wf() && f.rules().len() == patterns@.len() && (forall|i: int|
                    0 <= i < patterns@.len() ==> added_rule_ok(
                        patterns@[i]@,
                        text_bytes((#[trigger] patterns@[i])@),
                        f.rules()[i],
                    )),
                Err(m) => exists|i: int|
                    0 <= i < patterns@.len() && !pattern_ok(
                        patterns@[i]@,
                        text_bytes((#[trigger] patterns@[i])@),
                    ) && (forall|j: int|
                        0 <= j < i ==> pattern_ok(
                            patterns@[j]@,
                            text_bytes((#[trigger] patterns@[j])@),
                        )) && m@ == "Invalid IP rule pattern: "@ + patterns@[i]@,
            },
    {
        let mut filter = Self::new();
        let mut i: usize = 0;
        while i < patterns.len()
            invariant
                i <= patterns@.len(),
                filter.wf(),
                filter.rules().len() == i,
                forall|j: int|
                    0 <= j < i ==> added_rule_ok(
                        patterns@[j]@,
                        text_bytes((#[trigger] patterns@[j])@),
                        filter.rules()[j],
                    ),
            decreases patterns@.len() - i,
        {
            let p: &String = &patterns[i];
            match filter.add_rule(p.as_str()) {
                Ok(_) => {},
                Err(m) => {
                    assert(forall|j: int|
                        0 <= j < i ==> pattern_ok(
                            (#[trigger] patterns@[j])@,
                            text_bytes(patterns@[j]@),
                        )) by {
                        assert forall|j: int| 0 <= j < i implies pattern_ok(
                            (#[trigger] patterns@[j])@,
                            text_bytes(patterns@[j]@),
                        ) by {
                            assert(added_rule_ok(
                                patterns@[j]@,
                                text_bytes(patterns@[j]@),
                                filter.rules()[j],
                            ));
                        }
                    }
                    return Err(m);
                },
            }
            i += 1;
        }
        Ok(filter)
    }

    /// Adds one pattern: CIDR if ipnet parses it, else a wildcard;
    /// anything else is refused with a message naming the pattern.
    pub fn add_rule(&mut self, pattern: &str) -> (r: Result<(), String>)
        requires
            old(self).wf(),
        ensures
            final(self).wf(),
            match r {
                Ok(_) => final(self).rules().len() == old(self).rules().len() + 1 && (forall|
                    i: int,
                |
                    0 <= i < old(self).rules().len() ==> final(self).rules()[i] == old(
                        self,
                    ).rules()[i]) && added_rule_ok(
                    pattern@,
                    text_bytes(pattern@),
                    final(self).rules().last(),
                ) && pattern_ok(pattern@, text_bytes(pattern@)),
                Err(m) => *final(self) == *old(self) && !pattern_ok(pattern@, text_bytes(pattern@))
                    && m@ == "Invalid IP rule pattern: "@ + pattern@,
            },
    {
        match parse_cidr(pattern) {
            Some(c) => {
                self.rules.push(Rule::Cidr(c));
                Ok(())
            },
            None => {
                let bytes = pattern.as_bytes_vec();
                match wild_parse(&bytes) {
                    Some(segs) => {
                        self.rules.push(Rule::WildcardV4 { segs });
                        Ok(())
                    },
                    None => {
                        let mut m = String::from_str("Invalid IP rule pattern: ");
                        m.append(pattern);
                        Err(m)
                    },
                }
            },
        }
    }

    /// The whitelist predicate: pure, and exactly `allows_spec`.
    pub fn allows(&self, ip: &HostAddr) -> (r: bool)
        requires
            self.wf(),
        ensures
            r == self.allows_spec(*ip),
    {
        if self.rules.len() == 0 {
            return true;
        }
        let mut i: usize = 0;
        while i < self.rules.len()
            invariant
                self.wf(),
                i <= self.rules@.len(),
                forall|j: int| 0 <= j < i ==> !rule_matches(#[trigger] self.rules@[j], *ip),
            decreases self.rules@.len() - i,
        {
            if rule_match_exec(&self.rules[i], ip) {
                return true;
            }
            i += 1;
        }
        false
    }
}

/// With an empty whitelist every source address is allowed.
pub proof fn lemma_empty_whitelist_allows_all(f: IpFilter, ip: HostAddr)
    requires
        f.rules().len() == 0,
    ensures
        f.allows_spec(ip),
{
}

/// A whitelist holding one four-segment wildcard rule allows exactly
/// the IPv4 addresses whose octets render equal to the pattern's
/// non-`*` segments.
pub proof fn lemma_wildcard_matching(f: IpFilter, pbytes: Seq<u8>, a: u32)
    requires
        f.rules().len() == 1,
        f.rules()[0] matches Rule::WildcardV4 { segs } && segs_rep(segs@, split_segs(pbytes)),
        split_segs(pbytes).len() == 4,
    ensures
        f.allows_spec(HostAddr::V4(a)) <==> (forall|i: int|
            0 <= i < 4 ==> split_segs(pbytes)[i] == seq![42u8] || split_segs(pbytes)[i] == dec_of(
                octet(a, i) as nat,
            )),
{
    let segs = f.rules()[0]->WildcardV4_segs;
    if f.allows_spec(HostAddr::V4(a)) {
        let w = choose|i: int|
            0 <= i < f.rules().len() && rule_matches(#[trigger] f.rules()[i], HostAddr::V4(a));
        assert(rule_matches(f.rules()[0], HostAddr::V4(a)));
        assert(forall|i: int|
            0 <= i < 4 ==> split_segs(pbytes)[i] == seq![42u8] || split_segs(pbytes)[i] == dec_of(
                octet(a, i) as nat,
            )) by {
            assert forall|i: int| 0 <= i < 4 implies split_segs(pbytes)[i] == seq![42u8]
                || split_segs(pbytes)[i] == dec_of(octet(a, i) as nat) by {
                assert(wild_seg_matches(segs@[i], octet(a, i)));
                assert(seg_rep(segs@[i], split_segs(pbytes)[i]));
            }
        }
    }
    if (forall|i: int|
        0 <= i < 4 ==> split_segs(pbytes)[i] == seq![42u8] || split_segs(pbytes)[i] == dec_of(
            octet(a, i) as nat,
        )) {
        assert forall|i: int| 0 <= i < 4 implies wild_seg_matches(segs@[i], octet(a, i)) by {
            assert(seg_rep(segs@[i], split_segs(pbytes)[i]));
        }
        assert(rule_matches(f.rules()[0], HostAddr::V4(a)));
    }
}

/// One rule against one address.
fn rule_match_exec(r: &Rule, ip: &HostAddr) -> (b: bool)
    requires
        rule_wf(*r),
    ensures
        b == rule_matches(*r, *ip),
{
    match r {
        Rule::Cidr(c) => cidr_match_exec(c, ip),
        Rule::WildcardV4 { segs } => match ip {
            HostAddr::V4(a) => wild_match_exec(segs, *a),
            HostAddr::V6(_) => false,
        },
    }
}

fn cidr_match_exec(c: &CidrNet, ip: &HostAddr) -> (b: bool)
    requires
        cidr_wf(*c),
    ensures
        b == cidr_matches(*c, *ip),
{
    match ip {
        HostAddr::V4(a) => {
            if !c.v4 {
                false
            } else {
                let sh: u128 = (32 - c.prefix) as u128;
                ((*a as u128) >> sh) == (c.net >> sh)
            }
        },
        HostAddr::V6(a) => {
            if c.v4 {
                false
            } else if c.prefix == 0 {
                true
            } else {
                let sh: u128 = (128 - c.prefix) as u128;
                ((*a) >> sh) == (c.net >> sh)
            }
        },
    }
}

fn wild_match_exec(segs: &Vec<WildSeg>, a: u32) -> (b: bool)
    requires
        forall|j: int| 0 <= j < segs@.len() ==> seg_wf(#[trigger] segs@[j]),
    ensures
        b == wild_matches(segs@, a),
{
    if segs.len() != 4 {
        return false;
    }
    let mut i: usize = 0;
    while i < 4
        invariant
            segs@.len() == 4,
            i <= 4,
            forall|j: int| 0 <= j < i ==> wild_seg_matches(#[trigger] segs@[j], octet(a, j)),
        decreases 4 - i,
    {
        let oct = octet_exec(a, i);
        match &segs[i] {
            WildSeg::Star => {},
            WildSeg::Lit(t) => {
                let txt = crate::numfmt::dec_bytes(oct as u16);
                if !bytes_eq(t, &txt) {
                    return false;
                }
            },
        }
        i += 1;
    }
    true
}

fn octet_exec(a: u32, i: usize) -> (o: u8)
    requires
        i < 4,
    ensures
        o as int == octet(a, i as int),
{
    if i == 0 {
        ((a / 0x1000000) % 256) as u8
    } else if i == 1 {
        ((a / 0x10000) % 256) as u8
    } else if i == 2 {
        ((a / 0x100) % 256) as u8
    } else {
        (a % 256) as u8
    }
}

/// Byte-string equality.
pub fn bytes_eq(x: &Vec<u8>, y: &Vec<u8>) -> (r: bool)
    ensures
        r == (x@ == y@),
{
    if x.len() != y.len() {
        assert(x@ != y@);
        return false;
    }
    let mut i: usize = 0;
    while i < x.len()
        invariant
            x@.len() == y@.len(),
            i <= x@.len(),
            forall|j: int| 0 <= j < i ==> x@[j] == y@[j],
        decreases x@.len() - i,
    {
        if x[i] != y[i] {
            assert(x@ != y@);
            return false;
        }
        i += 1;
    }
    assert(x@ =~= y@);
    true
}

/// Splits a byte string on `.`.
fn split_bytes(s: &Vec<u8>) -> (r: Vec<Vec<u8>>)
    ensures
        r@.map_values(|v: Vec<u8>| v@) == split_segs(s@),
{
    let mut segs: Vec<Vec<u8>> = Vec::new();
    segs.push(Vec::new());
    assert(segs@.map_values(|v: Vec<u8>| v@) =~~= split_segs(s@.subrange(0, 0)));
    let mut i: usize = 0;
    while i < s.len()
        invariant
            i <= s@.len(),
            segs@.len() >= 1,
            segs@.map_values(|v: Vec<u8>| v@) == split_segs(s@.subrange(0, i as int)),
        decreases s@.len() - i,
    {
        proof {
            lemma_split_snoc(s@.subrange(0, i as int), s@[i as int]);
            assert(s@.subrange(0, i as int + 1) =~= s@.subrange(0, i as int).push(s@[i as int]));
        }
        if s[i] == 46 {
            segs.push(Vec::new());
            assert(segs@.map_values(|v: Vec<u8>| v@) =~~= split_segs(
                s@.subrange(0, i as int + 1),
            ));
        } else {
            let b = s[i];
            let mut lastv = match segs.pop() {
                Some(v) => v,
                None => Vec::new(),
            };
            lastv.push(b);
            segs.push(lastv);
            assert(segs@.map_values(|v: Vec<u8>| v@) =~~= split_segs(
                s@.subrange(0, i as int + 1),
            ));
        }
        i += 1;
    }
    assert(s@.subrange(0, s@.len() as int) =~= s@);
    segs
}

/// Classifies one pattern segment; `None` when it is invalid.
fn classify_seg(seg: &Vec<u8>) -> (r: Option<WildSeg>)
    ensures
        match r {
            Some(w) => seg_valid(seg@) && seg_rep(w, seg@) && seg_wf(w),
            None => !seg_valid(seg@),
        },
{
    if seg.len() == 1 && seg[0] == 42 {
        assert(seg@ =~= seq![42u8]);
        return Some(WildSeg::Star);
    }
    assert(seg@ != seq![42u8]);
    if seg.len() == 0 {
        return None;
    }
    let mut acc: u32 = 0;
    let mut i: usize = 0;
    while i < seg.len()
        invariant
            seg@ != seq![42u8],
            i <= seg@.len(),
            acc <= 2559,
            forall|j: int| 0 <= j < i ==> 48 <= #[trigger] seg@[j] <= 57,
            acc <= 255 ==> acc as int == dec_val(seg@.subrange(0, i as int)),
            acc > 255 ==> dec_val(seg@.subrange(0, i as int)) > 255,
        decreases seg@.len() - i,
    {
        let b = seg[i];
        if b < 48 || b > 57 {
            assert(!(48 <= seg@[i as int] <= 57));
            assert(!all_digits(seg@));
            return None;
        }
        proof {
            assert(seg@.subrange(0, i as int + 1).drop_last() =~= seg@.subrange(0, i as int));
            assert(seg@.subrange(0, i as int + 1).last() == seg@[i as int]);
        }
        if acc <= 255 {
            acc = acc * 10 + ((b - 48) as u32);
        }
        i += 1;
    }
    assert(seg@.subrange(0, seg@.len() as int) =~= seg@);
    assert(all_digits(seg@));
    if acc > 255 {
        assert(dec_val(seg@) > 255);
        return None;
    }
    let t = copy_bytes(seg);
    Some(WildSeg::Lit(t))
}

/// A fresh copy of a byte string.
pub fn copy_bytes(src: &Vec<u8>) -> (r: Vec<u8>)
    ensures
        r@ == src@,
{
    let mut out: Vec<u8> = Vec::new();
    let mut i: usize = 0;
    while i < src.len()
        invariant
            i <= src@.len(),
            out@ =~= src@.subrange(0, i as int),
        decreases src@.len() - i,
    {
        out.push(src[i]);
        assert(out@ =~= src@.subrange(0, i as int + 1));
        i += 1;
    }
    assert(out@ =~= src@);
    out
}

/// Parses a wildcard pattern into stored segments; `None` when some
/// segment is invalid.
fn wild_parse(bytes: &Vec<u8>) -> (r: Option<Vec<WildSeg>>)
    ensures
        match r {
            Some(segs) => wild_valid(bytes@) && segs_rep(segs@, split_segs(bytes@)) && (forall|
                j: int,
            |
                0 <= j < segs@.len() ==> seg_wf(#[trigger] segs@[j])),
            None => !wild_valid(bytes@),
        },
{
    let parts = split_bytes(bytes);
    let ghost spec_parts = split_segs(bytes@);
    if parts.len() > 4 {
        return None;
    }
    let mut segs: Vec<WildSeg> = Vec::new();
    let mut i: usize = 0;
    while i < parts.len()
        invariant
            i <= parts@.len(),
            parts@.map_values(|v: Vec<u8>| v@) == spec_parts,
            spec_parts == split_segs(bytes@),
            spec_parts.len() <= 4,
            segs@.len() == i,
            forall|j: int| 0 <= j < i ==> seg_valid(#[trigger] spec_parts[j]),
            forall|j: int| 0 <= j < i ==> seg_rep(#[trigger] segs@[j], spec_parts[j]),
            forall|j: int| 0 <= j < i ==> seg_wf(#[trigger] segs@[j]),
        decreases parts@.len() - i,
    {
        assert(parts@[i as int]@ == spec_parts[i as int]);
        match classify_seg(&parts[i]) {
            Some(w) => {
                segs.push(w);
            },
            None => {
                assert(!seg_valid(spec_parts[i as int]));
                return None;
            },
        }
        i += 1;
    }
    Some(segs)
}

} // verus!
