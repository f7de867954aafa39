//! Broker endpoint resolution: parses a dotted-quad address out of the
//! configured host string. An unparsable value does not halt anything — it
//! falls back to the loopback sentinel and lets the connect-retry loop run.

use vstd::prelude::*;

verus! {

/// ASCII code of the dot separating address components.
pub const DOT: u8 = 46;

/// `b` is an ASCII decimal digit.
pub open spec fn is_ascii_digit(b: u8) -> bool {
    48 <= b <= 57
}

/// Every byte of `s` is an ASCII decimal digit.
pub open spec fn all_digits(s: Seq<u8>) -> bool {
    forall|i: int| 0 <= i < s.len() ==> is_ascii_digit(s[i])
}

/// The numeric value of a digit string, most significant digit first.
pub open spec fn dec_value(s: Seq<u8>) -> int
    decreases s.len(),
{
    if s.len() == 0 {
        0
    } else {
        dec_value(s.drop_last()) * 10 + (s.last() - 48)
    }
}

/// A digit string's value is nonnegative and bounded by its length's power
/// of ten.
pub proof fn lemma_dec_value_bound(s: Seq<u8>)
    requires
        all_digits(s),
    ensures
        0 <= dec_value(s),
        s.len() <= 1 ==> dec_value(s) <= 9,
        s.len() <= 2 ==> dec_value(s) <= 99,
        s.len() <= 3 ==> dec_value(s) <= 999,
    decreases s.len(),
{
    if s.len() > 0 {
        assert(is_ascii_digit(s[s.len() - 1]));
        assert(all_digits(s.drop_last())) by {
            assert(forall|i: int|
                0 <= i < s.drop_last().len() ==> s.drop_last()[i] == s[i]);
        }
        lemma_dec_value_bound(s.drop_last());
    }
}

/// `s` is one address component: one to three digits whose value fits a
/// byte.
pub open spec fn is_octet(s: Seq<u8>) -> bool {
    &&& 1 <= s.len() <= 3
    &&& all_digits(s)
    &&& dec_value(s) <= 255
}

/// The components of `s` between dots, in order; the empty string has one
/// empty component, and every dot opens a new one.
pub open spec fn split_dots(s: Seq<u8>) -> Seq<Seq<u8>>
    decreases s.len(),
{
    if s.len() == 0 {
        seq![Seq::<u8>::empty()]
    } else {
        let rest = split_dots(s.drop_first());
        if s[0] == DOT {
            seq![Seq::<u8>::empty()] + rest
        } else {
            seq![seq![s[0]] + rest[0]] + rest.drop_first()
        }
    }
}

/// The parsed address: the four octet values, exactly when `s` splits into
/// four components that each are an octet.
pub open spec fn spec_parse_ipv4(s: Seq<u8>) -> Option<Seq<u8>> {
    let parts = split_dots(s);
    if parts.len() == 4 && is_octet(parts[0]) && is_octet(parts[1]) && is_octet(parts[2])
        && is_octet(parts[3]) {
        Some(
            seq![
                dec_value(parts[0]) as u8,
                dec_value(parts[1]) as u8,
                dec_value(parts[2]) as u8,
                dec_value(parts[3]) as u8,
            ],
        )
    } else {
        None
    }
}

/// Splits `s[from..]` at every dot, mirroring [`split_dots`].
fn split_parts(s: &[u8], from: usize) -> (parts: Vec<Vec<u8>>)
    requires
        from <= s@.len(),
    ensures
        parts@.map_values(|v: Vec<u8>| v@) == split_dots(s@.subrange(from as int, s@.len() as int)),
        parts@.len() >= 1,
    decreases s@.len() - from,
{
    let ghost tail = s@.subrange(from as int, s@.len() as int);
    if from == s.len() {
        let mut parts: Vec<Vec<u8>> = Vec::new();
        parts.push(Vec::new());
        assert(parts@.map_values(|v: Vec<u8>| v@) =~~= split_dots(tail));
        parts
    } else {
        let mut rest = split_parts(s, from + 1);
        let ghost rest_tail = s@.subrange(from + 1, s@.len() as int);
        assert(tail.drop_first() =~= rest_tail);
        if s[from] == DOT {
            rest.insert(0, Vec::new());
            assert(rest@.map_values(|v: Vec<u8>| v@) =~~= split_dots(tail));
            rest
        } else {
            let mut first = rest.remove(0);
            first.insert(0, s[from]);
            rest.insert(0, first);
            assert(rest@.map_values(|v: Vec<u8>| v@) =~~= split_dots(tail));
            rest
        }
    }
}

/// Reads one address component: its value when it is an octet, nothing
/// otherwise.
fn octet_value(part: &Vec<u8>) -> (r: Option<u8>)
    ensures
        r is Some <==> is_octet(part@),
        r matches Some(v) ==> v as int == dec_value(part@),
{
    let n = part.len();
    if n < 1 || n > 3 {
        return None;
    }
    let mut acc: u32 = 0;
    let mut i: usize = 0;
    while i < n
        invariant
            i <= n,
            n == part@.len() <= 3,
            all_digits(part@.subrange(0, i as int)),
            acc as int == dec_value(part@.subrange(0, i as int)),
            acc <= 999,
        decreases n - i,
    {
        let b = part[i];
        if b < 48 || b > 57 {
            assert(!is_ascii_digit(part@[i as int]));
            return None;
        }
        assert(is_ascii_digit(part@[i as int]));
        assert(all_digits(part@.subrange(0, i as int + 1))) by {
            assert(forall|j: int|
                0 <= j < i as int + 1 ==> part@.subrange(0, i as int + 1)[j] == part@[j]);
        }
        assert(part@.subrange(0, i as int + 1).drop_last() =~= part@.subrange(0, i as int));
        assert(part@.subrange(0, i as int + 1).last() == part@[i as int]);
        acc = acc * 10 + (b - 48) as u32;
        proof {
            lemma_dec_value_bound(part@.subrange(0, i as int + 1));
        }
        i += 1;
    }
    assert(part@.subrange(0, n as int) =~= part@);
    if acc > 255 {
        return None;
    }
    Some(acc as u8)
}

/// A broker's resolved network address and port.
#[derive(Clone, Copy, Debug, PartialEq, Eq)]
pub struct BrokerEndpoint {
    pub addr: [u8; 4],
    pub port: u16,
}

/// Parses a dotted-quad host string into its four octets.
pub fn parse_ipv4(host: &[u8]) -> (r: Option<[u8; 4]>)
    ensures
        r matches Some(a) ==> spec_parse_ipv4(host@) == Some(a@),
        r is None <==> spec_parse_ipv4(host@) is None,
{
    let parts = split_parts(host, 0);
    proof {
        assert(host@.subrange(0, host@.len() as int) =~= host@);
    }
    let ghost f = |v: Vec<u8>| v@;
    if parts.len() != 4 {
        return None;
    }
    assert(parts@.map_values(f)[0] == parts@[0]@);
    assert(parts@.map_values(f)[1] == parts@[1]@);
    assert(parts@.map_values(f)[2] == parts@[2]@);
    assert(parts@.map_values(f)[3] == parts@[3]@);
    let v0 = match octet_value(&parts[0]) {
        Some(v) => v,
        None => { return None; },
    };
    let v1 = match octet_value(&parts[1]) {
        Some(v) => v,
        None => { return None; },
    };
    let v2 = match octet_value(&parts[2]) {
        Some(v) => v,
        None => { return None; },
    };
    let v3 = match octet_value(&parts[3]) {
        Some(v) => v,
        None => { return None; },
    };
    let addr: [u8; 4] = [v0, v1, v2, v3];
    assert(addr@ =~= spec_parse_ipv4(host@).unwrap());
    Some(addr)
}

/// Resolves the configured host string: the parsed address when it is a
/// dotted quad, the loopback sentinel otherwise, with the configured port
/// either way.
pub fn resolve_endpoint(host: &[u8], port: u16) -> (ep: BrokerEndpoint)
    ensures
        spec_parse_ipv4(host@) matches Some(a) ==> ep.addr@ == a,
        spec_parse_ipv4(host@) is None ==> ep.addr@ == seq![127u8, 0u8, 0u8, 1u8],
        ep.port == port,
{
    match parse_ipv4(host) {
        Some(addr) => BrokerEndpoint { addr, port },
        None => {
            let fallback: [u8; 4] = [127, 0, 0, 1];
            assert(fallback@ =~= seq![127u8, 0u8, 0u8, 1u8]);
            BrokerEndpoint { addr: fallback, port }
        },
    }
}

} // verus!
