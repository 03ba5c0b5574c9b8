//! IPv4 addresses and socket addresses as plain values, with the text form
//! `a.b.c.d:port` in which an advertisement gives a device's location.

use crate::text::{all_digits, chars_of, digit_value, digits_value, is_digit};
use vstd::prelude::*;

verus! {

/// An IPv4 address: four octets, the first one leading.
#[derive(Debug, Copy, Clone, Eq, PartialEq, Structural)]
pub struct Ipv4Addr {
    pub a: u8,
    pub b: u8,
    pub c: u8,
    pub d: u8,
}

impl Ipv4Addr {
    /// The multicast range is `224.0.0.0/4`: the first octet lies in 224 to 239.
    pub open spec fn spec_is_multicast(&self) -> bool {
        224 <= self.a <= 239
    }

    /// The address `a.b.c.d`.
    pub fn new(a: u8, b: u8, c: u8, d: u8) -> (r: Ipv4Addr)
        ensures
            r == (Ipv4Addr { a, b, c, d }),
    {
        Ipv4Addr { a, b, c, d }
    }

    /// The four octets, the first one leading.
    pub fn octets(&self) -> (r: [u8; 4])
        ensures
            r@ == seq![self.a, self.b, self.c, self.d],
    {
        let r = [self.a, self.b, self.c, self.d];
        r
    }

    /// Whether the address lies in the multicast range `224.0.0.0/4`.
    #[verifier::when_used_as_spec(spec_is_multicast)]
    pub fn is_multicast(&self) -> (r: bool)
        ensures
            r == self.spec_is_multicast(),
    {
        224 <= self.a && self.a <= 239
    }
}

/// An IPv4 address together with a port.
#[derive(Debug, Copy, Clone, Eq, PartialEq, Structural)]
pub struct SocketAddrV4 {
    pub ip: Ipv4Addr,
    pub port: u16,
}

/// The first position at or after `from` where `s` holds `c`; the length of `s`
/// if there is none.
pub open spec fn find_from(s: Seq<char>, from: int, c: char) -> int
    decreases s.len() - from,
{
    if from < 0 || from >= s.len() {
        s.len() as int
    } else if s[from] == c {
        from
    } else {
        find_from(s, from + 1, c)
    }
}

/// An octet in text: one to three digits, no leading zero before another digit,
/// and a value of at most 255.
pub open spec fn is_octet(s: Seq<char>) -> bool {
    &&& 1 <= s.len() <= 3
    &&& all_digits(s)
    &&& (s.len() > 1 ==> s[0] != '0')
    &&& digits_value(s) <= u8::MAX
}

/// A port in text: one or more digits with a value of at most 65535.
pub open spec fn is_port(s: Seq<char>) -> bool {
    &&& 1 <= s.len()
    &&& all_digits(s)
    &&& digits_value(s) <= u16::MAX
}

impl SocketAddrV4 {
    /// What a text parses to. The text is cut at its first three dots and at the
    /// first colon after them; the four pieces before the colon must be octets and
    /// the rest a port.
    pub open spec fn spec_parse(s: Seq<char>) -> Option<SocketAddrV4> {
        let i1 = find_from(s, 0, '.');
        let i2 = find_from(s, i1 + 1, '.');
        let i3 = find_from(s, i2 + 1, '.');
        let i4 = find_from(s, i3 + 1, ':');
        let a = s.subrange(0, i1);
        let b = s.subrange(i1 + 1, i2);
        let c = s.subrange(i2 + 1, i3);
        let d = s.subrange(i3 + 1, i4);
        let p = s.subrange(i4 + 1, s.len() as int);
        if i4 < s.len() && is_octet(a) && is_octet(b) && is_octet(c) && is_octet(d) && is_port(
            p,
        ) {
            Some(
                SocketAddrV4 {
                    ip: Ipv4Addr {
                        a: digits_value(a) as u8,
                        b: digits_value(b) as u8,
                        c: digits_value(c) as u8,
                        d: digits_value(d) as u8,
                    },
                    port: digits_value(p) as u16,
                },
            )
        } else {
            None
        }
    }

    /// The socket address of `ip` and `port`.
    pub fn new(ip: Ipv4Addr, port: u16) -> (r: SocketAddrV4)
        ensures
            r == (SocketAddrV4 { ip, port }),
    {
        SocketAddrV4 { ip, port }
    }

    /// The address.
    pub fn ip(&self) -> (r: &Ipv4Addr)
        ensures
            *r == self.ip,
    {
        &self.ip
    }

    /// The port.
    pub fn port(&self) -> (r: u16)
        ensures
            r == self.port,
    {
        self.port
    }

    /// Reads a socket address from the text form `a.b.c.d:port`.
    pub fn parse(s: &str) -> (r: Option<SocketAddrV4>)
        ensures
            r == SocketAddrV4::spec_parse(s@),
    {
        let v = chars_of(s);
        let i1 = find(&v, 0, '.');
        if i1 >= v.len() {
            return None;
        }
        let i2 = find(&v, i1 + 1, '.');
        if i2 >= v.len() {
            return None;
        }
        let i3 = find(&v, i2 + 1, '.');
        if i3 >= v.len() {
            return None;
        }
        let i4 = find(&v, i3 + 1, ':');
        if i4 >= v.len() {
            return None;
        }
        let a = octet(&v, 0, i1)?;
        let b = octet(&v, i1 + 1, i2)?;
        let c = octet(&v, i2 + 1, i3)?;
        let d = octet(&v, i3 + 1, i4)?;
        let port = number(&v, i4 + 1, v.len(), 65535)?;
        Some(SocketAddrV4 { ip: Ipv4Addr { a, b, c, d }, port: port as u16 })
    }
}

/// The value of a run of digits is at least the value of each of its beginnings.
proof fn lemma_digits_value_grows(s: Seq<char>, k: int)
    requires
        0 <= k <= s.len(),
    ensures
        digits_value(s.take(k)) <= digits_value(s),
    decreases s.len(),
{
    if k == s.len() {
        assert(s.take(k) =~= s);
    } else {
        lemma_digits_value_grows(s.drop_last(), k);
        assert(s.drop_last().take(k) =~= s.take(k));
    }
}

fn find(v: &Vec<char>, from: usize, c: char) -> (i: usize)
    requires
        from <= v.len(),
    ensures
        from <= i <= v.len(),
        i == find_from(v@, from as int, c),
{
    let mut i: usize = from;
    while i < v.len() && v[i] != c
        invariant
            from <= i <= v.len(),
            find_from(v@, from as int, c) == find_from(v@, i as int, c),
        decreases v.len() - i,
    {
        i = i + 1;
    }
    i
}

/// The value of the digits in `v[from..to]`, if that is a non-empty run of digits
/// whose value is at most `limit`.
fn number(v: &Vec<char>, from: usize, to: usize, limit: u32) -> (r: Option<u32>)
    requires
        from <= to <= v.len(),
        limit <= 65535,
    ensures
        r is Some <==> {
            &&& from < to
            &&& all_digits(v@.subrange(from as int, to as int))
            &&& digits_value(v@.subrange(from as int, to as int)) <= limit
        },
        r matches Some(n) ==> n == digits_value(v@.subrange(from as int, to as int)),
{
    if from >= to {
        return None;
    }
    let ghost whole = v@.subrange(from as int, to as int);
    let mut value: u32 = 0;
    let mut i: usize = from;
    while i < to
        invariant
            from <= i <= to <= v.len(),
            limit <= 65535,
            whole == v@.subrange(from as int, to as int),
            all_digits(whole.take(i - from)),
            value == digits_value(whole.take(i - from)),
            value <= limit,
        decreases to - i,
    {
        let ch = v[i];
        proof {
            assert(whole.take(i - from + 1).drop_last() =~= whole.take(i - from));
        }
        let code: u32 = ch as u32;
        if code < '0' as u32 || code > '9' as u32 {
            assert(!is_digit(whole[i - from]));
            return None;
        }
        let digit: u32 = code - '0' as u32;
        value = value * 10 + digit;
        if value > limit {
            proof {
                lemma_digits_value_grows(whole, i - from + 1);
            }
            return None;
        }
        i = i + 1;
    }
    assert(whole.take(to - from) =~= whole);
    Some(value)
}

/// The value of the octet in `v[from..to]`, if that is the text of an octet.
fn octet(v: &Vec<char>, from: usize, to: usize) -> (r: Option<u8>)
    requires
        from <= to <= v.len(),
    ensures
        r is Some <==> is_octet(v@.subrange(from as int, to as int)),
        r matches Some(n) ==> n == digits_value(v@.subrange(from as int, to as int)),
{
    if to - from > 3 {
        return None;
    }
    if to - from > 1 && v[from] == '0' {
        return None;
    }
    match number(v, from, to, 255) {
        Some(n) => Some(n as u8),
        None => None,
    }
}

} // verus!
