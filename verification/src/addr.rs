//! Parsing of a raw `host[:port]` address.
//!
//! The first colon divides host from port; text after a second colon is
//! ignored. Port text that is not a decimal number in `1..=65535` (one
//! leading `+` tolerated) falls back to "no port" (the default applies
//! at probe time), so malformed port input never blocks a status check.
//! Parsing fails only when the whole input is empty: the host part is
//! taken as it stands, even empty for an input that begins with a
//! colon, and an unusable host surfaces as a connection failure at the
//! probe, never as a parse error.

use vstd::prelude::*;

verus! {

/// The port a probe uses when an address carries none.
pub const DEFAULT_PORT: u16 = 25565;

/// The one way an address can be rejected.
#[derive(Debug, Clone, Copy, PartialEq, Eq, Structural)]
pub enum AddressError {
    InvalidAddress,
}

/// A parsed server address: the host text as given and an optional
/// positive port.
#[derive(Debug, PartialEq, Eq)]
pub struct ServerAddress {
    pub host: String,
    pub port: Option<u16>,
}

impl ServerAddress {
    /// The type's invariant: a present port is positive.
    pub open spec fn wf(&self) -> bool {
        self.port matches Some(p) ==> p >= 1
    }

    /// The port to probe: the stored one, or the default.
    pub fn effective_port(&self) -> (r: u16)
        ensures
            r == effective_port_spec(self.port),
    {
        match self.port {
            Some(p) => p,
            None => DEFAULT_PORT,
        }
    }
}

pub open spec fn effective_port_spec(port: Option<u16>) -> u16 {
    match port {
        Some(p) => p,
        None => DEFAULT_PORT,
    }
}

pub open spec fn is_digit(c: char) -> bool {
    ||| c == '0'
    ||| c == '1'
    ||| c == '2'
    ||| c == '3'
    ||| c == '4'
    ||| c == '5'
    ||| c == '6'
    ||| c == '7'
    ||| c == '8'
    ||| c == '9'
}

pub open spec fn digit_value(c: char) -> int {
    if c == '0' {
        0
    } else if c == '1' {
        1
    } else if c == '2' {
        2
    } else if c == '3' {
        3
    } else if c == '4' {
        4
    } else if c == '5' {
        5
    } else if c == '6' {
        6
    } else if c == '7' {
        7
    } else if c == '8' {
        8
    } else {
        9
    }
}

pub open spec fn all_digits(s: Seq<char>) -> bool {
    forall|i: int| 0 <= i < s.len() ==> is_digit(s[i])
}

/// The value of a string of decimal digits, most significant first.
pub open spec fn digits_value(s: Seq<char>) -> int
    decreases s.len(),
{
    if s.len() == 0 {
        0
    } else {
        digits_value(s.drop_last()) * 10 + digit_value(s.last())
    }
}

/// A port text's digits: the text itself, less one leading `+` sign
/// (which an unsigned decimal parse tolerates).
pub open spec fn port_digits(s: Seq<char>) -> Seq<char> {
    if s.len() > 0 && s[0] == '+' {
        s.skip(1)
    } else {
        s
    }
}

pub open spec fn spec_port_digits(d: Seq<char>) -> Option<u16> {
    if d.len() > 0 && all_digits(d) && 1 <= digits_value(d) && digits_value(d) <= 65535 {
        Some(digits_value(d) as u16)
    } else {
        None
    }
}

/// What a port text denotes: a decimal number in `1..=65535`, one
/// leading `+` tolerated — or nothing at all (empty, non-digits, zero,
/// or out of range).
pub open spec fn spec_port(s: Seq<char>) -> Option<u16> {
    spec_port_digits(port_digits(s))
}

proof fn lemma_digits_value_nonneg(s: Seq<char>)
    requires
        all_digits(s),
    ensures
        digits_value(s) >= 0,
    decreases s.len(),
{
    if s.len() > 0 {
        assert(all_digits(s.drop_last()));
        lemma_digits_value_nonneg(s.drop_last());
    }
}

/// A prefix of a digit string never exceeds the whole string's value.
proof fn lemma_digits_value_prefix_le(s: Seq<char>, k: int)
    requires
        0 <= k <= s.len(),
        all_digits(s),
    ensures
        digits_value(s.subrange(0, k)) <= digits_value(s),
    decreases s.len() - k,
{
    if k == s.len() {
        assert(s.subrange(0, k) =~= s);
    } else {
        let t = s.subrange(0, k + 1);
        assert(all_digits(t));
        assert(t.drop_last() =~= s.subrange(0, k));
        lemma_digits_value_nonneg(t.drop_last());
        assert(digits_value(t) == digits_value(s.subrange(0, k)) * 10 + digit_value(t.last()));
        lemma_digits_value_prefix_le(s, k + 1);
    }
}

fn digit_of(c: char) -> (r: Option<u32>)
    ensures
        match r {
            Some(d) => is_digit(c) && d == digit_value(c),
            None => !is_digit(c),
        },
{
    if c == '0' {
        Some(0)
    } else if c == '1' {
        Some(1)
    } else if c == '2' {
        Some(2)
    } else if c == '3' {
        Some(3)
    } else if c == '4' {
        Some(4)
    } else if c == '5' {
        Some(5)
    } else if c == '6' {
        Some(6)
    } else if c == '7' {
        Some(7)
    } else if c == '8' {
        Some(8)
    } else if c == '9' {
        Some(9)
    } else {
        None
    }
}

/// Reads a port from its text, exactly as `spec_port` describes.
pub fn parse_port(s: &str) -> (r: Option<u16>)
    ensures
        r == spec_port(s@),
{
    let n = s.unicode_len();
    if n > 0 && s.get_char(0) == '+' {
        let stripped = s.substring_char(1, n);
        proof {
            assert(stripped@ =~= s@.skip(1));
        }
        parse_port_digits(stripped)
    } else {
        parse_port_digits(s)
    }
}

fn parse_port_digits(s: &str) -> (r: Option<u16>)
    ensures
        r == spec_port_digits(s@),
{
    let n = s.unicode_len();
    if n == 0 {
        return None;
    }
    let mut acc: u32 = 0;
    let mut i: usize = 0;
    while i < n
        invariant
            0 < n == s@.len(),
            i <= n,
            all_digits(s@.subrange(0, i as int)),
            acc == digits_value(s@.subrange(0, i as int)),
            acc <= 65535,
        decreases n - i,
    {
        let c = s.get_char(i);
        match digit_of(c) {
            None => {
                return None;
            },
            Some(d) => {
                proof {
                    let pre = s@.subrange(0, i as int);
                    let cur = s@.subrange(0, i + 1);
                    assert(cur.drop_last() =~= pre);
                    assert(cur.last() == c);
                }
                acc = acc * 10 + d;
                if acc > 65535 {
                    proof {
                        if all_digits(s@) {
                            lemma_digits_value_prefix_le(s@, i + 1);
                        }
                    }
                    return None;
                }
                i += 1;
            },
        }
    }
    proof {
        assert(s@.subrange(0, n as int) =~= s@);
    }
    if acc == 0 {
        None
    } else {
        Some(acc as u16)
    }
}

/// The position of the first colon, if any.
pub open spec fn first_colon(s: Seq<char>) -> Option<int>
    decreases s.len(),
{
    if s.len() == 0 {
        None
    } else if s[0] == ':' {
        Some(0)
    } else {
        match first_colon(s.skip(1)) {
            None => None,
            Some(j) => Some(j + 1),
        }
    }
}

pub proof fn lemma_first_colon(s: Seq<char>)
    ensures
        match first_colon(s) {
            None => forall|i: int| 0 <= i < s.len() ==> s[i] != ':',
            Some(j) => 0 <= j < s.len() && s[j] == ':' && (forall|i: int|
                0 <= i < j ==> s[i] != ':'),
        },
    decreases s.len(),
{
    if s.len() == 0 {
    } else if s[0] == ':' {
    } else {
        let t = s.skip(1);
        lemma_first_colon(t);
        assert(forall|i: int| 0 <= i < t.len() ==> t[i] == s[i + 1]);
        match first_colon(t) {
            None => {
                assert forall|i: int| 0 <= i < s.len() implies s[i] != ':' by {
                    if i > 0 {
                        assert(s[i] == t[i - 1]);
                    }
                }
            },
            Some(j) => {
                assert(s[j + 1] == t[j]);
                assert forall|i: int| 0 <= i < j + 1 implies s[i] != ':' by {
                    if i > 0 {
                        assert(s[i] == t[i - 1]);
                    }
                }
            },
        }
    }
}

/// The host part: everything before the first colon, or the whole
/// string if there is none.
pub open spec fn host_segment(s: Seq<char>) -> Seq<char> {
    match first_colon(s) {
        None => s,
        Some(j) => s.subrange(0, j),
    }
}

/// The port text: between the first colon and the second (or the end);
/// empty when there is no colon.
pub open spec fn port_segment(s: Seq<char>) -> Seq<char> {
    match first_colon(s) {
        None => Seq::empty(),
        Some(j) => {
            let rest = s.subrange(j + 1, s.len() as int);
            match first_colon(rest) {
                None => rest,
                Some(k) => rest.subrange(0, k),
            }
        },
    }
}

fn find_colon(s: &str) -> (r: Option<usize>)
    ensures
        match r {
            None => first_colon(s@) is None,
            Some(i) => first_colon(s@) == Some(i as int),
        },
{
    let n = s.unicode_len();
    let mut i: usize = 0;
    while i < n
        invariant
            i <= n == s@.len(),
            forall|k: int| 0 <= k < i ==> s@[k] != ':',
        decreases n - i,
    {
        if s.get_char(i) == ':' {
            proof {
                lemma_first_colon(s@);
            }
            return Some(i);
        }
        i += 1;
    }
    proof {
        lemma_first_colon(s@);
    }
    None
}

/// Splits `raw` into a host and an optional port.
///
/// Fails exactly when `raw` is empty. The host part is kept even when
/// it is empty text (an input beginning with a colon); a malformed or
/// out-of-range port text yields an address without a port rather than
/// an error.
pub fn parse(raw: &str) -> (r: Result<ServerAddress, AddressError>)
    ensures
        r is Ok <==> raw@.len() > 0,
        (r matches Ok(a) ==> {
            &&& a.host@ == host_segment(raw@)
            &&& a.port == spec_port(port_segment(raw@))
            &&& a.wf()
        }),
        (r matches Err(e) ==> e == AddressError::InvalidAddress),
{
    let n = raw.unicode_len();
    if n == 0 {
        return Err(AddressError::InvalidAddress);
    }
    match find_colon(raw) {
        None => Ok(ServerAddress { host: String::from_str(raw), port: None }),
        Some(j) => {
            proof {
                lemma_first_colon(raw@);
            }
            let host = String::from_str(raw.substring_char(0, j));
            let rest = raw.substring_char(j + 1, n);
            let port_text = match find_colon(rest) {
                None => rest,
                Some(k) => {
                    proof {
                        lemma_first_colon(rest@);
                    }
                    rest.substring_char(0, k)
                },
            };
            let port = parse_port(port_text);
            proof {
                if spec_port(port_segment(raw@)) matches Some(p) {
                    assert(digits_value(port_digits(port_segment(raw@))) >= 1);
                }
            }
            Ok(ServerAddress { host, port })
        },
    }
}

/// A raw address without a colon is taken whole as the host, with no
/// port.
pub proof fn lemma_parse_no_colon(raw: Seq<char>)
    requires
        raw.len() > 0,
        forall|i: int| 0 <= i < raw.len() ==> raw[i] != ':',
    ensures
        host_segment(raw) == raw,
        spec_port(port_segment(raw)) is None,
{
    lemma_first_colon(raw);
    match first_colon(raw) {
        None => {},
        Some(j) => {
            assert(raw[j] == ':');
            assert(false);
        },
    }
}

/// In `h:p` (with `h` non-empty and neither side holding a colon), the
/// host is `h` and the port text is `p`; `p` becomes a port exactly
/// when its digits (one leading `+` tolerated) are a decimal number in
/// `1..=65535`, and is otherwise dropped.
pub proof fn lemma_parse_host_and_port(h: Seq<char>, p: Seq<char>)
    requires
        forall|i: int| 0 <= i < h.len() ==> h[i] != ':',
        forall|i: int| 0 <= i < p.len() ==> p[i] != ':',
    ensures
        host_segment(h + seq![':'] + p) == h,
        port_segment(h + seq![':'] + p) == p,
        (port_digits(p).len() > 0 && all_digits(port_digits(p)) && 1 <= digits_value(
            port_digits(p),
        ) && digits_value(port_digits(p)) <= 65535) ==> spec_port(p) == Some(
            digits_value(port_digits(p)) as u16,
        ),
        !(port_digits(p).len() > 0 && all_digits(port_digits(p)) && 1 <= digits_value(
            port_digits(p),
        ) && digits_value(port_digits(p)) <= 65535) ==> spec_port(p) is None,
{
    let raw = h + seq![':'] + p;
    assert(raw.len() == h.len() + 1 + p.len());
    assert(forall|i: int| 0 <= i < h.len() ==> raw[i] == h[i]);
    assert(raw[h.len() as int] == ':');
    assert(forall|i: int| 0 <= i < p.len() ==> raw[h.len() + 1 + i] == p[i]);
    lemma_first_colon(raw);
    match first_colon(raw) {
        None => {
            assert(false);
        },
        Some(j) => {
            if j < h.len() {
                assert(raw[j] == h[j]);
                assert(false);
            }
            if j > h.len() {
                assert(raw[h.len() as int] != ':');
                assert(false);
            }
            assert(j == h.len());
            assert(raw.subrange(0, j) =~= h);
            let rest = raw.subrange(j + 1, raw.len() as int);
            assert(rest =~= p);
            lemma_first_colon(rest);
            match first_colon(rest) {
                None => {},
                Some(k) => {
                    assert(rest[k] == ':');
                    assert(false);
                },
            }
        },
    }
}

} // verus!
