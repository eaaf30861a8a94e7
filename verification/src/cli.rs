//! Validated command-line values.
//!
//! The argument-handling layer looks the raw `--port` and `--cid` texts up
//! and hands them here as optional strings; everything after that lookup —
//! presence checks, decimal parsing, the exact error texts — is decided by
//! this module.

use vstd::prelude::*;

verus! {

/// The arguments of the listening side: the port to bind.
#[derive(Debug, Clone, PartialEq)]
pub struct ServerArgs {
    pub port: u32,
}

/// The arguments of the connecting side: the peer identifier and the port.
#[derive(Debug, Clone, PartialEq)]
pub struct ClientArgs {
    pub cid: u32,
    pub port: u32,
}

/// The digit characters of a decimal numeral, after any single leading
/// plus sign.
pub open spec fn numeral_digits(s: Seq<char>) -> Seq<char> {
    if s.len() > 0 && s[0] == '+' {
        s.skip(1)
    } else {
        s
    }
}

/// Whether a character is a decimal digit.
pub open spec fn is_decimal_digit(c: char) -> bool {
    48 <= c as u32 <= 57
}

/// The value spelled by a sequence of decimal digits.
pub open spec fn digits_value(s: Seq<char>) -> int
    decreases s.len(),
{
    if s.len() == 0 {
        0
    } else {
        digits_value(s.drop_last()) * 10 + (s.last() as u32 - 48)
    }
}

/// Whether every character of a sequence is a decimal digit.
pub open spec fn all_digits(s: Seq<char>) -> bool {
    forall|i: int| 0 <= i < s.len() ==> is_decimal_digit(#[trigger] s[i])
}

/// Whether a string spells a `u32`: an optional plus sign, then at least
/// one decimal digit, with a value that fits in 32 bits. This is the set of
/// inputs the standard decimal parser accepts for `u32`.
pub open spec fn is_u32_numeral(s: Seq<char>) -> bool {
    let d = numeral_digits(s);
    d.len() > 0 && all_digits(d) && digits_value(d) <= u32::MAX
}

/// The value a `u32` numeral spells.
pub open spec fn u32_numeral_value(s: Seq<char>) -> int {
    digits_value(numeral_digits(s))
}

/// The value of a digit sequence is never negative.
proof fn lemma_digits_value_nonneg(s: Seq<char>)
    requires
        all_digits(s),
    ensures
        digits_value(s) >= 0,
    decreases s.len(),
{
    if s.len() > 0 {
        lemma_digits_value_nonneg(s.drop_last());
    }
}

/// Reading one more digit multiplies the prefix value by ten and adds it.
proof fn lemma_digits_value_step(s: Seq<char>, i: int)
    requires
        0 <= i < s.len(),
    ensures
        digits_value(s.take(i + 1)) == digits_value(s.take(i)) * 10 + (s[i] as u32 - 48),
{
    assert(s.take(i + 1).drop_last() =~= s.take(i));
    assert(s.take(i + 1).last() == s[i]);
}

/// A digit sequence is worth at least any of its prefixes.
proof fn lemma_digits_value_prefix(s: Seq<char>, i: int)
    requires
        0 <= i <= s.len(),
        all_digits(s),
    ensures
        digits_value(s.take(i)) <= digits_value(s),
    decreases s.len() - i,
{
    if i < s.len() {
        lemma_digits_value_step(s, i);
        lemma_digits_value_nonneg(s.take(i));
        lemma_digits_value_prefix(s, i + 1);
    } else {
        assert(s.take(i) =~= s);
    }
}

/// Parse a decimal `u32` numeral: an optional plus sign, then digits.
/// Returns the value exactly when the string spells one.
pub fn parse_u32_decimal(s: &str) -> (r: Option<u32>)
    ensures
        r is Some <==> is_u32_numeral(s@),
        r is Some ==> r->0 as int == u32_numeral_value(s@),
{
    let len = s.unicode_len();
    let start: usize = if len > 0 && s.get_char(0) == '+' {
        1
    } else {
        0
    };
    let ghost d = numeral_digits(s@);
    proof {
        assert(d =~= s@.skip(start as int));
    }
    if len == start {
        return None;
    }
    let mut acc: u64 = 0;
    let mut i: usize = start;
    while i < len
        invariant
            start <= i <= len,
            len == s@.len(),
            start <= 1,
            d == numeral_digits(s@),
            d == s@.skip(start as int),
            forall|k: int| 0 <= k < i - start ==> is_decimal_digit(#[trigger] d[k]),
            acc as int == digits_value(d.take(i - start)),
            acc <= u32::MAX,
        decreases len - i,
    {
        let c = s.get_char(i);
        let u = c as u32;
        if u < 48 || u > 57 {
            proof {
                assert(d[i - start] == s@[i as int]);
                assert(!is_decimal_digit(d[i - start]));
                assert(!all_digits(d));
                assert(!is_u32_numeral(s@));
            }
            return None;
        }
        proof {
            assert(d[i - start] == s@[i as int]);
            assert(is_decimal_digit(d[i - start]));
            lemma_digits_value_step(d, i - start);
        }
        acc = acc * 10 + ((u - 48) as u64);
        if acc > 0xffff_ffff {
            proof {
                assert(acc as int == digits_value(d.take(i - start + 1)));
                if all_digits(d) {
                    lemma_digits_value_prefix(d, i - start + 1);
                    assert(digits_value(d) > u32::MAX);
                }
                assert(!is_u32_numeral(s@));
            }
            return None;
        }
        i += 1;
    }
    proof {
        assert(d.take(i - start) =~= d);
        assert(all_digits(d));
        assert(is_u32_numeral(s@));
    }
    Some(acc as u32)
}

/// Look the port text up and parse it, with the exact error texts of the
/// command line: a missing argument and a non-numeric one are told apart.
pub fn parse_port(port: Option<&str>) -> (r: Result<u32, String>)
    ensures
        r is Ok <==> (port is Some && is_u32_numeral(port->0@)),
        r is Ok ==> r->Ok_0 as int == u32_numeral_value(port->0@),
        port is None ==> r->Err_0@ == "Could not find port argument"@,
        port is Some && !is_u32_numeral(port->0@) ==> r->Err_0@ == "port is not a number"@,
{
    match port {
        None => Err(String::from_str("Could not find port argument")),
        Some(text) => match parse_u32_decimal(text) {
            Some(v) => Ok(v),
            None => Err(String::from_str("port is not a number")),
        },
    }
}

/// Look the peer-identifier text up and parse it, with the exact error
/// texts of the command line.
pub fn parse_cid_client(cid: Option<&str>) -> (r: Result<u32, String>)
    ensures
        r is Ok <==> (cid is Some && is_u32_numeral(cid->0@)),
        r is Ok ==> r->Ok_0 as int == u32_numeral_value(cid->0@),
        cid is None ==> r->Err_0@ == "Could not find cid argument"@,
        cid is Some && !is_u32_numeral(cid->0@) ==> r->Err_0@ == "cid is not a number"@,
{
    match cid {
        None => Err(String::from_str("Could not find cid argument")),
        Some(text) => match parse_u32_decimal(text) {
            Some(v) => Ok(v),
            None => Err(String::from_str("cid is not a number")),
        },
    }
}

impl ServerArgs {
    /// Build the server arguments from the looked-up port text.
    pub fn from_port_text(port: Option<&str>) -> (r: Result<ServerArgs, String>)
        ensures
            r is Ok <==> (port is Some && is_u32_numeral(port->0@)),
            r is Ok ==> r->Ok_0.port as int == u32_numeral_value(port->0@),
            port is None ==> r->Err_0@ == "Could not find port argument"@,
            port is Some && !is_u32_numeral(port->0@) ==> r->Err_0@ == "port is not a number"@,
    {
        match parse_port(port) {
            Ok(port) => Ok(ServerArgs { port }),
            Err(e) => Err(e),
        }
    }
}

impl ClientArgs {
    /// Build the client arguments from the looked-up peer-identifier and
    /// port texts; a bad peer identifier is reported first.
    pub fn from_texts(cid: Option<&str>, port: Option<&str>) -> (r: Result<ClientArgs, String>)
        ensures
            r is Ok <==> (cid is Some && is_u32_numeral(cid->0@) && port is Some
                && is_u32_numeral(port->0@)),
            r is Ok ==> r->Ok_0.cid as int == u32_numeral_value(cid->0@) && r->Ok_0.port as int
                == u32_numeral_value(port->0@),
            cid is None ==> r->Err_0@ == "Could not find cid argument"@,
            cid is Some && !is_u32_numeral(cid->0@) ==> r->Err_0@ == "cid is not a number"@,
            cid is Some && is_u32_numeral(cid->0@) && port is None ==> r->Err_0@
                == "Could not find port argument"@,
            cid is Some && is_u32_numeral(cid->0@) && port is Some && !is_u32_numeral(port->0@)
                ==> r->Err_0@ == "port is not a number"@,
    {
        let cid = match parse_cid_client(cid) {
            Ok(v) => v,
            Err(e) => {
                return Err(e);
            },
        };
        let port = match parse_port(port) {
            Ok(v) => v,
            Err(e) => {
                return Err(e);
            },
        };
        Ok(ClientArgs { cid, port })
    }
}

} // verus!
