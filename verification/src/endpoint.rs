//! The endpoint grammar shared by the storage and ledger configuration.
//!
//! An endpoint names a service as `scheme://host:port`: the scheme is
//! `http` or `https`, the host is a non-empty run of characters holding
//! neither `:` nor `/`, and the port is a non-empty run of decimal digits
//! whose value fits in an unsigned 16-bit number.  The scheme and the port
//! are mandatory.

use vstd::prelude::*;
use vstd::string::StrSliceExecFns;
use vstd::string::StringExecFns;

verus! {

/// Scheme accepted for an endpoint: plain or TLS HTTP.
#[derive(Debug, PartialEq, Eq, Structural, Clone, Copy)]
pub enum Scheme {
    Http,
    Https,
}

/// The parts of an endpoint: scheme, host and port.
#[derive(Debug)]
pub struct Endpoint {
    pub scheme: Scheme,
    pub host: String,
    pub port: u16,
}

/// The text that opens an endpoint written with the given scheme.
pub open spec fn scheme_prefix(sch: Scheme) -> Seq<char> {
    match sch {
        Scheme::Http => "http://"@,
        Scheme::Https => "https://"@,
    }
}

/// `c` is one of the ten decimal digits.
pub open spec fn is_decimal_digit(c: char) -> bool {
    48 <= c as int && c as int <= 57
}

/// The numeric value of a decimal digit.
pub open spec fn digit_value(c: char) -> int {
    c as int - 48
}

/// Every character of `s` is a decimal digit.
pub open spec fn all_decimal_digits(s: Seq<char>) -> bool {
    forall|i: int| 0 <= i < s.len() ==> is_decimal_digit(#[trigger] s[i])
}

/// The value of `s` read as a decimal number, most significant digit
/// first.
pub open spec fn decimal_value(s: Seq<char>) -> int
    decreases s.len(),
{
    if s.len() == 0 {
        0
    } else {
        decimal_value(s.drop_last()) * 10 + digit_value(s.last())
    }
}

/// `s` is a port written in decimal: non-empty, all digits, and of a
/// value that fits in an unsigned 16-bit number.
pub open spec fn is_port_text(s: Seq<char>) -> bool {
    s.len() > 0 && all_decimal_digits(s) && decimal_value(s) <= u16::MAX
}

/// A character a host may hold: anything but the port separator `:` and
/// the path opener `/`.
pub open spec fn is_host_char(c: char) -> bool {
    c != ':' && c != '/'
}

/// `s` is a host: non-empty and made of host characters only.
pub open spec fn is_host_text(s: Seq<char>) -> bool {
    s.len() > 0 && forall|i: int| 0 <= i < s.len() ==> is_host_char(#[trigger] s[i])
}

/// `s` decomposes into the endpoint `scheme://host:digits` where `digits`
/// reads as `port`.  This is the meaning of the grammar; the decomposition
/// is unique when it exists (see [`lemma_parses_as_unique`]).
pub open spec fn parses_as(
    s: Seq<char>,
    sch: Scheme,
    host: Seq<char>,
    digits: Seq<char>,
    port: u16,
) -> bool {
    &&& s == scheme_prefix(sch) + host + seq![':'] + digits
    &&& is_host_text(host)
    &&& is_port_text(digits)
    &&& port == decimal_value(digits)
}

/// `s` is the text of some endpoint.
pub open spec fn is_endpoint_text(s: Seq<char>) -> bool {
    exists|sch: Scheme, host: Seq<char>, digits: Seq<char>, port: u16|
        parses_as(s, sch, host, digits, port)
}

/// The character of one decimal digit value.
pub open spec fn digit_char(d: int) -> char {
    if d == 0 {
        '0'
    } else if d == 1 {
        '1'
    } else if d == 2 {
        '2'
    } else if d == 3 {
        '3'
    } else if d == 4 {
        '4'
    } else if d == 5 {
        '5'
    } else if d == 6 {
        '6'
    } else if d == 7 {
        '7'
    } else if d == 8 {
        '8'
    } else {
        '9'
    }
}

/// The decimal text of `n`, most significant digit first and with no
/// leading zeros.
pub open spec fn decimal_text(n: nat) -> Seq<char>
    decreases n,
{
    if n < 10 {
        seq![digit_char(n as int)]
    } else {
        decimal_text(n / 10).push(digit_char((n % 10) as int))
    }
}

/// `s` opens with one of the two accepted scheme prefixes.
pub open spec fn has_scheme_prefix(s: Seq<char>) -> bool {
    "http://"@.is_prefix_of(s) || "https://"@.is_prefix_of(s)
}

/// The length of the scheme prefix that opens `s` (meaningful only when
/// `has_scheme_prefix(s)` holds; the two prefixes cannot open one text at
/// once).
pub open spec fn spec_scheme_len(s: Seq<char>) -> int {
    if "https://"@.is_prefix_of(s) {
        8
    } else {
        7
    }
}

/// `j` is the position of the first `:` of `s` at or after `from`.
pub open spec fn first_colon_at(s: Seq<char>, from: int, j: int) -> bool {
    &&& from <= j < s.len()
    &&& s[j] == ':'
    &&& forall|k: int| from <= k < j ==> s[k] != ':'
}

/// The region `[from, j)` of `s` is a well-formed host.
pub open spec fn host_region_ok(s: Seq<char>, from: int, j: int) -> bool {
    from < j && forall|k: int| from <= k < j ==> is_host_char(#[trigger] s[k])
}

/// No colon stands after the scheme prefix of `s`.
pub open spec fn no_colon_after_scheme(s: Seq<char>) -> bool {
    forall|k: int| spec_scheme_len(s) <= k < s.len() ==> s[k] != ':'
}

/// Message reported when the text opens with no accepted scheme.
pub open spec fn scheme_error_message() -> Seq<char> {
    "Invalid endpoint, only HTTP and HTTPS schemes are accepted"@
}

/// Message reported when the host part is missing or malformed.
pub open spec fn host_error_message() -> Seq<char> {
    "Invalid endpoint, no host provided"@
}

/// Message reported when the port part is missing or malformed.
pub open spec fn port_error_message() -> Seq<char> {
    "Invalid endpoint, no port provided or isn't a valid unsigned 16 bits number"@
}

/// The failure message [`Endpoint::parse`] reports for a text outside
/// the grammar: it names the first missing or malformed part.
pub open spec fn expected_parse_error(s: Seq<char>, m: Seq<char>) -> bool {
    &&& (!has_scheme_prefix(s) ==> m == scheme_error_message())
    &&& ((has_scheme_prefix(s) && no_colon_after_scheme(s)) ==> m == port_error_message())
    &&& (has_scheme_prefix(s) ==> (forall|j: int|
        #[trigger] first_colon_at(s, spec_scheme_len(s), j) ==> ((host_region_ok(
            s,
            spec_scheme_len(s),
            j,
        ) ==> m == port_error_message()) && (!host_region_ok(s, spec_scheme_len(s), j)
            ==> m == host_error_message()))))
}

/// Whether `p` opens `s`, compared character by character.
fn starts_with_str(s: &str, p: &str) -> (r: bool)
    ensures
        r == p@.is_prefix_of(s@),
{
    let pn = p.unicode_len();
    let sn = s.unicode_len();
    if pn > sn {
        assert(!p@.is_prefix_of(s@));
        return false;
    }
    let mut i: usize = 0;
    while i < pn
        invariant
            i <= pn,
            pn <= sn,
            pn == p@.len(),
            sn == s@.len(),
            forall|k: int| 0 <= k < i ==> s@[k] == p@[k],
        decreases pn - i,
    {
        if s.get_char(i) != p.get_char(i) {
            proof {
                assert(s@.subrange(0, pn as int)[i as int] != p@[i as int]);
            }
            return false;
        }
        i += 1;
    }
    proof {
        assert(s@.subrange(0, pn as int) =~= p@);
    }
    true
}

/// The position of the first `:` of `s` at or after `from`, if any.
fn first_colon(s: &str, from: usize) -> (r: Option<usize>)
    requires
        from <= s@.len(),
    ensures
        match r {
            Some(j) => first_colon_at(s@, from as int, j as int),
            None => forall|k: int| from <= k < s@.len() ==> s@[k] != ':',
        },
{
    let n = s.unicode_len();
    let mut j: usize = from;
    while j < n
        invariant
            from <= j <= n,
            n == s@.len(),
            forall|k: int| from <= k < j ==> s@[k] != ':',
        decreases n - j,
    {
        if s.get_char(j) == ':' {
            return Some(j);
        }
        j += 1;
    }
    None
}

/// Whether every character of the region `[from, to)` of `s` may stand in
/// a host.
fn host_chars_ok(s: &str, from: usize, to: usize) -> (r: bool)
    requires
        from <= to <= s@.len(),
    ensures
        r == forall|k: int| from <= k < to ==> is_host_char(#[trigger] s@[k]),
{
    let mut k: usize = from;
    while k < to
        invariant
            from <= k <= to,
            to <= s@.len(),
            forall|i: int| from <= i < k ==> is_host_char(#[trigger] s@[i]),
        decreases to - k,
    {
        let c = s.get_char(k);
        if c == ':' || c == '/' {
            assert(!is_host_char(s@[k as int]));
            return false;
        }
        k += 1;
    }
    true
}

/// A text of digits only reads as a non-negative number.
proof fn lemma_decimal_value_nonneg(s: Seq<char>)
    requires
        all_decimal_digits(s),
    ensures
        decimal_value(s) >= 0,
    decreases s.len(),
{
    if s.len() > 0 {
        assert(all_decimal_digits(s.drop_last()));
        lemma_decimal_value_nonneg(s.drop_last());
    }
}

/// Appending one digit multiplies the value by ten and adds the digit.
proof fn lemma_decimal_value_push(s: Seq<char>, c: char)
    ensures
        decimal_value(s.push(c)) == decimal_value(s) * 10 + digit_value(c),
{
    assert(s.push(c).drop_last() =~= s);
    assert(s.push(c).last() == c);
}

/// Extending a digit text with further digits never lowers its value.
proof fn lemma_decimal_value_extend(s: Seq<char>, t: Seq<char>)
    requires
        all_decimal_digits(s),
        all_decimal_digits(t),
    ensures
        decimal_value(s + t) >= decimal_value(s),
    decreases t.len(),
{
    lemma_decimal_value_nonneg(s);
    if t.len() == 0 {
        assert(s + t =~= s);
    } else {
        let t0 = t.drop_last();
        assert(all_decimal_digits(t0));
        lemma_decimal_value_extend(s, t0);
        assert((s + t).drop_last() =~= s + t0);
        assert(is_decimal_digit(t.last()));
        lemma_decimal_value_nonneg(s + t0);
        assert(decimal_value(s + t) == decimal_value(s + t0) * 10 + digit_value(t.last()));
    }
}

/// Reads the tail of `s` from `from` as a decimal port number.
fn parse_port_digits(s: &str, from: usize) -> (r: Option<u16>)
    requires
        from <= s@.len(),
    ensures
        ({
            let d = s@.subrange(from as int, s@.len() as int);
            match r {
                Some(p) => is_port_text(d) && p == decimal_value(d),
                None => !is_port_text(d),
            }
        }),
{
    let ghost d = s@.subrange(from as int, s@.len() as int);
    let n = s.unicode_len();
    if from == n {
        assert(d.len() == 0);
        return None;
    }
    // First pass: the tail must be digits only.
    let mut k: usize = from;
    while k < n
        invariant
            from <= k <= n,
            n == s@.len(),
            d == s@.subrange(from as int, s@.len() as int),
            forall|i: int| from <= i < k ==> is_decimal_digit(#[trigger] s@[i]),
        decreases n - k,
    {
        let c = s.get_char(k);
        let v = c as u32;
        if v < 48 || v > 57 {
            proof {
                assert(d[k - from] == s@[k as int]);
                assert(!all_decimal_digits(d));
            }
            return None;
        }
        k += 1;
    }
    proof {
        assert(forall|i: int| 0 <= i < d.len() ==> d[i] == s@[from + i]);
        assert(all_decimal_digits(d));
    }
    // Second pass: accumulate the value, stopping as soon as it can no
    // longer fit in an unsigned 16-bit number.
    let mut acc: u32 = 0;
    let mut i: usize = from;
    while i < n
        invariant
            from <= i <= n,
            n == s@.len(),
            d == s@.subrange(from as int, s@.len() as int),
            all_decimal_digits(d),
            forall|j: int| from <= j < n ==> is_decimal_digit(#[trigger] s@[j]),
            acc == decimal_value(s@.subrange(from as int, i as int)),
            acc <= 65535,
        decreases n - i,
    {
        let c = s.get_char(i);
        let v = c as u32;
        proof {
            assert(is_decimal_digit(s@[i as int]));
        }
        let step = acc * 10 + (v - 48);
        proof {
            let seen = s@.subrange(from as int, i as int);
            let seen1 = s@.subrange(from as int, i + 1);
            assert(seen1 =~= seen.push(s@[i as int]));
            lemma_decimal_value_push(seen, s@[i as int]);
        }
        if step > 65535 {
            proof {
                let seen1 = s@.subrange(from as int, i + 1);
                let rest = s@.subrange(i + 1, n as int);
                assert(d =~= seen1 + rest);
                assert(all_decimal_digits(seen1));
                assert(all_decimal_digits(rest));
                lemma_decimal_value_extend(seen1, rest);
            }
            return None;
        }
        acc = step;
        i += 1;
    }
    proof {
        assert(s@.subrange(from as int, n as int) =~= d);
        assert(d.len() > 0);
    }
    Some(acc as u16)
}

/// The decimal text of a number is made of digits and reads back as the
/// number it was written from.
pub proof fn lemma_decimal_text_value(n: nat)
    ensures
        all_decimal_digits(decimal_text(n)),
        decimal_value(decimal_text(n)) == n,
        decimal_text(n).len() >= 1,
    decreases n,
{
    if n < 10 {
        let d = seq![digit_char(n as int)];
        assert(decimal_text(n) =~= d);
        assert(d.drop_last() =~= Seq::<char>::empty());
        assert(decimal_value(Seq::<char>::empty()) == 0);
        assert(d.last() == digit_char(n as int));
        assert(decimal_value(d) == 0 * 10 + digit_value(d.last()));
        assert(is_decimal_digit(digit_char(n as int)) && digit_value(digit_char(n as int))
            == n);
    } else {
        lemma_decimal_text_value(n / 10);
        lemma_decimal_value_push(decimal_text(n / 10), digit_char((n % 10) as int));
        assert(is_decimal_digit(digit_char((n % 10) as int)) && digit_value(
            digit_char((n % 10) as int),
        ) == n % 10);
        assert((n / 10) * 10 + (n % 10) == n) by (nonlinear_arith);
        assert(decimal_value(decimal_text(n)) == decimal_value(decimal_text(n / 10)) * 10
            + digit_value(digit_char((n % 10) as int)));
        assert(forall|i: int|
            0 <= i < decimal_text(n).len() ==> is_decimal_digit(#[trigger] decimal_text(n)[i]))
            by {
            assert(forall|i: int|
                0 <= i < decimal_text(n / 10).len() ==> decimal_text(n)[i] == decimal_text(
                    n / 10,
                )[i]);
        }
    }
}

/// Writing an endpoint as text and reading the text back round-trips:
/// the written text decomposes under the grammar exactly into the parts
/// it was written from.
pub proof fn lemma_display_round_trip(sch: Scheme, host: Seq<char>, port: u16)
    requires
        is_host_text(host),
    ensures
        parses_as(
            scheme_prefix(sch) + host + seq![':'] + decimal_text(port as nat),
            sch,
            host,
            decimal_text(port as nat),
            port,
        ),
{
    lemma_decimal_text_value(port as nat);
}

/// There is at most one first colon of a region.
proof fn lemma_first_colon_unique(s: Seq<char>, from: int, j1: int, j2: int)
    requires
        first_colon_at(s, from, j1),
        first_colon_at(s, from, j2),
    ensures
        j1 == j2,
{
    if j1 < j2 {
        assert(s[j1] == ':');
    }
    if j2 < j1 {
        assert(s[j2] == ':');
    }
}

/// Any decomposition of `s` under the grammar is pinned by `s` itself:
/// the scheme is the one whose prefix opens `s`, the host ends at the
/// first colon after the prefix, and the digits are the rest.
proof fn lemma_parses_as_shape(
    s: Seq<char>,
    sch: Scheme,
    host: Seq<char>,
    digits: Seq<char>,
    port: u16,
)
    requires
        parses_as(s, sch, host, digits, port),
    ensures
        has_scheme_prefix(s),
        scheme_prefix(sch).len() == spec_scheme_len(s),
        sch == (if "https://"@.is_prefix_of(s) {
            Scheme::Https
        } else {
            Scheme::Http
        }),
        first_colon_at(s, spec_scheme_len(s), spec_scheme_len(s) + host.len()),
        host =~= s.subrange(spec_scheme_len(s), spec_scheme_len(s) + host.len() as int),
        digits =~= s.subrange(spec_scheme_len(s) + host.len() + 1, s.len() as int),
        host_region_ok(s, spec_scheme_len(s), spec_scheme_len(s) + host.len()),
{
    reveal_strlit("http://");
    reveal_strlit("https://");
    let p = scheme_prefix(sch);
    let plen = p.len() as int;
    assert(s =~= p + host + seq![':'] + digits);
    assert(p.is_prefix_of(s)) by {
        assert(s.subrange(0, plen) =~= p);
    }
    match sch {
        Scheme::Http => {
            assert(s[4] == ':');
            assert(!"https://"@.is_prefix_of(s)) by {
                if "https://"@.is_prefix_of(s) {
                    assert(s.subrange(0, 8)[4] == 's');
                }
            }
        },
        Scheme::Https => {},
    }
    let h0 = spec_scheme_len(s);
    assert(h0 == plen);
    let j = h0 + host.len() as int;
    assert(s[j] == ':');
    assert(forall|k: int| h0 <= k < j ==> is_host_char(#[trigger] s[k]) && s[k] != ':') by {
        assert(forall|k: int| h0 <= k < j ==> s[k] == host[k - h0]);
    }
    assert(first_colon_at(s, h0, j));
    assert(host =~= s.subrange(h0, j));
    assert(digits =~= s.subrange(j + 1, s.len() as int));
}

/// The decomposition of an endpoint text is unique: one text names one
/// endpoint.
pub proof fn lemma_parses_as_unique(
    s: Seq<char>,
    sch1: Scheme,
    host1: Seq<char>,
    digits1: Seq<char>,
    port1: u16,
    sch2: Scheme,
    host2: Seq<char>,
    digits2: Seq<char>,
    port2: u16,
)
    requires
        parses_as(s, sch1, host1, digits1, port1),
        parses_as(s, sch2, host2, digits2, port2),
    ensures
        sch1 == sch2,
        host1 == host2,
        digits1 == digits2,
        port1 == port2,
{
    lemma_parses_as_shape(s, sch1, host1, digits1, port1);
    lemma_parses_as_shape(s, sch2, host2, digits2, port2);
    let h0 = spec_scheme_len(s);
    lemma_first_colon_unique(s, h0, h0 + host1.len(), h0 + host2.len());
    assert(host1 =~= host2);
    assert(digits1 =~= digits2);
}

/// The one-character text of a digit value.
fn digit_str(d: u32) -> (r: &'static str)
    requires
        d < 10,
    ensures
        r@ == seq![digit_char(d as int)],
{
    let r = match d {
        0 => "0",
        1 => "1",
        2 => "2",
        3 => "3",
        4 => "4",
        5 => "5",
        6 => "6",
        7 => "7",
        8 => "8",
        _ => "9",
    };
    proof {
        reveal_strlit("0");
        reveal_strlit("1");
        reveal_strlit("2");
        reveal_strlit("3");
        reveal_strlit("4");
        reveal_strlit("5");
        reveal_strlit("6");
        reveal_strlit("7");
        reveal_strlit("8");
        reveal_strlit("9");
        assert(r@ =~= seq![digit_char(d as int)]);
    }
    r
}

/// Writes `n` in decimal, most significant digit first.
fn decimal_string(n: u16) -> (r: String)
    ensures
        r@ == decimal_text(n as nat),
    decreases n,
{
    if n < 10 {
        digit_str(n as u32).to_owned()
    } else {
        let mut r = decimal_string(n / 10);
        r.append(digit_str((n % 10) as u32));
        proof {
            assert(decimal_text((n / 10) as nat).push(digit_char((n % 10) as int))
                =~= decimal_text((n / 10) as nat) + seq![digit_char((n % 10) as int)]);
        }
        r
    }
}

impl Endpoint {
    /// The endpoint's own invariant: its host is a well-formed host text.
    pub open spec fn wf(&self) -> bool {
        is_host_text(self.host@)
    }

    /// Writes the endpoint as the text `scheme://host:port`, the port in
    /// decimal with no leading zeros.  For a well-formed endpoint the
    /// written text parses back to the same endpoint (see
    /// [`lemma_display_round_trip`]).
    pub fn display(&self) -> (r: String)
        ensures
            r@ == scheme_prefix(self.scheme) + self.host@ + seq![':'] + decimal_text(
                self.port as nat,
            ),
    {
        let mut r = match self.scheme {
            Scheme::Http => String::from_str("http://"),
            Scheme::Https => String::from_str("https://"),
        };
        r.append(self.host.as_str());
        r.append(":");
        let digits = decimal_string(self.port);
        r.append(digits.as_str());
        proof {
            reveal_strlit(":");
            assert(":"@ =~= seq![':']);
        }
        r
    }

    /// Reads an endpoint out of its text.
    ///
    /// Succeeds exactly on the texts of the grammar, returning the unique
    /// endpoint the text names; fails on every other text with a message
    /// naming the first missing or malformed part.
    pub fn parse(s: &str) -> (r: Result<Endpoint, String>)
        ensures
            match r {
                Ok(e) => e.wf() && exists|digits: Seq<char>|
                    parses_as(s@, e.scheme, e.host@, digits, e.port),
                Err(m) => !is_endpoint_text(s@) && expected_parse_error(s@, m@),
            },
    {
        let n = s.unicode_len();
        let (scheme, plen): (Scheme, usize) = if starts_with_str(s, "https://") {
            (Scheme::Https, 8)
        } else if starts_with_str(s, "http://") {
            (Scheme::Http, 7)
        } else {
            proof {
                assert forall|sch: Scheme, host: Seq<char>, digits: Seq<char>, port: u16|
                    !parses_as(s@, sch, host, digits, port) by {
                    if parses_as(s@, sch, host, digits, port) {
                        lemma_parses_as_shape(s@, sch, host, digits, port);
                    }
                }
            }
            return Err("Invalid endpoint, only HTTP and HTTPS schemes are accepted".to_owned());
        };
        proof {
            reveal_strlit("http://");
            reveal_strlit("https://");
            assert(plen == spec_scheme_len(s@));
            assert(plen <= n);
        }
        let j = match first_colon(s, plen) {
            Some(j) => j,
            None => {
                proof {
                    assert forall|sch: Scheme, host: Seq<char>, digits: Seq<char>, port: u16|
                        !parses_as(s@, sch, host, digits, port) by {
                        if parses_as(s@, sch, host, digits, port) {
                            lemma_parses_as_shape(s@, sch, host, digits, port);
                        }
                    }
                    assert forall|j: int| !(#[trigger] first_colon_at(
                        s@,
                        spec_scheme_len(s@),
                        j,
                    )) by {
                        if first_colon_at(s@, spec_scheme_len(s@), j) {
                            assert(s@[j] == ':');
                        }
                    }
                }
                return Err(
                    "Invalid endpoint, no port provided or isn't a valid unsigned 16 bits number".to_owned(),
                );
            },
        };
        let host_ok = j > plen && host_chars_ok(s, plen, j);
        if !host_ok {
            proof {
                assert(!host_region_ok(s@, plen as int, j as int));
                assert forall|sch: Scheme, host: Seq<char>, digits: Seq<char>, port: u16|
                    !parses_as(s@, sch, host, digits, port) by {
                    if parses_as(s@, sch, host, digits, port) {
                        lemma_parses_as_shape(s@, sch, host, digits, port);
                        lemma_first_colon_unique(
                            s@,
                            plen as int,
                            j as int,
                            plen + host.len(),
                        );
                    }
                }
                assert forall|j2: int| #[trigger] first_colon_at(s@, spec_scheme_len(s@), j2)
                    implies !host_region_ok(s@, spec_scheme_len(s@), j2) by {
                    lemma_first_colon_unique(s@, plen as int, j as int, j2);
                }
            }
            return Err("Invalid endpoint, no host provided".to_owned());
        }
        let port = match parse_port_digits(s, j + 1) {
            Some(p) => p,
            None => {
                proof {
                    assert forall|sch: Scheme, host: Seq<char>, digits: Seq<char>, port: u16|
                        !parses_as(s@, sch, host, digits, port) by {
                        if parses_as(s@, sch, host, digits, port) {
                            lemma_parses_as_shape(s@, sch, host, digits, port);
                            lemma_first_colon_unique(
                                s@,
                                plen as int,
                                j as int,
                                plen + host.len(),
                            );
                            assert(digits =~= s@.subrange(j + 1, s@.len() as int));
                        }
                    }
                    assert forall|j2: int| #[trigger] first_colon_at(s@, spec_scheme_len(s@), j2)
                        implies host_region_ok(s@, spec_scheme_len(s@), j2) by {
                        lemma_first_colon_unique(s@, plen as int, j as int, j2);
                    }
                }
                return Err(
                    "Invalid endpoint, no port provided or isn't a valid unsigned 16 bits number".to_owned(),
                );
            },
        };
        let host = s.substring_char(plen, j).to_owned();
        let e = Endpoint { scheme, host, port };
        proof {
            let digits = s@.subrange(j + 1, n as int);
            assert(s@ =~= scheme_prefix(scheme) + s@.subrange(plen as int, j as int) + seq![':']
                + digits) by {
                assert(s@.subrange(0, plen as int) =~= scheme_prefix(scheme));
            }
            assert(is_host_text(e.host@));
            assert(parses_as(s@, e.scheme, e.host@, digits, e.port));
        }
        Ok(e)
    }
}

} // verus!
