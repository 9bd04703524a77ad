//! Verified plain-text building blocks: decimal rendering, ASCII case
//! folding, hyphen stripping and prefix handling.

use vstd::prelude::*;

verus! {

/// Relies on std's `String::push`: appends exactly one character.
#[verifier::external_body]
pub(crate) fn push_char(s: &mut String, c: char)
    ensures
        final(s)@ == old(s)@.push(c),
{
    s.push(c);
}

/// The decimal digit character for `d`.
pub open spec fn spec_digit(d: nat) -> char {
    if d == 0 {
        '0'
    } else if d == 1 {
        '1'
    } else if d == 2 {
        '2'
    } else if d == 3 {
        '3'
    } else if d == 4 {
        '4'
    } else if d == 5 {
        '5'
    } else if d == 6 {
        '6'
    } else if d == 7 {
        '7'
    } else if d == 8 {
        '8'
    } else {
        '9'
    }
}

/// The usual decimal rendering of `n`, without sign or padding.
pub open spec fn spec_dec(n: nat) -> Seq<char>
    decreases n,
{
    if n < 10 {
        seq![spec_digit(n)]
    } else {
        spec_dec(n / 10).push(spec_digit(n % 10))
    }
}

fn digit_char(d: u64) -> (r: char)
    requires
        d < 10,
    ensures
        r == spec_digit(d as nat),
{
    if d == 0 {
        '0'
    } else if d == 1 {
        '1'
    } else if d == 2 {
        '2'
    } else if d == 3 {
        '3'
    } else if d == 4 {
        '4'
    } else if d == 5 {
        '5'
    } else if d == 6 {
        '6'
    } else if d == 7 {
        '7'
    } else if d == 8 {
        '8'
    } else {
        '9'
    }
}

/// Renders `n` in decimal.
pub fn u64_to_dec(n: u64) -> (r: String)
    ensures
        r@ == spec_dec(n as nat),
    decreases n,
{
    if n < 10 {
        let mut s = String::new();
        push_char(&mut s, digit_char(n));
        s
    } else {
        let mut s = u64_to_dec(n / 10);
        push_char(&mut s, digit_char(n % 10));
        s
    }
}

/// The decimal rendering of a signed value: a minus sign where negative.
pub open spec fn spec_dec_i64(n: int) -> Seq<char> {
    if n < 0 {
        seq!['-'] + spec_dec((-n) as nat)
    } else {
        spec_dec(n as nat)
    }
}

/// Renders a signed value in decimal.
pub fn i64_to_dec(n: i64) -> (r: String)
    ensures
        r@ == spec_dec_i64(n as int),
{
    if n < 0 {
        let mut s = String::from_str("-");
        let mag: u64 = if n == i64::MIN {
            9223372036854775808u64
        } else {
            (-n) as u64
        };
        let digits = u64_to_dec(mag);
        s.append(digits.as_str());
        proof {
            reveal_strlit("-");
            assert(s@ =~= seq!['-'] + spec_dec(mag as nat));
        }
        s
    } else {
        u64_to_dec(n as u64)
    }
}

/// `n` rendered as two digits, zero-padded.
pub open spec fn spec_pad2(n: nat) -> Seq<char> {
    seq![spec_digit(n / 10 % 10), spec_digit(n % 10)]
}

/// Renders `n` as exactly two digits.
pub fn pad2(n: u64) -> (r: String)
    requires
        n < 100,
    ensures
        r@ == spec_pad2(n as nat),
{
    let mut s = String::new();
    push_char(&mut s, digit_char(n / 10 % 10));
    push_char(&mut s, digit_char(n % 10));
    proof {
        assert(s@ =~= spec_pad2(n as nat));
    }
    s
}

/// `n` rendered as four digits, zero-padded.
pub open spec fn spec_pad4(n: nat) -> Seq<char> {
    seq![
        spec_digit(n / 1000 % 10),
        spec_digit(n / 100 % 10),
        spec_digit(n / 10 % 10),
        spec_digit(n % 10),
    ]
}

/// Renders `n` as exactly four digits.
pub fn pad4(n: u64) -> (r: String)
    requires
        n < 10000,
    ensures
        r@ == spec_pad4(n as nat),
{
    let mut s = String::new();
    push_char(&mut s, digit_char(n / 1000 % 10));
    push_char(&mut s, digit_char(n / 100 % 10));
    push_char(&mut s, digit_char(n / 10 % 10));
    push_char(&mut s, digit_char(n % 10));
    proof {
        assert(s@ =~= spec_pad4(n as nat));
    }
    s
}

/// ASCII upper-case letters fold to lower case; all else stays.
pub open spec fn spec_lower_char(c: char) -> char {
    if 'A' <= c && c <= 'Z' {
        (((c as u8) + 32) as char)
    } else {
        c
    }
}

/// `s` with every ASCII upper-case letter folded to lower case.
pub open spec fn spec_lower(s: Seq<char>) -> Seq<char> {
    s.map_values(|c: char| spec_lower_char(c))
}

fn lower_char(c: char) -> (r: char)
    ensures
        r == spec_lower_char(c),
{
    if 'A' <= c && c <= 'Z' {
        (((c as u8) + 32) as char)
    } else {
        c
    }
}

/// Folds every ASCII upper-case letter of `s` to lower case.
pub fn ascii_lower(s: &str) -> (r: String)
    ensures
        r@ == spec_lower(s@),
{
    let len = s.unicode_len();
    let mut r = String::new();
    let mut i: usize = 0;
    while i < len
        invariant
            len == s@.len(),
            i <= len,
            r@ == spec_lower(s@.subrange(0, i as int)),
        decreases len - i,
    {
        let c = s.get_char(i);
        push_char(&mut r, lower_char(c));
        proof {
            assert(spec_lower(s@.subrange(0, i + 1 as int)) =~= spec_lower(
                s@.subrange(0, i as int),
            ).push(spec_lower_char(s@[i as int])));
        }
        i = i + 1;
    }
    proof {
        assert(s@.subrange(0, len as int) =~= s@);
    }
    r
}

/// `s` with every hyphen removed; all other characters stay in order.
pub open spec fn spec_no_hyphens(s: Seq<char>) -> Seq<char>
    decreases s.len(),
{
    if s.len() == 0 {
        Seq::empty()
    } else if s.last() == '-' {
        spec_no_hyphens(s.drop_last())
    } else {
        spec_no_hyphens(s.drop_last()).push(s.last())
    }
}

/// Removes every hyphen from `s`.
pub fn without_hyphens(s: &str) -> (r: String)
    ensures
        r@ == spec_no_hyphens(s@),
{
    let len = s.unicode_len();
    let mut r = String::new();
    let mut i: usize = 0;
    while i < len
        invariant
            len == s@.len(),
            i <= len,
            r@ == spec_no_hyphens(s@.subrange(0, i as int)),
        decreases len - i,
    {
        let c = s.get_char(i);
        proof {
            assert(s@.subrange(0, i + 1 as int).drop_last() =~= s@.subrange(0, i as int));
            assert(s@.subrange(0, i + 1 as int).last() == s@[i as int]);
        }
        if c != '-' {
            push_char(&mut r, c);
        }
        i = i + 1;
    }
    proof {
        assert(s@.subrange(0, len as int) =~= s@);
    }
    r
}

/// The text of an optional string, empty where absent.
pub open spec fn spec_opt_str(o: Option<String>) -> Seq<char> {
    match o {
        Option::Some(s) => s@,
        Option::None => Seq::empty(),
    }
}

/// The optional string as a slice, empty where absent.
pub fn opt_str<'a>(o: &'a Option<String>) -> (r: &'a str)
    ensures
        r@ == spec_opt_str(*o),
{
    match o {
        Option::Some(s) => s.as_str(),
        Option::None => {
            proof {
                reveal_strlit("");
                assert(""@ =~= Seq::<char>::empty());
            }
            ""
        },
    }
}

/// The words `true` and `false`.
pub open spec fn spec_bool_str(b: bool) -> Seq<char> {
    if b {
        "true"@
    } else {
        "false"@
    }
}

/// Renders a boolean as `true` or `false`.
pub fn bool_str(b: bool) -> (r: &'static str)
    ensures
        r@ == spec_bool_str(b),
{
    if b {
        "true"
    } else {
        "false"
    }
}

/// A price in minor units (hundredths), rendered without trailing zeros
/// in the fractional part: whole amounts carry no point, amounts ending
/// in a zero hundredth carry one digit, all others two.
pub open spec fn spec_money(cents: nat) -> Seq<char> {
    if cents % 100 == 0 {
        spec_dec(cents / 100)
    } else if cents % 10 == 0 {
        spec_dec(cents / 100).push('.').push(spec_digit(cents / 10 % 10))
    } else {
        spec_dec(cents / 100).push('.') + spec_pad2(cents % 100)
    }
}

/// Renders a price given in minor units.
pub fn money_str(cents: u64) -> (r: String)
    ensures
        r@ == spec_money(cents as nat),
{
    let whole = u64_to_dec(cents / 100);
    if cents % 100 == 0 {
        whole
    } else if cents % 10 == 0 {
        let mut s = whole;
        push_char(&mut s, '.');
        push_char(&mut s, digit_char(cents / 10 % 10));
        s
    } else {
        let mut s = whole;
        push_char(&mut s, '.');
        let frac = pad2(cents % 100);
        s.append(frac.as_str());
        s
    }
}

/// Whether `s` starts with `p`.
pub open spec fn spec_has_prefix(s: Seq<char>, p: Seq<char>) -> bool {
    p.len() <= s.len() && s.subrange(0, p.len() as int) == p
}

/// `s` with a leading `p` removed where present, else `s` unchanged.
pub open spec fn spec_strip_prefix(s: Seq<char>, p: Seq<char>) -> Seq<char> {
    if spec_has_prefix(s, p) {
        s.skip(p.len() as int)
    } else {
        s
    }
}

/// Decides whether `s` starts with `prefix`.
pub fn has_prefix(s: &str, prefix: &str) -> (b: bool)
    ensures
        b == spec_has_prefix(s@, prefix@),
{
    let slen = s.unicode_len();
    let plen = prefix.unicode_len();
    if plen > slen {
        return false;
    }
    let mut i: usize = 0;
    while i < plen
        invariant
            slen == s@.len(),
            plen == prefix@.len(),
            plen <= slen,
            i <= plen,
            forall|j: int| 0 <= j < i ==> s@[j] == prefix@[j],
        decreases plen - i,
    {
        if s.get_char(i) != prefix.get_char(i) {
            proof {
                assert(s@.subrange(0, plen as int)[i as int] != prefix@[i as int]);
            }
            return false;
        }
        i = i + 1;
    }
    proof {
        assert(s@.subrange(0, plen as int) =~= prefix@);
    }
    true
}

/// Decides whether two strings hold the same text.
pub fn str_eq(a: &str, b: &str) -> (r: bool)
    ensures
        r == (a@ == b@),
{
    let alen = a.unicode_len();
    let blen = b.unicode_len();
    if alen != blen {
        return false;
    }
    let same = has_prefix(a, b);
    proof {
        assert(a@.subrange(0, alen as int) =~= a@);
        if same {
            assert(a@ =~= b@);
        } else {
            assert(a@.subrange(0, blen as int) == a@);
            assert(a@ != b@);
        }
    }
    same
}

/// Removes a leading occurrence of `prefix` from `s`, if any.
pub fn strip_prefix(s: &str, prefix: &str) -> (r: String)
    ensures
        r@ == spec_strip_prefix(s@, prefix@),
{
    let slen = s.unicode_len();
    let plen = prefix.unicode_len();
    if plen > slen {
        proof {
            assert(!spec_has_prefix(s@, prefix@));
        }
        return s.to_owned();
    }
    let mut i: usize = 0;
    while i < plen
        invariant
            slen == s@.len(),
            plen == prefix@.len(),
            plen <= slen,
            i <= plen,
            forall|j: int| 0 <= j < i ==> s@[j] == prefix@[j],
        decreases plen - i,
    {
        if s.get_char(i) != prefix.get_char(i) {
            proof {
                assert(s@.subrange(0, plen as int)[i as int] != prefix@[i as int]);
                assert(!spec_has_prefix(s@, prefix@));
            }
            return s.to_owned();
        }
        i = i + 1;
    }
    proof {
        assert(s@.subrange(0, plen as int) =~= prefix@);
        assert(spec_has_prefix(s@, prefix@));
    }
    let rest = s.substring_char(plen, slen);
    proof {
        assert(s@.subrange(plen as int, slen as int) =~= s@.skip(plen as int));
    }
    rest.to_owned()
}

} // verus!
