//! Small text utilities: UTF-8 checking, case mapping, decimal
//! rendering, and the environment-variable naming rule for plugin
//! options.

use vstd::prelude::*;

verus! {

/// Relies on core::str::from_utf8: returns `Ok` exactly when the bytes
/// are valid UTF-8.
#[verifier::external_body]
pub fn check_utf8(bytes: &Vec<u8>) -> (r: bool)
    ensures
        r == vstd::utf8::valid_utf8(bytes@),
{
    core::str::from_utf8(bytes.as_slice()).is_ok()
}

/// What str::to_uppercase returns; a function of the characters alone.
pub uninterp spec fn upper_of(s: Seq<char>) -> Seq<char>;

/// Relies on str::to_uppercase: the result depends on the characters
/// alone.
#[verifier::external_body]
pub fn to_upper(s: &str) -> (r: String)
    ensures
        r@ == upper_of(s@),
{
    s.to_uppercase()
}

/// Relies on String::push: appends exactly the given character.
#[verifier::external_body]
pub fn push_char(s: &mut String, c: char)
    ensures
        final(s)@ == old(s)@.push(c),
{
    s.push(c);
}

/// ASCII lowercase of one character; other characters are unchanged.
pub open spec fn lower_char(c: char) -> char {
    if 65 <= c as int && c as int <= 90 {
        (((c as int) + 32) as u8) as char
    } else {
        c
    }
}

/// ASCII lowercase of a character sequence.
pub open spec fn lower_ascii(s: Seq<char>) -> Seq<char> {
    s.map_values(|c: char| lower_char(c))
}

/// Lower-case the ASCII letters of a string; used for case-insensitive
/// keyword matching.
pub fn ascii_lower(s: &String) -> (r: String)
    ensures
        r@ == lower_ascii(s@),
{
    let n = s.as_str().unicode_len();
    let mut r = String::new();
    let mut i: usize = 0;
    while i < n
        invariant
            n == s@.len(),
            i <= n,
            r@ == lower_ascii(s@.subrange(0, i as int)),
        decreases n - i,
    {
        let c = s.as_str().get_char(i);
        let u = c as u32;
        let lc: char = if 65 <= u && u <= 90 {
            ((u + 32) as u8) as char
        } else {
            c
        };
        assert(lc == lower_char(s@[i as int]));
        push_char(&mut r, lc);
        assert(r@ =~= lower_ascii(s@.subrange(0, i as int + 1)));
        i = i + 1;
    }
    assert(s@.subrange(0, s@.len() as int) =~= s@);
    r
}

/// Dashes become underscores; every other character is unchanged.
pub open spec fn dash_to_underscore(s: Seq<char>) -> Seq<char> {
    s.map_values(|c: char| if c == '-' { '_' } else { c })
}

/// The environment variable carrying one plugin option: the key
/// upper-cased, dashes replaced by underscores, behind a fixed prefix.
pub open spec fn spec_option_env_name(key: Seq<char>) -> Seq<char> {
    "PLUGIN_OPT_"@ + dash_to_underscore(upper_of(key))
}

/// Name of the environment variable that carries one configured option.
pub fn option_env_name(key: &String) -> (r: String)
    ensures
        r@ == spec_option_env_name(key@),
{
    let upper = to_upper(key.as_str());
    let mut r: String = "PLUGIN_OPT_".to_owned();
    let n = upper.as_str().unicode_len();
    let mut i: usize = 0;
    while i < n
        invariant
            n == upper@.len(),
            upper@ == upper_of(key@),
            i <= n,
            r@ == "PLUGIN_OPT_"@ + dash_to_underscore(upper@.subrange(0, i as int)),
        decreases n - i,
    {
        let c = upper.as_str().get_char(i);
        let mc: char = if c == '-' {
            '_'
        } else {
            c
        };
        push_char(&mut r, mc);
        assert(r@ =~= "PLUGIN_OPT_"@ + dash_to_underscore(upper@.subrange(0, i as int + 1)));
        i = i + 1;
    }
    assert(upper@.subrange(0, upper@.len() as int) =~= upper@);
    r
}

/// One decimal digit as a character.
pub open spec fn spec_digit(d: nat) -> char
    recommends
        d < 10,
{
    ((d + 48) as u8) as char
}

/// Decimal rendering of an unsigned number, most significant digit
/// first, with no leading zeros (a lone zero for 0).
pub open spec fn spec_udec(n: nat) -> Seq<char>
    decreases n,
{
    if n < 10 {
        seq![spec_digit(n)]
    } else {
        spec_udec(n / 10).push(spec_digit(n % 10))
    }
}

/// Decimal rendering of a signed number.
pub open spec fn spec_idec(i: int) -> Seq<char> {
    if i < 0 {
        seq!['-'] + spec_udec((-i) as nat)
    } else {
        spec_udec(i as nat)
    }
}

/// Render an unsigned number in decimal.
pub fn u64_dec(n: u64) -> (r: String)
    ensures
        r@ == spec_udec(n as nat),
{
    let mut digits: Vec<char> = Vec::new();
    let mut m: u64 = n;
    loop
        invariant_except_break
            spec_udec(n as nat) == spec_udec(m as nat) + digits@.reverse(),
        ensures
            spec_udec(n as nat) == digits@.reverse(),
        decreases m,
    {
        let d = m % 10;
        let ghost old_m = m as nat;
        let ghost old_digits = digits@;
        digits.push((d as u8 + 48) as char);
        m = m / 10;
        proof {
            assert(old_digits.push(spec_digit(old_m % 10)).reverse() =~= seq![
                spec_digit(old_m % 10),
            ] + old_digits.reverse());
            if old_m >= 10 {
                assert(spec_udec(old_m) == spec_udec(old_m / 10).push(spec_digit(old_m % 10)));
                assert(spec_udec(old_m / 10).push(spec_digit(old_m % 10)) =~= spec_udec(
                    old_m / 10,
                ) + seq![spec_digit(old_m % 10)]);
            } else {
                assert(spec_udec(old_m) == seq![spec_digit(old_m)]);
                assert(old_m % 10 == old_m);
            }
        }
        if m == 0 {
            assert(spec_udec(n as nat) == digits@.reverse());
            break;
        }
    }
    let mut r = String::new();
    let len = digits.len();
    let mut i: usize = 0;
    while i < len
        invariant
            len == digits@.len(),
            i <= len,
            r@ == digits@.reverse().subrange(0, i as int),
            spec_udec(n as nat) == digits@.reverse(),
        decreases len - i,
    {
        push_char(&mut r, digits[len - 1 - i]);
        assert(r@ =~= digits@.reverse().subrange(0, i as int + 1));
        i = i + 1;
    }
    assert(digits@.reverse().subrange(0, digits@.len() as int) =~= digits@.reverse());
    r
}

/// Render a signed number in decimal.
pub fn i64_dec(v: i64) -> (r: String)
    ensures
        r@ == spec_idec(v as int),
{
    if v >= 0 {
        u64_dec(v as u64)
    } else {
        let mag: u64 = if v == i64::MIN {
            9223372036854775808u64
        } else {
            (0i64 - v) as u64
        };
        let digits = u64_dec(mag);
        let mut r: String = "-".to_owned();
        r.append(digits.as_str());
        proof {
            reveal_strlit("-");
            assert(seq!['-'] =~= "-"@);
        }
        r
    }
}

} // verus!
