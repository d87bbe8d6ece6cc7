//! Small verified string helpers: character-wise string equality and
//! decimal rendering of integers, used by the summary and template builders.

use vstd::prelude::*;

verus! {

/// Clones an optional string exactly.
pub fn clone_opt_string(o: &Option<String>) -> (r: Option<String>)
    ensures
        r == *o,
{
    match o {
        Some(s) => Some(s.clone()),
        None => None,
    }
}

/// Character-wise equality of two string slices.
pub fn str_eq(a: &str, b: &str) -> (r: bool)
    ensures
        r == (a@ == b@),
{
    let n = a.unicode_len();
    let m = b.unicode_len();
    if n != m {
        return false;
    }
    let mut i: usize = 0;
    while i < n
        invariant
            n == a@.len(),
            n == b@.len(),
            i <= n,
            forall|j: int| 0 <= j < i ==> a@[j] == b@[j],
        decreases n - i,
    {
        if a.get_char(i) != b.get_char(i) {
            return false;
        }
        i += 1;
    }
    proof {
        assert(a@ =~= b@);
    }
    true
}

/// The character for a single decimal digit.
pub open spec fn spec_digit_char(d: nat) -> char {
    ((d + 48) as u8) as char
}

/// The decimal representation of a natural number, most significant digit first.
pub open spec fn spec_decimal(n: nat) -> Seq<char>
    decreases n,
{
    if n < 10 {
        seq![spec_digit_char(n)]
    } else {
        spec_decimal(n / 10).push(spec_digit_char(n % 10))
    }
}

/// The decimal representation of a signed number: a leading '-' for negatives.
pub open spec fn spec_decimal_i64(n: int) -> Seq<char> {
    if n < 0 {
        seq!['-'] + spec_decimal((-n) as nat)
    } else {
        spec_decimal(n as nat)
    }
}

fn push_digit(s: &mut String, d: u64)
    requires
        d < 10,
    ensures
        final(s)@ == old(s)@.push(spec_digit_char(d as nat)),
{
    let part: &str = match d {
        0 => "0",
        1 => "1",
        2 => "2",
        3 => "3",
        4 => "4",
        5 => "5",
        6 => "6",
        7 => "7",
        8 => "8",
        _ => "9",
    };
    proof {
        reveal_strlit("0");
        reveal_strlit("1");
        reveal_strlit("2");
        reveal_strlit("3");
        reveal_strlit("4");
        reveal_strlit("5");
        reveal_strlit("6");
        reveal_strlit("7");
        reveal_strlit("8");
        reveal_strlit("9");
        assert(old(s)@ + part@ =~= old(s)@.push(spec_digit_char(d as nat)));
    }
    s.append(part);
}

fn append_decimal_u64(s: &mut String, n: u64)
    ensures
        final(s)@ == old(s)@ + spec_decimal(n as nat),
    decreases n,
{
    if n < 10 {
        push_digit(s, n);
        proof {
            assert(old(s)@.push(spec_digit_char(n as nat)) =~= old(s)@ + spec_decimal(
                n as nat,
            ));
        }
    } else {
        append_decimal_u64(s, n / 10);
        push_digit(s, n % 10);
        proof {
            assert((old(s)@ + spec_decimal((n / 10) as nat)).push(
                spec_digit_char((n % 10) as nat),
            ) =~= old(s)@ + spec_decimal(n as nat));
        }
    }
}

/// Renders an unsigned number in decimal.
pub fn u64_to_string(n: u64) -> (s: String)
    ensures
        s@ == spec_decimal(n as nat),
{
    let mut s = String::new();
    append_decimal_u64(&mut s, n);
    proof {
        assert(Seq::<char>::empty() + spec_decimal(n as nat) =~= spec_decimal(n as nat));
    }
    s
}

/// Renders a signed number in decimal, with a leading '-' when negative.
pub fn i64_to_string(n: i64) -> (s: String)
    ensures
        s@ == spec_decimal_i64(n as int),
{
    if n < 0 {
        let mut s = String::new();
        s.append("-");
        let wide: i128 = -(n as i128);
        assert(0 <= wide <= u64::MAX);
        let magnitude: u64 = wide as u64;
        append_decimal_u64(&mut s, magnitude);
        proof {
            reveal_strlit("-");
            assert(magnitude as int == -(n as int));
            assert((Seq::<char>::empty() + "-"@) + spec_decimal(magnitude as nat)
                =~= spec_decimal_i64(n as int));
        }
        s
    } else {
        u64_to_string(n as u64)
    }
}

/// Renders a signed 32-bit number in decimal.
pub fn i32_to_string(n: i32) -> (s: String)
    ensures
        s@ == spec_decimal_i64(n as int),
{
    i64_to_string(n as i64)
}

/// What `str::to_uppercase` returns: the Unicode uppercase of the text, a
/// function of the characters alone.
pub uninterp spec fn spec_uppercase(s: Seq<char>) -> Seq<char>;

/// Relies on `str::to_uppercase`: renders the text in uppercase.
#[verifier::external_body]
pub fn to_uppercase(s: &str) -> (r: String)
    ensures
        r@ == spec_uppercase(s@),
        s@.len() == 0 ==> r@.len() == 0,
{
    s.to_uppercase()
}

/// The texts of a list joined with a separator.
pub open spec fn spec_join(ss: Seq<String>, sep: Seq<char>) -> Seq<char>
    decreases ss.len(),
{
    if ss.len() == 0 {
        Seq::<char>::empty()
    } else if ss.len() == 1 {
        ss[0]@
    } else {
        spec_join(ss.drop_last(), sep) + sep + ss.last()@
    }
}

/// Joins a list of strings with a separator.
pub fn join_strings(v: &Vec<String>, sep: &str) -> (r: String)
    ensures
        r@ == spec_join(v@, sep@),
{
    let mut r = String::new();
    let mut i: usize = 0;
    while i < v.len()
        invariant
            i <= v@.len(),
            r@ == spec_join(v@.subrange(0, i as int), sep@),
        decreases v@.len() - i,
    {
        if i > 0 {
            r.append(sep);
        }
        r.append(v[i].as_str());
        proof {
            let pre = v@.subrange(0, i as int);
            let post = v@.subrange(0, i + 1);
            assert(post.drop_last() =~= pre);
            assert(post.last() == v@[i as int]);
            assert(post[0] == v@[0]);
        }
        i += 1;
    }
    proof {
        assert(v@.subrange(0, v@.len() as int) =~= v@);
    }
    r
}

/// Whether a character is a decimal digit.
pub open spec fn spec_is_digit(c: char) -> bool {
    48 <= c as int <= 57
}

/// The numeric value of a decimal digit character.
pub open spec fn spec_digit_val(c: char) -> int {
    c as int - 48
}

/// Whether every character of a sequence is a decimal digit.
pub open spec fn spec_all_digits(s: Seq<char>) -> bool {
    forall|i: int| 0 <= i < s.len() ==> spec_is_digit(#[trigger] s[i])
}

/// The number named by a sequence of decimal digits, most significant first.
pub open spec fn spec_digits_val(s: Seq<char>) -> int
    decreases s.len(),
{
    if s.len() == 0 {
        0
    } else {
        spec_digits_val(s.drop_last()) * 10 + spec_digit_val(s.last())
    }
}

/// Whether text has the shape of a decimal integer: an optional sign
/// followed by at least one digit.
pub open spec fn spec_int_text_shape(s: Seq<char>) -> bool {
    if s.len() == 0 {
        false
    } else if s[0] == '-' || s[0] == '+' {
        s.len() >= 2 && spec_all_digits(s.subrange(1, s.len() as int))
    } else {
        spec_all_digits(s)
    }
}

/// The integer named by well-shaped decimal text.
pub open spec fn spec_int_text_val(s: Seq<char>) -> int {
    if s.len() > 0 && s[0] == '-' {
        -spec_digits_val(s.subrange(1, s.len() as int))
    } else if s.len() > 0 && s[0] == '+' {
        spec_digits_val(s.subrange(1, s.len() as int))
    } else {
        spec_digits_val(s)
    }
}

proof fn lemma_digits_val_nonneg(s: Seq<char>)
    requires
        spec_all_digits(s),
    ensures
        spec_digits_val(s) >= 0,
    decreases s.len(),
{
    if s.len() > 0 {
        assert(spec_all_digits(s.drop_last())) by {
            assert(forall|i: int|
                0 <= i < s.len() - 1 ==> #[trigger] s.drop_last()[i] == s[i]);
        }
        lemma_digits_val_nonneg(s.drop_last());
        assert(s.last() == s[s.len() - 1]);
    }
}

/// Parses decimal integer text into an `i32`. Returns `None` exactly on
/// text that is not a signed decimal number or whose value does not fit.
pub fn parse_i32(s: &str) -> (r: Option<i32>)
    ensures
        r is Some <==> (spec_int_text_shape(s@) && i32::MIN <= spec_int_text_val(s@)
            <= i32::MAX),
        r is Some ==> r->0 as int == spec_int_text_val(s@),
{
    let n = s.unicode_len();
    if n == 0 {
        return None;
    }
    let c0 = s.get_char(0);
    let negative = c0 == '-';
    let start: usize = if c0 == '-' || c0 == '+' {
        1
    } else {
        0
    };
    if n == start {
        return None;
    }
    let ghost digits = s@.subrange(start as int, n as int);
    let cap: u64 = 10_000_000_000;
    let mut acc: u64 = 0;
    let mut i: usize = start;
    while i < n
        invariant
            start <= i <= n,
            n == s@.len(),
            start == 0 || start == 1,
            start < n,
            c0 == s@[0],
            negative == (c0 == '-'),
            (start == 1) == (c0 == '-' || c0 == '+'),
            cap == 10_000_000_000,
            spec_all_digits(s@.subrange(start as int, i as int)),
            0 <= spec_digits_val(s@.subrange(start as int, i as int)),
            acc == if spec_digits_val(s@.subrange(start as int, i as int)) <= cap {
                spec_digits_val(s@.subrange(start as int, i as int))
            } else {
                cap as int
            },
        decreases n - i,
    {
        let c = s.get_char(i);
        let v = c as u32;
        if !(48 <= v && v <= 57) {
            proof {
                assert(!spec_is_digit(s@[i as int]));
                if start == 0 {
                    assert(s@.subrange(0, n as int) =~= s@);
                    assert(!spec_all_digits(s@));
                } else {
                    assert(s@.subrange(1, n as int)[i - 1] == s@[i as int]);
                    assert(!spec_all_digits(s@.subrange(1, n as int)));
                    assert(s@[0] == c0);
                }
            }
            return None;
        }
        let d = (v - 48) as u64;
        let next = acc * 10 + d;
        proof {
            let pre = s@.subrange(start as int, i as int);
            let post = s@.subrange(start as int, i + 1);
            assert(post.drop_last() =~= pre);
            assert(post.last() == s@[i as int]);
            lemma_digits_val_nonneg(pre);
        }
        acc = if next > cap {
            cap
        } else {
            next
        };
        i += 1;
    }
    proof {
        assert(s@.subrange(start as int, n as int) == digits);
        lemma_digits_val_nonneg(digits);
        if start == 1 {
            assert(s@[0] == c0);
        } else {
            assert(s@.subrange(0, n as int) =~= s@);
        }
        assert(spec_int_text_shape(s@));
        assert(spec_digits_val(digits) == if negative {
            -spec_int_text_val(s@)
        } else {
            spec_int_text_val(s@)
        });
    }
    if negative {
        if acc <= 2_147_483_648 {
            let wide: i64 = -(acc as i64);
            Some(wide as i32)
        } else {
            None
        }
    } else {
        if acc <= 2_147_483_647 {
            Some(acc as i32)
        } else {
            None
        }
    }
}

} // verus!
