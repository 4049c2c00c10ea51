//! Character-level helpers for the form engine: case-insensitive keyword
//! matching, digit parsing and decimal formatting, all specified over
//! `Seq<char>` views.
use vstd::prelude::*;
use vstd::string::StrSliceExecFns;
use vstd::string::StringExecFns;

verus! {

/// `String::push` appends the given character to the end of the string.
pub assume_specification[ String::push ](s: &mut String, c: char)
    ensures
        final(s)@ == old(s)@.push(c),
;

/// `String::pop` removes the last character of the string and returns it,
/// or returns `None` when the string is empty.
pub assume_specification[ String::pop ](s: &mut String) -> (r: Option<char>)
    ensures
        old(s)@.len() == 0 ==> r is None && final(s)@ == old(s)@,
        old(s)@.len() > 0 ==> r == Some(old(s)@.last()) && final(s)@ == old(s)@.drop_last(),
;

/// `String::clear` empties the string.
pub assume_specification[ String::clear ](s: &mut String)
    ensures
        final(s)@ == Seq::<char>::empty(),
;

pub open spec fn is_digit_char(c: char) -> bool {
    48 <= c as u32 <= 57
}

pub open spec fn digit_val(c: char) -> nat {
    (c as u32 - 48) as nat
}

/// ASCII upper-case letters folded to their lower-case code point; every
/// other character is left as it is.
pub open spec fn fold_lower(c: char) -> int {
    if 65 <= c as u32 <= 90 {
        c as int + 32
    } else {
        c as int
    }
}

pub open spec fn eq_ignore_ascii_case(s: Seq<char>, t: Seq<char>) -> bool {
    s.len() == t.len() && (forall|i: int| 0 <= i < s.len() ==> fold_lower(s[i]) == fold_lower(t[i]))
}

pub fn exec_is_digit(c: char) -> (r: bool)
    ensures
        r == is_digit_char(c),
{
    let u = c as u32;
    48 <= u && u <= 57
}

fn exec_fold_lower(c: char) -> (r: u32)
    ensures
        r as int == fold_lower(c),
{
    let u = c as u32;
    if 65 <= u && u <= 90 {
        u + 32
    } else {
        u
    }
}

/// The characters of `s`, in order.
pub fn chars_of(s: &str) -> (v: Vec<char>)
    ensures
        v@ == s@,
{
    let n = s.unicode_len();
    let mut v: Vec<char> = Vec::new();
    for i in 0..n
        invariant
            n == s@.len(),
            v@ =~= s@.take(i as int),
    {
        v.push(s.get_char(i));
        assert(v@ =~= s@.take(i as int + 1));
    }
    assert(v@ =~= s@);
    v
}

/// Rebuilds a `String` from a character vector.
pub fn string_of(v: &Vec<char>) -> (s: String)
    ensures
        s@ == v@,
{
    let mut s = String::new();
    let mut i: usize = 0;
    while i < v.len()
        invariant
            i <= v.len(),
            s@ =~= v@.take(i as int),
        decreases v.len() - i,
    {
        s.push(v[i]);
        i = i + 1;
        assert(s@ =~= v@.take(i as int));
    }
    assert(s@ =~= v@);
    s
}

/// ASCII-case-insensitive string comparison.
pub fn str_eq_ci(s: &str, t: &str) -> (r: bool)
    ensures
        r == eq_ignore_ascii_case(s@, t@),
{
    let a = chars_of(s);
    let b = chars_of(t);
    if a.len() != b.len() {
        return false;
    }
    let mut i: usize = 0;
    while i < a.len()
        invariant
            a@ == s@,
            b@ == t@,
            a.len() == b.len(),
            i <= a.len(),
            forall|j: int| 0 <= j < i ==> fold_lower(s@[j]) == fold_lower(t@[j]),
        decreases a.len() - i,
    {
        if exec_fold_lower(a[i]) != exec_fold_lower(b[i]) {
            return false;
        }
        i = i + 1;
    }
    true
}

/// Exact (case-sensitive) string comparison, decided at the character level.
pub fn str_eq(s: &str, t: &str) -> (r: bool)
    ensures
        r == (s@ == t@),
{
    let a = chars_of(s);
    let b = chars_of(t);
    if a.len() != b.len() {
        proof {
            assert(s@.len() != t@.len());
        }
        return false;
    }
    let mut i: usize = 0;
    while i < a.len()
        invariant
            a@ == s@,
            b@ == t@,
            a.len() == b.len(),
            i <= a.len(),
            forall|j: int| 0 <= j < i ==> s@[j] == t@[j],
        decreases a.len() - i,
    {
        if a[i] != b[i] {
            proof {
                assert(s@[i as int] != t@[i as int]);
            }
            return false;
        }
        i = i + 1;
    }
    proof {
        assert(s@ =~= t@);
    }
    true
}

/// How often `c` occurs in `s`.
pub open spec fn count_char(s: Seq<char>, c: char) -> nat
    decreases s.len(),
{
    if s.len() == 0 {
        0
    } else {
        count_char(s.drop_last(), c) + (if s.last() == c { 1nat } else { 0nat })
    }
}

/// Counts the occurrences of `c` in `s`.
pub fn exec_count_char(s: &str, c: char) -> (n: usize)
    ensures
        n == count_char(s@, c),
{
    let v = chars_of(s);
    let mut n: usize = 0;
    let mut i: usize = 0;
    while i < v.len()
        invariant
            v@ == s@,
            i <= v.len(),
            n == count_char(s@.take(i as int), c),
            n <= i,
        decreases v.len() - i,
    {
        let ghost pre = s@.take(i as int);
        let ghost cur = s@.take(i as int + 1);
        proof {
            assert(cur.drop_last() =~= pre);
            assert(cur.last() == s@[i as int]);
        }
        if v[i] == c {
            n = n + 1;
        }
        i = i + 1;
    }
    proof {
        assert(s@.take(i as int) =~= s@);
    }
    n
}

/// Whether the character is in Unicode's numeric category; named because the
/// category itself is not written out here.
pub uninterp spec fn numeric_char(c: char) -> bool;

/// Relies on char::is_numeric: the result depends on the character alone,
/// the ASCII digits are numeric, and the ASCII letters are not.
#[verifier::external_body]
pub fn char_is_numeric(c: char) -> (r: bool)
    ensures
        r == numeric_char(c),
        is_digit_char(c) ==> r,
        65 <= c as u32 <= 90 || 97 <= c as u32 <= 122 ==> !r,
{
    c.is_numeric()
}

/// Whether the character is alphabetic or numeric in Unicode's terms; named
/// because the categories themselves are not written out here.
pub uninterp spec fn alnum_char(c: char) -> bool;

/// Relies on char::is_alphanumeric: the result depends on the character
/// alone, and the ASCII letters and digits all qualify.
#[verifier::external_body]
pub fn char_is_alphanumeric(c: char) -> (r: bool)
    ensures
        r == alnum_char(c),
        97 <= c as u32 <= 122 || 65 <= c as u32 <= 90 || is_digit_char(c) ==> r,
{
    c.is_alphanumeric()
}

/// A text buffer after a backspace: the last character is removed, and an
/// empty buffer stays empty.
pub open spec fn chopped(s: Seq<char>) -> Seq<char> {
    if s.len() == 0 {
        s
    } else {
        s.drop_last()
    }
}

pub open spec fn all_digits(s: Seq<char>) -> bool {
    forall|i: int| 0 <= i < s.len() ==> is_digit_char(s[i])
}

/// The numeric value of a digit string, most significant digit first.
pub open spec fn digits_val(s: Seq<char>) -> nat
    decreases s.len(),
{
    if s.len() == 0 {
        0
    } else {
        digits_val(s.drop_last()) * 10 + digit_val(s.last())
    }
}

/// What `str::parse` to an unsigned integer accepts: an optional leading
/// `+`, then one or more decimal digits; the value itself is unbounded here
/// and is bounded by the callers' target type.
pub open spec fn spec_parse_uint(s: Seq<char>) -> Option<nat> {
    let body = if s.len() > 0 && s[0] == '+' {
        s.drop_first()
    } else {
        s
    };
    if body.len() > 0 && all_digits(body) {
        Some(digits_val(body))
    } else {
        None
    }
}

pub open spec fn spec_parse_u32(s: Seq<char>) -> Option<u32> {
    match spec_parse_uint(s) {
        Some(v) => if v <= u32::MAX { Some(v as u32) } else { None },
        None => None,
    }
}

/// What `str::parse::<i32>` accepts: an optional sign, then digits, with the
/// value within `i32` bounds.
pub open spec fn spec_parse_i32(s: Seq<char>) -> Option<i32> {
    if s.len() > 0 && s[0] == '-' {
        let body = s.drop_first();
        if body.len() > 0 && all_digits(body) && digits_val(body) <= 0x8000_0000 {
            Some((-(digits_val(body) as int)) as i32)
        } else {
            None
        }
    } else {
        match spec_parse_uint(s) {
            Some(v) => if v <= i32::MAX { Some(v as i32) } else { None },
            None => None,
        }
    }
}

proof fn lemma_digits_val_prefix(s: Seq<char>, k: int)
    requires
        0 <= k <= s.len(),
    ensures
        digits_val(s.take(k)) <= digits_val(s),
    decreases s.len(),
{
    if k == s.len() {
        assert(s.take(k) =~= s);
    } else {
        assert(s.drop_last().take(k) =~= s.take(k));
        lemma_digits_val_prefix(s.drop_last(), k);
    }
}

/// The value of the digit run `v[from..]`, when it is a non-empty all-digit
/// run that fits in `u32`; `None` otherwise.
fn parse_digits_u32(v: &Vec<char>, from: usize) -> (r: Option<u32>)
    requires
        from <= v@.len(),
    ensures
        ({
            let body = v@.skip(from as int);
            if body.len() > 0 && all_digits(body) && digits_val(body) <= u32::MAX {
                r == Some(digits_val(body) as u32)
            } else {
                r is None
            }
        }),
{
    let ghost body = v@.skip(from as int);
    if from == v.len() {
        return None;
    }
    let mut acc: u32 = 0;
    let mut i: usize = from;
    while i < v.len()
        invariant
            from <= i <= v@.len(),
            v@.len() == v.len(),
            body == v@.skip(from as int),
            all_digits(body.take(i - from)),
            acc == digits_val(body.take(i - from)),
        decreases v.len() - i,
    {
        let c = v[i];
        proof {
            assert(body[i - from] == v@[i as int]);
        }
        if !exec_is_digit(c) {
            proof {
                assert(!is_digit_char(body[i - from]));
            }
            return None;
        }
        let d = (c as u32) - 48;
        let ghost pre = body.take(i - from);
        let ghost cur = body.take(i + 1 - from);
        proof {
            assert(cur.drop_last() =~= pre);
            assert(cur.last() == body[i - from]);
            assert(digits_val(cur) == digits_val(pre) * 10 + digit_val(body[i - from]));
        }
        let step = match acc.checked_mul(10) {
            Some(m) => m.checked_add(d),
            None => None,
        };
        match step {
            Some(next) => {
                acc = next;
            },
            None => {
                proof {
                    assert(digits_val(cur) > u32::MAX);
                    lemma_digits_val_prefix(body, i + 1 - from);
                }
                return None;
            },
        }
        i = i + 1;
    }
    proof {
        assert(body.take(i - from) =~= body);
    }
    Some(acc)
}

/// What `str::parse::<u32>` returns on `s`.
pub fn parse_u32(s: &str) -> (r: Option<u32>)
    ensures
        r == spec_parse_u32(s@),
{
    let v = chars_of(s);
    let from: usize = if v.len() > 0 && v[0] == '+' {
        1
    } else {
        0
    };
    proof {
        if from == 1 {
            assert(v@.skip(1) =~= s@.drop_first());
        } else {
            assert(v@.skip(0) =~= s@);
        }
    }
    parse_digits_u32(&v, from)
}

/// What `str::parse::<i32>` returns on `s`.
pub fn parse_i32(s: &str) -> (r: Option<i32>)
    ensures
        r == spec_parse_i32(s@),
{
    let v = chars_of(s);
    if v.len() > 0 && v[0] == '-' {
        proof {
            assert(v@.skip(1) =~= s@.drop_first());
        }
        match parse_digits_u32(&v, 1) {
            Some(m) => {
                if m <= 0x8000_0000 {
                    Some((-(m as i64)) as i32)
                } else {
                    None
                }
            },
            None => {
                proof {
                    let body = s@.drop_first();
                    if body.len() > 0 && all_digits(body) && digits_val(body) <= 0x8000_0000 {
                        assert(digits_val(body) <= u32::MAX);
                    }
                }
                None
            },
        }
    } else {
        let from: usize = if v.len() > 0 && v[0] == '+' {
            1
        } else {
            0
        };
        proof {
            if from == 1 {
                assert(v@.skip(1) =~= s@.drop_first());
            } else {
                assert(v@.skip(0) =~= s@);
            }
        }
        match parse_digits_u32(&v, from) {
            Some(m) => {
                if m <= i32::MAX as u32 {
                    Some(m as i32)
                } else {
                    None
                }
            },
            None => {
                proof {
                    match spec_parse_uint(s@) {
                        Some(u) => {
                            if u <= i32::MAX {
                                assert(u <= u32::MAX);
                            }
                        },
                        None => {},
                    }
                }
                None
            },
        }
    }
}

pub open spec fn dec_digit(n: nat) -> char {
    if n == 0 { '0' }
    else if n == 1 { '1' }
    else if n == 2 { '2' }
    else if n == 3 { '3' }
    else if n == 4 { '4' }
    else if n == 5 { '5' }
    else if n == 6 { '6' }
    else if n == 7 { '7' }
    else if n == 8 { '8' }
    else { '9' }
}

/// The decimal representation of `n`, without sign or leading zeros.
pub open spec fn dec_str(n: nat) -> Seq<char>
    decreases n,
{
    if n < 10 {
        seq![dec_digit(n)]
    } else {
        dec_str(n / 10).push(dec_digit(n % 10))
    }
}

/// The decimal representation of a signed value: a `-` prefix when negative.
pub open spec fn dec_str_i64(n: int) -> Seq<char> {
    if n >= 0 {
        dec_str(n as nat)
    } else {
        seq!['-'] + dec_str((-n) as nat)
    }
}

fn exec_dec_digit(n: u64) -> (c: char)
    requires
        n < 10,
    ensures
        c == dec_digit(n as nat),
{
    if n == 0 { '0' }
    else if n == 1 { '1' }
    else if n == 2 { '2' }
    else if n == 3 { '3' }
    else if n == 4 { '4' }
    else if n == 5 { '5' }
    else if n == 6 { '6' }
    else if n == 7 { '7' }
    else if n == 8 { '8' }
    else { '9' }
}

/// Formats `n` in decimal, as `u64::to_string` does.
pub fn fmt_u64(n: u64) -> (r: String)
    ensures
        r@ == dec_str(n as nat),
    decreases n,
{
    if n < 10 {
        let mut s = String::new();
        s.push(exec_dec_digit(n));
        s
    } else {
        let mut s = fmt_u64(n / 10);
        s.push(exec_dec_digit(n % 10));
        s
    }
}

/// Formats `n` in decimal, as `i64::to_string` does.
pub fn fmt_i64(n: i64) -> (r: String)
    ensures
        r@ == dec_str_i64(n as int),
{
    if n >= 0 {
        fmt_u64(n as u64)
    } else {
        let mag: u64 = if n == i64::MIN {
            0x8000_0000_0000_0000
        } else {
            (-n) as u64
        };
        let mut s = String::new();
        s.push('-');
        let tail = fmt_u64(mag);
        s.append(tail.as_str());
        proof {
            assert(s@ =~= seq!['-'] + dec_str(mag as nat));
        }
        s
    }
}

} // verus!
