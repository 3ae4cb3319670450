//! Text: comparing, trimming, cutting prefixes off, and writing integers.

use vstd::prelude::*;

verus! {

/// The characters with Unicode's `White_Space` property.
pub open spec fn is_white(c: char) -> bool {
    let n = c as int;
    ||| 0x9 <= n <= 0xD
    ||| n == 0x20
    ||| n == 0x85
    ||| n == 0xA0
    ||| n == 0x1680
    ||| 0x2000 <= n <= 0x200A
    ||| n == 0x2028
    ||| n == 0x2029
    ||| n == 0x202F
    ||| n == 0x205F
    ||| n == 0x3000
}

/// `s` without the white space that it begins with.
pub open spec fn trimmed_start(s: Seq<char>) -> Seq<char>
    decreases s.len(),
{
    if s.len() > 0 && is_white(s[0]) {
        trimmed_start(s.skip(1))
    } else {
        s
    }
}

/// `s` without the white space that it ends with.
pub open spec fn trimmed_end(s: Seq<char>) -> Seq<char>
    decreases s.len(),
{
    if s.len() > 0 && is_white(s.last()) {
        trimmed_end(s.drop_last())
    } else {
        s
    }
}

/// `s` without the white space around it.
pub open spec fn trimmed(s: Seq<char>) -> Seq<char> {
    trimmed_end(trimmed_start(s))
}

/// `str::trim` takes off the white space around a text, where white space is what has
/// Unicode's `White_Space` property.
pub assume_specification<'a>[ str::trim ](s: &'a str) -> (r: &'a str)
    ensures
        r@ == trimmed(s@),
;

/// The `==` of `str` holds of two texts exactly where they have the same characters.
#[verifier::external_body]
pub(crate) fn same_text(a: &str, b: &str) -> (r: bool)
    ensures
        r == (a@ == b@),
{
    a == b
}

/// Whether `s` begins with `prefix`.
pub open spec fn has_prefix(s: Seq<char>, prefix: Seq<char>) -> bool {
    prefix.len() <= s.len() && s.take(prefix.len() as int) == prefix
}

/// What follows `prefix` in `s`, where `s` begins with it.
pub open spec fn without_prefix(s: Seq<char>, prefix: Seq<char>) -> Option<Seq<char>> {
    if has_prefix(s, prefix) {
        Some(s.skip(prefix.len() as int))
    } else {
        None
    }
}

/// What follows `prefix` in `s`; `None` where `s` does not begin with it.
pub fn strip_prefix<'a>(s: &'a str, prefix: &str) -> (r: Option<&'a str>)
    ensures
        r.deep_view() == without_prefix(s@, prefix@),
{
    let n: usize = s.unicode_len();
    let m: usize = prefix.unicode_len();
    if m > n {
        return None;
    }
    if same_text(s.substring_char(0, m), prefix) {
        Some(s.substring_char(m, n))
    } else {
        None
    }
}

/// `s` without any number of copies of `prefix` at its beginning.
pub open spec fn without_prefixes(s: Seq<char>, prefix: Seq<char>) -> Seq<char>
    decreases s.len(),
{
    if prefix.len() > 0 && has_prefix(s, prefix) {
        without_prefixes(s.skip(prefix.len() as int), prefix)
    } else {
        s
    }
}

/// `s` without any number of copies of `prefix` at its beginning.
pub fn strip_prefixes<'a>(s: &'a str, prefix: &str) -> (r: &'a str)
    requires
        prefix@.len() > 0,
    ensures
        r@ == without_prefixes(s@, prefix@),
{
    let mut rest: &'a str = s;
    loop
        invariant
            prefix@.len() > 0,
            without_prefixes(rest@, prefix@) == without_prefixes(s@, prefix@),
        ensures
            rest@ == without_prefixes(s@, prefix@),
        decreases rest@.len(),
    {
        match strip_prefix(rest, prefix) {
            Some(shorter) => {
                rest = shorter;
            },
            None => {
                break;
            },
        }
    }
    rest
}

/// The decimal digit `d`.
pub open spec fn digit(d: int) -> char {
    (d + 48) as char
}

/// `n` in decimal digits.
pub open spec fn digits(n: nat) -> Seq<char>
    decreases n,
{
    if n < 10 {
        seq![digit(n as int)]
    } else {
        digits(n / 10).push(digit((n % 10) as int))
    }
}

/// `n` in decimal, with a minus sign where it is negative.
pub open spec fn integer_text(n: int) -> Seq<char> {
    if n < 0 {
        seq!['-'] + digits((-n) as nat)
    } else {
        digits(n as nat)
    }
}

fn push_digit(text: &mut String, d: u64)
    requires
        d < 10,
    ensures
        final(text)@ == old(text)@.push(digit(d as int)),
{
    let one: &str = match d {
        0 => "0",
        1 => "1",
        2 => "2",
        3 => "3",
        4 => "4",
        5 => "5",
        6 => "6",
        7 => "7",
        8 => "8",
        _ => "9",
    };
    proof {
        reveal_strlit("0");
        reveal_strlit("1");
        reveal_strlit("2");
        reveal_strlit("3");
        reveal_strlit("4");
        reveal_strlit("5");
        reveal_strlit("6");
        reveal_strlit("7");
        reveal_strlit("8");
        reveal_strlit("9");
    }
    text.append(one);
}

fn push_digits(text: &mut String, n: u64)
    ensures
        final(text)@ == old(text)@ + digits(n as nat),
    decreases n,
{
    if n >= 10 {
        push_digits(text, n / 10);
    }
    push_digit(text, n % 10);
}

/// `n` in decimal, with a minus sign where it is negative.
pub fn format_integer(n: i64) -> (r: String)
    ensures
        r@ == integer_text(n as int),
{
    let mut text: String = String::new();
    if n < 0 {
        proof {
            reveal_strlit("-");
        }
        text.append("-");
        let magnitude: u64 = (-(n as i128)) as u64;
        push_digits(&mut text, magnitude);
    } else {
        push_digits(&mut text, n as u64);
    }
    text
}

/// A text begins with a prefix exactly where it is the prefix with something put behind it, and
/// to cut the prefix off gives back what was put behind it.
pub proof fn law_cutting_undoes_prefixing(prefix: Seq<char>, rest: Seq<char>, s: Seq<char>)
    ensures
        has_prefix(prefix + rest, prefix),
        without_prefix(prefix + rest, prefix) == Some(rest),
        has_prefix(s, prefix) ==> without_prefix(s, prefix) is Some && s == prefix
            + without_prefix(s, prefix)->0,
        !has_prefix(s, prefix) ==> without_prefix(s, prefix) is None,
        without_prefixes(s, prefix) != s ==> has_prefix(s, prefix),
{
    let n = prefix.len() as int;
    assert((prefix + rest).take(n) =~= prefix);
    assert((prefix + rest).skip(n) =~= rest);
    if has_prefix(s, prefix) {
        assert(s =~= s.take(n) + s.skip(n));
    }
}

/// To cut off every copy of a prefix is to cut off one, and then the others; what is left does
/// not begin with the prefix, and a text that does not begin with it stays as it is.
pub proof fn law_every_copy_is_cut_off(prefix: Seq<char>, s: Seq<char>)
    requires
        prefix.len() > 0,
    ensures
        without_prefixes(prefix + s, prefix) == without_prefixes(s, prefix),
        !has_prefix(without_prefixes(s, prefix), prefix),
        !has_prefix(s, prefix) ==> without_prefixes(s, prefix) == s,
    decreases s.len(),
{
    let n = prefix.len() as int;
    assert((prefix + s).take(n) =~= prefix);
    assert((prefix + s).skip(n) =~= s);
    if has_prefix(s, prefix) {
        law_every_copy_is_cut_off(prefix, s.skip(n));
    }
}

/// Whether a text holds nothing but white space.
pub open spec fn all_white(s: Seq<char>) -> bool {
    forall|i: int| 0 <= i < s.len() ==> is_white(#[trigger] s[i])
}

proof fn lemma_trimmed_start(s: Seq<char>)
    ensures
        trimmed_start(s).len() <= s.len(),
        trimmed_start(s) == s.skip(s.len() - trimmed_start(s).len()),
        all_white(s.take(s.len() - trimmed_start(s).len())),
        trimmed_start(s).len() > 0 ==> !is_white(trimmed_start(s)[0]),
    decreases s.len(),
{
    if s.len() > 0 && is_white(s[0]) {
        let rest = s.skip(1);
        lemma_trimmed_start(rest);
        let k = rest.len() - trimmed_start(rest).len();
        assert(rest.skip(k) =~= s.skip(k + 1));
        assert forall|i: int| 0 <= i < s.take(k + 1).len() implies is_white(
            #[trigger] s.take(k + 1)[i],
        ) by {
            if i > 0 {
                assert(rest.take(k)[i - 1] == s.take(k + 1)[i]);
            }
        }
    } else {
        assert(s.skip(0) =~= s);
    }
}

proof fn lemma_trimmed_end(s: Seq<char>)
    ensures
        trimmed_end(s).len() <= s.len(),
        trimmed_end(s) == s.take(trimmed_end(s).len() as int),
        all_white(s.skip(trimmed_end(s).len() as int)),
        trimmed_end(s).len() > 0 ==> !is_white(trimmed_end(s).last()),
    decreases s.len(),
{
    if s.len() > 0 && is_white(s.last()) {
        let rest = s.drop_last();
        lemma_trimmed_end(rest);
        let k = trimmed_end(rest).len() as int;
        assert(rest.take(k) =~= s.take(k));
        assert forall|i: int| 0 <= i < s.skip(k).len() implies is_white(
            #[trigger] s.skip(k)[i],
        ) by {
            if i < rest.len() - k {
                assert(rest.skip(k)[i] == s.skip(k)[i]);
            }
        }
    } else {
        assert(s.take(s.len() as int) =~= s);
    }
}

/// To trim a text is to take white space off both of its ends and nothing else: the text is
/// what is left with white space around it, and what is left, if anything is, begins and ends
/// with something else. Nothing is left exactly of a text that is all white space.
pub proof fn law_trimming_takes_white_space_alone(s: Seq<char>)
    ensures
        exists|a: Seq<char>, b: Seq<char>|
            s == #[trigger] (a + trimmed(s) + b) && all_white(a) && all_white(b),
        trimmed(s).len() > 0 ==> !is_white(trimmed(s)[0]) && !is_white(trimmed(s).last()),
        trimmed(s).len() == 0 <==> all_white(s),
{
    let t = trimmed_start(s);
    lemma_trimmed_start(s);
    lemma_trimmed_end(t);
    let m = s.len() - t.len();
    let n = trimmed(s).len() as int;
    let a = s.take(m);
    let b = t.skip(n);
    assert(s =~= a + trimmed(s) + b);
    if n > 0 {
        assert(trimmed(s)[0] == t[0]);
        assert(s[m] == t[0]);
        assert(!is_white(s[m]));
    } else {
        assert forall|i: int| 0 <= i < s.len() implies is_white(#[trigger] s[i]) by {
            if i < m {
                assert(a[i] == s[i]);
            } else {
                assert(b[i - m] == s[i]);
            }
        }
    }
}

/// The number that a decimal text is read as, digit by digit.
pub open spec fn decimal_value(s: Seq<char>) -> int
    decreases s.len(),
{
    if s.len() == 0 {
        0
    } else {
        decimal_value(s.drop_last()) * 10 + (s.last() as int - '0' as int)
    }
}

/// Whether a text is made of decimal digits alone, at least one, and has no needless zero at
/// its beginning.
pub open spec fn plain_decimal(s: Seq<char>) -> bool {
    &&& s.len() > 0
    &&& forall|i: int| 0 <= i < s.len() ==> '0' <= #[trigger] s[i] <= '9'
    &&& s.len() > 1 ==> s[0] != '0'
}

proof fn lemma_digits(n: nat)
    ensures
        plain_decimal(digits(n)),
        decimal_value(digits(n)) == n,
        n > 0 ==> digits(n)[0] != '0',
    decreases n,
{
    if n < 10 {
        assert(digits(n).drop_last() =~= Seq::empty());
        assert(decimal_value(digits(n).drop_last()) == 0);
    } else {
        lemma_digits(n / 10);
        assert(digits(n).drop_last() =~= digits(n / 10));
        assert(digits(n)[0] == digits(n / 10)[0]);
        let front = digits(n / 10);
        assert forall|i: int| 0 <= i < digits(n).len() implies '0' <= #[trigger] digits(n)[i]
            <= '9' by {
            if i < front.len() {
                assert(digits(n)[i] == front[i]);
            }
        }
    }
}

/// An integer is written so that it reads back: in plain decimal digits, whose value it is,
/// with a minus sign before them exactly where it is negative.
pub proof fn law_integers_read_back(n: int)
    ensures
        n >= 0 ==> plain_decimal(integer_text(n)) && decimal_value(integer_text(n)) == n,
        n < 0 ==> {
            &&& integer_text(n).len() > 0
            &&& integer_text(n)[0] == '-'
            &&& plain_decimal(integer_text(n).skip(1))
            &&& decimal_value(integer_text(n).skip(1)) == -n
        },
{
    if n < 0 {
        lemma_digits((-n) as nat);
        assert(integer_text(n).skip(1) =~= digits((-n) as nat));
    } else {
        lemma_digits(n as nat);
    }
}

} // verus!
