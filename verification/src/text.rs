//! Plain text: white space, words, cells, decimal integers, and the texts that
//! stand for floating-point numbers.
use vstd::prelude::*;

verus! {

/// White space as Unicode defines it.
pub open spec fn is_space(c: char) -> bool {
    ||| '\u{9}' <= c <= '\u{d}'
    ||| c == '\u{20}'
    ||| c == '\u{85}'
    ||| c == '\u{a0}'
    ||| c == '\u{1680}'
    ||| '\u{2000}' <= c <= '\u{200a}'
    ||| c == '\u{2028}'
    ||| c == '\u{2029}'
    ||| c == '\u{202f}'
    ||| c == '\u{205f}'
    ||| c == '\u{3000}'
}

pub open spec fn is_digit(c: char) -> bool {
    '0' <= c <= '9'
}

/// `s` from its first character that is no space.
pub open spec fn trim_start(s: Seq<char>) -> Seq<char>
    decreases s.len(),
{
    if s.len() > 0 && is_space(s[0]) {
        trim_start(s.drop_first())
    } else {
        s
    }
}

/// `s` up to its last character that is no space.
pub open spec fn trim_end(s: Seq<char>) -> Seq<char>
    decreases s.len(),
{
    if s.len() > 0 && is_space(s.last()) {
        trim_end(s.drop_last())
    } else {
        s
    }
}

/// `s` without the white space at its two ends.
pub open spec fn trim(s: Seq<char>) -> Seq<char> {
    trim_end(trim_start(s))
}

/// How many characters of `s` come before its first space.
pub open spec fn word_len(s: Seq<char>) -> nat
    decreases s.len(),
{
    if s.len() > 0 && !is_space(s[0]) {
        1 + word_len(s.drop_first())
    } else {
        0
    }
}

/// The first word of `s`; empty if `s` holds no word.
pub open spec fn first_word(s: Seq<char>) -> Seq<char> {
    let t = trim_start(s);
    t.take(word_len(t) as int)
}

/// What follows the first word of `s`.
pub open spec fn after_first_word(s: Seq<char>) -> Seq<char> {
    let t = trim_start(s);
    t.skip(word_len(t) as int)
}

/// How many characters of `s` come before its first comma.
pub open spec fn cell_len(s: Seq<char>) -> nat
    decreases s.len(),
{
    if s.len() > 0 && s[0] != ',' {
        1 + cell_len(s.drop_first())
    } else {
        0
    }
}

/// The pieces of `s` between its commas: one more than it has commas.
pub open spec fn cells(s: Seq<char>) -> Seq<Seq<char>>
    decreases s.len(),
{
    let n = cell_len(s) as int;
    if n >= s.len() {
        seq![s]
    } else {
        seq![s.take(n)] + cells(s.skip(n + 1))
    }
}

/// The pieces put together again, with a comma between neighbours.
pub open spec fn join(pieces: Seq<Seq<char>>) -> Seq<char>
    decreases pieces.len(),
{
    if pieces.len() == 0 {
        seq![]
    } else if pieces.len() == 1 {
        pieces[0]
    } else {
        join(pieces.drop_last()) + seq![','] + pieces.last()
    }
}

/// How many digits `s` starts with.
pub open spec fn digits_len(s: Seq<char>) -> nat
    decreases s.len(),
{
    if s.len() > 0 && is_digit(s[0]) {
        1 + digits_len(s.drop_first())
    } else {
        0
    }
}

/// At least one character, and digits only.
pub open spec fn all_digits(s: Seq<char>) -> bool {
    s.len() > 0 && digits_len(s) == s.len()
}

/// The number that a run of digits writes in decimal.
pub open spec fn digits_value(s: Seq<char>) -> nat
    decreases s.len(),
{
    if s.len() == 0 {
        0
    } else {
        digits_value(s.drop_last()) * 10 + (s.last() as nat - '0' as nat) as nat
    }
}

/// The decimal writing of `n`, without leading zeros.
pub open spec fn decimal(n: nat) -> Seq<char>
    decreases n,
{
    if n < 10 {
        seq![('0' as nat + n) as char]
    } else {
        decimal(n / 10) + seq![('0' as nat + n % 10) as char]
    }
}

/// An unsigned 32-bit integer in decimal, with an optional plus sign.
pub open spec fn unsigned_value(s: Seq<char>) -> Option<u32> {
    let d = if s.len() > 0 && s[0] == '+' {
        s.drop_first()
    } else {
        s
    };
    if all_digits(d) && digits_value(d) <= u32::MAX {
        Some(digits_value(d) as u32)
    } else {
        None
    }
}

/// `s` without a leading sign, if it has one.
pub open spec fn unsigned_part(s: Seq<char>) -> Seq<char> {
    if s.len() > 0 && (s[0] == '+' || s[0] == '-') {
        s.drop_first()
    } else {
        s
    }
}

/// The small letter for an ASCII letter; any other character unchanged.
pub open spec fn lower(c: char) -> char {
    if 'A' <= c <= 'Z' {
        (c as u32 + 32) as char
    } else {
        c
    }
}

/// Equal to `word` when capital and small letters count as the same.
pub open spec fn same_letters(s: Seq<char>, word: Seq<char>) -> bool {
    &&& s.len() == word.len()
    &&& forall|i: int| 0 <= i < s.len() ==> lower(#[trigger] s[i]) == word[i]
}

/// The words that stand for the values no digits can write.
pub open spec fn is_special_number(s: Seq<char>) -> bool {
    ||| same_letters(s, seq!['i', 'n', 'f'])
    ||| same_letters(s, seq!['i', 'n', 'f', 'i', 'n', 'i', 't', 'y'])
    ||| same_letters(s, seq!['n', 'a', 'n'])
}

/// `e` or `E`, an optional sign, and at least one digit.
pub open spec fn is_exponent(s: Seq<char>) -> bool {
    s.len() > 0 && (s[0] == 'e' || s[0] == 'E') && all_digits(unsigned_part(s.drop_first()))
}

/// How many characters of `s` the digits before the point take, the point, and the
/// digits behind it.
pub open spec fn mantissa_len(s: Seq<char>) -> nat {
    let whole = digits_len(s);
    if whole < s.len() && s[whole as int] == '.' {
        whole + 1 + digits_len(s.skip(whole as int + 1))
    } else {
        whole
    }
}

/// How many of those characters are digits.
pub open spec fn mantissa_digits(s: Seq<char>) -> nat {
    let whole = digits_len(s);
    if whole < s.len() && s[whole as int] == '.' {
        whole + digits_len(s.skip(whole as int + 1))
    } else {
        whole
    }
}

/// Digits with an optional point among or beside them, and an optional exponent.
pub open spec fn is_plain_number(s: Seq<char>) -> bool {
    let rest = s.skip(mantissa_len(s) as int);
    &&& mantissa_digits(s) > 0
    &&& rest.len() == 0 || is_exponent(rest)
}

/// The texts that a floating-point number can be read from.
pub open spec fn is_number_text(s: Seq<char>) -> bool {
    is_special_number(unsigned_part(s)) || is_plain_number(unsigned_part(s))
}

// ---- scanning ---------------------------------------------------------------

/// The characters of a text, for access by position.
pub fn characters(s: &str) -> (r: Vec<char>)
    ensures
        r@ == s@,
{
    let mut out: Vec<char> = Vec::new();
    for c in iter: s.chars()
        invariant
            out@ == iter.seq().take(iter.index()),
            iter.seq() == s@,
    {
        proof {
            assert(iter.seq().take(iter.index() + 1) =~= iter.seq().take(iter.index()).push(c));
        }
        out.push(c);
    }
    proof {
        assert(s@.take(s@.len() as int) =~= s@);
    }
    out
}

/// The part of `s` between two positions.
pub open spec fn part(s: Seq<char>, from: int, to: int) -> Seq<char> {
    s.subrange(from, to)
}

/// A part that is not empty starts with its first character, and goes on with the
/// part one further.
proof fn part_step(s: Seq<char>, from: int, to: int)
    requires
        0 <= from < to <= s.len(),
    ensures
        part(s, from, to)[0] == s[from],
        part(s, from, to).drop_first() == part(s, from + 1, to),
        part(s, from, to).last() == s[to - 1],
        part(s, from, to).drop_last() == part(s, from, to - 1),
{
    assert(part(s, from, to).drop_first() =~= part(s, from + 1, to));
    assert(part(s, from, to).drop_last() =~= part(s, from, to - 1));
}

/// Whether a character is white space.
pub fn space(c: char) -> (r: bool)
    ensures
        r == is_space(c),
{
    ('\u{9}' <= c && c <= '\u{d}') || c == '\u{20}' || c == '\u{85}' || c == '\u{a0}' || c
        == '\u{1680}' || ('\u{2000}' <= c && c <= '\u{200a}') || c == '\u{2028}' || c == '\u{2029}'
        || c == '\u{202f}' || c == '\u{205f}' || c == '\u{3000}'
}

/// Whether a character is a decimal digit.
pub fn digit(c: char) -> (r: bool)
    ensures
        r == is_digit(c),
{
    '0' <= c && c <= '9'
}

/// Where the part starts once its leading white space is left out.
pub fn skip_space(s: &Vec<char>, from: usize, to: usize) -> (r: usize)
    requires
        from <= to <= s.len(),
    ensures
        from <= r <= to,
        part(s@, r as int, to as int) == trim_start(part(s@, from as int, to as int)),
{
    let mut i: usize = from;
    while i < to && space(s[i])
        invariant
            from <= i <= to <= s.len(),
            trim_start(part(s@, i as int, to as int)) == trim_start(
                part(s@, from as int, to as int),
            ),
        ensures
            from <= i <= to,
            part(s@, i as int, to as int) == trim_start(part(s@, from as int, to as int)),
        decreases to - i,
    {
        proof {
            part_step(s@, i as int, to as int);
        }
        i = i + 1;
    }
    proof {
        if i < to {
            part_step(s@, i as int, to as int);
        }
    }
    i
}

/// Where the part ends once the white space at its end is left out.
pub fn skip_space_back(s: &Vec<char>, from: usize, to: usize) -> (r: usize)
    requires
        from <= to <= s.len(),
    ensures
        from <= r <= to,
        part(s@, from as int, r as int) == trim_end(part(s@, from as int, to as int)),
{
    let mut i: usize = to;
    while from < i && space(s[i - 1])
        invariant
            from <= i <= to <= s.len(),
            trim_end(part(s@, from as int, i as int)) == trim_end(
                part(s@, from as int, to as int),
            ),
        ensures
            from <= i <= to,
            part(s@, from as int, i as int) == trim_end(part(s@, from as int, to as int)),
        decreases i - from,
    {
        proof {
            part_step(s@, from as int, i as int);
        }
        i = i - 1;
    }
    proof {
        if from < i {
            part_step(s@, from as int, i as int);
        }
    }
    i
}

/// The two ends of the part without the white space at its ends.
pub fn trim_range(s: &Vec<char>, from: usize, to: usize) -> (r: (usize, usize))
    requires
        from <= to <= s.len(),
    ensures
        from <= r.0 <= r.1 <= to,
        part(s@, r.0 as int, r.1 as int) == trim(part(s@, from as int, to as int)),
{
    let a: usize = skip_space(s, from, to);
    let b: usize = skip_space_back(s, a, to);
    (a, b)
}

/// Where the word at the start of the part ends.
pub fn word_end(s: &Vec<char>, from: usize, to: usize) -> (r: usize)
    requires
        from <= to <= s.len(),
    ensures
        from <= r <= to,
        r - from == word_len(part(s@, from as int, to as int)),
{
    let mut i: usize = from;
    while i < to && !space(s[i])
        invariant
            from <= i <= to <= s.len(),
            (i - from) + word_len(part(s@, i as int, to as int)) == word_len(
                part(s@, from as int, to as int),
            ),
        ensures
            from <= i <= to,
            i - from == word_len(part(s@, from as int, to as int)),
        decreases to - i,
    {
        proof {
            part_step(s@, i as int, to as int);
        }
        i = i + 1;
    }
    proof {
        if i < to {
            part_step(s@, i as int, to as int);
        }
    }
    i
}

/// Where the cell at the start of the part ends: at a comma, or at the part's end.
pub fn cell_end(s: &Vec<char>, from: usize, to: usize) -> (r: usize)
    requires
        from <= to <= s.len(),
    ensures
        from <= r <= to,
        r - from == cell_len(part(s@, from as int, to as int)),
{
    let mut i: usize = from;
    while i < to && s[i] != ','
        invariant
            from <= i <= to <= s.len(),
            (i - from) + cell_len(part(s@, i as int, to as int)) == cell_len(
                part(s@, from as int, to as int),
            ),
        ensures
            from <= i <= to,
            i - from == cell_len(part(s@, from as int, to as int)),
        decreases to - i,
    {
        proof {
            part_step(s@, i as int, to as int);
        }
        i = i + 1;
    }
    proof {
        if i < to {
            part_step(s@, i as int, to as int);
        }
    }
    i
}

/// Where the digits at the start of the part end.
pub fn digits_end(s: &Vec<char>, from: usize, to: usize) -> (r: usize)
    requires
        from <= to <= s.len(),
    ensures
        from <= r <= to,
        r - from == digits_len(part(s@, from as int, to as int)),
{
    let mut i: usize = from;
    while i < to && digit(s[i])
        invariant
            from <= i <= to <= s.len(),
            (i - from) + digits_len(part(s@, i as int, to as int)) == digits_len(
                part(s@, from as int, to as int),
            ),
        ensures
            from <= i <= to,
            i - from == digits_len(part(s@, from as int, to as int)),
        decreases to - i,
    {
        proof {
            part_step(s@, i as int, to as int);
        }
        i = i + 1;
    }
    proof {
        if i < to {
            part_step(s@, i as int, to as int);
        }
    }
    i
}

/// Digits that go on write a number that is no smaller.
proof fn digits_value_grows(s: Seq<char>, n: int)
    requires
        0 <= n <= s.len(),
        forall|i: int| 0 <= i < s.len() ==> is_digit(#[trigger] s[i]),
    ensures
        digits_value(s.take(n)) <= digits_value(s),
    decreases s.len() - n,
{
    if n < s.len() {
        digits_value_grows(s, n + 1);
        assert(s.take(n + 1).drop_last() =~= s.take(n));
    } else {
        assert(s.take(n) =~= s);
    }
}

/// A run of digits that takes the whole text leaves no other character in it.
proof fn all_digits_each(s: Seq<char>)
    requires
        digits_len(s) == s.len(),
    ensures
        forall|i: int| 0 <= i < s.len() ==> is_digit(#[trigger] s[i]),
    decreases s.len(),
{
    if s.len() > 0 {
        digits_len_bound(s.drop_first());
        all_digits_each(s.drop_first());
        assert forall|i: int| 0 <= i < s.len() implies is_digit(#[trigger] s[i]) by {
            if i > 0 {
                assert(s.drop_first()[i - 1] == s[i]);
            }
        }
    }
}

proof fn digits_len_bound(s: Seq<char>)
    ensures
        digits_len(s) <= s.len(),
    decreases s.len(),
{
    if s.len() > 0 {
        digits_len_bound(s.drop_first());
    }
}

/// The value of a decimal digit.
fn digit_value(c: char) -> (r: u64)
    requires
        is_digit(c),
    ensures
        r == c as nat - '0' as nat,
        r < 10,
{
    c as u64 - '0' as u64
}

/// The unsigned 32-bit integer that the part writes, if it writes one.
pub fn parse_unsigned(s: &Vec<char>, from: usize, to: usize) -> (r: Option<u32>)
    requires
        from <= to <= s.len(),
    ensures
        r == unsigned_value(part(s@, from as int, to as int)),
{
    proof {
        if from < to {
            part_step(s@, from as int, to as int);
        }
    }
    let start: usize = if from < to && s[from] == '+' {
        from + 1
    } else {
        from
    };
    let ghost d = part(s@, start as int, to as int);
    assert(d == (if part(s@, from as int, to as int).len() > 0 && part(
        s@,
        from as int,
        to as int,
    )[0] == '+' {
        part(s@, from as int, to as int).drop_first()
    } else {
        part(s@, from as int, to as int)
    }));
    if start == to || digits_end(s, start, to) < to {
        return None;
    }
    proof {
        all_digits_each(d);
    }
    let mut value: u64 = 0;
    let mut i: usize = start;
    while i < to
        invariant
            start <= i <= to <= s.len(),
            d == part(s@, start as int, to as int),
            all_digits(d),
            forall|k: int| 0 <= k < d.len() ==> is_digit(#[trigger] d[k]),
            value == digits_value(d.take(i - start)),
            value <= u32::MAX,
            unsigned_value(part(s@, from as int, to as int)) == (if digits_value(d) <= u32::MAX {
                Some(digits_value(d) as u32)
            } else {
                None
            }),
        decreases to - i,
    {
        assert(d[i - start] == s@[i as int]);
        value = value * 10 + digit_value(s[i]);
        proof {
            assert(d.take(i - start + 1).drop_last() =~= d.take(i - start));
            digits_value_grows(d, i - start + 1);
        }
        if value > u32::MAX as u64 {
            return None;
        }
        i = i + 1;
    }
    assert(d.take(to - start) =~= d);
    Some(value as u32)
}

/// The text of one decimal digit.
fn digit_text(d: usize) -> (r: &'static str)
    requires
        d < 10,
    ensures
        r@ == seq![('0' as nat + d as nat) as char],
{
    proof {
        reveal_strlit("0");
        reveal_strlit("1");
        reveal_strlit("2");
        reveal_strlit("3");
        reveal_strlit("4");
        reveal_strlit("5");
        reveal_strlit("6");
        reveal_strlit("7");
        reveal_strlit("8");
        reveal_strlit("9");
    }
    match d {
        0 => "0",
        1 => "1",
        2 => "2",
        3 => "3",
        4 => "4",
        5 => "5",
        6 => "6",
        7 => "7",
        8 => "8",
        _ => "9",
    }
}

/// A number written in decimal.
pub fn decimal_text(n: usize) -> (r: String)
    ensures
        r@ == decimal(n as nat),
    decreases n,
{
    if n < 10 {
        String::from_str(digit_text(n))
    } else {
        let mut r = decimal_text(n / 10);
        r.append(digit_text(n % 10));
        r
    }
}

/// Whether a character is the given letter, small or capital.
fn letter(c: char, small: char, capital: char) -> (r: bool)
    requires
        'a' <= small <= 'z',
        capital as nat + 32 == small as nat,
    ensures
        r == (lower(c) == small),
{
    c == small || c == capital
}

/// Whether the part is one of the words for a value that no digits can write.
fn special_number(s: &Vec<char>, from: usize, to: usize) -> (r: bool)
    requires
        from <= to <= s.len(),
    ensures
        r == is_special_number(part(s@, from as int, to as int)),
{
    let n: usize = to - from;
    let ghost p = part(s@, from as int, to as int);
    let ghost inf = seq!['i', 'n', 'f'];
    let ghost infinity = seq!['i', 'n', 'f', 'i', 'n', 'i', 't', 'y'];
    let ghost nan = seq!['n', 'a', 'n'];
    if n == 3 {
        assert(p[0] == s@[from as int] && p[1] == s@[from + 1] && p[2] == s@[from + 2]);
        let is_inf: bool = letter(s[from], 'i', 'I') && letter(s[from + 1], 'n', 'N') && letter(
            s[from + 2],
            'f',
            'F',
        );
        let is_nan: bool = letter(s[from], 'n', 'N') && letter(s[from + 1], 'a', 'A') && letter(
            s[from + 2],
            'n',
            'N',
        );
        proof {
            assert(is_inf == same_letters(p, inf)) by {
                if is_inf {
                    assert forall|i: int| 0 <= i < p.len() implies lower(#[trigger] p[i]) == inf[i] by {
                        assert(i == 0 || i == 1 || i == 2);
                    }
                } else {
                    assert(lower(p[0]) != inf[0] || lower(p[1]) != inf[1] || lower(p[2]) != inf[2]);
                }
            }
            assert(is_nan == same_letters(p, nan)) by {
                if is_nan {
                    assert forall|i: int| 0 <= i < p.len() implies lower(#[trigger] p[i]) == nan[i] by {
                        assert(i == 0 || i == 1 || i == 2);
                    }
                } else {
                    assert(lower(p[0]) != nan[0] || lower(p[1]) != nan[1] || lower(p[2]) != nan[2]);
                }
            }
        }
        is_inf || is_nan
    } else if n == 8 {
        assert forall|k: int| 0 <= k < 8 implies #[trigger] p[k] == s@[from + k] by {}
        let is_infinity: bool = letter(s[from], 'i', 'I') && letter(s[from + 1], 'n', 'N')
            && letter(s[from + 2], 'f', 'F') && letter(s[from + 3], 'i', 'I') && letter(
            s[from + 4],
            'n',
            'N',
        ) && letter(s[from + 5], 'i', 'I') && letter(s[from + 6], 't', 'T') && letter(
            s[from + 7],
            'y',
            'Y',
        );
        proof {
            if is_infinity {
                assert forall|i: int| 0 <= i < p.len() implies lower(#[trigger] p[i])
                    == infinity[i] by {
                    assert(i == 0 || i == 1 || i == 2 || i == 3 || i == 4 || i == 5 || i == 6 || i
                        == 7);
                }
            } else {
                assert(lower(p[0]) != infinity[0] || lower(p[1]) != infinity[1] || lower(p[2])
                    != infinity[2] || lower(p[3]) != infinity[3] || lower(p[4]) != infinity[4]
                    || lower(p[5]) != infinity[5] || lower(p[6]) != infinity[6] || lower(p[7])
                    != infinity[7]);
            }
        }
        is_infinity
    } else {
        false
    }
}

/// Where the part starts once a leading sign is left out.
fn skip_sign(s: &Vec<char>, from: usize, to: usize) -> (r: usize)
    requires
        from <= to <= s.len(),
    ensures
        from <= r <= to,
        part(s@, r as int, to as int) == unsigned_part(part(s@, from as int, to as int)),
{
    proof {
        if from < to {
            part_step(s@, from as int, to as int);
        }
    }
    if from < to && (s[from] == '+' || s[from] == '-') {
        from + 1
    } else {
        from
    }
}

/// Whether the part is an exponent.
fn exponent(s: &Vec<char>, from: usize, to: usize) -> (r: bool)
    requires
        from <= to <= s.len(),
    ensures
        r == is_exponent(part(s@, from as int, to as int)),
{
    proof {
        if from < to {
            part_step(s@, from as int, to as int);
        }
    }
    if from < to && (s[from] == 'e' || s[from] == 'E') {
        let start: usize = skip_sign(s, from + 1, to);
        start < to && digits_end(s, start, to) == to
    } else {
        false
    }
}

/// Whether the part writes a number with digits.
fn plain_number(s: &Vec<char>, from: usize, to: usize) -> (r: bool)
    requires
        from <= to <= s.len(),
    ensures
        r == is_plain_number(part(s@, from as int, to as int)),
{
    let ghost p = part(s@, from as int, to as int);
    let whole: usize = digits_end(s, from, to);
    if whole < to && s[whole] == '.' {
        let end: usize = digits_end(s, whole + 1, to);
        assert(p.skip(whole - from + 1) =~= part(s@, whole + 1, to as int));
        assert(p.skip(end - from) =~= part(s@, end as int, to as int));
        (whole > from || end > whole + 1) && (end == to || exponent(s, end, to))
    } else {
        assert(p.skip(whole - from) =~= part(s@, whole as int, to as int));
        whole > from && (whole == to || exponent(s, whole, to))
    }
}

/// Whether a floating-point number can be read from the part.
pub fn number_text(s: &Vec<char>, from: usize, to: usize) -> (r: bool)
    requires
        from <= to <= s.len(),
    ensures
        r == is_number_text(part(s@, from as int, to as int)),
{
    let start: usize = skip_sign(s, from, to);
    plain_number(s, start, to) || special_number(s, start, to)
}

/// Whether the part reads the same as `other`.
pub fn same_text(s: &Vec<char>, from: usize, to: usize, other: &str) -> (r: bool)
    requires
        from <= to <= s.len(),
    ensures
        r == (part(s@, from as int, to as int) == other@),
{
    let o = characters(other);
    let ghost p = part(s@, from as int, to as int);
    if to - from != o.len() {
        return false;
    }
    let mut i: usize = 0;
    while i < o.len()
        invariant
            i <= o.len(),
            o@ == other@,
            from <= to <= s.len(),
            to - from == o.len(),
            p == part(s@, from as int, to as int),
            forall|k: int| 0 <= k < i ==> p[k] == #[trigger] o@[k],
        decreases o.len() - i,
    {
        assert(p[i as int] == s@[from + i]);
        if s[from + i] != o[i] {
            return false;
        }
        i = i + 1;
    }
    assert(p =~= o@);
    true
}

// ---- laws -------------------------------------------------------------------

/// Among the ASCII characters the blank, the tabulators, the line feed, the form feed and the
/// carriage return are white space, and no others.
pub proof fn ascii_spaces(c: char)
    requires
        c as u32 <= 0x7f,
    ensures
        is_space(c) <==> c == ' ' || c == '\t' || c == '\n' || c == '\r' || c as u32 == 0xb || c as u32
            == 0xc,
{
}

/// What `trim` leaves out is white space, and what it leaves neither starts nor ends with it.
pub proof fn trim_leaves_out_spaces(s: Seq<char>) -> (r: (int, int))
    ensures
        0 <= r.0 <= r.1 <= s.len(),
        trim(s) == s.subrange(r.0, r.1),
        forall|i: int| 0 <= i < r.0 ==> is_space(#[trigger] s[i]),
        forall|i: int| r.1 <= i < s.len() ==> is_space(#[trigger] s[i]),
        trim(s).len() > 0 ==> !is_space(trim(s)[0]) && !is_space(trim(s).last()),
{
    let a = leading_spaces(s);
    let t = s.skip(a);
    let n = trailing_spaces(t);
    let b = a + n;
    assert(t.take(n) =~= s.subrange(a, b));
    assert forall|i: int| b <= i < s.len() implies is_space(#[trigger] s[i]) by {
        assert(t[i - a] == s[i]);
    }
    if n > 0 {
        assert(t.take(n)[0] == t[0]);
    }
    (a, b)
}

proof fn leading_spaces(s: Seq<char>) -> (n: int)
    ensures
        0 <= n <= s.len(),
        trim_start(s) == s.skip(n),
        forall|i: int| 0 <= i < n ==> is_space(#[trigger] s[i]),
        n < s.len() ==> !is_space(s[n]),
    decreases s.len(),
{
    if s.len() > 0 && is_space(s[0]) {
        let d = s.drop_first();
        let n = leading_spaces(d);
        assert(d.skip(n) =~= s.skip(n + 1));
        assert forall|i: int| 0 <= i < n + 1 implies is_space(#[trigger] s[i]) by {
            if i > 0 {
                assert(d[i - 1] == s[i]);
            }
        }
        if n < d.len() {
            assert(d[n] == s[n + 1]);
        }
        n + 1
    } else {
        assert(s.skip(0) =~= s);
        0
    }
}

proof fn trailing_spaces(s: Seq<char>) -> (n: int)
    ensures
        0 <= n <= s.len(),
        trim_end(s) == s.take(n),
        forall|i: int| n <= i < s.len() ==> is_space(#[trigger] s[i]),
        n > 0 ==> !is_space(s[n - 1]),
    decreases s.len(),
{
    if s.len() > 0 && is_space(s.last()) {
        let d = s.drop_last();
        let n = trailing_spaces(d);
        assert(d.take(n) =~= s.take(n));
        assert forall|i: int| n <= i < s.len() implies is_space(#[trigger] s[i]) by {
            if i < d.len() {
                assert(d[i] == s[i]);
            }
        }
        n
    } else {
        assert(s.take(s.len() as int) =~= s);
        s.len() as int
    }
}

/// A text is some white space, its first word, and the rest. The word holds no white space, the
/// rest starts with some unless it is empty, and there is no word exactly if all is white space.
pub proof fn first_word_stands_between_spaces(s: Seq<char>) -> (n: int)
    ensures
        0 <= n <= s.len(),
        s == s.take(n) + first_word(s) + after_first_word(s),
        forall|i: int| 0 <= i < n ==> is_space(#[trigger] s[i]),
        forall|i: int| 0 <= i < first_word(s).len() ==> !is_space(#[trigger] first_word(s)[i]),
        after_first_word(s).len() > 0 ==> is_space(after_first_word(s)[0]),
        first_word(s).len() == 0 ==> n == s.len(),
{
    let n = leading_spaces(s);
    let t = trim_start(s);
    let k = word_len(t) as int;
    characters_of_a_word(t);
    assert(s =~= s.take(n) + t.take(k) + t.skip(k));
    assert forall|i: int| 0 <= i < k implies !is_space(#[trigger] t.take(k)[i]) by {
        assert(t.take(k)[i] == t[i]);
    }
    if k < t.len() {
        assert(t.skip(k)[0] == t[k]);
    }
    if n < s.len() {
        assert(t[0] == s[n]);
    }
    n
}

proof fn characters_of_a_word(s: Seq<char>)
    ensures
        word_len(s) <= s.len(),
        forall|i: int| 0 <= i < word_len(s) ==> !is_space(#[trigger] s[i]),
        word_len(s) < s.len() ==> is_space(s[word_len(s) as int]),
    decreases s.len(),
{
    if s.len() > 0 && !is_space(s[0]) {
        let d = s.drop_first();
        characters_of_a_word(d);
        assert forall|i: int| 0 <= i < word_len(s) implies !is_space(#[trigger] s[i]) by {
            if i > 0 {
                assert(d[i - 1] == s[i]);
            }
        }
        if word_len(s) < s.len() {
            assert(d[word_len(d) as int] == s[word_len(s) as int]);
        }
    }
}

/// The cells of a text hold no comma, and put together again with commas between them they are
/// the text.
pub proof fn cells_are_the_text_between_commas(s: Seq<char>)
    ensures
        join(cells(s)) == s,
        cells(s).len() > 0,
        forall|i: int, k: int|
            0 <= i < cells(s).len() && 0 <= k < cells(s)[i].len() ==> #[trigger] cells(s)[i][k]
                != ',',
    decreases s.len(),
{
    let n = cell_len(s) as int;
    characters_of_a_cell(s);
    if n < s.len() {
        let rest = s.skip(n + 1);
        let more = cells(rest);
        cells_are_the_text_between_commas(rest);
        joined_from_the_front(s.take(n), more);
        assert(s =~= s.take(n) + seq![','] + rest);
        assert forall|i: int, k: int|
            0 <= i < cells(s).len() && 0 <= k < cells(s)[i].len() implies #[trigger] cells(s)[i][k]
            != ',' by {
            if i == 0 {
                assert(cells(s)[i] == s.take(n));
                assert(s.take(n)[k] == s[k]);
            } else {
                assert(cells(s)[i] == more[i - 1]);
                assert(more[i - 1][k] != ',');
            }
        }
    } else {
        assert(cells(s)[0] == s);
    }
}

proof fn characters_of_a_cell(s: Seq<char>)
    ensures
        cell_len(s) <= s.len(),
        forall|i: int| 0 <= i < cell_len(s) ==> #[trigger] s[i] != ',',
        cell_len(s) < s.len() ==> s[cell_len(s) as int] == ',',
    decreases s.len(),
{
    if s.len() > 0 && s[0] != ',' {
        let d = s.drop_first();
        characters_of_a_cell(d);
        assert forall|i: int| 0 <= i < cell_len(s) implies #[trigger] s[i] != ',' by {
            if i > 0 {
                assert(d[i - 1] == s[i]);
            }
        }
        if cell_len(s) < s.len() {
            assert(d[cell_len(d) as int] == s[cell_len(s) as int]);
        }
    }
}

/// Putting pieces together again, from the front: the first, a comma, and the others.
pub proof fn joined_from_the_front(first: Seq<char>, others: Seq<Seq<char>>)
    requires
        others.len() > 0,
    ensures
        join(seq![first] + others) == first + seq![','] + join(others),
        join(seq![first]) == first,
    decreases others.len(),
{
    let all = seq![first] + others;
    assert(all.last() == others.last());
    if others.len() == 1 {
        assert(all.drop_last() =~= seq![first]);
        assert(join(all.drop_last()) == first);
        assert(others.last() == others[0]);
    } else {
        joined_from_the_front(first, others.drop_last());
        assert(all.drop_last() =~= seq![first] + others.drop_last());
        assert(join(all) =~= first + seq![','] + join(others));
    }
}

/// A digit behind a number in decimal makes ten times the number and the digit.
pub proof fn digits_count_by_ten(s: Seq<char>, c: char)
    requires
        is_digit(c),
    ensures
        digits_value(s.push(c)) == 10 * digits_value(s) + (c as int - '0' as int),
        digits_value(Seq::empty()) == 0,
        0 <= c as int - '0' as int <= 9,
{
    assert(s.push(c).drop_last() =~= s);
}

/// What is written in decimal is digits alone, reads back as the same number, and has no zero in
/// front but for the number 0.
pub proof fn decimal_reads_back(n: nat)
    ensures
        all_digits(decimal(n)),
        digits_value(decimal(n)) == n,
        n > 0 ==> decimal(n)[0] != '0',
    decreases n,
{
    reveal_with_fuel(digits_len, 2);
    let c = ('0' as nat + n % 10) as char;
    assert(c as nat == '0' as nat + n % 10);
    let one = seq![c];
    assert(one.drop_first() =~= Seq::<char>::empty());
    if n < 10 {
        assert(decimal(n) =~= one);
        assert(one.drop_last() =~= Seq::<char>::empty());
        assert(digits_value(one.drop_last()) == 0);
        assert(one.last() == c);
    } else {
        let front = decimal(n / 10);
        decimal_reads_back(n / 10);
        assert(decimal(n) =~= front + one);
        all_digits_each(front);
        assert((front + one).drop_last() =~= front);
        assert((front + one).last() == c);
        assert(digits_value(front + one) == digits_value(front) * 10 + n % 10);
        digits_up_to(front + one, Seq::empty());
        assert(front + one + Seq::<char>::empty() =~= front + one);
    }
}

/// Digits are counted up to the first character that is none.
proof fn digits_up_to(a: Seq<char>, rest: Seq<char>)
    requires
        forall|i: int| 0 <= i < a.len() ==> is_digit(#[trigger] a[i]),
        rest.len() == 0 || !is_digit(rest[0]),
    ensures
        digits_len(a + rest) == a.len(),
    decreases a.len(),
{
    if a.len() == 0 {
        assert(a + rest =~= rest);
    } else {
        let d = a.drop_first();
        assert((a + rest).drop_first() =~= d + rest);
        assert((a + rest)[0] == a[0]);
        assert forall|i: int| 0 <= i < d.len() implies is_digit(#[trigger] d[i]) by {
            assert(d[i] == a[i + 1]);
        }
        digits_up_to(d, rest);
    }
}

/// A number in decimal is read as itself, with or without a plus sign, if 32 bits can hold it,
/// and as none if they cannot. A text that is empty, or holds anything but digits behind a plus
/// sign, is no number.
pub proof fn unsigned_numbers_are_read(n: nat, s: Seq<char>, i: int)
    ensures
        n <= u32::MAX ==> unsigned_value(decimal(n)) == Some(n as u32),
        n <= u32::MAX ==> unsigned_value(seq!['+'] + decimal(n)) == Some(n as u32),
        n > u32::MAX ==> unsigned_value(decimal(n)) is None,
        unsigned_value(Seq::empty()) is None,
        unsigned_value(seq!['+']) is None,
        0 <= i < s.len() && !is_digit(s[i]) && !(i == 0 && s[i] == '+') ==> unsigned_value(
            s,
        ) is None,
{
    decimal_reads_back(n);
    all_digits_each(decimal(n));
    assert(is_digit(decimal(n)[0]));
    assert((seq!['+'] + decimal(n)).drop_first() =~= decimal(n));
    assert(seq!['+'].drop_first() =~= Seq::<char>::empty());
    if unsigned_value(s) is Some && 0 <= i < s.len() {
        if s[0] == '+' {
            let d = s.drop_first();
            all_digits_each(d);
            if i > 0 {
                assert(d[i - 1] == s[i]);
            }
        } else {
            all_digits_each(s);
        }
    }
}

/// A capital letter has the small letter 32 further on; a small letter, and what is no letter,
/// is its own.
pub proof fn small_letters(c: char)
    ensures
        'A' <= c <= 'Z' ==> lower(c) as int == c as int + 32 && 'a' <= lower(c) <= 'z',
        !('A' <= c <= 'Z') ==> lower(c) == c,
        lower(lower(c)) == lower(c),
{
}

/// Digits write a number, with a point among them, in front or behind, and with an exponent.
/// A point alone, or an exponent without digits, does not.
pub proof fn digits_write_numbers(whole: Seq<char>, frac: Seq<char>, e: char, exp: Seq<char>)
    requires
        forall|i: int| 0 <= i < whole.len() ==> is_digit(#[trigger] whole[i]),
        forall|i: int| 0 <= i < frac.len() ==> is_digit(#[trigger] frac[i]),
        forall|i: int| 0 <= i < exp.len() ==> is_digit(#[trigger] exp[i]),
        whole.len() + frac.len() > 0,
        e == 'e' || e == 'E',
        exp.len() > 0,
    ensures
        whole.len() > 0 ==> is_plain_number(whole),
        whole.len() > 0 ==> is_plain_number(whole + (seq![e] + exp)),
        is_plain_number(whole + (seq!['.'] + frac)),
        is_plain_number(whole + (seq!['.'] + (frac + (seq![e] + exp)))),
        is_plain_number(whole + (seq!['.'] + (frac + (seq![e] + (seq!['-'] + exp))))),
        is_plain_number(whole + (seq!['.'] + (frac + (seq![e] + (seq!['+'] + exp))))),
        !is_plain_number(whole + (seq!['.'] + (frac + seq![e]))),
        !is_plain_number(whole + seq![e]),
        !is_plain_number(seq!['.']),
        !is_plain_number(Seq::empty()),
{
    let none = Seq::<char>::empty();
    exponents(e, exp);
    if whole.len() > 0 {
        whole_number(whole, none);
        assert(whole + none =~= whole);
        whole_number(whole, seq![e] + exp);
    }
    whole_number(whole, seq![e]);
    pointed_number(whole, frac, none);
    assert(frac + none =~= frac);
    pointed_number(whole, frac, seq![e] + exp);
    pointed_number(whole, frac, seq![e] + (seq!['-'] + exp));
    pointed_number(whole, frac, seq![e] + (seq!['+'] + exp));
    pointed_number(whole, frac, seq![e]);
    pointed_number(none, none, none);
    assert(none + (seq!['.'] + (none + none)) =~= seq!['.']);
    whole_number(none, none);
    assert(none + none =~= none);
}

proof fn exponents(e: char, exp: Seq<char>)
    requires
        forall|i: int| 0 <= i < exp.len() ==> is_digit(#[trigger] exp[i]),
        e == 'e' || e == 'E',
        exp.len() > 0,
    ensures
        is_exponent(seq![e] + exp),
        is_exponent(seq![e] + (seq!['-'] + exp)),
        is_exponent(seq![e] + (seq!['+'] + exp)),
        !is_exponent(seq![e]),
{
    digits_up_to(exp, Seq::empty());
    assert(exp + Seq::<char>::empty() =~= exp);
    assert((seq![e] + exp).drop_first() =~= exp);
    let minus = seq!['-'] + exp;
    let plus = seq!['+'] + exp;
    assert((seq![e] + minus).drop_first() =~= minus);
    assert((seq![e] + plus).drop_first() =~= plus);
    assert(minus.drop_first() =~= exp);
    assert(plus.drop_first() =~= exp);
    assert(is_digit(exp[0]));
    assert(seq![e].drop_first() =~= Seq::<char>::empty());
}

proof fn whole_number(whole: Seq<char>, rest: Seq<char>)
    requires
        forall|i: int| 0 <= i < whole.len() ==> is_digit(#[trigger] whole[i]),
        rest.len() == 0 || (!is_digit(rest[0]) && rest[0] != '.'),
    ensures
        is_plain_number(whole + rest) <==> whole.len() > 0 && (rest.len() == 0 || is_exponent(
            rest,
        )),
{
    let s = whole + rest;
    digits_up_to(whole, rest);
    if rest.len() > 0 {
        assert(s[whole.len() as int] == rest[0]);
    }
    assert(s.skip(whole.len() as int) =~= rest);
}

proof fn pointed_number(whole: Seq<char>, frac: Seq<char>, rest: Seq<char>)
    requires
        forall|i: int| 0 <= i < whole.len() ==> is_digit(#[trigger] whole[i]),
        forall|i: int| 0 <= i < frac.len() ==> is_digit(#[trigger] frac[i]),
        rest.len() == 0 || !is_digit(rest[0]),
    ensures
        is_plain_number(whole + (seq!['.'] + (frac + rest))) <==> whole.len() + frac.len() > 0 && (
        rest.len() == 0 || is_exponent(rest)),
{
    let behind = frac + rest;
    let s = whole + (seq!['.'] + behind);
    digits_up_to(whole, seq!['.'] + behind);
    digits_up_to(frac, rest);
    assert(s[whole.len() as int] == '.');
    assert(s.skip(whole.len() as int + 1) =~= behind);
    assert(s.skip(whole.len() as int + 1 + frac.len()) =~= rest);
}

/// A number may carry one sign, either one, and no more; without its sign it is one of the
/// words for the values no digits can write, in any letters, or what digits write.
pub proof fn numbers_carry_one_sign(s: Seq<char>)
    requires
        s.len() == 0 || (s[0] != '+' && s[0] != '-'),
    ensures
        is_number_text(s) <==> is_special_number(s) || is_plain_number(s),
        is_number_text(seq!['+'] + s) == is_number_text(s),
        is_number_text(seq!['-'] + s) == is_number_text(s),
        !is_number_text(seq!['-'] + (seq!['-'] + s)),
        !is_number_text(seq!['-'] + (seq!['+'] + s)),
        !is_number_text(seq!['+'] + (seq!['-'] + s)),
        !is_number_text(seq!['+'] + (seq!['+'] + s)),
{
    let (plus, minus) = (seq!['+'] + s, seq!['-'] + s);
    assert(plus.drop_first() =~= s);
    assert(minus.drop_first() =~= s);
    assert((seq!['-'] + minus).drop_first() =~= minus);
    assert((seq!['-'] + plus).drop_first() =~= plus);
    assert((seq!['+'] + minus).drop_first() =~= minus);
    assert((seq!['+'] + plus).drop_first() =~= plus);
    assert(plus[0] == '+' && minus[0] == '-');
    whole_number(Seq::empty(), plus);
    whole_number(Seq::empty(), minus);
    assert(Seq::<char>::empty() + plus =~= plus);
    assert(Seq::<char>::empty() + minus =~= minus);
    assert(lower(plus[0]) == '+' && lower(minus[0]) == '-');
}

/// The words for infinity and for what is no number are taken in small and in capital letters,
/// and no other word is.
pub proof fn words_for_numbers(s: Seq<char>)
    requires
        is_special_number(s),
    ensures
        s.len() == 3 || s.len() == 8,
        s.len() == 3 && lower(s[0]) == 'i' ==> lower(s[1]) == 'n' && lower(s[2]) == 'f',
        s.len() == 3 && lower(s[0]) != 'i' ==> lower(s[0]) == 'n' && lower(s[1]) == 'a' && lower(
            s[2],
        ) == 'n',
        s.len() == 8 ==> lower(s[0]) == 'i' && lower(s[1]) == 'n' && lower(s[2]) == 'f' && lower(
            s[3],
        ) == 'i' && lower(s[4]) == 'n' && lower(s[5]) == 'i' && lower(s[6]) == 't' && lower(s[7])
            == 'y',
{
}

} // verus!
