//! Text helpers shared by the rest of the crate.
//!
//! Strings cross the crate's boundary as `String` and `&str`; inside, the
//! algorithms work on their characters, so that every contract can be stated
//! over `Seq<char>`.

use vstd::prelude::*;

verus! {

/// `String::push` appends one character.
pub assume_specification[ String::push ](s: &mut String, c: char)
    ensures
        final(s)@ == old(s)@.push(c),
;

/// The characters of `s`, in order.
pub fn to_chars(s: &str) -> (v: Vec<char>)
    ensures
        v@ == s@,
{
    let mut v: Vec<char> = Vec::new();
    broadcast use vstd::string::group_string_axioms;

    for c in it: s.chars()
        invariant
            it.seq() == s@,
            v@ == it.seq().take(it.index() as int),
    {
        v.push(c);
    }
    v
}

/// The string made of the characters of `v`, in order.
pub fn from_chars(v: &Vec<char>) -> (s: String)
    ensures
        s@ == v@,
{
    let mut s = String::new();
    let mut i: usize = 0;
    while i < v.len()
        invariant
            i <= v.len(),
            s@ == v@.take(i as int),
        decreases v.len() - i,
    {
        s.push(v[i]);
        i += 1;
    }
    s
}

/// `c` with the letters `A` to `Z` mapped to `a` to `z`.
pub open spec fn lower_ascii(c: char) -> char {
    if 'A' <= c && c <= 'Z' {
        ((c as u8) + 32) as char
    } else {
        c
    }
}

/// Executable form of [`lower_ascii`].
pub fn to_lower_ascii(c: char) -> (r: char)
    ensures
        r == lower_ascii(c),
{
    if 'A' <= c && c <= 'Z' {
        ((c as u8) + 32) as char
    } else {
        c
    }
}

/// Two texts are equal up to the case of their ASCII letters.
pub open spec fn same_ignoring_ascii_case(a: Seq<char>, b: Seq<char>) -> bool {
    &&& a.len() == b.len()
    &&& forall|i: int| 0 <= i < a.len() ==> lower_ascii(#[trigger] a[i]) == lower_ascii(b[i])
}

/// Compares two texts without regard to the case of ASCII letters.
pub fn eq_ignore_ascii_case(a: &Vec<char>, b: &Vec<char>) -> (r: bool)
    ensures
        r == same_ignoring_ascii_case(a@, b@),
{
    if a.len() != b.len() {
        return false;
    }
    let mut i: usize = 0;
    while i < a.len()
        invariant
            i <= a.len(),
            a.len() == b.len(),
            forall|j: int| 0 <= j < i ==> lower_ascii(#[trigger] a@[j]) == lower_ascii(b@[j]),
        decreases a.len() - i,
    {
        if to_lower_ascii(a[i]) != to_lower_ascii(b[i]) {
            return false;
        }
        i += 1;
    }
    true
}

/// `needle` occurs in `hay` at index `i`.
pub open spec fn occurs_at(hay: Seq<char>, needle: Seq<char>, i: int) -> bool {
    &&& 0 <= i
    &&& i + needle.len() <= hay.len()
    &&& hay.subrange(i, i + needle.len()) == needle
}

/// The least index at or after `from` at which `needle` occurs in `hay`,
/// or `-1` where there is none.
pub open spec fn first_occurrence(hay: Seq<char>, needle: Seq<char>, from: int) -> int
    decreases hay.len() + 1 - from,
{
    if from < 0 || from + needle.len() > hay.len() {
        -1
    } else if occurs_at(hay, needle, from) {
        from
    } else {
        first_occurrence(hay, needle, from + 1)
    }
}

/// `needle` occurs somewhere in `hay`.
pub open spec fn has_occurrence(hay: Seq<char>, needle: Seq<char>) -> bool {
    first_occurrence(hay, needle, 0) >= 0
}

/// What [`first_occurrence`] finds is an occurrence, and the first one.
pub proof fn lemma_first_occurrence(hay: Seq<char>, needle: Seq<char>, from: int)
    requires
        0 <= from,
    ensures
        ({
            let i = first_occurrence(hay, needle, from);
            &&& i >= 0 ==> from <= i && occurs_at(hay, needle, i)
            &&& i >= -1
            &&& forall|j: int| from <= j && (j < i || i < 0) ==> !occurs_at(hay, needle, j)
        }),
    decreases hay.len() + 1 - from,
{
    if from + needle.len() > hay.len() {
    } else if occurs_at(hay, needle, from) {
    } else {
        lemma_first_occurrence(hay, needle, from + 1);
    }
}

/// Tests whether `needle` occurs in `hay` at index `i`.
pub fn is_at(hay: &Vec<char>, needle: &Vec<char>, i: usize) -> (r: bool)
    ensures
        r == occurs_at(hay@, needle@, i as int),
{
    if needle.len() > hay.len() || i > hay.len() - needle.len() {
        return false;
    }
    let mut k: usize = 0;
    while k < needle.len()
        invariant
            k <= needle.len(),
            i + needle.len() <= hay.len(),
            forall|j: int| 0 <= j < k ==> hay@[i + j] == needle@[j],
        decreases needle.len() - k,
    {
        if hay[i + k] != needle[k] {
            assert(hay@.subrange(i as int, i + needle.len())[k as int] == hay@[i + k]);
            return false;
        }
        k += 1;
    }
    assert(hay@.subrange(i as int, i + needle.len()) =~= needle@);
    true
}

/// Finds the first occurrence of `needle` in `hay` at or after `from`.
pub fn find_from(hay: &Vec<char>, needle: &Vec<char>, from: usize) -> (r: Option<usize>)
    ensures
        match r {
            Some(i) => i as int == first_occurrence(hay@, needle@, from as int),
            None => first_occurrence(hay@, needle@, from as int) == -1,
        },
{
    if needle.len() > hay.len() {
        return None;
    }
    let last: usize = hay.len() - needle.len();
    let mut i: usize = from;
    while i <= last
        invariant
            from <= i,
            last == hay.len() - needle.len(),
            first_occurrence(hay@, needle@, from as int) == first_occurrence(
                hay@,
                needle@,
                i as int,
            ),
        decreases last + 1 - i,
    {
        if is_at(hay, needle, i) {
            return Some(i);
        }
        if i == last {
            assert(first_occurrence(hay@, needle@, i + 1) == -1);
            return None;
        }
        i += 1;
    }
    None
}

/// `hay` from index `pos` on, with every occurrence of `from` replaced by
/// `to`. Occurrences are taken from left to right and do not overlap.
pub open spec fn replaced_from(hay: Seq<char>, from: Seq<char>, to: Seq<char>, pos: int) -> Seq<
    char,
>
    decreases hay.len() - pos,
{
    let i = first_occurrence(hay, from, pos);
    if from.len() == 0 || pos < 0 || i < pos || i + from.len() > hay.len() {
        hay.skip(pos)
    } else {
        hay.subrange(pos, i) + to + replaced_from(hay, from, to, i + from.len())
    }
}

/// `hay` with every occurrence of `from` replaced by `to`.
pub open spec fn replaced(hay: Seq<char>, from: Seq<char>, to: Seq<char>) -> Seq<char> {
    replaced_from(hay, from, to, 0)
}

/// Appends the elements of `src` from `start` up to `end` to `dst`.
pub fn extend_range(dst: &mut Vec<char>, src: &Vec<char>, start: usize, end: usize)
    requires
        start <= end <= src.len(),
    ensures
        final(dst)@ == old(dst)@ + src@.subrange(start as int, end as int),
{
    let mut k: usize = start;
    while k < end
        invariant
            start <= k <= end <= src.len(),
            dst@ == old(dst)@ + src@.subrange(start as int, k as int),
        decreases end - k,
    {
        dst.push(src[k]);
        k += 1;
        assert(src@.subrange(start as int, k as int) =~= src@.subrange(start as int, k - 1).push(
            src@[k - 1],
        ));
    }
}

/// Replaces every occurrence of `from` in `hay` by `to`.
pub fn replace(hay: &Vec<char>, from: &Vec<char>, to: &Vec<char>) -> (r: Vec<char>)
    ensures
        r@ == replaced(hay@, from@, to@),
{
    let mut out: Vec<char> = Vec::new();
    if from.len() == 0 {
        extend_range(&mut out, hay, 0, hay.len());
        assert(hay@.subrange(0, hay@.len() as int) =~= hay@.skip(0));
        return out;
    }
    let mut pos: usize = 0;
    loop
        invariant
            pos <= hay.len(),
            from.len() > 0,
            replaced(hay@, from@, to@) == out@ + replaced_from(hay@, from@, to@, pos as int),
        decreases hay.len() - pos,
    {
        proof {
            lemma_first_occurrence(hay@, from@, pos as int);
        }
        match find_from(hay, from, pos) {
            Some(i) => {
                extend_range(&mut out, hay, pos, i);
                extend_range(&mut out, to, 0, to.len());
                assert(to@.subrange(0, to@.len() as int) =~= to@);
                pos = i + from.len();
            },
            None => {
                extend_range(&mut out, hay, pos, hay.len());
                assert(hay@.subrange(pos as int, hay@.len() as int) =~= hay@.skip(pos as int));
                return out;
            },
        }
    }
}

/// The views of a sequence of strings.
pub open spec fn views(v: Seq<String>) -> Seq<Seq<char>> {
    Seq::new(v.len(), |i: int| v[i]@)
}

/// `c` has the Unicode property `White_Space`.
pub open spec fn is_space(c: char) -> bool {
    ||| '\u{9}' <= c && c <= '\u{d}'
    ||| c == ' '
    ||| c == '\u{85}'
    ||| c == '\u{a0}'
    ||| c == '\u{1680}'
    ||| '\u{2000}' <= c && c <= '\u{200a}'
    ||| c == '\u{2028}'
    ||| c == '\u{2029}'
    ||| c == '\u{202f}'
    ||| c == '\u{205f}'
    ||| c == '\u{3000}'
}

/// Executable form of [`is_space`].
pub fn is_whitespace(c: char) -> (r: bool)
    ensures
        r == is_space(c),
{
    ('\u{9}' <= c && c <= '\u{d}') || c == ' ' || c == '\u{85}' || c == '\u{a0}' || c
        == '\u{1680}' || ('\u{2000}' <= c && c <= '\u{200a}') || c == '\u{2028}' || c
        == '\u{2029}' || c == '\u{202f}' || c == '\u{205f}' || c == '\u{3000}'
}

/// The least index at or after `pos` that holds no white space, or the
/// length of `s`.
pub open spec fn skip_spaces(s: Seq<char>, pos: int) -> int
    decreases s.len() - pos,
{
    if pos < 0 || pos >= s.len() {
        s.len() as int
    } else if is_space(s[pos]) {
        skip_spaces(s, pos + 1)
    } else {
        pos
    }
}

/// The least index at or after `pos` that holds white space, or the length
/// of `s`.
pub open spec fn skip_word(s: Seq<char>, pos: int) -> int
    decreases s.len() - pos,
{
    if pos < 0 || pos >= s.len() {
        s.len() as int
    } else if !is_space(s[pos]) {
        skip_word(s, pos + 1)
    } else {
        pos
    }
}

/// The maximal runs of characters other than white space in `s`, from
/// index `pos` on, in order.
pub open spec fn words_from(s: Seq<char>, pos: int) -> Seq<Seq<char>>
    decreases s.len() - pos,
{
    let a = skip_spaces(s, pos);
    let b = skip_word(s, a);
    if pos < 0 || a < pos || a >= s.len() || b <= a || b > s.len() {
        Seq::empty()
    } else {
        seq![s.subrange(a, b)] + words_from(s, b)
    }
}

/// The words of `s`: its maximal runs of characters other than white space.
pub open spec fn words(s: Seq<char>) -> Seq<Seq<char>> {
    words_from(s, 0)
}

/// Executable form of [`skip_spaces`].
pub fn after_spaces(s: &Vec<char>, pos: usize) -> (r: usize)
    ensures
        r as int == skip_spaces(s@, pos as int),
        pos <= r <= s.len() || (pos > s.len() && r == s.len()),
        r < s.len() ==> !is_space(s@[r as int]),
{
    let mut i: usize = pos;
    while i < s.len() && is_whitespace(s[i])
        invariant
            pos <= i,
            i <= s.len() || i == pos,
            skip_spaces(s@, pos as int) == skip_spaces(s@, i as int),
        decreases s.len() - i,
    {
        i += 1;
    }
    if i > s.len() {
        s.len()
    } else {
        i
    }
}

/// Executable form of [`skip_word`].
pub fn after_word(s: &Vec<char>, pos: usize) -> (r: usize)
    ensures
        r as int == skip_word(s@, pos as int),
        pos <= r <= s.len() || (pos > s.len() && r == s.len()),
        pos < s.len() && !is_space(s@[pos as int]) ==> r > pos,
{
    let mut i: usize = pos;
    while i < s.len() && !is_whitespace(s[i])
        invariant
            pos <= i,
            i <= s.len() || i == pos,
            skip_word(s@, pos as int) == skip_word(s@, i as int),
            pos < s.len() && !is_space(s@[pos as int]) && i < s.len() && is_space(s@[i as int])
                ==> i > pos,
        decreases s.len() - i,
    {
        i += 1;
    }
    if i > s.len() {
        s.len()
    } else {
        i
    }
}

/// The elements of `src` from `start` up to `end`, as a string.
pub fn substring(src: &Vec<char>, start: usize, end: usize) -> (r: String)
    requires
        start <= end <= src.len(),
    ensures
        r@ == src@.subrange(start as int, end as int),
{
    let mut part: Vec<char> = Vec::new();
    extend_range(&mut part, src, start, end);
    from_chars(&part)
}

/// Splits `s` at white space, as `str::split_whitespace` does.
pub fn split_whitespace(s: &Vec<char>) -> (r: Vec<String>)
    ensures
        views(r@) == words(s@),
{
    let mut out: Vec<String> = Vec::new();
    let mut pos: usize = 0;
    assert(views(out@) =~= Seq::<Seq<char>>::empty());
    loop
        invariant
            pos <= s.len(),
            words(s@) == views(out@) + words_from(s@, pos as int),
        decreases s.len() - pos,
    {
        let a = after_spaces(s, pos);
        if a >= s.len() {
            assert(words_from(s@, pos as int) =~= Seq::<Seq<char>>::empty());
            return out;
        }
        let b = after_word(s, a);
        let word = substring(s, a, b);
        let ghost before = out@;
        out.push(word);
        assert(views(out@) =~= views(before) + seq![s@.subrange(a as int, b as int)]);
        pos = b;
    }
}

/// `c` is one of the digits `0` to `9`.
pub open spec fn is_digit(c: char) -> bool {
    '0' <= c && c <= '9'
}

/// The value of the digit `c`.
pub open spec fn digit_value(c: char) -> nat {
    ((c as u8) - 48) as nat
}

/// Every character of `s` is a digit.
pub open spec fn all_digits(s: Seq<char>) -> bool {
    forall|i: int| 0 <= i < s.len() ==> is_digit(#[trigger] s[i])
}

/// The number that the digits `s` write in base ten.
pub open spec fn decimal_value(s: Seq<char>) -> nat
    decreases s.len(),
{
    if s.len() == 0 {
        0
    } else {
        decimal_value(s.drop_last()) * 10 + digit_value(s.last())
    }
}

/// What parsing `s` as an unsigned number of at most `max` gives: an
/// optional `+`, then one or more digits whose value does not exceed `max`.
pub open spec fn parsed_unsigned(s: Seq<char>, max: nat) -> Option<nat> {
    let d = if s.len() > 0 && s[0] == '+' {
        s.skip(1)
    } else {
        s
    };
    if d.len() > 0 && all_digits(d) && decimal_value(d) <= max {
        Some(decimal_value(d))
    } else {
        None
    }
}

/// A number written with more digits is at least the number written by any
/// of its prefixes.
pub proof fn lemma_decimal_value_grows(s: Seq<char>, k: int)
    requires
        0 <= k <= s.len(),
    ensures
        decimal_value(s.take(k)) <= decimal_value(s),
    decreases s.len(),
{
    if k == s.len() {
        assert(s.take(k) =~= s);
    } else {
        lemma_decimal_value_grows(s.drop_last(), k);
        assert(s.drop_last().take(k) =~= s.take(k));
    }
}

/// Parses `s` as an unsigned decimal number no larger than `max`, as the
/// `parse` of an unsigned integer type does.
pub fn parse_unsigned(s: &Vec<char>, max: u64) -> (r: Option<u64>)
    ensures
        match r {
            Some(n) => parsed_unsigned(s@, max as nat) == Some(n as nat),
            None => parsed_unsigned(s@, max as nat) is None,
        },
{
    let start: usize = if s.len() > 0 && s[0] == '+' {
        1
    } else {
        0
    };
    if start >= s.len() {
        return None;
    }
    let ghost d = s@.skip(start as int);
    assert(s@.skip(0) =~= s@);
    let mut acc: u64 = 0;
    let mut i: usize = start;
    assert(d.take(0) =~= Seq::<char>::empty());
    while i < s.len()
        invariant
            start <= i <= s.len(),
            d == s@.skip(start as int),
            d == if s@.len() > 0 && s@[0] == '+' {
                s@.skip(1)
            } else {
                s@
            },
            all_digits(d.take(i - start)),
            acc as nat == decimal_value(d.take(i - start)),
            acc <= max,
        decreases s.len() - i,
    {
        let c = s[i];
        assert(d[i - start] == c);
        if !('0' <= c && c <= '9') {
            assert(!is_digit(d[i - start]));
            return None;
        }
        let v: u64 = ((c as u8) - 48) as u64;
        assert(d.take(i - start + 1).drop_last() =~= d.take(i - start));
        assert(d.take(i - start + 1).last() == c);
        if v > max || acc > (max - v) / 10 {
            proof {
                lemma_decimal_value_grows(d, i - start + 1);
            }
            return None;
        }
        acc = acc * 10 + v;
        i += 1;
        assert forall|j: int| 0 <= j < d.take(i - start).len() implies is_digit(
            #[trigger] d.take(i - start)[j],
        ) by {
            if j < i - start - 1 {
                assert(d.take(i - start)[j] == d.take(i - start - 1)[j]);
            }
        }
    }
    assert(d.take(i - start) =~= d);
    Some(acc)
}

/// The character that writes the digit `d`.
pub open spec fn digit_char(d: nat) -> char {
    ((48 + d % 10) as u8) as char
}

/// `n` written in base ten, without leading zeros.
pub open spec fn decimal_digits(n: nat) -> Seq<char>
    decreases n,
{
    if n < 10 {
        seq![digit_char(n)]
    } else {
        decimal_digits(n / 10).push(digit_char(n % 10))
    }
}

/// Appends `n`, written in base ten, to `out`.
pub fn push_decimal(out: &mut Vec<char>, n: u64)
    ensures
        final(out)@ == old(out)@ + decimal_digits(n as nat),
    decreases n,
{
    if n >= 10 {
        push_decimal(out, n / 10);
    }
    let d: u8 = (n % 10) as u8;
    out.push((48 + d) as char);
    assert(final(out)@ =~= old(out)@ + decimal_digits(n as nat));
}

/// Appends the characters of `s` to `out`.
pub fn push_str(out: &mut Vec<char>, s: &str)
    ensures
        final(out)@ == old(out)@ + s@,
{
    let chars = to_chars(s);
    extend_range(out, &chars, 0, chars.len());
    assert(chars@.subrange(0, chars@.len() as int) =~= chars@);
}

/// Whether two strings hold the same text.
pub fn same_text(a: &str, b: &str) -> (r: bool)
    ensures
        r == (a@ == b@),
{
    let x = to_chars(a);
    let y = to_chars(b);
    if x.len() != y.len() {
        return false;
    }
    let mut i: usize = 0;
    while i < x.len()
        invariant
            i <= x.len(),
            x.len() == y.len(),
            x@ == a@,
            y@ == b@,
            forall|k: int| 0 <= k < i ==> x@[k] == y@[k],
        decreases x.len() - i,
    {
        if x[i] != y[i] {
            return false;
        }
        i += 1;
    }
    assert(x@ =~= y@);
    true
}

/// The least index at or after `pos` at which `s` holds `c`, or the length
/// of `s`.
pub open spec fn next_index_of(s: Seq<char>, c: char, pos: int) -> int
    decreases s.len() - pos,
{
    if pos < 0 || pos >= s.len() {
        s.len() as int
    } else if s[pos] == c {
        pos
    } else {
        next_index_of(s, c, pos + 1)
    }
}

/// Executable form of [`next_index_of`], searching up to `end`.
pub fn index_of(s: &Vec<char>, c: char, pos: usize, end: usize) -> (r: usize)
    requires
        end <= s.len(),
    ensures
        r as int == next_index_of(s@.take(end as int), c, pos as int),
        pos <= end ==> pos <= r <= end,
{
    let mut i: usize = pos;
    while i < end
        invariant
            pos <= i,
            end <= s.len(),
            next_index_of(s@.take(end as int), c, pos as int) == next_index_of(
                s@.take(end as int),
                c,
                i as int,
            ),
        decreases end - i,
    {
        if s[i] == c {
            return i;
        }
        i += 1;
    }
    end
}

/// Where `s` ends once the white space at its end is dropped, not going
/// below `start`.
pub open spec fn trim_back(s: Seq<char>, start: int, end: int) -> int
    decreases end,
{
    if end <= start || end > s.len() || start < 0 {
        start
    } else if is_space(s[end - 1]) {
        trim_back(s, start, end - 1)
    } else {
        end
    }
}

/// `s` without the white space at its beginning and at its end.
pub open spec fn trimmed(s: Seq<char>) -> Seq<char> {
    let a = skip_spaces(s, 0);
    s.subrange(a, trim_back(s, a, s.len() as int))
}

/// `s` without the white space at its beginning and at its end.
pub fn trim(s: &Vec<char>) -> (r: Vec<char>)
    ensures
        r@ == trimmed(s@),
{
    let a = after_spaces(s, 0);
    let mut e: usize = s.len();
    while e > a && is_whitespace(s[e - 1])
        invariant
            a <= e <= s.len(),
            trim_back(s@, a as int, s@.len() as int) == trim_back(s@, a as int, e as int),
        decreases e,
    {
        e -= 1;
    }
    let mut out: Vec<char> = Vec::new();
    extend_range(&mut out, s, a, e);
    out
}

} // verus!
