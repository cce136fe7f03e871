//! Text helpers over sequences of characters: ASCII case folding, prefix,
//! suffix and substring tests, and conversions between strings and vectors
//! of characters.

use vstd::prelude::*;

verus! {

/// `c` with an ASCII capital letter replaced by its small letter.
pub open spec fn ascii_lower(c: char) -> char {
    if 'A' <= c && c <= 'Z' {
        ((c as u8) + 32) as char
    } else {
        c
    }
}

/// `s` with every ASCII capital letter replaced by its small letter.
pub open spec fn lower(s: Seq<char>) -> Seq<char> {
    s.map_values(|c: char| ascii_lower(c))
}

/// Whether `p` stands in `s` at position `i`.
pub open spec fn occurs_at(s: Seq<char>, p: Seq<char>, i: int) -> bool {
    &&& 0 <= i
    &&& i + p.len() <= s.len()
    &&& s.subrange(i, i + p.len()) == p
}

/// Whether `p` stands somewhere in `s`.
pub open spec fn contains(s: Seq<char>, p: Seq<char>) -> bool {
    exists|i: int| occurs_at(s, p, i)
}

/// Whether `s` begins with `p`.
pub open spec fn has_prefix(s: Seq<char>, p: Seq<char>) -> bool {
    occurs_at(s, p, 0)
}

/// Whether `s` ends with `p`.
pub open spec fn has_suffix(s: Seq<char>, p: Seq<char>) -> bool {
    occurs_at(s, p, s.len() - p.len())
}

/// `s` without the occurrences of `c`.
pub open spec fn without(s: Seq<char>, c: char) -> Seq<char>
    decreases s.len(),
{
    if s.len() == 0 {
        s
    } else if s.last() == c {
        without(s.drop_last(), c)
    } else {
        without(s.drop_last(), c).push(s.last())
    }
}

/// Executable form of [`ascii_lower`].
pub fn to_ascii_lower(c: char) -> (r: char)
    ensures
        r == ascii_lower(c),
{
    if c >= 'A' && c <= 'Z' {
        ((c as u8) + 32) as char
    } else {
        c
    }
}

/// The characters of `s`, in order.
pub fn chars_of(s: &str) -> (v: Vec<char>)
    ensures
        v@ == s@,
{
    let mut v: Vec<char> = Vec::new();
    for c in it: s.chars()
        invariant
            v@ == it.seq().take(it.index() as int),
            it.seq() == s@,
    {
        v.push(c);
    }
    v
}

/// The string made of `chars`.
///
/// Trusted: `String::from_iter` over the characters of a vector yields the
/// string that holds exactly those characters, in order.
#[verifier::external_body]
pub(crate) fn string_of(chars: &Vec<char>) -> (s: String)
    ensures
        s@ == chars@,
{
    String::from_iter(chars.iter())
}

/// `s` with every ASCII capital letter replaced by its small letter.
pub fn lower_text(s: &Vec<char>) -> (t: Vec<char>)
    ensures
        t@ == lower(s@),
{
    let mut t: Vec<char> = Vec::new();
    let mut i: usize = 0;
    while i < s.len()
        invariant
            i <= s.len(),
            t@ == lower(s@.take(i as int)),
        decreases s.len() - i,
    {
        t.push(to_ascii_lower(s[i]));
        assert(t@ =~= lower(s@.take(i + 1)));
        i += 1;
    }
    assert(s@.take(s.len() as int) =~= s@);
    t
}

/// Whether the two texts hold the same characters.
pub fn same_text(a: &Vec<char>, b: &Vec<char>) -> (same: bool)
    ensures
        same == (a@ == b@),
{
    if a.len() != b.len() {
        return false;
    }
    let mut i: usize = 0;
    while i < a.len()
        invariant
            i <= a.len(),
            a.len() == b.len(),
            forall|k: int| 0 <= k < i ==> a@[k] == b@[k],
        decreases a.len() - i,
    {
        if a[i] != b[i] {
            return false;
        }
        i += 1;
    }
    assert(a@ =~= b@);
    true
}

/// Whether the two texts are equal when ASCII letters are compared without
/// regard to case.
pub fn same_text_ignore_case(a: &Vec<char>, b: &Vec<char>) -> (same: bool)
    ensures
        same == (lower(a@) == lower(b@)),
{
    if a.len() != b.len() {
        assert(lower(a@).len() != lower(b@).len());
        return false;
    }
    let mut i: usize = 0;
    while i < a.len()
        invariant
            i <= a.len(),
            a.len() == b.len(),
            forall|k: int| 0 <= k < i ==> ascii_lower(a@[k]) == ascii_lower(b@[k]),
        decreases a.len() - i,
    {
        if to_ascii_lower(a[i]) != to_ascii_lower(b[i]) {
            assert(lower(a@)[i as int] != lower(b@)[i as int]);
            return false;
        }
        i += 1;
    }
    assert(lower(a@) =~= lower(b@));
    true
}

/// Whether `p` stands in `s` at position `i`.
pub fn matches_at(s: &Vec<char>, p: &Vec<char>, i: usize) -> (found: bool)
    ensures
        found == occurs_at(s@, p@, i as int),
{
    if p.len() > s.len() || i > s.len() - p.len() {
        return false;
    }
    let mut j: usize = 0;
    while j < p.len()
        invariant
            j <= p.len(),
            i + p.len() <= s.len(),
            forall|k: int| 0 <= k < j ==> s@[i + k] == p@[k],
        decreases p.len() - j,
    {
        if s[i + j] != p[j] {
            assert(s@.subrange(i as int, i + p.len())[j as int] != p@[j as int]);
            return false;
        }
        j += 1;
    }
    assert(s@.subrange(i as int, i + p.len()) =~= p@);
    true
}

/// Whether `s` begins with `p`.
pub fn starts_with(s: &Vec<char>, p: &Vec<char>) -> (found: bool)
    ensures
        found == has_prefix(s@, p@),
{
    matches_at(s, p, 0)
}

/// Whether `s` ends with `p`.
pub fn ends_with(s: &Vec<char>, p: &Vec<char>) -> (found: bool)
    ensures
        found == has_suffix(s@, p@),
{
    if p.len() > s.len() {
        return false;
    }
    matches_at(s, p, s.len() - p.len())
}

/// Whether `p` stands somewhere in `s`.
pub fn find_in(s: &Vec<char>, p: &Vec<char>) -> (found: bool)
    ensures
        found == contains(s@, p@),
{
    if p.len() > s.len() {
        assert(forall|i: int| !occurs_at(s@, p@, i));
        return false;
    }
    let last: usize = s.len() - p.len();
    let mut i: usize = 0;
    while i < last
        invariant
            i <= last,
            last == s.len() - p.len(),
            forall|k: int| 0 <= k < i ==> !occurs_at(s@, p@, k),
        decreases last - i,
    {
        if matches_at(s, p, i) {
            return true;
        }
        i += 1;
    }
    let found = matches_at(s, p, last);
    assert(!found ==> forall|k: int| !occurs_at(s@, p@, k));
    found
}

/// `s` from position `from` on.
pub fn tail_from(s: &Vec<char>, from: usize) -> (t: Vec<char>)
    requires
        from <= s.len(),
    ensures
        t@ == s@.subrange(from as int, s.len() as int),
{
    let mut t: Vec<char> = Vec::new();
    let mut i: usize = from;
    while i < s.len()
        invariant
            from <= i <= s.len(),
            t@ == s@.subrange(from as int, i as int),
        decreases s.len() - i,
    {
        t.push(s[i]);
        assert(t@ =~= s@.subrange(from as int, i + 1));
        i += 1;
    }
    t
}

/// `s` without the occurrences of `c`.
pub fn remove_char(s: &Vec<char>, c: char) -> (t: Vec<char>)
    ensures
        t@ == without(s@, c),
{
    let mut t: Vec<char> = Vec::new();
    let mut i: usize = 0;
    while i < s.len()
        invariant
            i <= s.len(),
            t@ == without(s@.take(i as int), c),
        decreases s.len() - i,
    {
        assert(s@.take(i + 1).drop_last() =~= s@.take(i as int));
        if s[i] != c {
            t.push(s[i]);
        }
        i += 1;
    }
    assert(s@.take(s.len() as int) =~= s@);
    t
}

/// `a` followed by `b`.
pub fn join_text(a: &Vec<char>, b: &Vec<char>) -> (t: Vec<char>)
    ensures
        t@ == a@ + b@,
{
    let mut t: Vec<char> = a.clone();
    let mut i: usize = 0;
    while i < b.len()
        invariant
            i <= b.len(),
            t@ == a@ + b@.take(i as int),
        decreases b.len() - i,
    {
        t.push(b[i]);
        assert(t@ =~= a@ + b@.take(i + 1));
        i += 1;
    }
    assert(b@.take(b.len() as int) =~= b@);
    t
}

/// Whether `c` is a decimal digit.
pub open spec fn is_digit(c: char) -> bool {
    '0' <= c && c <= '9'
}

/// The number that a text of decimal digits writes.
pub open spec fn digits_value(digits: Seq<char>) -> nat
    decreases digits.len(),
{
    if digits.len() == 0 {
        0
    } else {
        digits_value(digits.drop_last()) * 10 + ((digits.last() as u32 - '0' as u32) as nat)
    }
}

/// Whether `text` writes a number in decimal: one or more digits, with or
/// without a plus sign before them.
pub open spec fn is_number(text: Seq<char>) -> bool {
    let digits = unsigned(text);
    digits.len() > 0 && forall|i: int| 0 <= i < digits.len() ==> is_digit(digits[i])
}

/// `text` without the plus sign that it may begin with.
pub open spec fn unsigned(text: Seq<char>) -> Seq<char> {
    if text.len() > 0 && text[0] == '+' {
        text.drop_first()
    } else {
        text
    }
}

/// The number that `text` writes in decimal, where it writes one that is at
/// most `max`.
pub open spec fn number_of(text: Seq<char>, max: nat) -> Option<nat> {
    if is_number(text) && digits_value(unsigned(text)) <= max {
        Some(digits_value(unsigned(text)))
    } else {
        None
    }
}

/// A number does not get smaller when digits are added to it.
pub proof fn digits_value_grows(digits: Seq<char>, n: int)
    requires
        0 <= n <= digits.len(),
    ensures
        digits_value(digits.take(n)) <= digits_value(digits),
    decreases digits.len() - n,
{
    if n == digits.len() {
        assert(digits.take(n) =~= digits);
    } else {
        digits_value_grows(digits, n + 1);
        assert(digits.take(n + 1).drop_last() =~= digits.take(n));
    }
}

/// Reads the number that `text` writes in decimal; none where it writes
/// none or one that is greater than `max`.
pub fn parse_number(text: &Vec<char>, max: u64) -> (number: Option<u64>)
    ensures
        match number {
            Some(n) => number_of(text@, max as nat) == Some(n as nat),
            None => number_of(text@, max as nat) is None,
        },
{
    let start: usize = if text.len() > 0 && text[0] == '+' {
        1
    } else {
        0
    };
    let ghost digits = unsigned(text@);
    assert(digits =~= text@.subrange(start as int, text.len() as int));
    if start == text.len() {
        return None;
    }
    let mut value: u64 = 0;
    let mut i: usize = start;
    while i < text.len()
        invariant
            start <= i <= text.len(),
            digits == unsigned(text@),
            digits == text@.subrange(start as int, text.len() as int),
            forall|k: int| 0 <= k < i - start ==> is_digit(digits[k]),
            value == digits_value(digits.take(i - start)),
            value <= max,
        decreases text.len() - i,
    {
        let c = text[i];
        if c < '0' || c > '9' {
            assert(!is_digit(digits[i - start]));
            assert(!is_number(text@));
            return None;
        }
        let digit: u64 = (c as u32 - '0' as u32) as u64;
        assert(digits.take(i - start + 1).drop_last() =~= digits.take(i - start));
        proof {
            digits_value_grows(digits, i - start + 1);
        }
        if digit > max || value > (max - digit) / 10 {
            assert(digits_value(digits.take(i - start + 1)) > max);
            return None;
        }
        value = value * 10 + digit;
        i += 1;
    }
    assert(digits.take(digits.len() as int) =~= digits);
    Some(value)
}

/// The part of `s` after the last `c`; all of `s` where it holds no `c`.
pub open spec fn after_last(s: Seq<char>, c: char) -> Seq<char>
    decreases s.len(),
{
    if s.len() == 0 {
        s
    } else if s.last() == c {
        Seq::empty()
    } else {
        after_last(s.drop_last(), c).push(s.last())
    }
}

/// The part of `s` from `from` on that holds no `c` is the part of `s`
/// after its last `c`, where a `c` stands just before `from` or `from` is
/// the beginning.
pub proof fn after_last_is_tail(s: Seq<char>, c: char, from: int)
    requires
        0 <= from <= s.len(),
        from == 0 || s[from - 1] == c,
        forall|k: int| from <= k < s.len() ==> s[k] != c,
    ensures
        after_last(s, c) == s.subrange(from, s.len() as int),
    decreases s.len(),
{
    if s.len() == 0 {
        assert(s.subrange(from, s.len() as int) =~= s);
    } else if from == s.len() {
        assert(s.subrange(from, s.len() as int) =~= Seq::<char>::empty());
    } else {
        after_last_is_tail(s.drop_last(), c, from);
        assert(s.drop_last().subrange(from, s.len() - 1).push(s.last()) =~= s.subrange(
            from,
            s.len() as int,
        ));
    }
}

/// Executable form of [`after_last`].
pub fn tail_after_last(s: &Vec<char>, c: char) -> (t: Vec<char>)
    ensures
        t@ == after_last(s@, c),
{
    let mut from: usize = s.len();
    while from > 0 && s[from - 1] != c
        invariant
            from <= s.len(),
            forall|k: int| from <= k < s.len() ==> s@[k] != c,
        decreases from,
    {
        from -= 1;
    }
    proof {
        after_last_is_tail(s@, c, from as int);
    }
    tail_from(s, from)
}

/// The character that writes the digit `d`.
pub open spec fn digit_char(d: nat) -> char {
    ((d + 48) as u8) as char
}

/// The text that writes `n` in decimal.
pub open spec fn decimal(n: nat) -> Seq<char>
    decreases n,
{
    if n < 10 {
        seq![digit_char(n)]
    } else {
        decimal(n / 10).push(digit_char(n % 10))
    }
}

/// Executable form of [`decimal`].
pub fn decimal_text(n: u64) -> (text: Vec<char>)
    ensures
        text@ == decimal(n as nat),
    decreases n,
{
    if n < 10 {
        let mut text: Vec<char> = Vec::new();
        text.push(((n as u8) + 48) as char);
        assert(text@ =~= seq![digit_char(n as nat)]);
        text
    } else {
        let mut text = decimal_text(n / 10);
        text.push((((n % 10) as u8) + 48) as char);
        text
    }
}

/// Removing a character from two texts in a row removes it from each.
pub proof fn without_distributes(a: Seq<char>, b: Seq<char>, c: char)
    ensures
        without(a + b, c) == without(a, c) + without(b, c),
    decreases b.len(),
{
    if b.len() == 0 {
        assert(a + b =~= a);
        assert(without(a, c) + without(b, c) =~= without(a, c));
    } else {
        without_distributes(a, b.drop_last(), c);
        assert((a + b).drop_last() =~= a + b.drop_last());
        assert((a + b).last() == b.last());
        if b.last() != c {
            assert((without(a, c) + without(b.drop_last(), c)).push(b.last()) =~= without(a, c)
                + without(b.drop_last(), c).push(b.last()));
        }
    }
}

/// Removing a character from a text that does not hold it changes nothing.
pub proof fn without_absent(s: Seq<char>, c: char)
    requires
        forall|i: int| 0 <= i < s.len() ==> s[i] != c,
    ensures
        without(s, c) == s,
    decreases s.len(),
{
    if s.len() > 0 {
        without_absent(s.drop_last(), c);
        assert(s.drop_last().push(s.last()) =~= s);
    }
}

/// Removing the spaces of a text and making its letters small can be done
/// in either order.
pub proof fn lower_of_without_space(s: Seq<char>)
    ensures
        lower(without(s, ' ')) == without(lower(s), ' '),
    decreases s.len(),
{
    if s.len() == 0 {
        assert(lower(without(s, ' ')) =~= without(lower(s), ' '));
    } else {
        lower_of_without_space(s.drop_last());
        assert(lower(s).drop_last() =~= lower(s.drop_last()));
        assert(lower(s).last() == ascii_lower(s.last()));
        assert((ascii_lower(s.last()) == ' ') == (s.last() == ' '));
        if s.last() != ' ' {
            assert(lower(without(s.drop_last(), ' ').push(s.last())) =~= lower(
                without(s.drop_last(), ' '),
            ).push(ascii_lower(s.last())));
        }
    }
}

} // verus!
