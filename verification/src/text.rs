//! Text primitives: searching, trimming, splitting and decimal numbers, stated
//! over the characters of a string.

use vstd::prelude::*;
use vstd::string::*;
use vstd::utf8::*;

verus! {

/// `part` stands in `s` with its first character at position `i`.
pub open spec fn occurs_at(s: Seq<char>, part: Seq<char>, i: int) -> bool {
    0 <= i && i + part.len() <= s.len() && s.subrange(i, i + part.len()) == part
}

/// `part` stands somewhere in `s`.
pub open spec fn occurs_in(s: Seq<char>, part: Seq<char>) -> bool {
    exists|i: int| occurs_at(s, part, i)
}

/// `s` without the characters `c` at its end.
pub open spec fn trim_end_of(s: Seq<char>, c: char) -> Seq<char>
    decreases s.len(),
{
    if s.len() > 0 && s.last() == c {
        trim_end_of(s.drop_last(), c)
    } else {
        s
    }
}

/// `s` without the copies of `prefix` that it starts with.
pub open spec fn strip_prefixes(s: Seq<char>, prefix: Seq<char>) -> Seq<char>
    decreases s.len(),
{
    if prefix.len() > 0 && prefix.is_prefix_of(s) {
        strip_prefixes(s.skip(prefix.len() as int), prefix)
    } else {
        s
    }
}

/// `s` with every copy of `part` taken out, from left to right, where copies
/// do not overlap. An empty `part` leaves `s` as it is.
pub open spec fn without(s: Seq<char>, part: Seq<char>) -> Seq<char>
    decreases s.len(),
{
    if s.len() == 0 || part.len() == 0 {
        s
    } else if part.is_prefix_of(s) {
        without(s.skip(part.len() as int), part)
    } else {
        seq![s[0]] + without(s.skip(1), part)
    }
}

/// The pieces of `s` between the characters `c`.
pub open spec fn split_on(s: Seq<char>, c: char) -> Seq<Seq<char>>
    decreases s.len(),
{
    if s.len() == 0 {
        seq![Seq::<char>::empty()]
    } else {
        let head = split_on(s.drop_last(), c);
        if s.last() == c {
            head.push(Seq::<char>::empty())
        } else {
            head.drop_last().push(head.last().push(s.last()))
        }
    }
}

/// The characters with the Unicode property White_Space.
pub open spec fn white_space(c: char) -> bool {
    ||| '\u{9}' <= c <= '\u{d}'
    ||| c == '\u{20}'
    ||| c == '\u{85}'
    ||| c == '\u{a0}'
    ||| c == '\u{1680}'
    ||| '\u{2000}' <= c <= '\u{200a}'
    ||| c == '\u{2028}'
    ||| c == '\u{2029}'
    ||| c == '\u{202f}'
    ||| c == '\u{205f}'
    ||| c == '\u{3000}'
}

/// `s` without the white space at its start.
pub open spec fn trim_start_space(s: Seq<char>) -> Seq<char>
    decreases s.len(),
{
    if s.len() > 0 && white_space(s[0]) {
        trim_start_space(s.skip(1))
    } else {
        s
    }
}

/// `s` without the white space at its end.
pub open spec fn trim_end_space(s: Seq<char>) -> Seq<char>
    decreases s.len(),
{
    if s.len() > 0 && white_space(s.last()) {
        trim_end_space(s.drop_last())
    } else {
        s
    }
}

/// `s` without the white space around it.
pub open spec fn trimmed(s: Seq<char>) -> Seq<char> {
    trim_end_space(trim_start_space(s))
}

/// The character of a decimal digit.
pub open spec fn digit(d: nat) -> char {
    (48 + d) as char
}

/// `n` in decimal, without leading zeros.
pub open spec fn decimal(n: nat) -> Seq<char>
    decreases n,
{
    if n < 10 {
        seq![digit(n)]
    } else {
        decimal(n / 10).push(digit(n % 10))
    }
}

/// Every character of `s` is a decimal digit.
pub open spec fn all_digits(s: Seq<char>) -> bool {
    forall|i: int| 0 <= i < s.len() ==> '0' <= #[trigger] s[i] <= '9'
}

/// The number that the digits `s` write.
pub open spec fn digits_value(s: Seq<char>) -> nat
    decreases s.len(),
{
    if s.len() == 0 {
        0
    } else {
        digits_value(s.drop_last()) * 10 + (s.last() as nat - 48) as nat
    }
}

/// `s` without the plus sign that it may start with.
pub open spec fn unsigned_digits(s: Seq<char>) -> Seq<char> {
    if s.len() > 0 && s[0] == '+' {
        s.skip(1)
    } else {
        s
    }
}

/// The number that `s` writes: digits, at least one of them, behind an
/// optional plus sign, with a value of at most `max`.
pub open spec fn parsed_unsigned(s: Seq<char>, max: nat) -> Option<nat> {
    let digits = unsigned_digits(s);
    if digits.len() > 0 && all_digits(digits) && digits_value(digits) <= max {
        Some(digits_value(digits))
    } else {
        None
    }
}

/// The longest start of `s` that takes up at most `limit` bytes in UTF-8.
pub open spec fn clipped(s: Seq<char>, limit: nat) -> Seq<char>
    decreases s.len(),
{
    if s.len() == 0 || encode_utf8(s).len() <= limit {
        s
    } else {
        clipped(s.drop_last(), limit)
    }
}

/// The upper-case form of an ASCII character.
pub open spec fn ascii_upper(c: char) -> char {
    if 'a' <= c <= 'z' {
        (c as u32 - 32) as char
    } else {
        c
    }
}

/// The lower-case form of an ASCII character.
pub open spec fn ascii_lower(c: char) -> char {
    if 'A' <= c <= 'Z' {
        (c as u32 + 32) as char
    } else {
        c
    }
}

/// What `str::to_uppercase` makes of a text that holds a character outside of
/// ASCII.
pub uninterp spec fn unicode_uppercase(s: Seq<char>) -> Seq<char>;

/// What `str::to_lowercase` makes of a text that holds a character outside of
/// ASCII.
pub uninterp spec fn unicode_lowercase(s: Seq<char>) -> Seq<char>;

/// The upper-case form of a text.
pub open spec fn uppercase(s: Seq<char>) -> Seq<char> {
    if is_ascii_chars(s) {
        s.map_values(|c: char| ascii_upper(c))
    } else {
        unicode_uppercase(s)
    }
}

/// The lower-case form of a text.
pub open spec fn lowercase(s: Seq<char>) -> Seq<char> {
    if is_ascii_chars(s) {
        s.map_values(|c: char| ascii_lower(c))
    } else {
        unicode_lowercase(s)
    }
}

/// The position of the first `c` in `s`, or the length of `s` where it holds none.
pub open spec fn first_position(s: Seq<char>, c: char) -> int
    decreases s.len(),
{
    if s.len() == 0 || s[0] == c {
        0
    } else {
        1 + first_position(s.skip(1), c)
    }
}

/// The characters of each string.
pub open spec fn texts(strings: Seq<String>) -> Seq<Seq<char>> {
    strings.map_values(|s: String| s@)
}

/// The characters of an optional string.
pub open spec fn opt_text(s: Option<String>) -> Option<Seq<char>> {
    match s {
        Some(t) => Some(t@),
        None => None,
    }
}

/// The characters of an optional string slice.
pub open spec fn opt_str(s: Option<&str>) -> Option<Seq<char>> {
    match s {
        Some(t) => Some(t@),
        None => None,
    }
}

/// A copy of an optional string.
pub fn copy_opt(s: &Option<String>) -> (copy: Option<String>)
    ensures
        opt_text(copy) == opt_text(*s),
{
    match s {
        Some(t) => Some(t.clone()),
        None => None,
    }
}

/// An optional string of its own, from an optional string slice.
pub fn own_opt(s: Option<&str>) -> (own: Option<String>)
    ensures
        opt_text(own) == opt_str(s),
{
    match s {
        Some(t) => Some(t.to_string()),
        None => None,
    }
}

/// The characters of `s`, one by one.
pub fn chars_of(s: &str) -> (chars: Vec<char>)
    ensures
        chars@ == s@,
{
    let mut chars: Vec<char> = Vec::new();
    for c in it: s.chars()
        invariant
            chars@ == it.seq().take(it.index() as int),
            it.seq() == s@,
    {
        chars.push(c);
    }
    chars
}

/// Whether the characters of `part` stand in `s` from position `at` on.
pub fn occurs_here(s: &Vec<char>, part: &Vec<char>, at: usize) -> (yes: bool)
    ensures
        yes == occurs_at(s@, part@, at as int),
{
    if part.len() > s.len() || at > s.len() - part.len() {
        return false;
    }
    let mut i: usize = 0;
    while i < part.len()
        invariant
            i <= part.len(),
            at + part.len() <= s.len(),
            forall|j: int| 0 <= j < i ==> s[at + j] == part[j],
        decreases part.len() - i,
    {
        if s[at + i] != part[i] {
            assert(s@.subrange(at as int, at + part@.len())[i as int] != part@[i as int]);
            return false;
        }
        i = i + 1;
    }
    assert(s@.subrange(at as int, at + part@.len()) =~= part@);
    true
}

/// Whether two strings hold the same characters.
pub fn same(a: &str, b: &str) -> (yes: bool)
    ensures
        yes == (a@ == b@),
{
    let a: Vec<char> = chars_of(a);
    let b: Vec<char> = chars_of(b);
    let yes = a.len() == b.len() && occurs_here(&a, &b, 0);
    assert(a.len() == b.len() ==> a@.subrange(0, b@.len() as int) =~= a@);
    yes
}

/// Whether `s` starts with `prefix`.
pub fn starts_with(s: &str, prefix: &str) -> (yes: bool)
    ensures
        yes == prefix@.is_prefix_of(s@),
{
    occurs_here(&chars_of(s), &chars_of(prefix), 0)
}

/// Whether `s` ends with `suffix`.
pub fn ends_with(s: &str, suffix: &str) -> (yes: bool)
    ensures
        yes == suffix@.is_suffix_of(s@),
{
    let s: Vec<char> = chars_of(s);
    let suffix: Vec<char> = chars_of(suffix);
    suffix.len() <= s.len() && occurs_here(&s, &suffix, s.len() - suffix.len())
}

/// The first position at or behind `from` at which `part` stands in `s`.
pub fn find_from(s: &Vec<char>, part: &Vec<char>, from: usize) -> (found: Option<usize>)
    ensures
        match found {
            Some(i) => {
                &&& from <= i
                &&& occurs_at(s@, part@, i as int)
                &&& forall|j: int| from <= j < i ==> !occurs_at(s@, part@, j)
            },
            None => forall|j: int| from <= j ==> !occurs_at(s@, part@, j),
        },
{
    if from > s.len() {
        return None;
    }
    let mut i: usize = from;
    while i < s.len()
        invariant
            from <= i <= s.len(),
            forall|j: int| from <= j < i ==> !occurs_at(s@, part@, j),
        decreases s.len() - i,
    {
        if occurs_here(s, part, i) {
            return Some(i);
        }
        i = i + 1;
    }
    if occurs_here(s, part, i) {
        return Some(i);
    }
    None
}

/// Whether `part` stands somewhere in `s`.
pub fn contains(s: &str, part: &str) -> (yes: bool)
    ensures
        yes == occurs_in(s@, part@),
{
    find_from(&chars_of(s), &chars_of(part), 0).is_some()
}

/// Whether `c` has the Unicode property White_Space.
pub fn is_white_space(c: char) -> (yes: bool)
    ensures
        yes == white_space(c),
{
    ('\u{9}' <= c && c <= '\u{d}') || c == '\u{20}' || c == '\u{85}' || c == '\u{a0}' || c
        == '\u{1680}' || ('\u{2000}' <= c && c <= '\u{200a}') || c == '\u{2028}' || c
        == '\u{2029}' || c == '\u{202f}' || c == '\u{205f}' || c == '\u{3000}'
}

/// `s` without the characters `c` at its end.
pub fn trim_end_char(s: &str, c: char) -> (rest: &str)
    ensures
        rest@ == trim_end_of(s@, c),
{
    let chars: Vec<char> = chars_of(s);
    let mut end: usize = chars.len();
    assert(s@.take(end as int) =~= s@);
    while end > 0 && chars[end - 1] == c
        invariant
            end <= chars.len(),
            chars@ == s@,
            trim_end_of(s@, c) == trim_end_of(s@.take(end as int), c),
        decreases end,
    {
        assert(s@.take(end as int).drop_last() =~= s@.take(end - 1));
        end = end - 1;
    }
    assert(s@.subrange(0, end as int) =~= s@.take(end as int));
    s.substring_char(0, end)
}

/// `s` without the white space around it.
pub fn trim(s: &str) -> (rest: &str)
    ensures
        rest@ == trimmed(s@),
{
    let chars: Vec<char> = chars_of(s);
    let mut start: usize = 0;
    assert(s@.skip(0) =~= s@);
    while start < chars.len() && is_white_space(chars[start])
        invariant
            start <= chars.len(),
            chars@ == s@,
            trim_start_space(s@) == trim_start_space(s@.skip(start as int)),
        decreases chars.len() - start,
    {
        assert(s@.skip(start as int).skip(1) =~= s@.skip(start + 1));
        start = start + 1;
    }
    let ghost tail = s@.skip(start as int);
    let mut end: usize = chars.len();
    assert(s@.subrange(start as int, end as int) =~= tail);
    while end > start && is_white_space(chars[end - 1])
        invariant
            start <= end <= chars.len(),
            chars@ == s@,
            trim_end_space(tail) == trim_end_space(s@.subrange(start as int, end as int)),
        decreases end,
    {
        assert(s@.subrange(start as int, end as int).drop_last() =~= s@.subrange(
            start as int,
            end - 1,
        ));
        end = end - 1;
    }
    s.substring_char(start, end)
}

/// `s` without the copies of `prefix` that it starts with.
pub fn trim_start_text<'a>(s: &'a str, prefix: &str) -> (rest: &'a str)
    ensures
        rest@ == strip_prefixes(s@, prefix@),
{
    let chars: Vec<char> = chars_of(s);
    let prefix: Vec<char> = chars_of(prefix);
    let mut start: usize = 0;
    assert(s@.skip(0) =~= s@);
    while prefix.len() > 0 && occurs_here(&chars, &prefix, start)
        invariant
            start <= chars.len(),
            chars@ == s@,
            strip_prefixes(s@, prefix@) == strip_prefixes(s@.skip(start as int), prefix@),
        decreases chars.len() - start,
    {
        proof {
            let rest = s@.skip(start as int);
            assert(rest.subrange(0, prefix@.len() as int) =~= s@.subrange(
                start as int,
                start + prefix@.len(),
            ));
            assert(rest.skip(prefix@.len() as int) =~= s@.skip(start + prefix@.len()));
        }
        start = start + prefix.len();
    }
    proof {
        let rest = s@.skip(start as int);
        if prefix@.len() > 0 && prefix@.is_prefix_of(rest) {
            assert(s@.subrange(start as int, start + prefix@.len()) =~= rest.subrange(
                0,
                prefix@.len() as int,
            ));
        }
        assert(s@.subrange(start as int, s@.len() as int) =~= rest);
    }
    s.substring_char(start, chars.len())
}

/// `s` with every copy of `part` taken out.
pub fn remove_all(s: &str, part: &str) -> (rest: String)
    ensures
        rest@ == without(s@, part@),
{
    let chars: Vec<char> = chars_of(s);
    let part: Vec<char> = chars_of(part);
    if part.len() == 0 {
        return s.to_string();
    }
    let mut rest = String::new();
    let mut i: usize = 0;
    assert(s@.skip(0) =~= s@);
    while i < chars.len()
        invariant
            i <= chars.len(),
            chars@ == s@,
            part@.len() > 0,
            without(s@, part@) =~= rest@ + without(s@.skip(i as int), part@),
        decreases chars.len() - i,
    {
        let ghost here = s@.skip(i as int);
        if occurs_here(&chars, &part, i) {
            proof {
                assert(here.subrange(0, part@.len() as int) =~= s@.subrange(
                    i as int,
                    i + part@.len(),
                ));
                assert(here.skip(part@.len() as int) =~= s@.skip(i + part@.len()));
            }
            i = i + part.len();
        } else {
            proof {
                if part@.is_prefix_of(here) {
                    assert(s@.subrange(i as int, i + part@.len()) =~= here.subrange(
                        0,
                        part@.len() as int,
                    ));
                }
                assert(here.skip(1) =~= s@.skip(i + 1));
                assert(s@.subrange(i as int, i + 1) =~= seq![here[0]]);
            }
            rest.append(s.substring_char(i, i + 1));
            i = i + 1;
        }
    }
    assert(s@.skip(i as int) =~= Seq::<char>::empty());
    rest
}

/// What stands in `s` before `suffix`, where it ends with that.
pub fn strip_suffix<'a>(s: &'a str, suffix: &str) -> (rest: Option<&'a str>)
    ensures
        match rest {
            Some(r) => suffix@.is_suffix_of(s@) && r@ == s@.take(s@.len() - suffix@.len()),
            None => !suffix@.is_suffix_of(s@),
        },
{
    if !ends_with(s, suffix) {
        return None;
    }
    let end: usize = chars_of(s).len() - chars_of(suffix).len();
    assert(s@.subrange(0, end as int) =~= s@.take(end as int));
    Some(s.substring_char(0, end))
}

/// Every text has at least one piece.
pub proof fn split_has_a_piece(s: Seq<char>, c: char)
    ensures
        split_on(s, c).len() > 0,
    decreases s.len(),
{
    if s.len() > 0 {
        split_has_a_piece(s.drop_last(), c);
    }
}

/// Where a text ends in the one copy of `part` that it holds, taking out that
/// copy leaves what stands before it.
pub proof fn removal_of_a_single_copy(before: Seq<char>, part: Seq<char>)
    requires
        part.len() > 0,
        forall|j: int| 0 <= j < before.len() ==> !occurs_at(before + part, part, j),
    ensures
        without(before + part, part) == before,
    decreases before.len(),
{
    let s = before + part;
    if before.len() == 0 {
        assert(s =~= part);
        assert(part.subrange(0, part.len() as int) =~= part);
        let nothing = Seq::<char>::empty();
        assert(s.skip(part.len() as int) =~= nothing);
        assert(without(nothing, part) == nothing);
        assert(before =~= nothing);
    } else {
        assert(!occurs_at(s, part, 0));
        let rest = before.skip(1);
        assert(s.skip(1) =~= rest + part);
        assert forall|j: int| 0 <= j < rest.len() implies !occurs_at(rest + part, part, j) by {
            assert(!occurs_at(s, part, j + 1));
            assert((rest + part).subrange(j, j + part.len()) =~= s.subrange(
                j + 1,
                j + 1 + part.len(),
            ));
        }
        removal_of_a_single_copy(rest, part);
        assert(seq![s[0]] + rest =~= before);
    }
}

/// The pieces of `s` between the characters `c`.
pub fn split<'a>(s: &'a str, c: char) -> (pieces: Vec<&'a str>)
    ensures
        pieces@.map_values(|p: &str| p@) == split_on(s@, c),
{
    let chars: Vec<char> = chars_of(s);
    let mut pieces: Vec<&'a str> = Vec::new();
    let mut start: usize = 0;
    let mut i: usize = 0;
    assert(s@.take(0) =~= Seq::<char>::empty());
    assert(s@.subrange(0, 0) =~= Seq::<char>::empty());
    while i < chars.len()
        invariant
            start <= i <= chars.len(),
            chars@ == s@,
            split_on(s@.take(i as int), c) =~= pieces@.map_values(|p: &str| p@).push(
                s@.subrange(start as int, i as int),
            ),
        decreases chars.len() - i,
    {
        let ghost before = pieces@.map_values(|p: &str| p@);
        assert(s@.take(i + 1).drop_last() =~= s@.take(i as int));
        if chars[i] == c {
            pieces.push(s.substring_char(start, i));
            assert(pieces@.map_values(|p: &str| p@) =~= before.push(
                s@.subrange(start as int, i as int),
            ));
            assert(s@.subrange(i + 1, i + 1) =~= Seq::<char>::empty());
            start = i + 1;
        } else {
            assert(s@.subrange(start as int, i + 1) =~= s@.subrange(start as int, i as int).push(
                s@[i as int],
            ));
            assert(before.push(s@.subrange(start as int, i as int)).drop_last() =~= before);
        }
        i = i + 1;
    }
    let ghost before = pieces@.map_values(|p: &str| p@);
    pieces.push(s.substring_char(start, chars.len()));
    assert(s@.take(i as int) =~= s@);
    assert(pieces@.map_values(|p: &str| p@) =~= before.push(s@.subrange(start as int, i as int)));
    pieces
}

/// The text of a decimal digit.
fn digit_text(d: u64) -> (text: &'static str)
    requires
        d < 10,
    ensures
        text@ == seq![digit(d as nat)],
{
    proof {
        reveal_strlit("0");
        reveal_strlit("1");
        reveal_strlit("2");
        reveal_strlit("3");
        reveal_strlit("4");
        reveal_strlit("5");
        reveal_strlit("6");
        reveal_strlit("7");
        reveal_strlit("8");
        reveal_strlit("9");
    }
    match d {
        0 => "0",
        1 => "1",
        2 => "2",
        3 => "3",
        4 => "4",
        5 => "5",
        6 => "6",
        7 => "7",
        8 => "8",
        _ => "9",
    }
}

/// `n` in decimal.
pub fn decimal_text(n: u64) -> (text: String)
    ensures
        text@ == decimal(n as nat),
    decreases n,
{
    if n < 10 {
        digit_text(n).to_string()
    } else {
        let mut text: String = decimal_text(n / 10);
        text.append(digit_text(n % 10));
        assert(text@ =~= decimal(n as nat / 10).push(digit(n as nat % 10)));
        text
    }
}

/// More digits never make a smaller number.
proof fn lemma_digits_value_grows(s: Seq<char>, k: int)
    requires
        0 <= k <= s.len(),
        all_digits(s),
    ensures
        digits_value(s.take(k)) <= digits_value(s),
    decreases s.len(),
{
    if k == s.len() {
        assert(s.take(k) =~= s);
    } else {
        assert(s.drop_last().take(k) =~= s.take(k));
        lemma_digits_value_grows(s.drop_last(), k);
    }
}

/// Reads a number of at most `max` from its decimal text. A plus sign may
/// stand before the digits.
pub fn parse_unsigned(s: &str, max: u64) -> (number: Option<u64>)
    ensures
        match number {
            Some(n) => parsed_unsigned(s@, max as nat) == Some(n as nat),
            None => parsed_unsigned(s@, max as nat) is None,
        },
{
    let chars: Vec<char> = chars_of(s);
    let start: usize = if chars.len() > 0 && chars[0] == '+' { 1 } else { 0 };
    let ghost digits = unsigned_digits(s@);
    assert(digits =~= s@.skip(start as int));
    if start == chars.len() {
        return None;
    }
    let mut value: u128 = 0;
    let mut i: usize = start;
    assert(digits.take(0) =~= Seq::<char>::empty());
    while i < chars.len()
        invariant
            start <= i <= chars.len(),
            start < chars.len(),
            chars@ == s@,
            digits == unsigned_digits(s@),
            digits == s@.skip(start as int),
            all_digits(digits.take(i - start)),
            value == digits_value(digits.take(i - start)),
            value <= max,
        decreases chars.len() - i,
    {
        let c: char = chars[i];
        let ghost k: int = i - start;
        assert(digits[k] == c);
        if c < '0' || c > '9' {
            return None;
        }
        assert(digits.take(k + 1).drop_last() =~= digits.take(k));
        value = value * 10 + (c as u128 - 48);
        assert(value == digits_value(digits.take(k + 1)));
        if value > max as u128 {
            proof {
                if all_digits(digits) {
                    lemma_digits_value_grows(digits, k + 1);
                }
            }
            return None;
        }
        i = i + 1;
    }
    assert(digits.take(i - start) =~= digits);
    Some(value as u64)
}

/// A number's decimal text is read back as that number.
pub proof fn decimal_reads_back(n: nat, max: nat)
    requires
        n <= max,
    ensures
        parsed_unsigned(decimal(n), max) == Some(n),
{
    lemma_decimal_digits(n);
}

proof fn lemma_decimal_digits(n: nat)
    ensures
        decimal(n).len() > 0,
        all_digits(decimal(n)),
        digits_value(decimal(n)) == n,
        decimal(n)[0] != '+',
    decreases n,
{
    let s = decimal(n);
    assert(digits_value(Seq::<char>::empty()) == 0);
    if n < 10 {
        assert(s.drop_last() =~= Seq::<char>::empty());
    } else {
        lemma_decimal_digits(n / 10);
        assert(s.drop_last() =~= decimal(n / 10));
        assert(s.last() == digit(n % 10));
    }
}

proof fn lemma_encode_append(a: Seq<char>, b: Seq<char>)
    ensures
        encode_utf8(a + b) == encode_utf8(a) + encode_utf8(b),
    decreases a.len(),
{
    if a.len() == 0 {
        assert(a + b =~= b);
        assert(encode_utf8(a) + encode_utf8(b) =~= encode_utf8(b));
    } else {
        assert((a + b).drop_first() =~= a.drop_first() + b);
        lemma_encode_append(a.drop_first(), b);
        assert(encode_utf8(a + b) =~= encode_utf8(a) + encode_utf8(b));
    }
}

/// The bytes of a start of a text end at a character boundary of the text.
proof fn lemma_prefix_ends_at_boundary(a: Seq<char>, b: Seq<char>)
    ensures
        is_char_boundary(encode_utf8(a + b), encode_utf8(a).len() as int),
    decreases a.len(),
{
    let bytes = encode_utf8(a + b);
    encode_utf8_valid_utf8(a + b);
    lemma_encode_append(a, b);
    if a.len() > 0 {
        encode_utf8_first_scalar(a + b);
        assert((a + b).drop_first() =~= a.drop_first() + b);
        lemma_prefix_ends_at_boundary(a.drop_first(), b);
        assert(pop_first_scalar(bytes) =~= encode_utf8(a.drop_first() + b));
    }
}

/// A longer start of a text takes up more bytes.
proof fn lemma_longer_prefix_has_more_bytes(s: Seq<char>, k: int, j: int)
    requires
        0 <= k < j <= s.len(),
    ensures
        encode_utf8(s.take(k)).len() < encode_utf8(s.take(j)).len(),
{
    let more = s.subrange(k, j);
    assert(s.take(j) =~= s.take(k) + more);
    lemma_encode_append(s.take(k), more);
    assert(encode_utf8(more).len() > 0);
}

proof fn lemma_clipped_is(s: Seq<char>, limit: nat, k: int)
    requires
        0 <= k <= s.len(),
        encode_utf8(s.take(k)).len() <= limit,
        k < s.len() ==> encode_utf8(s.take(k + 1)).len() > limit,
    ensures
        clipped(s, limit) == s.take(k),
    decreases s.len(),
{
    if k == s.len() {
        assert(s.take(k) =~= s);
    } else {
        assert(s.take(s.len() as int) =~= s);
        if k + 1 < s.len() {
            lemma_longer_prefix_has_more_bytes(s, k + 1, s.len() as int);
        }
        assert(s.drop_last().take(k) =~= s.take(k));
        if k + 1 < s.len() {
            assert(s.drop_last().take(k + 1) =~= s.take(k + 1));
        }
        lemma_clipped_is(s.drop_last(), limit, k);
    }
}

/// A clipped text is a start of the text, takes up at most the bytes allowed,
/// and no longer start does.
pub proof fn clipped_is_the_longest_fit(s: Seq<char>, limit: nat)
    ensures
        clipped(s, limit).is_prefix_of(s),
        encode_utf8(clipped(s, limit)).len() <= limit,
        forall|k: int|
            clipped(s, limit).len() < k <= s.len() ==> encode_utf8(#[trigger] s.take(k)).len()
                > limit,
    decreases s.len(),
{
    if s.len() == 0 || encode_utf8(s).len() <= limit {
        assert(s.subrange(0, s.len() as int) =~= s);
    } else {
        let t = s.drop_last();
        clipped_is_the_longest_fit(t, limit);
        let c = clipped(t, limit);
        assert(s.subrange(0, c.len() as int) =~= t.subrange(0, c.len() as int));
        assert forall|k: int| c.len() < k <= s.len() implies encode_utf8(
            #[trigger] s.take(k),
        ).len() > limit by {
            if k == s.len() {
                assert(s.take(k) =~= s);
            } else {
                assert(s.take(k) =~= t.take(k));
            }
        }
    }
}

/// The longest start of `s` that takes up at most `limit` bytes.
pub fn clip(s: &str, limit: usize) -> (start: &str)
    ensures
        start@ == clipped(s@, limit as nat),
{
    if s.as_bytes().len() <= limit {
        return s;
    }
    let ghost bytes = s.spec_bytes();
    proof {
        encode_utf8_valid_utf8(s@);
    }
    let mut end: usize = limit;
    while !s.is_char_boundary(end)
        invariant
            bytes == encode_utf8(s@),
            valid_utf8(bytes),
            end <= limit < bytes.len(),
            forall|j: int| end < j <= limit ==> !is_char_boundary(bytes, j),
        decreases end,
    {
        proof {
            is_char_boundary_start_end_of_seq(bytes);
        }
        end = end - 1;
    }
    let (start, rest) = s.split_at(end);
    proof {
        let a = start@;
        let k = a.len() as int;
        decode_utf8_split(bytes, end as int);
        encode_utf8_decode_utf8(s@);
        encode_utf8_decode_utf8(a);
        encode_utf8_decode_utf8(rest@);
        assert(s@ == a + rest@);
        assert(s@.take(k) =~= a);
        if k < s@.len() {
            lemma_longer_prefix_has_more_bytes(s@, k, k + 1);
            lemma_prefix_ends_at_boundary(s@.take(k + 1), s@.skip(k + 1));
            assert(s@.take(k + 1) + s@.skip(k + 1) =~= s@);
        }
        lemma_clipped_is(s@, limit as nat, k);
    }
    start
}

/// `str::to_uppercase`: the upper-case form of a text under the rules of
/// Unicode. Of a text in ASCII the letters `a` to `z` become `A` to `Z` and the
/// other characters stay; of any other text the result depends on the text alone.
#[verifier::external_body]
pub(crate) fn to_uppercase(s: &str) -> (upper: String)
    ensures
        is_ascii_chars(s@) ==> upper@ == s@.map_values(|c: char| ascii_upper(c)),
        !is_ascii_chars(s@) ==> upper@ == unicode_uppercase(s@),
{
    s.to_uppercase()
}

/// `str::to_lowercase`: the lower-case form of a text under the rules of
/// Unicode. Of a text in ASCII the letters `A` to `Z` become `a` to `z` and the
/// other characters stay; of any other text the result depends on the text alone.
#[verifier::external_body]
pub(crate) fn to_lowercase(s: &str) -> (lower: String)
    ensures
        is_ascii_chars(s@) ==> lower@ == s@.map_values(|c: char| ascii_lower(c)),
        !is_ascii_chars(s@) ==> lower@ == unicode_lowercase(s@),
{
    s.to_lowercase()
}

proof fn lemma_first_position(s: Seq<char>, c: char, at: int)
    requires
        0 <= at <= s.len(),
        forall|i: int| 0 <= i < at ==> s[i] != c,
        at < s.len() ==> s[at] == c,
    ensures
        first_position(s, c) == at,
    decreases s.len(),
{
    if s.len() > 0 && at > 0 {
        assert forall|i: int| 0 <= i < at - 1 implies s.skip(1)[i] != c by {
            assert(s[i + 1] != c);
        }
        lemma_first_position(s.skip(1), c, at - 1);
    }
}

/// What stands before and behind the first `c` in `s`.
pub fn split_once<'a>(s: &'a str, c: char) -> (halves: Option<(&'a str, &'a str)>)
    ensures
        match halves {
            Some((before, behind)) => {
                let at = first_position(s@, c);
                &&& 0 <= at < s@.len()
                &&& before@ == s@.take(at)
                &&& behind@ == s@.skip(at + 1)
            },
            None => first_position(s@, c) == s@.len(),
        },
{
    let chars: Vec<char> = chars_of(s);
    let mut at: usize = 0;
    while at < chars.len() && chars[at] != c
        invariant
            at <= chars.len(),
            forall|i: int| 0 <= i < at ==> chars[i] != c,
        decreases chars.len() - at,
    {
        at = at + 1;
    }
    proof {
        lemma_first_position(s@, c, at as int);
    }
    if at == chars.len() {
        return None;
    }
    assert(s@.subrange(0, at as int) =~= s@.take(at as int));
    assert(s@.subrange(at + 1, s@.len() as int) =~= s@.skip(at + 1));
    Some((s.substring_char(0, at), s.substring_char(at + 1, chars.len())))
}

} // verus!
