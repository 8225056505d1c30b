//! Laws of texts, numbers and route patterns.

use vstd::arithmetic::power::*;
use vstd::prelude::*;
use vstd::utf8::*;

use crate::glob;
use crate::text;

verus! {

/// Every character of `s` is white space.
pub open spec fn blank(s: Seq<char>) -> bool {
    forall|i: int| 0 <= i < s.len() ==> text::white_space(#[trigger] s[i])
}

/// No character of `s` is `c`.
pub open spec fn free_of(s: Seq<char>, c: char) -> bool {
    forall|i: int| 0 <= i < s.len() ==> #[trigger] s[i] != c
}

/// The pieces, with a `c` between each two of them.
pub open spec fn joined(pieces: Seq<Seq<char>>, c: char) -> Seq<char>
    decreases pieces.len(),
{
    if pieces.len() == 0 {
        Seq::empty()
    } else if pieces.len() == 1 {
        pieces[0]
    } else {
        joined(pieces.drop_last(), c).push(c) + pieces.last()
    }
}

/// A part stands in a text exactly where the text is the part with something
/// before and behind it, which may be nothing.
pub proof fn part_stands_where_the_text_is_made_of_it(s: Seq<char>, part: Seq<char>)
    ensures
        text::occurs_in(s, part) <==> exists|a: Seq<char>, b: Seq<char>|
            s == #[trigger] ((a + part) + b),
{
    if text::occurs_in(s, part) {
        let i = choose|i: int| text::occurs_at(s, part, i);
        let a = s.take(i);
        let b = s.skip(i + part.len());
        assert(s.subrange(i, i + part.len()) == part);
        assert(s =~= (a + part) + b);
    }
    if exists|a: Seq<char>, b: Seq<char>| s == #[trigger] ((a + part) + b) {
        let (a, b) = choose|a: Seq<char>, b: Seq<char>| s == #[trigger] ((a + part) + b);
        let i = a.len() as int;
        assert(s.subrange(i, i + part.len()) =~= part);
        assert(text::occurs_at(s, part, i));
    }
}

/// The case of an ASCII text is changed character by character.
pub proof fn ascii_text_changes_case_by_character(s: Seq<char>, i: int)
    requires
        is_ascii_chars(s),
        0 <= i < s.len(),
    ensures
        text::uppercase(s).len() == s.len(),
        text::lowercase(s).len() == s.len(),
        text::uppercase(s)[i] == text::ascii_upper(s[i]),
        text::lowercase(s)[i] == text::ascii_lower(s[i]),
{
}

/// Trimming a character from the end takes away all of its copies there, and
/// nothing else.
pub proof fn trimming_takes_the_whole_run(s: Seq<char>, c: char)
    ensures
        ({
            let rest = text::trim_end_of(s, c);
            &&& rest.len() <= s.len()
            &&& rest == s.take(rest.len() as int)
            &&& rest.len() > 0 ==> rest.last() != c
            &&& forall|i: int| rest.len() <= i < s.len() ==> #[trigger] s[i] == c
        }),
    decreases s.len(),
{
    let rest = text::trim_end_of(s, c);
    if s.len() > 0 && s.last() == c {
        let t = s.drop_last();
        trimming_takes_the_whole_run(t, c);
        assert(t.take(rest.len() as int) =~= s.take(rest.len() as int));
        assert forall|i: int| rest.len() <= i < s.len() implies #[trigger] s[i] == c by {
            if i < t.len() {
                assert(t[i] == s[i]);
            }
        }
    } else {
        assert(s.take(s.len() as int) =~= s);
    }
}

/// A copy of the prefix at the start of a text is taken away, however many
/// follow, and a text that does not start with the prefix stays.
pub proof fn stripping_takes_every_copy_in_front(s: Seq<char>, prefix: Seq<char>)
    requires
        prefix.len() > 0,
    ensures
        text::strip_prefixes(prefix + s, prefix) == text::strip_prefixes(s, prefix),
        !prefix.is_prefix_of(s) ==> text::strip_prefixes(s, prefix) == s,
        !prefix.is_prefix_of(text::strip_prefixes(s, prefix)),
        text::strip_prefixes(s, prefix).is_suffix_of(s),
    decreases s.len(),
{
    let whole = prefix + s;
    assert(whole.subrange(0, prefix.len() as int) =~= prefix);
    assert(whole.skip(prefix.len() as int) =~= s);
    if prefix.is_prefix_of(s) {
        let rest = s.skip(prefix.len() as int);
        assert(prefix + rest =~= s);
        stripping_takes_every_copy_in_front(rest, prefix);
        let end = text::strip_prefixes(rest, prefix);
        assert(rest.subrange(rest.len() - end.len(), rest.len() as int) =~= s.subrange(
            s.len() - end.len(),
            s.len() as int,
        ));
    } else {
        assert(s.subrange(0, s.len() as int) =~= s);
    }
}

/// Copies of a part are taken out from left to right: what stands before the
/// first one stays, and the rest is treated likewise.
pub proof fn removal_goes_from_left_to_right(
    before: Seq<char>,
    part: Seq<char>,
    behind: Seq<char>,
)
    requires
        part.len() > 0,
        forall|j: int| 0 <= j < before.len() ==> !text::occurs_at(before + part + behind, part, j),
    ensures
        text::without(before + part + behind, part) == before + text::without(behind, part),
    decreases before.len(),
{
    let s = before + part + behind;
    if before.len() == 0 {
        assert(s.subrange(0, part.len() as int) =~= part);
        assert(s.skip(part.len() as int) =~= behind);
        assert(before + text::without(behind, part) =~= text::without(behind, part));
    } else {
        let rest = before.skip(1);
        let t = rest + part + behind;
        assert(!text::occurs_at(s, part, 0));
        assert(s.skip(1) =~= t);
        assert forall|j: int| 0 <= j < rest.len() implies !text::occurs_at(t, part, j) by {
            assert(!text::occurs_at(s, part, j + 1));
            assert(t.subrange(j, j + part.len()) =~= s.subrange(j + 1, j + 1 + part.len()));
        }
        removal_goes_from_left_to_right(rest, part, behind);
        assert(seq![s[0]] + (rest + text::without(behind, part)) =~= before + text::without(
            behind,
            part,
        ));
    }
}

/// A text without a copy of a part stays as it is.
pub proof fn removal_leaves_other_texts(s: Seq<char>, part: Seq<char>)
    requires
        !text::occurs_in(s, part),
    ensures
        text::without(s, part) == s,
    decreases s.len(),
{
    if s.len() > 0 && part.len() > 0 {
        assert(!text::occurs_at(s, part, 0));
        let t = s.skip(1);
        assert forall|j: int| !text::occurs_at(t, part, j) by {
            if text::occurs_at(t, part, j) {
                assert(t.subrange(j, j + part.len()) =~= s.subrange(j + 1, j + 1 + part.len()));
                assert(text::occurs_at(s, part, j + 1));
            }
        }
        removal_leaves_other_texts(t, part);
        assert(seq![s[0]] + t =~= s);
    }
}

/// The pieces of a text hold no separator, and put together with separators
/// between them they are the text.
pub proof fn pieces_make_up_the_text(s: Seq<char>, c: char)
    ensures
        text::split_on(s, c).len() > 0,
        joined(text::split_on(s, c), c) == s,
        forall|i: int|
            0 <= i < text::split_on(s, c).len() ==> free_of(#[trigger] text::split_on(s, c)[i], c),
    decreases s.len(),
{
    let pieces = text::split_on(s, c);
    if s.len() > 0 {
        let head = text::split_on(s.drop_last(), c);
        pieces_make_up_the_text(s.drop_last(), c);
        assert(pieces.drop_last() =~= if s.last() == c {
            head
        } else {
            head.drop_last()
        });
        if s.last() == c {
            assert(joined(head, c).push(c) + Seq::<char>::empty() =~= s);
        } else {
            assert(free_of(head[head.len() - 1], c));
            assert forall|i: int| 0 <= i < pieces.len() implies free_of(
                #[trigger] pieces[i],
                c,
            ) by {
                if i < pieces.len() - 1 {
                    assert(free_of(head[i], c));
                }
            }
            if head.len() == 1 {
                assert(head.last().push(s.last()) =~= s);
            } else {
                let front = joined(head.drop_last(), c).push(c);
                assert(front + head.last().push(s.last()) =~= (front + head.last()).push(
                    s.last(),
                ));
                assert(s.drop_last().push(s.last()) =~= s);
            }
        }
    }
}

proof fn lemma_trim_start(s: Seq<char>) -> (a: int)
    ensures
        0 <= a <= s.len(),
        text::trim_start_space(s) == s.skip(a),
        blank(s.take(a)),
        a < s.len() ==> !text::white_space(s[a]),
    decreases s.len(),
{
    if s.len() > 0 && text::white_space(s[0]) {
        let a = lemma_trim_start(s.skip(1));
        assert(s.skip(1).skip(a) =~= s.skip(a + 1));
        assert forall|i: int| 0 <= i < a + 1 implies text::white_space(
            #[trigger] s.take(a + 1)[i],
        ) by {
            if i > 0 {
                assert(s.skip(1).take(a)[i - 1] == s[i]);
            }
        }
        if a + 1 < s.len() {
            assert(s.skip(1)[a] == s[a + 1]);
        }
        a + 1
    } else {
        assert(s.skip(0) =~= s);
        0
    }
}

proof fn lemma_trim_end(s: Seq<char>) -> (b: int)
    ensures
        0 <= b <= s.len(),
        text::trim_end_space(s) == s.take(b),
        blank(s.skip(b)),
        b > 0 ==> !text::white_space(s[b - 1]),
    decreases s.len(),
{
    if s.len() > 0 && text::white_space(s.last()) {
        let b = lemma_trim_end(s.drop_last());
        assert(s.drop_last().take(b) =~= s.take(b));
        assert forall|i: int| 0 <= i < s.skip(b).len() implies text::white_space(
            #[trigger] s.skip(b)[i],
        ) by {
            if b + i < s.len() - 1 {
                assert(s.drop_last().skip(b)[i] == s[b + i]);
            }
        }
        b
    } else {
        assert(s.take(s.len() as int) =~= s);
        s.len() as int
    }
}

/// Trimming takes white space from both ends, all of it and nothing else.
pub proof fn trimming_leaves_the_core(s: Seq<char>)
    ensures
        exists|a: int, b: int|
            0 <= a <= b <= s.len() && text::trimmed(s) == #[trigger] s.subrange(a, b) && blank(
                s.take(a),
            ) && blank(s.skip(b)) && (a < b ==> !text::white_space(s[a]) && !text::white_space(
                s[b - 1],
            )),
{
    let a = lemma_trim_start(s);
    let t = s.skip(a);
    let n = lemma_trim_end(t);
    let b = a + n;
    assert(t.take(n) =~= s.subrange(a, b));
    assert(t.skip(n) =~= s.skip(b));
    if n > 0 {
        assert(t[n - 1] == s[b - 1]);
    }
    if a < b {
        assert(t[0] == s[a]);
    }
}

/// A text without white space at its ends is its own core, whatever white space
/// is put around it.
pub proof fn trimming_undoes_padding(before: Seq<char>, core: Seq<char>, behind: Seq<char>)
    requires
        blank(before),
        blank(behind),
        core.len() > 0,
        !text::white_space(core[0]),
        !text::white_space(core.last()),
    ensures
        text::trimmed(before + core + behind) == core,
{
    let s = before + core + behind;
    trimming_leaves_the_core(s);
    let (a, b) = choose|a: int, b: int|
        0 <= a <= b <= s.len() && text::trimmed(s) == #[trigger] s.subrange(a, b) && blank(
            s.take(a),
        ) && blank(s.skip(b)) && (a < b ==> !text::white_space(s[a]) && !text::white_space(
            s[b - 1],
        ));
    let n = before.len() as int;
    let m = n + core.len();
    assert(s[n] == core[0]);
    assert(s[m - 1] == core.last());
    assert(a <= n) by {
        if a > n {
            assert(s.take(a)[n] == core[0]);
        }
    }
    assert(b >= m) by {
        if b < m {
            assert(s.skip(b)[m - 1 - b] == core.last());
        }
    }
    assert(a >= n) by {
        if a < n {
            assert(s[a] == before[a]);
        }
    }
    assert(b <= m) by {
        if b > m {
            assert(s[b - 1] == behind[b - 1 - m]);
        }
    }
    assert(s.subrange(n, m) =~= core);
}

/// A number is written in digits, at least one, and starts with a zero only
/// where it is zero.
pub proof fn decimal_is_plain(n: nat)
    ensures
        decimal_shape(n),
    decreases n,
{
    if n >= 10 {
        decimal_is_plain(n / 10);
    }
}

/// What a decimal text looks like.
pub open spec fn decimal_shape(n: nat) -> bool {
    let s = text::decimal(n);
    &&& s.len() > 0
    &&& text::all_digits(s)
    &&& s[0] == '0' ==> n == 0
    &&& n < 10 ==> s.len() == 1
}

/// Digits count by their places.
pub proof fn digits_count_by_place(a: Seq<char>, b: Seq<char>)
    ensures
        text::digits_value(a + b) == text::digits_value(a) * pow(10, b.len()) + text::digits_value(
            b,
        ),
    decreases b.len(),
{
    reveal(pow);
    if b.len() == 0 {
        assert(a + b =~= a);
        assert(pow(10, 0) == 1);
        assert(text::digits_value(a) * 1 == text::digits_value(a));
    } else {
        let t = b.drop_last();
        digits_count_by_place(a, t);
        assert((a + b).drop_last() =~= a + t);
        assert((a + b).last() == b.last());
        let x = text::digits_value(a) as int;
        let p = pow(10, t.len());
        assert(pow(10, b.len()) == 10 * p);
        let y = text::digits_value(t) as int;
        assert((x * p + y) * 10 == x * (10 * p) + y * 10) by (nonlinear_arith);
        let d = (b.last() as nat - 48) as nat;
        assert(text::digits_value(b) == y * 10 + d);
        assert(text::digits_value(a + b) == (x * p + y) * 10 + d);
    }
}

/// One digit has the value that its place among the digits gives it.
pub proof fn single_digit_counts_itself(c: char)
    requires
        '0' <= c <= '9',
    ensures
        text::digits_value(seq![c]) == c as int - '0' as int,
{
    assert(seq![c].drop_last() =~= Seq::<char>::empty());
    assert(text::digits_value(Seq::<char>::empty()) == 0);
}

/// A number is read from digits alone, with or without a plus sign before them,
/// and up to the limit.
pub proof fn numbers_are_read_from_digits(digits: Seq<char>, max: nat)
    requires
        text::all_digits(digits),
        digits.len() > 0,
    ensures
        text::parsed_unsigned(digits, max) == text::parsed_unsigned(seq!['+'] + digits, max),
        text::parsed_unsigned(digits, max) is Some <==> text::digits_value(digits) <= max,
        text::parsed_unsigned(digits, max) matches Some(n) ==> n == text::digits_value(digits),
{
    assert((seq!['+'] + digits).skip(1) =~= digits);
    assert(digits[0] != '+');
}

/// No number is read from a text that holds anything but digits behind an
/// optional plus sign, nor from one without digits.
pub proof fn nothing_else_is_read_as_a_number(s: Seq<char>, max: nat, i: int)
    requires
        s.len() == 0 || s == seq!['+'] || (0 <= i < s.len() && !('0' <= s[i] <= '9') && (i > 0
            || s[0] != '+')),
    ensures
        text::parsed_unsigned(s, max) is None,
{
    if s.len() > 0 && s[0] == '+' {
        if s.len() > 1 {
            assert(s.skip(1)[i - 1] == s[i]);
        }
    }
}

/// Raising the limit loses no number, and no number beyond the limit is read.
pub proof fn limit_only_cuts_off(s: Seq<char>, max: nat, greater: nat)
    requires
        max <= greater,
    ensures
        text::parsed_unsigned(s, max) matches Some(n) ==> n <= max && text::parsed_unsigned(
            s,
            greater,
        ) == Some(n),
        text::parsed_unsigned(s, greater) matches Some(n) ==> (n <= max
            <==> text::parsed_unsigned(s, max) is Some),
{
}

/// Upper and lower case of ASCII differ in the letters alone, which stay in
/// their order.
pub proof fn ascii_letters_change_case(c: char)
    ensures
        'a' <= c <= 'z' ==> text::ascii_upper(c) as int - 'A' as int == c as int - 'a' as int,
        'A' <= c <= 'Z' ==> text::ascii_lower(c) as int - 'a' as int == c as int - 'A' as int,
        !('a' <= c <= 'z') ==> text::ascii_upper(c) == c,
        !('A' <= c <= 'Z') ==> text::ascii_lower(c) == c,
        text::ascii_upper(text::ascii_lower(c)) == text::ascii_upper(c),
{
}

/// The first position of a character holds it, and none before does.
pub proof fn first_position_is_the_first(s: Seq<char>, c: char)
    ensures
        0 <= text::first_position(s, c) <= s.len(),
        text::first_position(s, c) < s.len() ==> s[text::first_position(s, c)] == c,
        forall|i: int| 0 <= i < text::first_position(s, c) ==> #[trigger] s[i] != c,
    decreases s.len(),
{
    if s.len() > 0 && s[0] != c {
        first_position_is_the_first(s.skip(1), c);
        let at = text::first_position(s.skip(1), c);
        assert forall|i: int| 0 <= i < at + 1 implies #[trigger] s[i] != c by {
            if i > 0 {
                assert(s.skip(1)[i - 1] == s[i]);
            }
        }
        if at < s.skip(1).len() {
            assert(s.skip(1)[at] == s[at + 1]);
        }
    }
}

/// A route fits a list of patterns where it fits one of them, wherever that
/// stands in the list.
pub proof fn any_pattern_of_a_list_counts(
    route: Seq<char>,
    before: Seq<Seq<char>>,
    pattern: Seq<char>,
    behind: Seq<Seq<char>>,
)
    ensures
        glob::glob(route, pattern) ==> glob::glob_any(route, before.push(pattern) + behind),
        glob::glob_any(route, before.push(pattern) + behind) <==> glob::glob_any(route, before)
            || glob::glob(route, pattern) || glob::glob_any(route, behind),
        !glob::glob_any(route, Seq::empty()),
{
    let all = before.push(pattern) + behind;
    let n = before.len() as int;
    assert(all[n] == pattern);
    if glob::glob_any(route, before) {
        let i = choose|i: int| 0 <= i < before.len() && glob::glob(route, #[trigger] before[i]);
        assert(all[i] == before[i]);
    }
    if glob::glob_any(route, behind) {
        let i = choose|i: int| 0 <= i < behind.len() && glob::glob(route, #[trigger] behind[i]);
        assert(all[n + 1 + i] == behind[i]);
    }
    if glob::glob_any(route, all) {
        let i = choose|i: int| 0 <= i < all.len() && glob::glob(route, #[trigger] all[i]);
        if i < n {
            assert(before[i] == all[i]);
        } else if i > n {
            assert(behind[i - n - 1] == all[i]);
        }
    }
}

/// Of several patterns, the one of a single star lets every route through.
pub proof fn lone_star_fits_every_route(route: Seq<char>)
    ensures
        glob::glob(route, seq!['*']),
{
    let nothing = Seq::<char>::empty();
    assert(seq!['*'] + nothing =~= seq!['*']);
    glob::star_skips_any_run(route, nothing);
    assert(route.skip(route.len() as int).len() == 0);
}

/// A star may stand for a slash and more: it fits whatever stands between two
/// parts of a route.
pub proof fn star_fits_between_parts(before: Seq<char>, between: Seq<char>, behind: Seq<char>)
    requires
        glob::starless(before),
        glob::starless(behind),
    ensures
        glob::glob(before + between + behind, before.push('*') + behind),
{
    let route = before + between + behind;
    let tail = seq!['*'] + behind;
    assert(before.push('*') + behind =~= before + tail);
    glob::literal_part_stands_for_itself(route, before, tail);
    assert(route.subrange(0, before.len() as int) =~= before);
    let rest = route.skip(before.len() as int);
    assert(rest =~= between + behind);
    glob::leading_star_matches_by_suffix(rest, behind);
    assert(rest.subrange(rest.len() - behind.len(), rest.len() as int) =~= behind);
}

} // verus!
