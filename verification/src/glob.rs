//! Route patterns: a `*` in a pattern stands for any run of characters, also an
//! empty one, and every other character for itself.

use vstd::prelude::*;

use crate::text;

verus! {

/// `route` is one of the texts that `pattern` stands for.
pub open spec fn glob(route: Seq<char>, pattern: Seq<char>) -> bool
    decreases pattern.len(), route.len(),
{
    if pattern.len() == 0 {
        route.len() == 0
    } else if pattern[0] == '*' {
        ||| glob(route, pattern.skip(1))
        ||| route.len() > 0 && glob(route.skip(1), pattern)
    } else {
        route.len() > 0 && route[0] == pattern[0] && glob(route.skip(1), pattern.skip(1))
    }
}

/// One of the patterns stands for `route`.
pub open spec fn glob_any(route: Seq<char>, patterns: Seq<Seq<char>>) -> bool {
    exists|i: int| 0 <= i < patterns.len() && glob(route, #[trigger] patterns[i])
}

/// No character of `s` is a `*`.
pub open spec fn starless(s: Seq<char>) -> bool {
    forall|i: int| 0 <= i < s.len() ==> #[trigger] s[i] != '*'
}

/// A `*` skips any number of characters of the route.
pub proof fn star_skips_any_run(route: Seq<char>, rest: Seq<char>)
    ensures
        glob(route, seq!['*'] + rest) <==> exists|k: int|
            0 <= k <= route.len() && glob(#[trigger] route.skip(k), rest),
    decreases route.len(),
{
    let pattern = seq!['*'] + rest;
    assert(pattern.skip(1) =~= rest);
    assert(route.skip(0) =~= route);
    if route.len() > 0 {
        star_skips_any_run(route.skip(1), rest);
        if exists|k: int| 0 <= k <= route.len() && glob(#[trigger] route.skip(k), rest) {
            let k = choose|k: int| 0 <= k <= route.len() && glob(#[trigger] route.skip(k), rest);
            if k > 0 {
                assert(route.skip(1).skip(k - 1) =~= route.skip(k));
            }
        }
        if glob(route.skip(1), pattern) {
            let k = choose|k: int|
                0 <= k <= route.skip(1).len() && glob(#[trigger] route.skip(1).skip(k), rest);
            assert(route.skip(1).skip(k) =~= route.skip(k + 1));
        }
    } else {
        assert forall|k: int| 0 <= k <= route.len() implies #[trigger] route.skip(k) == route by {
            assert(route.skip(k) =~= route);
        }
    }
}

/// A part of a pattern without `*` is matched by the same characters alone.
pub proof fn literal_part_stands_for_itself(
    route: Seq<char>,
    part: Seq<char>,
    rest: Seq<char>,
)
    requires
        starless(part),
    ensures
        glob(route, part + rest) <==> part.is_prefix_of(route) && glob(
            route.skip(part.len() as int),
            rest,
        ),
    decreases part.len(),
{
    let pattern = part + rest;
    if part.len() == 0 {
        assert(pattern =~= rest);
        assert(route.skip(0) =~= route);
        assert(route.subrange(0, 0) =~= part);
    } else {
        assert(pattern[0] == part[0]);
        assert(pattern.skip(1) =~= part.skip(1) + rest);
        if route.len() > 0 {
            literal_part_stands_for_itself(route.skip(1), part.skip(1), rest);
            if part.len() <= route.len() {
                assert(route.skip(1).skip(part.skip(1).len() as int) =~= route.skip(
                    part.len() as int,
                ));
            }
            if route[0] == part[0] && part.skip(1).is_prefix_of(route.skip(1)) {
                assert forall|i: int| 0 <= i < part.len() implies #[trigger] part[i]
                    == route[i] by {
                    if i > 0 {
                        assert(part.skip(1)[i - 1] == route.skip(1).subrange(
                            0,
                            part.skip(1).len() as int,
                        )[i - 1]);
                    }
                }
                assert(part =~= route.subrange(0, part.len() as int));
            }
            if part.is_prefix_of(route) {
                assert(part[0] == route.subrange(0, part.len() as int)[0]);
                assert(part.skip(1) =~= route.skip(1).subrange(0, part.skip(1).len() as int));
            }
        }
    }
}

/// A pattern without `*` stands for its own text alone.
pub proof fn starless_pattern_is_exact(route: Seq<char>, pattern: Seq<char>)
    requires
        starless(pattern),
    ensures
        glob(route, pattern) <==> route == pattern,
{
    let empty = Seq::<char>::empty();
    literal_part_stands_for_itself(route, pattern, empty);
    assert(pattern + empty =~= pattern);
    if pattern.is_prefix_of(route) && route.skip(pattern.len() as int).len() == 0 {
        assert(route.subrange(0, pattern.len() as int) =~= route);
    }
    assert(pattern.subrange(0, pattern.len() as int) =~= pattern);
}

/// Every pattern stands for its own text.
pub proof fn pattern_matches_itself(pattern: Seq<char>)
    ensures
        glob(pattern, pattern),
    decreases pattern.len(),
{
    if pattern.len() > 0 {
        pattern_matches_itself(pattern.skip(1));
        if pattern[0] == '*' {
            let rest = pattern.skip(1);
            assert(seq!['*'] + rest =~= pattern);
            star_skips_any_run(pattern, rest);
        }
    }
}

/// The pattern `*` stands for every route, and a pattern that ends in its only
/// `*` for the routes that start with what stands before it.
pub proof fn trailing_star_matches_by_prefix(route: Seq<char>, prefix: Seq<char>)
    requires
        starless(prefix),
    ensures
        glob(route, prefix.push('*')) <==> prefix.is_prefix_of(route),
{
    let empty = Seq::<char>::empty();
    let star = seq!['*'] + empty;
    assert(prefix.push('*') =~= prefix + star);
    literal_part_stands_for_itself(route, prefix, star);
    if prefix.is_prefix_of(route) {
        let tail = route.skip(prefix.len() as int);
        star_skips_any_run(tail, empty);
        assert(glob(tail.skip(tail.len() as int), empty));
    }
}

/// A pattern that starts with its only `*` stands for the routes that end in
/// what stands behind it.
pub proof fn leading_star_matches_by_suffix(route: Seq<char>, suffix: Seq<char>)
    requires
        starless(suffix),
    ensures
        glob(route, seq!['*'] + suffix) <==> suffix.is_suffix_of(route),
{
    star_skips_any_run(route, suffix);
    assert forall|k: int| 0 <= k <= route.len() implies (glob(#[trigger] route.skip(k), suffix)
        <==> route.skip(k) == suffix) by {
        starless_pattern_is_exact(route.skip(k), suffix);
    }
    if suffix.is_suffix_of(route) {
        let k = route.len() - suffix.len();
        assert(route.skip(k) =~= suffix);
    }
    if exists|k: int| 0 <= k <= route.len() && glob(#[trigger] route.skip(k), suffix) {
        let k = choose|k: int| 0 <= k <= route.len() && glob(#[trigger] route.skip(k), suffix);
        assert(route.subrange(route.len() - suffix.len(), route.len() as int) =~= route.skip(k));
    }
}

/// What a pattern with a `*` in front matches from a later position, it
/// matches from an earlier one.
proof fn lemma_star_matches_earlier(route: Seq<char>, rest: Seq<char>, j: int)
    requires
        0 <= j <= route.len(),
        glob(route.skip(j), seq!['*'] + rest),
    ensures
        glob(route, seq!['*'] + rest),
{
    star_skips_any_run(route.skip(j), rest);
    let k = choose|k: int|
        0 <= k <= route.skip(j).len() && glob(#[trigger] route.skip(j).skip(k), rest);
    assert(route.skip(j).skip(k) =~= route.skip(j + k));
    star_skips_any_run(route, rest);
}

/// Between two `*`, taking the first place where the part stands loses no match.
proof fn lemma_first_place_suffices(route: Seq<char>, part: Seq<char>, rest: Seq<char>, at: int)
    requires
        starless(part),
        text::occurs_at(route, part, at),
        forall|j: int| 0 <= j < at ==> !text::occurs_at(route, part, j),
    ensures
        glob(route, seq!['*'] + (part + (seq!['*'] + rest))) == glob(
            route.skip(at + part.len()),
            seq!['*'] + rest,
        ),
{
    let tail = seq!['*'] + rest;
    let n = part.len() as int;
    star_skips_any_run(route, part + tail);
    assert forall|k: int| 0 <= k <= route.len() implies (glob(#[trigger] route.skip(k), part + tail)
        <==> text::occurs_at(route, part, k) && glob(route.skip(k + n), tail)) by {
        literal_part_stands_for_itself(route.skip(k), part, tail);
        if k + n <= route.len() {
            assert(route.skip(k).subrange(0, n) =~= route.subrange(k, k + n));
            assert(route.skip(k).skip(n) =~= route.skip(k + n));
        }
    }
    if glob(route.skip(at + n), tail) {
        assert(glob(route.skip(at), part + tail));
    }
    if exists|k: int| 0 <= k <= route.len() && glob(#[trigger] route.skip(k), part + tail) {
        let k = choose|k: int| 0 <= k <= route.len() && glob(#[trigger] route.skip(k), part + tail);
        assert(at <= k);
        assert(route.skip(at + n).skip(k - at) =~= route.skip(k + n));
        lemma_star_matches_earlier(route.skip(at + n), rest, k - at);
    }
}

/// Between two `*`, a part that stands nowhere rules out every match.
proof fn lemma_no_place_no_match(route: Seq<char>, part: Seq<char>, rest: Seq<char>)
    requires
        starless(part),
        !text::occurs_in(route, part),
    ensures
        !glob(route, seq!['*'] + (part + rest)),
{
    star_skips_any_run(route, part + rest);
    assert forall|k: int| 0 <= k <= route.len() implies !glob(
        #[trigger] route.skip(k),
        part + rest,
    ) by {
        literal_part_stands_for_itself(route.skip(k), part, rest);
        assert(!text::occurs_at(route, part, k));
        if k + part.len() <= route.len() {
            assert(route.skip(k).subrange(0, part.len() as int) =~= route.subrange(
                k,
                k + part.len(),
            ));
        }
    }
}

/// The first position of a `*` at or behind `from`, or the end of the pattern.
fn next_star(pattern: &Vec<char>, from: usize) -> (at: usize)
    requires
        from <= pattern.len(),
    ensures
        from <= at <= pattern.len(),
        starless(pattern@.subrange(from as int, at as int)),
        at < pattern.len() ==> pattern[at as int] == '*',
{
    let mut at: usize = from;
    while at < pattern.len() && pattern[at] != '*'
        invariant
            from <= at <= pattern.len(),
            starless(pattern@.subrange(from as int, at as int)),
        decreases pattern.len() - at,
    {
        at = at + 1;
    }
    at
}

/// The characters of `s` from `from` up to `to`.
fn slice_of(s: &Vec<char>, from: usize, to: usize) -> (part: Vec<char>)
    requires
        from <= to <= s.len(),
    ensures
        part@ == s@.subrange(from as int, to as int),
{
    let mut part: Vec<char> = Vec::new();
    let mut i: usize = from;
    while i < to
        invariant
            from <= i <= to <= s.len(),
            part@ == s@.subrange(from as int, i as int),
        decreases to - i,
    {
        part.push(s[i]);
        assert(s@.subrange(from as int, i + 1) =~= s@.subrange(from as int, i as int).push(
            s@[i as int],
        ));
        i = i + 1;
    }
    part
}

/// Whether `pattern` stands for `route`.
pub fn matches_route(route: &str, pattern: &str) -> (yes: bool)
    ensures
        yes == glob(route@, pattern@),
{
    let r: Vec<char> = text::chars_of(route);
    let p: Vec<char> = text::chars_of(pattern);
    let first: usize = next_star(&p, 0);
    let head: Vec<char> = slice_of(&p, 0, first);
    if first == p.len() {
        proof {
            assert(head@ =~= p@);
            starless_pattern_is_exact(r@, p@);
        }
        return text::same(route, pattern);
    }
    proof {
        assert(p@ =~= head@ + p@.skip(first as int));
        literal_part_stands_for_itself(r@, head@, p@.skip(first as int));
    }
    if !text::occurs_here(&r, &head, 0) {
        return false;
    }
    let mut from: usize = first;
    let mut star: usize = first;
    loop
        invariant
            r@ == route@,
            p@ == pattern@,
            from <= r.len(),
            star < p.len(),
            p[star as int] == '*',
            glob(r@, p@) == glob(r@.skip(from as int), p@.skip(star as int)),
        decreases p.len() - star,
    {
        let next: usize = next_star(&p, star + 1);
        let part: Vec<char> = slice_of(&p, star + 1, next);
        let ghost here = r@.skip(from as int);
        if next == p.len() {
            proof {
                assert(p@.skip(star as int) =~= seq!['*'] + part@);
                leading_star_matches_by_suffix(here, part@);
                if part@.len() <= here.len() {
                    assert(here.subrange(here.len() - part@.len(), here.len() as int)
                        =~= r@.subrange(r@.len() - part@.len(), r@.len() as int));
                }
            }
            return part.len() <= r.len() - from && text::occurs_here(
                &r,
                &part,
                r.len() - part.len(),
            );
        }
        let ghost rest = p@.skip(next + 1);
        proof {
            assert(p@.skip(star as int) =~= seq!['*'] + (part@ + (seq!['*'] + rest)));
            assert(p@.skip(next as int) =~= seq!['*'] + rest);
            assert forall|j: int| text::occurs_at(here, part@, j) implies text::occurs_at(
                r@,
                part@,
                from + j,
            ) by {
                assert(here.subrange(j, j + part@.len()) =~= r@.subrange(
                    from + j,
                    from + j + part@.len(),
                ));
            }
        }
        match text::find_from(&r, &part, from) {
            Some(at) => {
                proof {
                    let k = at - from;
                    assert(r@.subrange(at as int, at + part@.len()) =~= here.subrange(
                        k,
                        k + part@.len(),
                    ));
                    lemma_first_place_suffices(here, part@, rest, k);
                    assert(here.skip(k + part@.len()) =~= r@.skip(at + part@.len()));
                }
                from = at + part.len();
                star = next;
            },
            None => {
                proof {
                    if text::occurs_in(here, part@) {
                        let j = choose|j: int| text::occurs_at(here, part@, j);
                        assert(text::occurs_at(r@, part@, from + j));
                    }
                    lemma_no_place_no_match(here, part@, seq!['*'] + rest);
                }
                return false;
            },
        }
    }
}

/// Whether one of the patterns stands for `route`.
pub fn matches_any(route: &str, patterns: &Vec<String>) -> (yes: bool)
    ensures
        yes == glob_any(route@, text::texts(patterns@)),
{
    let mut i: usize = 0;
    while i < patterns.len()
        invariant
            i <= patterns.len(),
            forall|j: int| 0 <= j < i ==> !glob(route@, #[trigger] text::texts(patterns@)[j]),
        decreases patterns.len() - i,
    {
        if matches_route(route, patterns[i].as_str()) {
            assert(text::texts(patterns@)[i as int] == patterns[i as int]@);
            return true;
        }
        i = i + 1;
    }
    false
}

} // verus!
