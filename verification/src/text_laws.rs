//! What trimming, cutting, joining, ordering and writing do to text, and where paths lead.
use vstd::prelude::*;

use crate::config;
use crate::paths;
use crate::text;

verus! {

/// Whether nothing but white space stands in a text.
pub open spec fn is_blank(s: Seq<char>) -> bool {
    forall|i: int| 0 <= i < s.len() ==> text::is_white_space(#[trigger] s[i])
}

/// Trimming at the start leaves an end of the text, behind nothing but white space.
proof fn start_is_cut(s: Seq<char>)
    ensures
        ({
            let rest = text::trim_start_of(s);
            &&& rest.len() <= s.len()
            &&& rest == s.skip(s.len() - rest.len())
            &&& is_blank(s.take(s.len() - rest.len()))
            &&& rest.len() > 0 ==> !text::is_white_space(rest[0])
        }),
    decreases s.len(),
{
    let rest = text::trim_start_of(s);
    if s.len() > 0 && text::is_white_space(s[0]) {
        let tail = s.skip(1);
        start_is_cut(tail);
        let cut = s.len() - rest.len();
        assert(tail.skip(tail.len() - rest.len()) =~= s.skip(cut));
        assert forall|i: int| 0 <= i < cut implies text::is_white_space(
            #[trigger] s.take(cut)[i],
        ) by {
            if i > 0 {
                assert(s.take(cut)[i] == tail.take(cut - 1)[i - 1]);
            }
        }
    } else {
        assert(s.skip(0) =~= s);
    }
}

/// Trimming at the end leaves a beginning of the text, before nothing but white space.
proof fn end_is_cut(s: Seq<char>)
    ensures
        ({
            let rest = text::trim_end_of(s);
            &&& rest.len() <= s.len()
            &&& rest == s.take(rest.len() as int)
            &&& is_blank(s.skip(rest.len() as int))
            &&& rest.len() > 0 ==> !text::is_white_space(rest.last())
        }),
    decreases s.len(),
{
    let rest = text::trim_end_of(s);
    if s.len() > 0 && text::is_white_space(s.last()) {
        let front = s.drop_last();
        end_is_cut(front);
        let n = rest.len() as int;
        assert(front.take(n) =~= s.take(n));
        assert forall|i: int| 0 <= i < s.len() - n implies text::is_white_space(
            #[trigger] s.skip(n)[i],
        ) by {
            if i < s.len() - n - 1 {
                assert(s.skip(n)[i] == front.skip(n)[i]);
            }
        }
    } else {
        assert(s.take(s.len() as int) =~= s);
    }
}

/// A trimmed text is what stands between the white space at both ends: the text is that white
/// space, the trimmed text, and more white space. It neither begins nor ends with any itself.
pub proof fn trimming_takes_blanks_from_both_ends(s: Seq<char>)
    ensures
        ({
            let trimmed = text::trim_of(s);
            &&& exists|start: int|
                {
                    &&& 0 <= start <= start + trimmed.len() <= s.len()
                    &&& #[trigger] s.subrange(start, start + trimmed.len() as int) == trimmed
                    &&& is_blank(s.take(start))
                    &&& is_blank(s.skip(start + trimmed.len() as int))
                }
            &&& trimmed.len() > 0 ==> !text::is_white_space(trimmed[0]) && !text::is_white_space(
                trimmed.last(),
            )
        }),
{
    let rest = text::trim_start_of(s);
    let trimmed = text::trim_of(s);
    start_is_cut(s);
    end_is_cut(rest);
    let start = s.len() - rest.len();
    let stop = start + trimmed.len() as int;
    assert(s.subrange(start, stop) =~= rest.take(trimmed.len() as int));
    assert(s.skip(stop) =~= rest.skip(trimmed.len() as int));
    if trimmed.len() > 0 {
        assert(trimmed[0] == rest[0]);
    }
}

/// A text is blank exactly where trimming leaves nothing.
pub proof fn blanks_are_trimmed_away(s: Seq<char>)
    ensures
        text::trim_of(s).len() == 0 <==> is_blank(s),
{
    trimming_takes_blanks_from_both_ends(s);
    let trimmed = text::trim_of(s);
    let start = choose|start: int|
        {
            &&& 0 <= start <= start + trimmed.len() <= s.len()
            &&& #[trigger] s.subrange(start, start + trimmed.len() as int) == trimmed
            &&& is_blank(s.take(start))
            &&& is_blank(s.skip(start + trimmed.len() as int))
        };
    if trimmed.len() == 0 {
        assert forall|i: int| 0 <= i < s.len() implies text::is_white_space(#[trigger] s[i]) by {
            if i < start {
                assert(s.take(start)[i] == s[i]);
            } else {
                assert(s.skip(start)[i - start] == s[i]);
            }
        }
    } else if is_blank(s) {
        assert(trimmed[0] == s[start]);
    }
}

/// Among the characters up to the delete character, the white space is the blank and the five from
/// the tabulator to the carriage return. No letter and no digit is.
pub proof fn plain_white_space(c: char)
    ensures
        c <= '\u{7f}' ==> (text::is_white_space(c) <==> c == ' ' || c == '\t' || c == '\n' || c
            == '\u{b}' || c == '\u{c}' || c == '\r'),
        text::is_alphanumeric(c) ==> !text::is_white_space(c),
{
}

/// Lower case leaves no capital, undoes no further change, keeps what is a letter or a digit and
/// leaves everything but capitals as it is. The capital of the result is that of the character.
pub proof fn lower_case_has_no_capitals(c: char)
    ensures
        !('A' <= text::lower_case(c) <= 'Z'),
        text::lower_case(text::lower_case(c)) == text::lower_case(c),
        text::is_alphanumeric(text::lower_case(c)) == text::is_alphanumeric(c),
        !('A' <= c <= 'Z') ==> text::lower_case(c) == c,
        'A' <= c <= 'Z' ==> text::upper_case(text::lower_case(c)) == c,
        'a' <= c <= 'z' ==> text::lower_case(text::upper_case(c)) == c,
{
}

/// A text in lower case is as long as the text and has no capital. Its case no longer matters.
pub proof fn case_does_not_matter(s: Seq<char>)
    ensures
        text::lower_case_of(s).len() == s.len(),
        forall|i: int|
            0 <= i < s.len() ==> !('A' <= #[trigger] text::lower_case_of(s)[i] <= 'Z') && (
            text::lower_case_of(s)[i] == s[i] || 'A' <= s[i] <= 'Z'),
        text::lower_case_of(text::upper_case_of(s)) == text::lower_case_of(s),
        text::lower_case_of(text::lower_case_of(s)) == text::lower_case_of(s),
{
    assert(text::lower_case_of(text::upper_case_of(s)) =~= text::lower_case_of(s));
    assert(text::lower_case_of(text::lower_case_of(s)) =~= text::lower_case_of(s));
}

/// The value of a decimal number is that number, and it has no leading zero.
pub proof fn decimals_are_read_back(n: nat)
    ensures
        config::is_digits(text::decimal_of(n)),
        config::digits_value(text::decimal_of(n)) == n,
        n > 0 ==> text::decimal_of(n)[0] != '0',
    decreases n,
{
    let s = text::decimal_of(n);
    reveal_with_fuel(config::digits_value, 2);
    if n < 10 {
        assert(s.drop_last() =~= Seq::empty());
        assert(s.last() as nat - '0' as nat == n);
    } else {
        decimals_are_read_back(n / 10);
        assert(s.drop_last() =~= text::decimal_of(n / 10));
        assert(s[0] == text::decimal_of(n / 10)[0]);
        assert(n == n / 10 * 10 + n % 10);
        assert(s.last() as nat - '0' as nat == n % 10);
    }
}

/// A text that was cut at a mark and joined with it again is the text.
pub proof fn join_undoes_split(s: Seq<char>, sep: char)
    ensures
        text::join_of(text::split_of(s, sep), seq![sep]) == s,
    decreases s.len(),
{
    let pieces = text::split_of(s, sep);
    let mark = seq![sep];
    if s.len() == 0 {
        assert(text::join_of(pieces, mark) =~= s);
    } else {
        let front = s.drop_last();
        let before = text::split_of(front, sep);
        join_undoes_split(front, sep);
        text::split_is_some(front, sep);
        if s.last() == sep {
            assert(pieces.drop_last() =~= before);
            assert(text::join_of(pieces, mark) =~= text::join_of(before, mark) + mark
                + Seq::<char>::empty());
            assert(text::join_of(pieces, mark) =~= s);
        } else {
            let last = before.last().push(s.last());
            assert(pieces.drop_last() =~= before.drop_last());
            assert(pieces.last() == last);
            if before.len() == 1 {
                assert(pieces =~= seq![last]);
                assert(text::join_of(pieces, mark) =~= s);
            } else {
                assert(text::join_of(pieces, mark) =~= text::join_of(before, mark).push(s.last()));
                assert(text::join_of(pieces, mark) =~= s);
            }
        }
    }
}

/// A text that is cut at a mark between two parts gives the pieces of the one and then those of the
/// other.
pub proof fn split_goes_by_parts(a: Seq<char>, b: Seq<char>, sep: char)
    ensures
        text::split_of(a + seq![sep] + b, sep) == text::split_of(a, sep) + text::split_of(b, sep),
    decreases b.len(),
{
    let whole = a + seq![sep] + b;
    if b.len() == 0 {
        assert(whole.drop_last() =~= a);
        assert(text::split_of(whole, sep) =~= text::split_of(a, sep) + text::split_of(b, sep));
    } else {
        split_goes_by_parts(a, b.drop_last(), sep);
        text::split_is_some(b.drop_last(), sep);
        assert(whole.drop_last() =~= a + seq![sep] + b.drop_last());
        assert(whole.last() == b.last());
        assert(text::split_of(whole, sep) =~= text::split_of(a, sep) + text::split_of(b, sep));
    }
}

/// A text has each of its parts, a beginning is a part, and a part of a part is one.
pub proof fn texts_have_their_parts(a: Seq<char>, part: Seq<char>, b: Seq<char>)
    ensures
        text::has_part(a + part + b, part),
        text::has_prefix(part + b, part),
        text::has_part(part, a) ==> text::has_part(part + b, a),
        text::has_part(a, part) ==> part.len() <= a.len(),
{
    assert((a + part + b).subrange(a.len() as int, (a.len() + part.len()) as int) =~= part);
    assert(text::is_at(a + part + b, part, a.len() as int));
    assert((part + b).take(part.len() as int) =~= part);
    if text::has_part(part, a) {
        let i = choose|i: int| text::is_at(part, a, i);
        assert((part + b).subrange(i, i + a.len()) =~= part.subrange(i, i + a.len()));
        assert(text::is_at(part + b, a, i));
    }
}

/// The first character in which two texts differ decides which stands before the other: that with
/// the smaller one. A text stands before each longer one that begins with it.
pub proof fn the_first_difference_decides(
    head: Seq<char>,
    a: char,
    rest: Seq<char>,
    b: char,
    other: Seq<char>,
)
    ensures
        a != b ==> text::is_before(head.push(a) + rest, head.push(b) + other) == (a < b),
        text::is_before(head, head.push(a) + rest),
        !text::is_before(head.push(a) + rest, head),
    decreases head.len(),
{
    let x = head.push(a) + rest;
    let y = head.push(b) + other;
    if head.len() > 0 {
        let tail = head.skip(1);
        the_first_difference_decides(tail, a, rest, b, other);
        assert(x.skip(1) =~= tail.push(a) + rest);
        assert(y.skip(1) =~= tail.push(b) + other);
    }
}

/// A path below a directory leads to the steps of the directory, and then to its own.
pub proof fn joined_paths_go_on(root: Seq<char>, path: Seq<char>)
    requires
        root.len() > 0,
        !paths::is_absolute(path),
    ensures
        paths::parts_of(paths::joined(root, path)) == paths::parts_of(root) + paths::pieces_of(
            path,
        ).filter(paths::steps()),
        paths::is_within(paths::joined(root, path), root),
{
    reveal_strlit("/");
    let whole = paths::joined(root, path);
    let steps = paths::steps();
    let own = paths::pieces_of(path).filter(steps);
    let base = if root.last() == '/' {
        root.drop_last()
    } else {
        root
    };
    assert(whole =~= base + seq!['/'] + path);
    split_goes_by_parts(base, path, '/');
    text::split_is_some(base, '/');
    text::split_is_some(path, '/');
    let first = paths::pieces_of(base);
    assert(paths::pieces_of(whole) == first + paths::pieces_of(path));
    Seq::filter_distributes_over_add(first, paths::pieces_of(path), steps);
    if root.last() == '/' {
        split_goes_by_parts(base, Seq::empty(), '/');
        assert(root =~= base + seq!['/'] + Seq::<char>::empty());
        let none = seq![Seq::<char>::empty()];
        assert(paths::pieces_of(root) == first + none);
        Seq::filter_distributes_over_add(first, none, steps);
        reveal(Seq::filter);
        assert(none.drop_last() =~= Seq::empty());
        assert(Seq::<Seq<char>>::empty().filter(steps) =~= Seq::empty());
        assert(!steps(none.last()));
        assert(none.filter(steps) =~= Seq::empty());
        assert(first + none =~= first.push(Seq::empty()));
        assert((first + none)[0] == first[0]);
        assert(first.filter(steps) =~= paths::pieces_of(root).filter(steps));
    }
    assert((first + paths::pieces_of(path))[0] == first[0]);
    assert(whole[0] == root[0]);
    assert(paths::start_of(whole) == paths::start_of(root));
    assert(paths::parts_of(whole) =~= paths::parts_of(root) + own);
    assert(paths::parts_of(root).is_prefix_of(paths::parts_of(whole)));
}

/// An absolute path leads where it leads, whatever directory it is taken from, and so does any path
/// from nowhere.
pub proof fn absolute_paths_stand_alone(root: Seq<char>, path: Seq<char>)
    ensures
        paths::is_absolute(path) || root.len() == 0 ==> paths::joined(root, path) == path,
        paths::is_absolute(path) <==> text::has_prefix(path, seq!['/']),
        paths::is_absolute(root) && !paths::is_absolute(path) ==> paths::is_absolute(
            paths::joined(root, path),
        ),
{
    if path.len() > 0 {
        assert(path.take(1) =~= seq![path[0]]);
        assert(seq!['/'][0] == '/');
    }
}

} // verus!
