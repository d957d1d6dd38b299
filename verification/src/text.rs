//! Operations on character sequences that the rest of the library builds on.
use vstd::prelude::*;
use vstd::string::*;

use crate::data;

verus! {

/// Whether `c` has the Unicode `White_Space` property.
pub open spec fn is_white_space(c: char) -> bool {
    ||| '\u{9}' <= c <= '\u{d}'
    ||| c == ' '
    ||| c == '\u{85}'
    ||| c == '\u{a0}'
    ||| c == '\u{1680}'
    ||| '\u{2000}' <= c <= '\u{200a}'
    ||| c == '\u{2028}'
    ||| c == '\u{2029}'
    ||| c == '\u{202f}'
    ||| c == '\u{205f}'
    ||| c == '\u{3000}'
}

/// Decides `is_white_space`.
pub fn white_space(c: char) -> (res: bool)
    ensures
        res == is_white_space(c),
{
    ('\u{9}' <= c && c <= '\u{d}') || c == ' ' || c == '\u{85}' || c == '\u{a0}' || c == '\u{1680}'
        || ('\u{2000}' <= c && c <= '\u{200a}') || c == '\u{2028}' || c == '\u{2029}'
        || c == '\u{202f}' || c == '\u{205f}' || c == '\u{3000}'
}

/// Whether `c` is an ASCII letter or digit.
pub open spec fn is_alphanumeric(c: char) -> bool {
    'a' <= c <= 'z' || 'A' <= c <= 'Z' || '0' <= c <= '9'
}

/// Decides `is_alphanumeric`.
pub fn alphanumeric(c: char) -> (res: bool)
    ensures
        res == is_alphanumeric(c),
{
    ('a' <= c && c <= 'z') || ('A' <= c && c <= 'Z') || ('0' <= c && c <= '9')
}

/// The ASCII lower case of `c`; every other character is its own lower case.
pub open spec fn lower_case(c: char) -> char {
    if 'A' <= c <= 'Z' {
        (c as int + 32) as char
    } else {
        c
    }
}

/// Computes `lower_case`.
pub fn lower(c: char) -> (res: char)
    ensures
        res == lower_case(c),
{
    if 'A' <= c && c <= 'Z' {
        let code: u8 = c as u8;
        (code + 32) as char
    } else {
        c
    }
}

/// `String::push`: appends one character at the end.
pub assume_specification[ String::push ](s: &mut String, c: char)
    ensures
        final(s)@ == old(s)@.push(c),
;

/// A text as it is written in a message: between double quotes, with some characters escaped.
pub uninterp spec fn shown_of(s: Seq<char>) -> Seq<char>;

/// The `Debug` form of a `str`, by `format!`. Claims that it is a function of the text.
#[verifier::external_body]
pub(crate) fn shown(s: &str) -> (res: String)
    ensures
        res@ == shown_of(s@),
{
    format!("{s:?}")
}

/// The characters of `s`, in order.
pub fn chars_of(s: &str) -> (res: Vec<char>)
    ensures
        res@ == s@,
{
    let mut res: Vec<char> = Vec::new();
    for c in iter: s.chars()
        invariant
            iter.seq() == s@,
            res@ == s@.take(iter.index()),
    {
        proof {
            assert(s@.take(iter.index() + 1) =~= s@.take(iter.index()).push(c));
        }
        res.push(c);
    }
    proof {
        assert(s@.take(s@.len() as int) =~= s@);
    }
    res
}

/// The string whose characters are `chars`.
pub fn string_of(chars: &Vec<char>) -> (res: String)
    ensures
        res@ == chars@,
{
    let mut res = String::new();
    for i in 0..chars.len()
        invariant
            res@ == chars@.take(i as int),
    {
        proof {
            assert(chars@.take(i + 1) =~= chars@.take(i as int).push(chars@[i as int]));
        }
        res.push(chars[i]);
    }
    proof {
        assert(chars@.take(chars@.len() as int) =~= chars@);
    }
    res
}

/// Whether the two strings hold the same characters.
pub fn same(a: &str, b: &str) -> (res: bool)
    ensures
        res == (a@ == b@),
{
    a.to_owned() == b.to_owned()
}

/// `s` without its leading white space.
pub open spec fn trim_start_of(s: Seq<char>) -> Seq<char>
    decreases s.len(),
{
    if s.len() > 0 && is_white_space(s[0]) {
        trim_start_of(s.skip(1))
    } else {
        s
    }
}

/// `s` without its trailing white space.
pub open spec fn trim_end_of(s: Seq<char>) -> Seq<char>
    decreases s.len(),
{
    if s.len() > 0 && is_white_space(s.last()) {
        trim_end_of(s.drop_last())
    } else {
        s
    }
}

/// `s` without its leading and trailing white space.
pub open spec fn trim_of(s: Seq<char>) -> Seq<char> {
    trim_end_of(trim_start_of(s))
}

/// `s` without its leading and trailing white space.
pub fn trim(s: &str) -> (res: &str)
    ensures
        res@ == trim_of(s@),
{
    let chars = chars_of(s);
    let mut from: usize = 0;
    assert(s@.skip(0) =~= s@);
    while from < chars.len() && white_space(chars[from])
        invariant
            chars@ == s@,
            from <= chars@.len(),
            trim_start_of(s@) == trim_start_of(s@.skip(from as int)),
        decreases chars@.len() - from,
    {
        proof {
            assert(s@.skip(from as int).skip(1) =~= s@.skip(from + 1));
        }
        from = from + 1;
    }
    let ghost rest = s@.skip(from as int);
    assert(trim_start_of(s@) == rest);
    let mut to: usize = chars.len();
    while from < to && white_space(chars[to - 1])
        invariant
            chars@ == s@,
            from <= to <= chars@.len(),
            rest == s@.skip(from as int),
            trim_end_of(rest) == trim_end_of(s@.subrange(from as int, to as int)),
        decreases to,
    {
        proof {
            let part = s@.subrange(from as int, to as int);
            assert(part.drop_last() =~= s@.subrange(from as int, to - 1));
        }
        to = to - 1;
    }
    s.substring_char(from, to)
}

/// `s` without the characters `c` that it starts with.
pub open spec fn trim_char_start_of(s: Seq<char>, c: char) -> Seq<char>
    decreases s.len(),
{
    if s.len() > 0 && s[0] == c {
        trim_char_start_of(s.skip(1), c)
    } else {
        s
    }
}

/// `s` without the characters `c` that it ends with.
pub open spec fn trim_char_end_of(s: Seq<char>, c: char) -> Seq<char>
    decreases s.len(),
{
    if s.len() > 0 && s.last() == c {
        trim_char_end_of(s.drop_last(), c)
    } else {
        s
    }
}

/// `s` without the characters `c` that it starts and ends with.
pub open spec fn trim_char_of(s: Seq<char>, c: char) -> Seq<char> {
    trim_char_end_of(trim_char_start_of(s, c), c)
}

/// Computes `trim_char_of`.
pub fn trim_char(s: &str, c: char) -> (res: &str)
    ensures
        res@ == trim_char_of(s@, c),
{
    let chars = chars_of(s);
    let mut from: usize = 0;
    assert(s@.skip(0) =~= s@);
    while from < chars.len() && chars[from] == c
        invariant
            chars@ == s@,
            from <= chars@.len(),
            trim_char_start_of(s@, c) == trim_char_start_of(s@.skip(from as int), c),
        decreases chars@.len() - from,
    {
        proof {
            assert(s@.skip(from as int).skip(1) =~= s@.skip(from + 1));
        }
        from = from + 1;
    }
    let ghost rest = s@.skip(from as int);
    assert(trim_char_start_of(s@, c) == rest);
    let mut to: usize = chars.len();
    while from < to && chars[to - 1] == c
        invariant
            chars@ == s@,
            from <= to <= chars@.len(),
            rest == s@.skip(from as int),
            trim_char_end_of(rest, c) == trim_char_end_of(
                s@.subrange(from as int, to as int),
                c,
            ),
        decreases to,
    {
        proof {
            let part = s@.subrange(from as int, to as int);
            assert(part.drop_last() =~= s@.subrange(from as int, to - 1));
        }
        to = to - 1;
    }
    s.substring_char(from, to)
}

/// What is trimmed stands in the text, and neither starts nor ends with the character.
pub proof fn trim_char_is_part(s: Seq<char>, c: char)
    ensures
        ({
            let trimmed = trim_char_of(s, c);
            &&& forall|i: int|
                0 <= i < trimmed.len() ==> exists|k: int|
                    0 <= k < s.len() && s[k] == #[trigger] trimmed[i]
            &&& trimmed.len() > 0 ==> trimmed[0] != c && trimmed.last() != c
            &&& trimmed.len() <= s.len()
        }),
{
    trim_char_start_is_part(s, c);
    trim_char_end_is_part(trim_char_start_of(s, c), c);
    let start = trim_char_start_of(s, c);
    let trimmed = trim_char_of(s, c);
    assert forall|i: int| 0 <= i < trimmed.len() implies exists|k: int|
        0 <= k < s.len() && s[k] == #[trigger] trimmed[i] by {
        assert(trimmed[i] == start[i]);
        assert(s[i + (s.len() - start.len())] == trimmed[i]);
    }
}

proof fn trim_char_start_is_part(s: Seq<char>, c: char)
    ensures
        ({
            let rest = trim_char_start_of(s, c);
            &&& rest.len() <= s.len()
            &&& rest == s.skip(s.len() - rest.len())
            &&& rest.len() > 0 ==> rest[0] != c
        }),
    decreases s.len(),
{
    if s.len() > 0 && s[0] == c {
        trim_char_start_is_part(s.skip(1), c);
        let rest = trim_char_start_of(s, c);
        assert(s.skip(1).skip(s.len() - 1 - rest.len()) =~= s.skip(s.len() - rest.len()));
    } else {
        assert(s.skip(0) =~= s);
    }
}

proof fn trim_char_end_is_part(s: Seq<char>, c: char)
    ensures
        ({
            let rest = trim_char_end_of(s, c);
            &&& rest.len() <= s.len()
            &&& rest == s.take(rest.len() as int)
            &&& rest.len() > 0 ==> rest.last() != c
        }),
    decreases s.len(),
{
    if s.len() > 0 && s.last() == c {
        trim_char_end_is_part(s.drop_last(), c);
        let rest = trim_char_end_of(s, c);
        assert(s.drop_last().take(rest.len() as int) =~= s.take(rest.len() as int));
    } else {
        assert(s.take(s.len() as int) =~= s);
    }
}

/// The ASCII lower case of every character of `s`.
pub open spec fn lower_case_of(s: Seq<char>) -> Seq<char> {
    s.map_values(|c: char| lower_case(c))
}

/// The ASCII upper case of `c`; every other character is its own upper case.
pub open spec fn upper_case(c: char) -> char {
    if 'a' <= c <= 'z' {
        (c as int - 32) as char
    } else {
        c
    }
}

/// The ASCII upper case of every character of `s`.
pub open spec fn upper_case_of(s: Seq<char>) -> Seq<char> {
    s.map_values(|c: char| upper_case(c))
}

/// Computes `lower_case_of`.
pub fn to_lower_case(s: &str) -> (res: String)
    ensures
        res@ == lower_case_of(s@),
{
    let chars = chars_of(s);
    let mut res = String::new();
    for i in 0..chars.len()
        invariant
            chars@ == s@,
            res@ == lower_case_of(s@.take(i as int)),
    {
        proof {
            assert(lower_case_of(s@.take(i + 1)) =~= lower_case_of(s@.take(i as int)).push(
                lower_case(s@[i as int]),
            ));
        }
        res.push(lower(chars[i]));
    }
    proof {
        assert(s@.take(s@.len() as int) =~= s@);
    }
    res
}

/// `a` followed by `b`.
pub fn concat2(a: &str, b: &str) -> (res: String)
    ensures
        res@ == a@ + b@,
{
    let mut res = a.to_owned();
    res.append(b);
    res
}

/// `a`, `b` and `c` in a row.
pub fn concat3(a: &str, b: &str, c: &str) -> (res: String)
    ensures
        res@ == a@ + b@ + c@,
{
    let mut res = a.to_owned();
    res.append(b);
    res.append(c);
    res
}

/// Four strings in a row.
pub fn concat4(a: &str, b: &str, c: &str, d: &str) -> (res: String)
    ensures
        res@ == a@ + b@ + c@ + d@,
{
    let mut res = concat3(a, b, c);
    res.append(d);
    res
}

/// Five strings in a row.
pub fn concat5(a: &str, b: &str, c: &str, d: &str, e: &str) -> (res: String)
    ensures
        res@ == a@ + b@ + c@ + d@ + e@,
{
    let mut res = concat4(a, b, c, d);
    res.append(e);
    res
}

/// Whether `s` begins with `prefix`.
pub open spec fn has_prefix(s: Seq<char>, prefix: Seq<char>) -> bool {
    prefix.len() <= s.len() && s.take(prefix.len() as int) == prefix
}

/// What follows `prefix` in `s`, where `s` begins with it.
pub fn strip_prefix<'a>(s: &'a str, prefix: &str) -> (res: Option<&'a str>)
    ensures
        match res {
            Some(rest) => has_prefix(s@, prefix@) && rest@ == s@.skip(prefix@.len() as int),
            None => !has_prefix(s@, prefix@),
        },
{
    let n: usize = s.unicode_len();
    let k: usize = prefix.unicode_len();
    if k > n {
        return None;
    }
    if same(s.substring_char(0, k), prefix) {
        proof {
            assert(s@.subrange(0, k as int) =~= s@.take(k as int));
            assert(s@.subrange(k as int, n as int) =~= s@.skip(k as int));
        }
        Some(s.substring_char(k, n))
    } else {
        proof {
            assert(s@.subrange(0, k as int) =~= s@.take(k as int));
        }
        None
    }
}

/// Whether `part` stands in `s` at this place.
pub open spec fn is_at(s: Seq<char>, part: Seq<char>, i: int) -> bool {
    0 <= i <= s.len() - part.len() && s.subrange(i, i + part.len()) == part
}

/// Whether `part` stands in `s` somewhere.
pub open spec fn has_part(s: Seq<char>, part: Seq<char>) -> bool {
    exists|i: int| is_at(s, part, i)
}

/// Whether `part` stands in `s` somewhere.
pub fn contains(s: &str, part: &str) -> (res: bool)
    ensures
        res == has_part(s@, part@),
{
    let text = chars_of(s);
    let wanted = chars_of(part);
    if wanted.len() > text.len() {
        return false;
    }
    let mut i: usize = 0;
    while i <= text.len() - wanted.len()
        invariant
            text@ == s@,
            wanted@ == part@,
            i <= text@.len() - wanted@.len() + 1,
            wanted@.len() <= text@.len() <= usize::MAX,
            forall|k: int| 0 <= k < i ==> !is_at(s@, part@, k),
        decreases text@.len() - wanted@.len() + 1 - i,
    {
        let mut j: usize = 0;
        while j < wanted.len() && text[i + j] == wanted[j]
            invariant
                text@ == s@,
                wanted@ == part@,
                i <= text@.len() - wanted@.len(),
                text@.len() <= usize::MAX,
                j <= wanted@.len(),
                s@.subrange(i as int, i + j) == part@.take(j as int),
            decreases wanted@.len() - j,
        {
            proof {
                assert(s@.subrange(i as int, i + j + 1) =~= s@.subrange(i as int, i + j).push(
                    s@[i + j],
                ));
                assert(part@.take(j + 1) =~= part@.take(j as int).push(part@[j as int]));
            }
            j = j + 1;
        }
        if j == wanted.len() {
            proof {
                assert(part@.take(j as int) =~= part@);
                assert(is_at(s@, part@, i as int));
            }
            return true;
        }
        proof {
            assert(s@.subrange(i as int, i + part@.len())[j as int] == s@[i + j]);
        }
        if i == text.len() - wanted.len() {
            return false;
        }
        i = i + 1;
    }
    false
}

/// The decimal digits of `n`, most significant first.
pub open spec fn decimal_of(n: nat) -> Seq<char>
    decreases n,
{
    if n < 10 {
        seq![digit_of(n)]
    } else {
        decimal_of(n / 10).push(digit_of(n % 10))
    }
}

/// The decimal digit of a value below ten.
pub open spec fn digit_of(d: nat) -> char {
    ('0' as int + d) as char
}

fn digit(d: u64) -> (res: char)
    requires
        d < 10,
    ensures
        res == digit_of(d as nat),
{
    (('0' as u8) + (d as u8)) as char
}

/// Writes `n` in decimal.
pub fn decimal(n: u64) -> (res: String)
    ensures
        res@ == decimal_of(n as nat),
    decreases n,
{
    if n < 10 {
        let mut res = String::new();
        res.push(digit(n));
        proof {
            assert(res@ =~= decimal_of(n as nat));
        }
        res
    } else {
        let mut res = decimal(n / 10);
        res.push(digit(n % 10));
        res
    }
}

/// What stands between the characters `sep` of `s`.
pub open spec fn split_of(s: Seq<char>, sep: char) -> Seq<Seq<char>>
    decreases s.len(),
{
    if s.len() == 0 {
        seq![Seq::empty()]
    } else {
        let pieces = split_of(s.drop_last(), sep);
        if s.last() == sep {
            pieces.push(Seq::empty())
        } else {
            pieces.drop_last().push(pieces.last().push(s.last()))
        }
    }
}

/// There is always at least one piece, and the separator stands in none.
pub proof fn split_is_some(s: Seq<char>, sep: char)
    ensures
        split_of(s, sep).len() > 0,
        forall|i: int|
            0 <= i < split_of(s, sep).len() ==> !(#[trigger] split_of(s, sep)[i]).contains(sep),
    decreases s.len(),
{
    if s.len() > 0 {
        let before = split_of(s.drop_last(), sep);
        split_is_some(s.drop_last(), sep);
        let after = split_of(s, sep);
        assert forall|i: int| 0 <= i < after.len() implies !(#[trigger] after[i]).contains(sep) by {
            if i < before.len() - 1 {
                assert(after[i] == before[i]);
            } else if s.last() != sep {
                let last = before.last();
                assert(!before[before.len() - 1].contains(sep));
                assert(after[i] == last.push(s.last()));
                assert forall|k: int| 0 <= k < after[i].len() implies after[i][k] != sep by {
                    if k < last.len() {
                        assert(last[k] == after[i][k]);
                    }
                }
            } else if i < before.len() {
                assert(after[i] == before[i]);
            }
        }
    }
}

/// Computes `split_of`.
pub fn split(s: &str, sep: char) -> (res: Vec<String>)
    ensures
        res.deep_view() == split_of(s@, sep),
{
    let chars = chars_of(s);
    let mut res: Vec<String> = Vec::new();
    let mut piece = String::new();
    proof {
        assert(s@.take(0) =~= Seq::empty());
        assert(res.deep_view().push(piece@) =~= split_of(s@.take(0), sep));
    }
    for i in 0..chars.len()
        invariant
            chars@ == s@,
            res.deep_view().push(piece@) == split_of(s@.take(i as int), sep),
    {
        let c = chars[i];
        proof {
            assert(s@.take(i + 1).drop_last() =~= s@.take(i as int));
            assert(res.deep_view().push(piece@).drop_last() =~= res.deep_view());
        }
        if c == sep {
            data::append(&mut res, piece);
            piece = String::new();
            proof {
                assert(piece@ =~= Seq::empty());
            }
        } else {
            piece.push(c);
        }
    }
    proof {
        assert(s@.take(s@.len() as int) =~= s@);
    }
    data::append(&mut res, piece);
    res
}

/// A text without the separator is one piece.
pub proof fn split_single(s: Seq<char>, sep: char)
    requires
        !s.contains(sep),
    ensures
        split_of(s, sep) == seq![s],
    decreases s.len(),
{
    if s.len() > 0 {
        let rest = s.drop_last();
        assert(s[s.len() - 1] == s.last());
        assert forall|k: int| 0 <= k < rest.len() implies rest[k] != sep by {
            assert(rest[k] == s[k]);
        }
        split_single(rest, sep);
        assert(split_of(s, sep) =~= seq![s]) by {
            assert(rest.push(s.last()) =~= s);
        }
    } else {
        assert(s =~= Seq::empty());
    }
}

/// What follows the last separator is the last piece.
pub proof fn split_last(head: Seq<char>, last: Seq<char>, sep: char)
    requires
        !last.contains(sep),
    ensures
        split_of(head + seq![sep] + last, sep) == split_of(head, sep).push(last),
    decreases last.len(),
{
    let s = head + seq![sep] + last;
    if last.len() == 0 {
        assert(s.drop_last() =~= head);
        assert(s.last() == sep);
        assert(last =~= Seq::empty());
    } else {
        let rest = last.drop_last();
        assert(last[last.len() - 1] == last.last());
        assert forall|k: int| 0 <= k < rest.len() implies rest[k] != sep by {
            assert(rest[k] == last[k]);
        }
        split_last(head, rest, sep);
        assert(s.drop_last() =~= head + seq![sep] + rest);
        assert(s.last() == last.last());
        assert(split_of(head, sep).push(rest).drop_last() =~= split_of(head, sep));
        assert(rest.push(last.last()) =~= last);
    }
}

/// Splitting undoes joining, where the separator stands in none of the parts.
pub proof fn split_undoes_join(parts: Seq<Seq<char>>, sep: char)
    requires
        parts.len() > 0,
        forall|i: int| 0 <= i < parts.len() ==> !(#[trigger] parts[i]).contains(sep),
    ensures
        split_of(join_of(parts, seq![sep]), sep) == parts,
    decreases parts.len(),
{
    if parts.len() == 1 {
        split_single(parts[0], sep);
        assert(parts =~= seq![parts[0]]);
    } else {
        let head = parts.drop_last();
        assert forall|i: int| 0 <= i < head.len() implies !(#[trigger] head[i]).contains(sep) by {
            assert(head[i] == parts[i]);
        }
        split_undoes_join(head, sep);
        assert(!parts[parts.len() - 1].contains(sep));
        split_last(join_of(head, seq![sep]), parts.last(), sep);
        assert(head.push(parts.last()) =~= parts);
    }
}

/// Different numbers are written differently.
pub proof fn decimals_differ(a: nat, b: nat)
    requires
        decimal_of(a) == decimal_of(b),
    ensures
        a == b,
    decreases a,
{
    decimal_is_some(a);
    decimal_is_some(b);
    if a >= 10 {
        decimal_is_some(a / 10);
    }
    if b >= 10 {
        decimal_is_some(b / 10);
    }
    assert(decimal_of(a).last() == digit_of(a % 10));
    assert(decimal_of(b).last() == digit_of(b % 10));
    assert(a % 10 == b % 10);
    if a >= 10 && b >= 10 {
        assert(decimal_of(a).drop_last() =~= decimal_of(a / 10));
        assert(decimal_of(b).drop_last() =~= decimal_of(b / 10));
        decimals_differ(a / 10, b / 10);
    }
}

proof fn decimal_is_some(n: nat)
    ensures
        decimal_of(n).len() > 0,
        n >= 10 ==> decimal_of(n).len() == decimal_of(n / 10).len() + 1,
        n < 10 ==> decimal_of(n).len() == 1,
{
}

/// The strings of `parts` in a row, with `sep` between each two.
pub open spec fn join_of(parts: Seq<Seq<char>>, sep: Seq<char>) -> Seq<char>
    decreases parts.len(),
{
    if parts.len() == 0 {
        Seq::empty()
    } else if parts.len() == 1 {
        parts[0]
    } else {
        join_of(parts.drop_last(), sep) + sep + parts.last()
    }
}

/// The characters of each string, in order.
pub open spec fn texts_of(v: Seq<String>) -> Seq<Seq<char>> {
    v.map_values(|s: String| s@)
}

/// Computes `join_of`.
pub fn join(parts: &Vec<String>, sep: &str) -> (res: String)
    ensures
        res@ == join_of(texts_of(parts@), sep@),
{
    let mut res = String::new();
    for i in 0..parts.len()
        invariant
            res@ == join_of(texts_of(parts@.take(i as int)), sep@),
    {
        proof {
            let done = texts_of(parts@.take(i + 1));
            assert(done.drop_last() =~= texts_of(parts@.take(i as int)));
            assert(done.last() == parts@[i as int]@);
            if i == 0 {
                assert(join_of(texts_of(parts@.take(0)), sep@) =~= Seq::<char>::empty());
                assert(Seq::<char>::empty() + parts@[0]@ =~= parts@[0]@);
            }
        }
        if i > 0 {
            res.append(sep);
        }
        res.append(parts[i].as_str());
    }
    proof {
        assert(parts@.take(parts@.len() as int) =~= parts@);
    }
    res
}

/// Whether `a` comes before `b` in the order of their characters.
pub open spec fn is_before(a: Seq<char>, b: Seq<char>) -> bool
    decreases a.len(),
{
    if b.len() == 0 {
        false
    } else if a.len() == 0 {
        true
    } else if a[0] == b[0] {
        is_before(a.skip(1), b.skip(1))
    } else {
        a[0] < b[0]
    }
}

/// Decides `is_before`.
pub fn before(a: &str, b: &str) -> (res: bool)
    ensures
        res == is_before(a@, b@),
{
    let left = chars_of(a);
    let right = chars_of(b);
    let mut i: usize = 0;
    assert(a@.skip(0) =~= a@);
    assert(b@.skip(0) =~= b@);
    while i < left.len() && i < right.len()
        invariant
            left@ == a@,
            right@ == b@,
            i <= left@.len(),
            i <= right@.len(),
            is_before(a@, b@) == is_before(a@.skip(i as int), b@.skip(i as int)),
        decreases left@.len() - i,
    {
        assert(a@.skip(i as int).skip(1) =~= a@.skip(i + 1));
        assert(b@.skip(i as int).skip(1) =~= b@.skip(i + 1));
        if left[i] != right[i] {
            return left[i] < right[i];
        }
        i = i + 1;
    }
    i < right.len()
}

/// Nothing comes before itself.
pub proof fn before_is_strict(a: Seq<char>)
    ensures
        !is_before(a, a),
    decreases a.len(),
{
    if a.len() > 0 {
        before_is_strict(a.skip(1));
    }
}

/// What comes before something comes before all that follows it.
pub proof fn before_chain(a: Seq<char>, b: Seq<char>, c: Seq<char>)
    requires
        is_before(a, b),
        is_before(b, c),
    ensures
        is_before(a, c),
    decreases a.len(),
{
    if a.len() > 0 && a[0] == b[0] && b[0] == c[0] {
        before_chain(a.skip(1), b.skip(1), c.skip(1));
    }
}

/// Of two different texts, one comes before the other.
pub proof fn before_is_total(a: Seq<char>, b: Seq<char>)
    ensures
        is_before(a, b) || is_before(b, a) || a == b,
    decreases a.len(),
{
    if a.len() > 0 && b.len() > 0 && a[0] == b[0] {
        before_is_total(a.skip(1), b.skip(1));
        if a.skip(1) == b.skip(1) {
            assert forall|i: int| 0 <= i < a.len() implies a[i] == b[i] by {
                if i > 0 {
                    assert(a.skip(1)[i - 1] == a[i]);
                    assert(b.skip(1)[i - 1] == b[i]);
                }
            }
            assert(a.skip(1).len() == b.skip(1).len());
            assert(a =~= b);
        }
    } else if a.len() == 0 && b.len() == 0 {
        assert(a =~= b);
    }
}

} // verus!
