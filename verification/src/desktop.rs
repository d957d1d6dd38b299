//! Projects and their threads, as the desktop shows them.
use vstd::prelude::*;

use crate::data;
use crate::data::{Alike, Duplicate};
use crate::goals;
use crate::goals::ThreadGoalRecord;
use crate::ids::{ThreadId, TurnId};
use crate::paths;
use crate::protocol::{
    ApprovalsListResponse, BoundaryOpResponse, CheckpointRestoreResponse, ThreadGoalClearResponse,
    ThreadGoalGetResponse, ThreadGoalMode, ThreadGoalSetResponse, ThreadView,
};
use crate::text;
use crate::threads::ThreadForkEdge;

verus! {

/// A project that is added.
#[derive(Debug, Clone, PartialEq, Eq)]
pub struct NewProjectRequest {
    pub name: String,
    pub path: String,
}

/// Turns a blank name down.
fn check_name(name: &str, refusal: &'static str) -> (res: Result<(), &'static str>)
    ensures
        match res {
            Ok(_) => text::trim_of(name@).len() > 0,
            Err(reason) => text::trim_of(name@).len() == 0 && reason@ == refusal@,
        },
{
    if text::trim(name).unicode_len() == 0 {
        Err(refusal)
    } else {
        Ok(())
    }
}

/// Whether a project can have this name.
pub fn rename_project(name: &str) -> (res: Result<(), &'static str>)
    ensures
        match res {
            Ok(_) => text::trim_of(name@).len() > 0,
            Err(reason) => text::trim_of(name@).len() == 0 && reason@
                == "project name cannot be empty"@,
        },
{
    check_name(name, "project name cannot be empty")
}

/// Whether a thread can have this title.
pub fn rename_thread(title: &str) -> (res: Result<(), &'static str>)
    ensures
        match res {
            Ok(_) => text::trim_of(title@).len() > 0,
            Err(reason) => text::trim_of(title@).len() == 0 && reason@
                == "thread title cannot be empty"@,
        },
{
    check_name(title, "thread title cannot be empty")
}

/// A character as it stands in a slug.
pub open spec fn slug_char(c: char) -> char {
    if text::is_alphanumeric(c) {
        text::lower_case(c)
    } else {
        '-'
    }
}

/// A text as it stands in a slug, with all its characters.
pub open spec fn slug_chars(name: Seq<char>) -> Seq<char> {
    name.map_values(|c: char| slug_char(c))
}

/// The test for a word that is not empty, as a value.
pub open spec fn some_word() -> spec_fn(Seq<char>) -> bool {
    |word: Seq<char>| word.len() > 0
}

/// The words of a name.
pub open spec fn words_of(name: Seq<char>) -> Seq<Seq<char>> {
    text::split_of(slug_chars(name), '-').filter(some_word())
}

/// A name for a file or a branch: the words of a name, in lower case, with hyphens between.
pub open spec fn slug_of(name: Seq<char>) -> Seq<char> {
    if words_of(name).len() == 0 {
        "project"@
    } else {
        text::join_of(words_of(name), "-"@)
    }
}

/// Computes `slug_of`.
pub fn slugify(name: &str) -> (res: String)
    ensures
        res@ == slug_of(name@),
{
    let chars = text::chars_of(name);
    let mut mapped: Vec<char> = Vec::new();
    for i in 0..chars.len()
        invariant
            chars@ == name@,
            mapped@ == slug_chars(name@).take(i as int),
    {
        let c = chars[i];
        if text::alphanumeric(c) {
            mapped.push(text::lower(c));
        } else {
            mapped.push('-');
        }
        proof {
            assert(mapped@ =~= slug_chars(name@).take(i + 1));
        }
    }
    proof {
        assert(slug_chars(name@).take(name@.len() as int) =~= slug_chars(name@));
    }
    let pieces = text::split(text::string_of(&mapped).as_str(), '-');
    let mut words: Vec<String> = Vec::new();
    let ghost test = some_word();
    proof {
        reveal(Seq::filter);
        assert(pieces.deep_view().take(0) =~= Seq::empty());
        assert(words.deep_view() =~= pieces.deep_view().take(0).filter(test));
    }
    for i in 0..pieces.len()
        invariant
            test == some_word(),
            words.deep_view() == pieces.deep_view().take(i as int).filter(test),
    {
        proof {
            reveal(Seq::filter);
            let next = pieces.deep_view().take(i + 1);
            assert(next.drop_last() =~= pieces.deep_view().take(i as int));
            assert(next.last() == pieces@[i as int]@);
        }
        if pieces[i].as_str().unicode_len() > 0 {
            data::append(&mut words, pieces[i].clone());
        }
    }
    proof {
        assert(pieces.deep_view().take(pieces@.len() as int) =~= pieces.deep_view());
        assert(text::texts_of(words@) =~= words.deep_view());
        assert(words.deep_view().len() == words@.len());
    }
    if words.len() == 0 {
        "project".to_owned()
    } else {
        text::join(&words, "-")
    }
}

/// Whether a character may stand in a word of a slug.
pub open spec fn is_slug_char(c: char) -> bool {
    text::is_alphanumeric(c) && text::lower_case(c) == c
}

/// The words of a name are not empty, and only lower-case letters and digits stand in them.
proof fn words_are_plain(name: Seq<char>)
    ensures
        forall|i: int| 0 <= i < words_of(name).len() ==> (#[trigger] words_of(name)[i]).len() > 0,
        forall|i: int, k: int|
            0 <= i < words_of(name).len() && 0 <= k < words_of(name)[i].len() ==> is_slug_char(
                #[trigger] words_of(name)[i][k],
            ),
{
    let chars = slug_chars(name);
    let pieces = text::split_of(chars, '-');
    let words = words_of(name);
    text::split_is_some(chars, '-');
    pieces_are_parts(chars, '-');
    assert forall|i: int| 0 <= i < words.len() implies (#[trigger] words[i]).len() > 0 by {
        pieces.lemma_filter_contains_rev(some_word(), words[i]);
        filtered_passes(pieces, some_word(), i);
    }
    assert forall|i: int, k: int|
        0 <= i < words.len() && 0 <= k < words[i].len() implies is_slug_char(
        #[trigger] words[i][k],
    ) by {
        filtered_passes(pieces, some_word(), i);
        let j = pieces.index_of(words[i]);
        assert(pieces[j] == words[i]);
        assert(!pieces[j].contains('-'));
        assert(pieces[j][k] != '-') by {
            assert(pieces[j].contains(pieces[j][k]));
        }
        assert(chars.contains(pieces[j][k]));
        let m = chars.index_of(pieces[j][k]);
        assert(chars[m] == slug_char(name[m]));
    }
}

/// What passes a filter was there, and passes the test.
proof fn filtered_passes<A>(s: Seq<A>, test: spec_fn(A) -> bool, i: int)
    requires
        0 <= i < s.filter(test).len(),
    ensures
        s.contains(s.filter(test)[i]),
        test(s.filter(test)[i]),
    decreases s.len(),
{
    reveal(Seq::filter);
    let rest = s.drop_last();
    let kept = rest.filter(test);
    if i < kept.len() {
        filtered_passes(rest, test, i);
        let j = rest.index_of(kept[i]);
        assert(s[j] == kept[i]);
    } else {
        assert(s[s.len() - 1] == s.last());
    }
}

/// The characters of the pieces stand in the text.
proof fn pieces_are_parts(s: Seq<char>, sep: char)
    ensures
        forall|i: int, k: int|
            0 <= i < text::split_of(s, sep).len() && 0 <= k < text::split_of(s, sep)[i].len()
                ==> s.contains(#[trigger] text::split_of(s, sep)[i][k]),
    decreases s.len(),
{
    if s.len() > 0 {
        let rest = s.drop_last();
        pieces_are_parts(rest, sep);
        text::split_is_some(rest, sep);
        let before = text::split_of(rest, sep);
        let after = text::split_of(s, sep);
        assert forall|i: int, k: int|
            0 <= i < after.len() && 0 <= k < after[i].len() implies s.contains(
            #[trigger] after[i][k],
        ) by {
            if i < before.len() && k < before[i].len() {
                assert(after[i][k] == before[i][k]);
                let j = rest.index_of(before[i][k]);
                assert(s[j] == before[i][k]);
            } else {
                assert(after[i][k] == s.last());
                assert(s[s.len() - 1] == s.last());
            }
        }
    }
}

/// A slug is made of words: it is never empty, and a slug of it is the same.
pub proof fn slugs_are_stable(name: Seq<char>)
    ensures
        slug_of(name).len() > 0,
        slug_of(slug_of(name)) == slug_of(name),
{
    reveal_strlit("-");
    reveal_strlit("project");
    words_are_plain(name);
    let words = words_of(name);
    let parts = if words.len() == 0 {
        seq!["project"@]
    } else {
        words
    };
    assert("-"@ =~= seq!['-']);
    let slug = slug_of(name);
    assert(slug == text::join_of(parts, seq!['-']));
    assert forall|i: int| 0 <= i < parts.len() implies !(#[trigger] parts[i]).contains('-') by {
        if parts[i].contains('-') {
            let k = parts[i].index_of('-');
            assert(parts[i][k] == '-');
            if words.len() > 0 {
                assert(is_slug_char(words[i][k]));
            }
        }
    }
    text::split_undoes_join(parts, '-');
    join_is_slug(parts);
    assert(slug_chars(slug) =~= slug);
    reveal(Seq::filter);
    filter_all(parts, some_word());
    if words.len() == 0 {
        assert(parts[0].len() == 7);
    }
}

/// A filter that all pass keeps all.
proof fn filter_all<A>(s: Seq<A>, test: spec_fn(A) -> bool)
    requires
        forall|i: int| 0 <= i < s.len() ==> test(#[trigger] s[i]),
    ensures
        s.filter(test) == s,
    decreases s.len(),
{
    reveal(Seq::filter);
    if s.len() > 0 {
        let rest = s.drop_last();
        assert forall|i: int| 0 <= i < rest.len() implies test(#[trigger] rest[i]) by {
            assert(rest[i] == s[i]);
        }
        filter_all(rest, test);
        assert(test(s[s.len() - 1]));
        assert(rest.push(s.last()) =~= s);
    } else {
        assert(s.filter(test) =~= s);
    }
}

/// What is joined of words is not empty, and stays as it is in a slug.
proof fn join_is_slug(parts: Seq<Seq<char>>)
    requires
        parts.len() > 0,
        forall|i: int| 0 <= i < parts.len() ==> (#[trigger] parts[i]).len() > 0,
        forall|i: int, k: int|
            0 <= i < parts.len() && 0 <= k < parts[i].len() ==> is_slug_char(
                #[trigger] parts[i][k],
            ),
    ensures
        text::join_of(parts, seq!['-']).len() > 0,
        forall|k: int|
            0 <= k < text::join_of(parts, seq!['-']).len() ==> slug_char(
                #[trigger] text::join_of(parts, seq!['-'])[k],
            ) == text::join_of(parts, seq!['-'])[k],
    decreases parts.len(),
{
    if parts.len() > 1 {
        let head = parts.drop_last();
        assert forall|i: int| 0 <= i < head.len() implies (#[trigger] head[i]).len() > 0 by {
            assert(head[i] == parts[i]);
        }
        assert forall|i: int, k: int|
            0 <= i < head.len() && 0 <= k < head[i].len() implies is_slug_char(
            #[trigger] head[i][k],
        ) by {
            assert(head[i][k] == parts[i][k]);
        }
        join_is_slug(head);
        let before = text::join_of(head, seq!['-']);
        let all = text::join_of(parts, seq!['-']);
        assert forall|k: int| 0 <= k < all.len() implies slug_char(#[trigger] all[k]) == all[k] by {
            if k < before.len() {
                assert(all[k] == before[k]);
            } else if k > before.len() {
                let last = parts.len() - 1;
                assert(all[k] == parts[last][k - before.len() - 1]);
            }
        }
    } else {
        let all = text::join_of(parts, seq!['-']);
        assert forall|k: int| 0 <= k < all.len() implies slug_char(#[trigger] all[k]) == all[k] by {
            assert(all[k] == parts[0][k]);
        }
    }
}

/// Whether `s` begins and ends with something else than a hyphen, and no two hyphens stand side by
/// side in it.
pub open spec fn is_hyphenated(s: Seq<char>) -> bool {
    &&& s.len() > 0
    &&& s[0] != '-'
    &&& s.last() != '-'
    &&& forall|i: int, j: int|
        0 <= i < s.len() && j == i + 1 && j < s.len() && #[trigger] s[i] == '-' ==> #[trigger] s[j]
            != '-'
}

/// The test for anything but this character, as a value.
pub open spec fn other_than(c: char) -> spec_fn(char) -> bool {
    |other: char| other != c
}

/// The test for an ASCII letter or digit, as a value.
pub open spec fn letter_or_digit() -> spec_fn(char) -> bool {
    |c: char| text::is_alphanumeric(c)
}

/// The ASCII letters and digits of a name, in lower case.
pub open spec fn letters_of(name: Seq<char>) -> Seq<char> {
    text::lower_case_of(name.filter(letter_or_digit()))
}

/// A slug is made of lower-case letters, digits and hyphens. It neither begins nor ends with a
/// hyphen, and no two hyphens stand side by side. Whether letters of the name are large or small
/// makes no difference. Without its hyphens the slug is the letters and digits of the name, in
/// their order; where there are none, the slug is `project`.
pub proof fn slugs_keep_letters(name: Seq<char>)
    ensures
        forall|k: int|
            0 <= k < slug_of(name).len() ==> {
                let c = #[trigger] slug_of(name)[k];
                'a' <= c <= 'z' || '0' <= c <= '9' || c == '-'
            },
        is_hyphenated(slug_of(name)),
        slug_of(text::upper_case_of(name)) == slug_of(name),
        letters_of(name).len() > 0 ==> slug_of(name).filter(other_than('-')) == letters_of(name),
        letters_of(name).len() == 0 ==> slug_of(name) == "project"@,
{
    reveal_strlit("-");
    reveal_strlit("project");
    assert("-"@ =~= seq!['-']);
    words_are_plain(name);
    let words = words_of(name);
    let chars = slug_chars(name);
    let slug = slug_of(name);
    assert forall|i: int| 0 <= i < words.len() implies !(#[trigger] words[i]).contains('-') by {
        if words[i].contains('-') {
            let k = words[i].index_of('-');
            assert(is_slug_char(words[i][k]));
        }
    }
    split_keeps_others(chars, '-');
    empty_words_add_nothing(text::split_of(chars, '-'));
    slug_chars_keep_letters(name);
    assert(all_of(words) == letters_of(name));
    if words.len() == 0 {
        assert(is_hyphenated(slug));
    } else {
        join_is_slug(words);
        join_is_hyphenated(words);
        assert forall|k: int| 0 <= k < slug.len() implies {
            let c = #[trigger] slug[k];
            'a' <= c <= 'z' || '0' <= c <= '9' || c == '-'
        } by {
            assert(slug_char(slug[k]) == slug[k]);
        }
        text::split_undoes_join(words, '-');
        split_keeps_others(slug, '-');
        assert(words[words.len() - 1].len() > 0);
        assert(all_of(words).len() >= words.last().len());
    }
    let upper = text::upper_case_of(name);
    assert forall|i: int| 0 <= i < name.len() implies slug_chars(upper)[i] == chars[i] by {
        assert(upper[i] == text::upper_case(name[i]));
    }
    assert(slug_chars(upper) =~= chars);
}

/// The words in a row, with nothing between them.
spec fn all_of(words: Seq<Seq<char>>) -> Seq<char>
    decreases words.len(),
{
    if words.len() == 0 {
        Seq::empty()
    } else {
        all_of(words.drop_last()) + words.last()
    }
}

/// Splitting takes out the separators and nothing else.
proof fn split_keeps_others(s: Seq<char>, sep: char)
    ensures
        all_of(text::split_of(s, sep)) == s.filter(other_than(sep)),
    decreases s.len(),
{
    reveal(Seq::filter);
    if s.len() == 0 {
        let pieces = text::split_of(s, sep);
        assert(pieces.drop_last() =~= Seq::empty());
        assert(all_of(pieces.drop_last()) =~= Seq::empty());
        assert(all_of(pieces) =~= Seq::empty());
        assert(s.filter(other_than(sep)) =~= Seq::empty());
    } else {
        let rest = s.drop_last();
        let pieces = text::split_of(rest, sep);
        split_keeps_others(rest, sep);
        text::split_is_some(rest, sep);
        let after = text::split_of(s, sep);
        if s.last() == sep {
            assert(after.drop_last() =~= pieces);
        } else {
            assert(after.drop_last() =~= pieces.drop_last());
        }
        assert(all_of(after) =~= s.filter(other_than(sep)));
    }
}

/// Words that are empty add nothing to a row.
proof fn empty_words_add_nothing(words: Seq<Seq<char>>)
    ensures
        all_of(words.filter(some_word())) == all_of(words),
    decreases words.len(),
{
    reveal(Seq::filter);
    if words.len() > 0 {
        empty_words_add_nothing(words.drop_last());
        let before = words.drop_last().filter(some_word());
        assert(before.push(words.last()).drop_last() =~= before);
        assert(all_of(words.filter(some_word())) =~= all_of(words));
    }
}

/// What is no hyphen in a slug are the letters and digits of the name.
proof fn slug_chars_keep_letters(name: Seq<char>)
    ensures
        slug_chars(name).filter(other_than('-')) == letters_of(name),
    decreases name.len(),
{
    reveal(Seq::filter);
    let chars = slug_chars(name);
    if name.len() > 0 {
        slug_chars_keep_letters(name.drop_last());
        assert(chars.drop_last() =~= slug_chars(name.drop_last()));
        assert(chars.last() == slug_char(name.last()));
        let before = name.drop_last().filter(letter_or_digit());
        assert(text::lower_case_of(before.push(name.last())) =~= text::lower_case_of(before).push(
            text::lower_case(name.last()),
        ));
    }
    assert(chars.filter(other_than('-')) =~= letters_of(name));
}

/// Between words stands one hyphen, and none before or behind them.
proof fn join_is_hyphenated(parts: Seq<Seq<char>>)
    requires
        parts.len() > 0,
        forall|i: int| 0 <= i < parts.len() ==> (#[trigger] parts[i]).len() > 0,
        forall|i: int, k: int|
            0 <= i < parts.len() && 0 <= k < parts[i].len() ==> is_slug_char(
                #[trigger] parts[i][k],
            ),
    ensures
        is_hyphenated(text::join_of(parts, seq!['-'])),
    decreases parts.len(),
{
    let all = text::join_of(parts, seq!['-']);
    let last = parts.len() - 1;
    assert(parts[last].len() > 0);
    assert forall|k: int| 0 <= k < parts[last].len() implies #[trigger] parts[last][k] != '-' by {
        assert(is_slug_char(parts[last][k]));
    }
    if parts.len() > 1 {
        let head = parts.drop_last();
        assert forall|i: int| 0 <= i < head.len() implies (#[trigger] head[i]).len() > 0 by {
            assert(head[i] == parts[i]);
        }
        assert forall|i: int, k: int|
            0 <= i < head.len() && 0 <= k < head[i].len() implies is_slug_char(
            #[trigger] head[i][k],
        ) by {
            assert(head[i][k] == parts[i][k]);
        }
        join_is_hyphenated(head);
        let before = text::join_of(head, seq!['-']);
        assert(all == before + seq!['-'] + parts[last]);
        assert(all[0] == before[0]);
        assert(all.last() == parts[last][parts[last].len() - 1]);
        assert forall|i: int, j: int|
            0 <= i < all.len() && j == i + 1 && j < all.len() && #[trigger] all[i]
                == '-' implies #[trigger] all[j] != '-' by {
            if j < before.len() {
                assert(before[i] == '-');
                assert(before[j] != '-');
            } else if i < before.len() {
                assert(all[i] == before.last());
            } else if i == before.len() {
                assert(all[j] == parts[last][0]);
            } else {
                assert(all[i] == parts[last][i - before.len() - 1]);
            }
        }
    } else {
        assert(all == parts[last]);
    }
}

/// A second checkout of a project: where it goes, its branch, and the project that it becomes.
#[derive(Debug, Clone, PartialEq, Eq)]
pub struct WorktreePlan {
    pub path: String,
    pub branch: String,
    pub project: NewProjectRequest,
}

/// A second checkout of a project: beside the repository, under a name and a branch that say when
/// it was made. `parent` is the directory that holds the repository.
pub fn create_project_worktree(
    name: &str,
    root: &str,
    parent: Option<&str>,
    now_ms: u64,
) -> (res: WorktreePlan)
    ensures
        ({
            let stamp = text::decimal_of(now_ms as nat);
            let directory = match parent {
                Some(parent) => parent@,
                None => paths::joined(root@, ".exagent"@),
            };
            let path = paths::joined(
                paths::joined(directory, ".worktrees"@),
                slug_of(name@) + "-"@ + stamp,
            );
            &&& res.path@ == path
            &&& res.branch@ == "codex/"@ + slug_of(name@) + "-worktree-"@ + stamp
            &&& res.project.name@ == name@ + " Worktree"@
            &&& res.project.path@ == path
        }),
{
    let slug = slugify(name);
    let stamp = text::decimal(now_ms);
    let directory = match parent {
        Some(parent) => parent.to_owned(),
        None => paths::join(root, ".exagent"),
    };
    let worktrees = paths::join(directory.as_str(), ".worktrees");
    let path = paths::join(
        worktrees.as_str(),
        text::concat3(slug.as_str(), "-", stamp.as_str()).as_str(),
    );
    WorktreePlan {
        branch: text::concat4("codex/", slug.as_str(), "-worktree-", stamp.as_str()),
        project: NewProjectRequest {
            name: text::concat2(name, " Worktree"),
            path: path.clone(),
        },
        path,
    }
}

/// The error for a git command that failed: what it says, and what git wrote.
pub fn git_failure(what: &str, stderr: &str) -> (res: String)
    ensures
        res@ == what@ + ": "@ + text::trim_of(stderr@),
{
    text::concat3(what, ": ", text::trim(stderr))
}

/// A thread as it is listed, with where it was forked from, if it was. `rest` is what else is
/// listed of it.
pub struct ThreadRecord<R> {
    pub id: ThreadId,
    pub fork_parent_thread_id: Option<ThreadId>,
    pub fork_point_turn_id: Option<TurnId>,
    pub rest: R,
}

/// The last edge that leads to a thread.
pub open spec fn last_edge(edges: Seq<ThreadForkEdge>, child: Seq<char>) -> Option<ThreadForkEdge>
    decreases edges.len(),
{
    if edges.len() == 0 {
        None
    } else if edges.last().child_thread_id@ == child {
        Some(edges.last())
    } else {
        last_edge(edges.drop_last(), child)
    }
}

/// The last edge that leads to a thread.
fn find_edge<'a>(edges: &'a Vec<ThreadForkEdge>, child: &ThreadId) -> (res: Option<
    &'a ThreadForkEdge,
>)
    ensures
        match last_edge(edges@, child@) {
            Some(edge) => res == Some(&edge),
            None => res is None,
        },
{
    let mut n: usize = edges.len();
    proof {
        assert(edges@.take(n as int) =~= edges@);
    }
    while n > 0
        invariant
            n <= edges@.len(),
            last_edge(edges@, child@) == last_edge(edges@.take(n as int), child@),
        decreases n,
    {
        proof {
            assert(edges@.take(n as int).last() == edges@[n - 1]);
            assert(edges@.take(n as int).drop_last() =~= edges@.take(n - 1));
        }
        if edges[n - 1].child_thread_id.alike(child) {
            return Some(&edges[n - 1]);
        }
        n = n - 1;
    }
    None
}

/// Whether `after` is `before` with where it was forked from, as these edges tell it.
pub open spec fn is_hydrated<R>(
    before: ThreadRecord<R>,
    after: ThreadRecord<R>,
    edges: Seq<ThreadForkEdge>,
) -> bool {
    &&& after.id == before.id
    &&& after.rest == before.rest
    &&& match last_edge(edges, before.id@) {
        Some(edge) => {
            &&& after.fork_parent_thread_id matches Some(parent) && parent@
                == edge.parent_thread_id@
            &&& after.fork_point_turn_id matches Some(turn) && turn@ == edge.fork_point_turn_id@
        },
        None => after == before,
    }
}

/// Lists threads with where they were forked from. Without edges they are listed as they are.
pub fn hydrate_thread_lineage<R>(
    threads: Vec<ThreadRecord<R>>,
    edges: Option<Vec<ThreadForkEdge>>,
) -> (res: Vec<ThreadRecord<R>>)
    ensures
        match edges {
            None => res == threads,
            Some(edges) => {
                &&& res@.len() == threads@.len()
                &&& forall|i: int|
                    0 <= i < threads@.len() ==> is_hydrated(
                        threads@[i],
                        #[trigger] res@[i],
                        edges@,
                    )
            },
        },
{
    let edges = match edges {
        Some(edges) => edges,
        None => return threads,
    };
    let mut res: Vec<ThreadRecord<R>> = Vec::new();
    for thread in iter: threads
        invariant
            iter.seq() == threads@,
            res@.len() == iter.index(),
            forall|i: int|
                0 <= i < res@.len() ==> is_hydrated(threads@[i], #[trigger] res@[i], edges@),
    {
        let ghost before = thread;
        let mut thread = thread;
        if let Some(edge) = find_edge(&edges, &thread.id) {
            thread.fork_parent_thread_id = Some(edge.parent_thread_id.duplicate());
            thread.fork_point_turn_id = Some(edge.fork_point_turn_id.duplicate());
        }
        proof {
            assert(is_hydrated(before, thread, edges@));
        }
        res.push(thread);
    }
    res
}

/// Shows the goal of a thread in its view, and how it is worked on.
pub fn hydrate_thread_goal(
    thread: &mut ThreadView,
    goal: Option<ThreadGoalRecord>,
    mode: ThreadGoalMode,
)
    ensures
        *final(thread) == (ThreadView {
            goal: match goal {
                Some(record) => Some(goals::shown_goal(record)),
                None => None,
            },
            goal_mode: if goal is Some {
                mode
            } else {
                ThreadGoalMode::Standard
            },
            ..*old(thread)
        }),
        final(thread).goal is Some <==> goal is Some,
        goal is None ==> final(thread).goal_mode is Standard,
        goal is Some ==> final(thread).goal_mode == mode,
        final(thread).id == old(thread).id,
        final(thread).turns == old(thread).turns,
{
    match goal {
        Some(record) => {
            thread.goal = Some(goals::thread_goal_from_record(record));
            thread.goal_mode = mode;
        },
        None => {
            thread.goal = None;
            thread.goal_mode = ThreadGoalMode::Standard;
        },
    }
}

/// The list of what waits for the user, out of an answer.
pub fn approvals_list(response: BoundaryOpResponse) -> (res: Result<
    ApprovalsListResponse,
    &'static str,
>)
    ensures
        match response {
            BoundaryOpResponse::ApprovalsList(response) => res == Ok::<
                ApprovalsListResponse,
                &'static str,
            >(response),
            _ => res matches Err(reason) && reason@
                == "approvals list returned unexpected response"@,
        },
{
    match response {
        BoundaryOpResponse::ApprovalsList(response) => Ok(response),
        _ => Err("approvals list returned unexpected response"),
    }
}

/// The restored checkpoint, out of an answer.
pub fn checkpoint_restore(response: BoundaryOpResponse) -> (res: Result<
    CheckpointRestoreResponse,
    &'static str,
>)
    ensures
        match response {
            BoundaryOpResponse::CheckpointRestored(response) => res == Ok::<
                CheckpointRestoreResponse,
                &'static str,
            >(response),
            _ => res matches Err(reason) && reason@
                == "checkpoint restore returned unexpected response"@,
        },
{
    match response {
        BoundaryOpResponse::CheckpointRestored(response) => Ok(response),
        _ => Err("checkpoint restore returned unexpected response"),
    }
}

/// The goal that was set, out of an answer.
pub fn thread_goal_set(response: BoundaryOpResponse) -> (res: Result<
    ThreadGoalSetResponse,
    &'static str,
>)
    ensures
        match response {
            BoundaryOpResponse::ThreadGoalSet(response) => res == Ok::<
                ThreadGoalSetResponse,
                &'static str,
            >(response),
            _ => res matches Err(reason) && reason@
                == "thread goal set returned unexpected response"@,
        },
{
    match response {
        BoundaryOpResponse::ThreadGoalSet(response) => Ok(response),
        _ => Err("thread goal set returned unexpected response"),
    }
}

/// The goal, out of an answer.
pub fn thread_goal_get(response: BoundaryOpResponse) -> (res: Result<
    ThreadGoalGetResponse,
    &'static str,
>)
    ensures
        match response {
            BoundaryOpResponse::ThreadGoalGet(response) => res == Ok::<
                ThreadGoalGetResponse,
                &'static str,
            >(response),
            _ => res matches Err(reason) && reason@
                == "thread goal get returned unexpected response"@,
        },
{
    match response {
        BoundaryOpResponse::ThreadGoalGet(response) => Ok(response),
        _ => Err("thread goal get returned unexpected response"),
    }
}

/// Whether a goal was cleared, out of an answer.
pub fn thread_goal_clear(response: BoundaryOpResponse) -> (res: Result<
    ThreadGoalClearResponse,
    &'static str,
>)
    ensures
        match response {
            BoundaryOpResponse::ThreadGoalCleared(response) => res == Ok::<
                ThreadGoalClearResponse,
                &'static str,
            >(response),
            _ => res matches Err(reason) && reason@
                == "thread goal clear returned unexpected response"@,
        },
{
    match response {
        BoundaryOpResponse::ThreadGoalCleared(response) => Ok(response),
        _ => Err("thread goal clear returned unexpected response"),
    }
}

} // verus!
