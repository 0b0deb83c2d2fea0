//! What holds of the output of git and of shell commands.
use crate::text;
use crate::text_laws;
use crate::worker::command::{self, WorktreeScan};
use crate::worker::ExistingWorktreeView;
use vstd::prelude::*;

verus! {

/// Lines that are not blank are kept as they stand and in order, and blank ones are left out.
pub proof fn filled_lines_are_kept(
    a: Seq<Seq<char>>,
    b: Seq<Seq<char>>,
    line: Seq<char>,
)
    ensures
        command::filled_lines(a + b) == command::filled_lines(a) + command::filled_lines(b),
        !text::blank(line) ==> command::filled_lines(seq![line]) == seq![line],
        text::blank(line) ==> command::filled_lines(seq![line]).len() == 0,
    decreases b.len(),
{
    assert(seq![line].drop_last() =~= Seq::<Seq<char>>::empty());
    assert(command::filled_lines(Seq::<Seq<char>>::empty()) =~= seq![]);
    assert(!text::blank(line) ==> command::filled_lines(seq![line]) =~= seq![line]);
    if b.len() == 0 {
        assert(a + b =~= a);
        assert(command::filled_lines(a) + command::filled_lines(b) =~= command::filled_lines(a));
    } else {
        filled_lines_are_kept(a, b.drop_last(), line);
        assert((a + b).drop_last() =~= a + b.drop_last());
        assert((a + b).last() == b.last());
        assert(command::filled_lines(a + b) =~= command::filled_lines(a) + command::filled_lines(
            b,
        ));
    }
}

/// A text of one line that is written with its end gives that line.
pub proof fn lemma_only_line(line: Seq<char>)
    requires
        !line.contains('\n'),
        !text_laws::all_space(line),
        line.last() != '\r',
    ensures
        command::filled_lines(text::lines(line + "\n"@)) == seq![line],
{
    if line.len() == 0 {
        assert(text_laws::all_space(line));
    }
    let lines = seq![line];
    assert(text_laws::on_one_line(line));
    text_laws::lines_are_read_back(lines, "\n"@, line);
    assert(lines.drop_last() =~= Seq::<Seq<char>>::empty());
    reveal_with_fuel(text_laws::ended, 2);
    assert(text_laws::ended(lines, "\n"@) =~= line + "\n"@);
    text_laws::blank_texts_are_space(line);
    filled_lines_are_kept(Seq::empty(), Seq::empty(), line);
}

/// Whether a line of a listing says nothing of a path or a branch.
pub open spec fn says_nothing(line: Seq<char>) -> bool {
    line.len() == 0 || (line[0] != 'w' && line[0] != 'b' && line[0] != 'd')
}

proof fn lemma_says_nothing(scan: WorktreeScan, line: Seq<char>)
    requires
        says_nothing(line),
    ensures
        scan.after(line) == scan,
{
    reveal_strlit("worktree ");
    reveal_strlit("branch ");
    reveal_strlit("detached");
    if "worktree "@.is_prefix_of(line) {
        assert("worktree "@[0] == line[0]);
    }
    if "branch "@.is_prefix_of(line) {
        assert("branch "@[0] == line[0]);
    }
    if "detached"@.is_prefix_of(line) {
        assert("detached"@[0] == line[0]);
    }
}

/// A listing goes line by line.
proof fn lemma_after_more(scan: WorktreeScan, a: Seq<Seq<char>>, b: Seq<Seq<char>>)
    ensures
        scan.after_all(a + b) == scan.after_all(a).after_all(b),
    decreases b.len(),
{
    if b.len() == 0 {
        assert(a + b =~= a);
    } else {
        lemma_after_more(scan, a, b.drop_last());
        assert((a + b).drop_last() =~= a + b.drop_last());
    }
}

proof fn lemma_after_four(
    scan: WorktreeScan,
    a: Seq<char>,
    b: Seq<char>,
    c: Seq<char>,
    d: Seq<char>,
)
    ensures
        scan.after_all(seq![a, b, c, d]) == scan.after(a).after(b).after(c).after(d),
{
    let all = seq![a, b, c, d];
    assert(all.drop_last() =~= seq![a, b, c]);
    assert(seq![a, b, c].drop_last() =~= seq![a, b]);
    assert(seq![a, b].drop_last() =~= seq![a]);
    assert(seq![a].drop_last() =~= Seq::<Seq<char>>::empty());
    reveal_with_fuel(WorktreeScan::after_all, 5);
}

proof fn lemma_path_line(scan: WorktreeScan, path: Seq<char>)
    requires
        text::trimmed(path) == path,
        !"worktree "@.is_prefix_of(path),
    ensures
        scan.after("worktree "@ + path) == (WorktreeScan {
            found: scan.all(),
            path: Some(path),
            branch: None,
        }),
{
    reveal_strlit("worktree ");
    let line = "worktree "@ + path;
    assert(line.skip("worktree "@.len() as int) =~= path);
    assert(line.subrange(0, "worktree "@.len() as int) =~= "worktree "@);
    reveal_with_fuel(command::without_prefixes, 2);
}

/// A list of worktrees as git writes it is read back, entry by entry and in order: each worktree
/// with its path and the branch that is checked out in it. One where nothing is checked out by name
/// is listed as detached, and one without any is left out. What was listed before stays.
pub proof fn listed_worktrees_are_read_back(
    before: Seq<Seq<char>>,
    path: Seq<char>,
    branch: Seq<char>,
    head: Seq<char>,
)
    requires
        text::trimmed(path) == path,
        !"worktree "@.is_prefix_of(path),
        text::trimmed("refs/heads/"@ + branch) == "refs/heads/"@ + branch,
        says_nothing(head),
    ensures
        ({
            let found = WorktreeScan::start().after_all(before).all();
            let named = seq![
                "worktree "@ + path,
                head,
                "branch "@ + ("refs/heads/"@ + branch),
                ""@,
            ];
            let detached = seq!["worktree "@ + path, head, "detached"@, ""@];
            let bare = seq!["worktree "@ + path, head, ""@, ""@];
            &&& WorktreeScan::start().after_all(before + named).all() == found.push(
                ExistingWorktreeView { path, branch },
            )
            &&& WorktreeScan::start().after_all(before + detached).all() == found.push(
                ExistingWorktreeView { path, branch: "(detached HEAD)"@ },
            )
            &&& WorktreeScan::start().after_all(before + bare).all() == found
        }),
        WorktreeScan::start().after_all(Seq::empty()).all().len() == 0,
{
    let scan = WorktreeScan::start().after_all(before);
    let first = "worktree "@ + path;
    let second = "branch "@ + ("refs/heads/"@ + branch);
    reveal_strlit("");
    lemma_path_line(scan, path);
    lemma_says_nothing(scan.after(first), head);
    let one = scan.after(first);
    lemma_after_more(WorktreeScan::start(), before, seq![first, head, second, ""@]);
    lemma_after_four(scan, first, head, second, ""@);
    command::worktree_is_read_back(scan, path, branch);
    lemma_says_nothing(one.after(second), ""@);
    lemma_after_more(WorktreeScan::start(), before, seq![first, head, "detached"@, ""@]);
    lemma_after_four(scan, first, head, "detached"@, ""@);
    lemma_detached(one);
    lemma_says_nothing(one.after("detached"@), ""@);
    lemma_after_more(WorktreeScan::start(), before, seq![first, head, ""@, ""@]);
    lemma_after_four(scan, first, head, ""@, ""@);
    lemma_says_nothing(one, ""@);
}

proof fn lemma_detached(scan: WorktreeScan)
    ensures
        scan.after("detached"@) == (WorktreeScan { branch: Some("(detached HEAD)"@), ..scan }),
{
    reveal_strlit("worktree ");
    reveal_strlit("branch ");
    reveal_strlit("detached");
    let line = "detached"@;
    assert(line[0] == 'd');
    if "worktree "@.is_prefix_of(line) {
        assert("worktree "@[0] == line[0]);
    }
    if "branch "@.is_prefix_of(line) {
        assert("branch "@[0] == line[0]);
    }
    assert(line.subrange(0, line.len() as int) =~= line);
}

} // verus!
