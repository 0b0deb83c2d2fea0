//! What the output of git and of shell commands means.
use crate::model::extend_with;
use crate::text::{self, cat2, cat4, is_blank, lines_of, same, starts_with, strip_prefix, trim};
use crate::worker::{ExistingWorktree, ExistingWorktreeView};
use vstd::prelude::*;

verus! {

/// The lines that are not blank.
pub open spec fn filled_lines(lines: Seq<Seq<char>>) -> Seq<Seq<char>>
    decreases lines.len(),
{
    if lines.len() == 0 {
        seq![]
    } else if text::blank(lines.last()) {
        filled_lines(lines.drop_last())
    } else {
        filled_lines(lines.drop_last()).push(lines.last())
    }
}

/// Returns the lines of a text that are not blank.
fn filled_lines_of(output: &str) -> (r: Vec<String>)
    ensures
        r.deep_view() == filled_lines(text::lines(output@)),
{
    let all = lines_of(output);
    let ghost lines = all.deep_view();
    let mut out: Vec<String> = Vec::new();
    assert(lines.take(0) =~= seq![]);
    assert(out.deep_view() =~= seq![]);
    for i in 0..all.len()
        invariant
            lines == all.deep_view(),
            out.deep_view() == filled_lines(lines.take(i as int)),
    {
        assert(lines.take(i + 1).drop_last() =~= lines.take(i as int));
        assert(lines.take(i + 1).last() == all@[i as int]@);
        let ghost before = out.deep_view();
        if !is_blank(all[i].as_str()) {
            out.push(all[i].clone());
            assert(out.deep_view() =~= before.push(lines[i as int]));
        }
    }
    assert(lines.take(all.len() as int) =~= lines);
    out
}

/// A shell command that failed.
#[derive(Debug)]
pub struct CommandError {
    pub command: String,
    /// The exit status, as the system words it.
    pub status: String,
}

impl CommandError {
    /// The text of an error.
    pub open spec fn text(self) -> Seq<char> {
        "command '"@ + self.command@ + "' exited with status "@ + self.status@
    }

    /// Returns the text of an error.
    pub fn message(&self) -> (r: String)
        ensures
            r@ == self.text(),
    {
        cat4("command '", self.command.as_str(), "' exited with status ", self.status.as_str())
    }
}

/// Returns what a shell command gives that has ended: the lines of its output and then those
/// of its error output, blank ones left out, or the failure.
pub fn run_shell_command(
    command: &str,
    stdout: &str,
    stderr: &str,
    success: bool,
    status: &str,
) -> (r: Result<Vec<String>, CommandError>)
    ensures
        match r {
            Ok(lines) => success && lines.deep_view() == filled_lines(text::lines(stdout@))
                + filled_lines(text::lines(stderr@)),
            Err(error) => !success && error.command@ == command@ && error.status@ == status@,
        },
{
    let mut lines = filled_lines_of(stdout);
    let more = filled_lines_of(stderr);
    extend_with(&mut lines, &more);
    if !success {
        return Err(
            CommandError { command: command.to_owned(), status: status.to_owned() },
        );
    }
    Ok(lines)
}

/// Returns the branch to start from, from what git names as the current one: none where
/// nothing is checked out by name.
pub fn determine_base_ref(success: bool, stdout: &str) -> (r: Option<String>)
    ensures
        r.deep_view() == (if !success || text::blank(stdout@) || text::trimmed(stdout@)
            == "HEAD"@ {
            None
        } else {
            Some(text::trimmed(stdout@))
        }),
{
    if !success {
        return None;
    }
    if is_blank(stdout) {
        return None;
    }
    let branch = trim(stdout);
    if same(branch.as_str(), "HEAD") {
        None
    } else {
        Some(branch)
    }
}

/// A text without any number of copies of a prefix.
pub open spec fn without_prefixes(s: Seq<char>, prefix: Seq<char>) -> Seq<char>
    decreases s.len(),
{
    if prefix.len() > 0 && prefix.is_prefix_of(s) {
        without_prefixes(s.skip(prefix.len() as int), prefix)
    } else {
        s
    }
}

/// Returns a text without any number of copies of a prefix.
fn strip_prefixes(s: &str, prefix: &str) -> (r: String)
    requires
        prefix@.len() > 0,
    ensures
        r@ == without_prefixes(s@, prefix@),
    decreases s@.len(),
{
    match strip_prefix(s, prefix) {
        Some(rest) => strip_prefixes(rest.as_str(), prefix),
        None => s.to_owned(),
    }
}

/// What has been read of a list of worktrees: those that are complete, and the parts of the
/// one that is not.
#[verifier::ext_equal]
pub struct WorktreeScan {
    pub found: Seq<ExistingWorktreeView>,
    pub path: Option<Seq<char>>,
    pub branch: Option<Seq<char>>,
}

impl WorktreeScan {
    /// Nothing read yet.
    pub open spec fn start() -> WorktreeScan {
        WorktreeScan { found: seq![], path: None, branch: None }
    }

    /// The worktrees, the last one too where it has a path and a branch.
    pub open spec fn all(self) -> Seq<ExistingWorktreeView> {
        match (self.path, self.branch) {
            (Some(path), Some(branch)) => self.found.push(ExistingWorktreeView { path, branch }),
            _ => self.found,
        }
    }

    /// After one more line.
    pub open spec fn after(self, line: Seq<char>) -> WorktreeScan {
        if "worktree "@.is_prefix_of(line) {
            WorktreeScan {
                found: self.all(),
                path: Some(text::trimmed(without_prefixes(line, "worktree "@))),
                branch: None,
            }
        } else if "branch "@.is_prefix_of(line) {
            let reference = text::trimmed(without_prefixes(line, "branch "@));
            if "refs/heads/"@.is_prefix_of(reference) {
                WorktreeScan {
                    branch: Some(reference.skip("refs/heads/"@.len() as int)),
                    ..self
                }
            } else {
                self
            }
        } else if "detached"@.is_prefix_of(line) {
            WorktreeScan { branch: Some("(detached HEAD)"@), ..self }
        } else {
            self
        }
    }

    /// After some lines.
    pub open spec fn after_all(self, lines: Seq<Seq<char>>) -> WorktreeScan
        decreases lines.len(),
    {
        if lines.len() == 0 {
            self
        } else {
            self.after_all(lines.drop_last()).after(lines.last())
        }
    }
}

struct Scan {
    found: Vec<ExistingWorktree>,
    path: Option<String>,
    branch: Option<String>,
}

impl DeepView for Scan {
    type V = WorktreeScan;

    closed spec fn deep_view(&self) -> WorktreeScan {
        WorktreeScan {
            found: self.found.deep_view(),
            path: self.path.deep_view(),
            branch: self.branch.deep_view(),
        }
    }
}

impl Scan {
    /// Completes the worktree under way where it has a path and a branch, and forgets both.
    fn flush(&mut self)
        ensures
            final(self).deep_view() == (WorktreeScan {
                found: old(self).deep_view().all(),
                path: None,
                branch: None,
            }),
    {
        let ghost before = self.found.deep_view();
        let path = self.path.take();
        let branch = self.branch.take();
        if let (Some(path), Some(branch)) = (path, branch) {
            let worktree = ExistingWorktree { path, branch };
            let ghost view = worktree.deep_view();
            self.found.push(worktree);
            assert(self.found.deep_view() =~= before.push(view));
        }
    }

    fn line(&mut self, line: &str)
        ensures
            final(self).deep_view() == old(self).deep_view().after(line@),
    {
        proof {
            reveal_strlit("worktree ");
            reveal_strlit("branch ");
        }
        if starts_with(line, "worktree ") {
            self.flush();
            let rest = strip_prefixes(line, "worktree ");
            self.path = Some(trim(rest.as_str()));
        } else if starts_with(line, "branch ") {
            let rest = strip_prefixes(line, "branch ");
            let reference = trim(rest.as_str());
            if let Some(branch) = strip_prefix(reference.as_str(), "refs/heads/") {
                self.branch = Some(branch);
            }
        } else if starts_with(line, "detached") {
            self.branch = Some("(detached HEAD)".to_owned());
        }
    }
}

/// Returns the worktrees that git lists, each with the branch that is checked out in it, or
/// git's complaint.
pub fn list_existing_worktrees(success: bool, stdout: &str, stderr: &str) -> (r: Result<
    Vec<ExistingWorktree>,
    String,
>)
    ensures
        match r {
            Ok(worktrees) => success && worktrees.deep_view() == WorktreeScan::start().after_all(
                text::lines(stdout@),
            ).all(),
            Err(message) => !success && message@ == "git worktree list failed: "@ + text::trimmed(
                stderr@,
            ),
        },
{
    if !success {
        return Err(cat2("git worktree list failed: ", trim(stderr).as_str()));
    }
    let all = lines_of(stdout);
    let ghost lines = all.deep_view();
    let mut scan = Scan { found: Vec::new(), path: None, branch: None };
    let ghost start = WorktreeScan::start();
    assert(scan.deep_view() =~= start);
    assert(lines.take(0) =~= seq![]);
    for i in 0..all.len()
        invariant
            lines == all.deep_view(),
            scan.deep_view() == start.after_all(lines.take(i as int)),
    {
        assert(lines.take(i + 1).drop_last() =~= lines.take(i as int));
        scan.line(all[i].as_str());
    }
    assert(lines.take(all.len() as int) =~= lines);
    scan.flush();
    Ok(scan.found)
}

/// A worktree that git lists with its branch is read back, after whatever was listed before it.
pub proof fn worktree_is_read_back(scan: WorktreeScan, path: Seq<char>, branch: Seq<char>)
    requires
        text::trimmed(path) == path,
        !"worktree "@.is_prefix_of(path),
        text::trimmed("refs/heads/"@ + branch) == "refs/heads/"@ + branch,
    ensures
        scan.after("worktree "@ + path).after("branch "@ + ("refs/heads/"@ + branch)).all()
            == scan.all().push(ExistingWorktreeView { path, branch }),
{
    reveal_strlit("worktree ");
    reveal_strlit("branch ");
    reveal_strlit("refs/heads/");
    let first = "worktree "@ + path;
    let reference = "refs/heads/"@ + branch;
    let second = "branch "@ + reference;
    assert(first.skip("worktree "@.len() as int) =~= path);
    assert(second.skip("branch "@.len() as int) =~= reference);
    assert(reference.skip("refs/heads/"@.len() as int) =~= branch);
    assert("worktree "@.is_prefix_of(first)) by {
        assert(first.subrange(0, "worktree "@.len() as int) =~= "worktree "@);
    }
    assert("branch "@.is_prefix_of(second)) by {
        assert(second.subrange(0, "branch "@.len() as int) =~= "branch "@);
    }
    assert("refs/heads/"@.is_prefix_of(reference)) by {
        assert(reference.subrange(0, "refs/heads/"@.len() as int) =~= "refs/heads/"@);
    }
    assert(!"worktree "@.is_prefix_of(second)) by {
        assert(second[0] == 'b');
        assert("worktree "@[0] == 'w');
    }
    assert(!"branch "@.is_prefix_of(reference)) by {
        assert(reference[0] == 'r');
        assert("branch "@[0] == 'b');
    }
    reveal_with_fuel(without_prefixes, 2);
    assert(without_prefixes(first, "worktree "@) == path);
    assert(without_prefixes(second, "branch "@) == reference);
}

} // verus!
