//! What a session history says of itself: how often tools were used and which files changed.
use crate::json::{Json, JsonView};
use crate::state::SessionEventView;
use crate::text::same;
use vstd::prelude::*;

verus! {

/// A list of files with one more, unless it is there already.
pub open spec fn with_file(files: Seq<Seq<char>>, path: Seq<char>) -> Seq<Seq<char>> {
    if files.contains(path) {
        files
    } else {
        files.push(path)
    }
}

/// The file that the use of a tool changes: the path in the input of an `Edit` or a `Write`.
pub open spec fn changed_file(name: Seq<char>, input: Option<JsonView>) -> Option<Seq<char>> {
    if name == "Edit"@ || name == "Write"@ {
        match input {
            Some(value) => value.field_text("file_path"@),
            None => None,
        }
    } else {
        None
    }
}

/// The files after one more use of a tool.
pub open spec fn files_after(
    files: Seq<Seq<char>>,
    name: Seq<char>,
    input: Option<JsonView>,
) -> Seq<Seq<char>> {
    match changed_file(name, input) {
        Some(path) => with_file(files, path),
        None => files,
    }
}

/// The files that the tool uses among some events change, each once, in the order of their
/// first change.
pub open spec fn changed_files(events: Seq<SessionEventView>) -> Seq<Seq<char>>
    decreases events.len(),
{
    if events.len() == 0 {
        seq![]
    } else {
        match events.last() {
            SessionEventView::ToolUse { name, input, .. } => files_after(
                changed_files(events.drop_last()),
                name,
                input,
            ),
            _ => changed_files(events.drop_last()),
        }
    }
}

/// Whether an event is the use of a tool that changes the file at `path`.
pub open spec fn changes(event: SessionEventView, path: Seq<char>) -> bool {
    match event {
        SessionEventView::ToolUse { name, input, .. } => changed_file(name, input) == Some(path),
        _ => false,
    }
}

/// The changed files are those that some event changes, and none is listed twice.
pub proof fn changed_files_exact(events: Seq<SessionEventView>)
    ensures
        changed_files(events).no_duplicates(),
        forall|path: Seq<char>|
            changed_files(events).contains(path) <==> exists|i: int|
                0 <= i < events.len() && #[trigger] changes(events[i], path),
    decreases events.len(),
{
    if events.len() > 0 {
        let front = events.drop_last();
        let last = events.last();
        changed_files_exact(front);
        assert forall|path: Seq<char>|
            changed_files(events).contains(path) <==> exists|i: int|
                0 <= i < events.len() && #[trigger] changes(events[i], path) by {
            let files = changed_files(events);
            let before = changed_files(front);
            assert(before.contains(path) || changes(last, path) <==> files.contains(path)) by {
                if files != before {
                    assert(files =~= before.push(files.last()));
                    assert(changes(last, files.last()));
                    if before.contains(path) {
                        let k = choose|k: int| 0 <= k < before.len() && before[k] == path;
                        assert(files[k] == path);
                    }
                    assert(files[files.len() - 1] == files.last());
                }
            }
            if before.contains(path) {
                let i = choose|i: int| 0 <= i < front.len() && #[trigger] changes(front[i], path);
                assert(changes(events[i], path));
            }
            if changes(last, path) {
                assert(changes(events[events.len() - 1], path));
            }
            if exists|i: int| 0 <= i < events.len() && #[trigger] changes(events[i], path) {
                let i = choose|i: int|
                    0 <= i < events.len() && #[trigger] changes(events[i], path);
                if i < front.len() {
                    assert(changes(front[i], path));
                }
            }
        }
    }
}

/// Whether an event is the use of a tool.
pub open spec fn is_tool_use(event: SessionEventView) -> bool {
    event is ToolUse
}

/// The number of tool uses among some events.
pub open spec fn tool_uses(events: Seq<SessionEventView>) -> nat
    decreases events.len(),
{
    if events.len() == 0 {
        0
    } else {
        tool_uses(events.drop_last()) + (if is_tool_use(events.last()) {
            1nat
        } else {
            0nat
        })
    }
}

/// There are no more tool uses than events.
pub proof fn tool_uses_bounded(events: Seq<SessionEventView>)
    ensures
        tool_uses(events) <= events.len(),
    decreases events.len(),
{
    if events.len() > 0 {
        tool_uses_bounded(events.drop_last());
    }
}

/// One more event counts where it is the use of a tool.
pub proof fn tool_uses_push(events: Seq<SessionEventView>, event: SessionEventView)
    ensures
        tool_uses(events.push(event)) == tool_uses(events) + (if is_tool_use(event) {
            1nat
        } else {
            0nat
        }),
{
    assert(events.push(event).drop_last() =~= events);
}

/// One more event changes the list of files as the event says.
pub proof fn changed_files_push(events: Seq<SessionEventView>, event: SessionEventView)
    ensures
        changed_files(events.push(event)) == (match event {
            SessionEventView::ToolUse { name, input, .. } => files_after(
                changed_files(events),
                name,
                input,
            ),
            _ => changed_files(events),
        }),
{
    assert(events.push(event).drop_last() =~= events);
}

/// Whether an event is an `Edit` or a `Write` of the file at `path`.
pub open spec fn writes_to(event: SessionEventView, path: Seq<char>) -> bool {
    match event {
        SessionEventView::ToolUse { name, input: Some(value), .. } => (name == "Edit"@ || name
            == "Write"@) && value.field("file_path"@) == Some(JsonView::Text(path)),
        _ => false,
    }
}

/// The changed files are those that some `Edit` or `Write` names, each once; what other tools are
/// handed changes nothing.
pub proof fn edits_and_writes_are_listed(events: Seq<SessionEventView>)
    ensures
        changed_files(events).no_duplicates(),
        forall|path: Seq<char>|
            changed_files(events).contains(path) <==> exists|i: int|
                0 <= i < events.len() && #[trigger] writes_to(events[i], path),
{
    changed_files_exact(events);
    assert forall|path: Seq<char>|
        changed_files(events).contains(path) <==> exists|i: int|
            0 <= i < events.len() && #[trigger] writes_to(events[i], path) by {
        assert forall|i: int| 0 <= i < events.len() implies (#[trigger] changes(events[i], path)
            <==> writes_to(events[i], path)) by {}
        if changed_files(events).contains(path) {
            let i = choose|i: int| 0 <= i < events.len() && #[trigger] changes(events[i], path);
            assert(writes_to(events[i], path));
        }
        if exists|i: int| 0 <= i < events.len() && #[trigger] writes_to(events[i], path) {
            let i = choose|i: int| 0 <= i < events.len() && #[trigger] writes_to(events[i], path);
            assert(changes(events[i], path));
        }
    }
}

/// Later events only add files behind those that were changed before.
pub proof fn files_keep_their_order(events: Seq<SessionEventView>, event: SessionEventView)
    ensures
        changed_files(events).is_prefix_of(changed_files(events.push(event))),
        changed_files(events.push(event)).len() <= changed_files(events).len() + 1,
{
    changed_files_push(events, event);
    let before = changed_files(events);
    let after = changed_files(events.push(event));
    assert(before.is_prefix_of(after)) by {
        assert(after.take(before.len() as int) =~= before);
    }
}

/// Uses of tools are counted over any way to take events apart, each as one.
pub proof fn tool_uses_add_up(a: Seq<SessionEventView>, b: Seq<SessionEventView>)
    ensures
        tool_uses(a + b) == tool_uses(a) + tool_uses(b),
        forall|e: SessionEventView| #[trigger]
            tool_uses(seq![e]) == (if e is ToolUse {
                1nat
            } else {
                0nat
            }),
    decreases b.len(),
{
    assert forall|e: SessionEventView| #[trigger] tool_uses(seq![e]) == (if e is ToolUse {
        1nat
    } else {
        0nat
    }) by {
        assert(seq![e].drop_last() =~= Seq::<SessionEventView>::empty());
        assert(tool_uses(Seq::<SessionEventView>::empty()) == 0);
    }
    if b.len() == 0 {
        assert(a + b =~= a);
    } else {
        tool_uses_add_up(a, b.drop_last());
        assert((a + b).drop_last() =~= a + b.drop_last());
        assert((a + b).last() == b.last());
    }
}

/// Adds a file to a list, unless it is there already.
pub fn add_file(files: &mut Vec<String>, path: &str)
    ensures
        final(files).deep_view() == with_file(old(files).deep_view(), path@),
{
    let ghost before = files.deep_view();
    for i in 0..files.len()
        invariant
            files.deep_view() == before,
            forall|j: int| 0 <= j < i ==> before[j] != path@,
    {
        assert(before[i as int] == files@[i as int]@);
        if same(files[i].as_str(), path) {
            assert(before.contains(path@));
            return ;
        }
    }
    assert(!before.contains(path@));
    files.push(path.to_owned());
    assert(files.deep_view() =~= before.push(path@));
}

/// Adds the file that the use of a tool changes, if any.
pub fn add_changed_file(files: &mut Vec<String>, name: &str, input: Option<&Json>)
    ensures
        final(files).deep_view() == files_after(
            old(files).deep_view(),
            name@,
            match input {
                Some(value) => Some(value.deep_view()),
                None => None,
            },
        ),
{
    if same(name, "Edit") || same(name, "Write") {
        if let Some(value) = input {
            if let Some(path) = value.get_str("file_path") {
                add_file(files, path);
            }
        }
    }
}

} // verus!
