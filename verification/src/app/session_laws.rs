//! What holds of the steps that the log views show of a session.
use crate::app::worker_view;
use crate::session;
use crate::state::SessionEventView;
use crate::text;
use crate::ui::types::StepStatus;
use vstd::prelude::*;

verus! {

/// What the agent said from one event up to another, message by message.
pub open spec fn spoken(events: Seq<SessionEventView>, from: int, to: int) -> Seq<Seq<char>>
    decreases to - from,
{
    if from >= to {
        seq![]
    } else {
        (match events[from] {
            SessionEventView::AssistantMessage { text, .. } => text::lines(text),
            _ => seq![],
        }) + spoken(events, from + 1, to)
    }
}

/// What the agent thought from one event up to another, thought by thought.
pub open spec fn pondered(events: Seq<SessionEventView>, from: int, to: int) -> Seq<Seq<char>>
    decreases to - from,
{
    if from >= to {
        seq![]
    } else {
        (match events[from] {
            SessionEventView::ThinkingBlock { content, .. } => text::lines(content),
            _ => seq![],
        }) + pondered(events, from + 1, to)
    }
}

/// Whether no tool is used from one event up to another.
pub open spec fn without_tools(events: Seq<SessionEventView>, from: int, to: int) -> bool {
    forall|i: int| from <= i < to ==> !((#[trigger] events[i]) is ToolUse)
}

/// Whether nothing but the use of a tool, or the start, stands before an event.
pub open spec fn after_tool(events: Seq<SessionEventView>, from: int) -> bool {
    from == 0 || 0 < from <= events.len() && events[from - 1] is ToolUse
}

proof fn lemma_spoken_splits(events: Seq<SessionEventView>, from: int, to: int)
    requires
        from < to,
    ensures
        spoken(events, from, to) == spoken(events, from, to - 1) + (match events[to - 1] {
            SessionEventView::AssistantMessage { text, .. } => text::lines(text),
            _ => seq![],
        }),
        pondered(events, from, to) == pondered(events, from, to - 1) + (match events[to - 1] {
            SessionEventView::ThinkingBlock { content, .. } => text::lines(content),
            _ => seq![],
        }),
    decreases to - from,
{
    if from + 1 < to {
        lemma_spoken_splits(events, from + 1, to);
        assert(spoken(events, from, to) =~= spoken(events, from, to - 1) + (match events[to - 1] {
            SessionEventView::AssistantMessage { text, .. } => text::lines(text),
            _ => seq![],
        }));
        assert(pondered(events, from, to) =~= pondered(events, from, to - 1) + (
        match events[to - 1] {
            SessionEventView::ThinkingBlock { content, .. } => text::lines(content),
            _ => seq![],
        }));
    } else {
        assert(spoken(events, from + 1, to) =~= seq![]);
        assert(pondered(events, from + 1, to) =~= seq![]);
        assert(spoken(events, from, to) =~= spoken(events, from, to - 1) + (match events[to - 1] {
            SessionEventView::AssistantMessage { text, .. } => text::lines(text),
            _ => seq![],
        }));
        assert(pondered(events, from, to) =~= pondered(events, from, to - 1) + (
        match events[to - 1] {
            SessionEventView::ThinkingBlock { content, .. } => text::lines(content),
            _ => seq![],
        }));
    }
}

proof fn lemma_since_tool(events: Seq<SessionEventView>, from: int, to: int)
    requires
        0 <= from <= to <= events.len(),
        after_tool(events, from),
        without_tools(events, from, to),
    ensures
        worker_view::said_before(events, to) == spoken(events, from, to),
        worker_view::thought_before(events, to) == pondered(events, from, to),
    decreases to,
{
    if from < to {
        lemma_since_tool(events, from, to - 1);
        lemma_spoken_splits(events, from, to);
        assert(!(events[to - 1] is ToolUse));
        assert(worker_view::said_before(events, to) =~= spoken(events, from, to));
        assert(worker_view::thought_before(events, to) =~= pondered(events, from, to));
    }
}

proof fn lemma_steps_of_front(events: Seq<SessionEventView>, n: int)
    requires
        0 <= n <= events.len() <= usize::MAX,
    ensures
        worker_view::tool_steps(events, n).len() == session::tool_uses(events.take(n)),
        worker_view::tool_steps(events, n).is_prefix_of(
            worker_view::tool_steps(events, events.len() as int),
        ),
    decreases n, events.len() - n,
{
    lemma_count(events, n);
    lemma_steps_grow(events, n, events.len() as int);
}

proof fn lemma_count(events: Seq<SessionEventView>, n: int)
    requires
        0 <= n <= events.len(),
    ensures
        worker_view::tool_steps(events, n).len() == session::tool_uses(events.take(n)),
    decreases n,
{
    if n > 0 {
        lemma_count(events, n - 1);
        assert(events.take(n).drop_last() =~= events.take(n - 1));
    }
}

proof fn lemma_steps_grow(events: Seq<SessionEventView>, n: int, m: int)
    requires
        0 <= n <= m <= events.len(),
    ensures
        worker_view::tool_steps(events, n).is_prefix_of(worker_view::tool_steps(events, m)),
    decreases m - n,
{
    let a = worker_view::tool_steps(events, n);
    let c = worker_view::tool_steps(events, m);
    if n < m {
        lemma_steps_grow(events, n, m - 1);
        let b = worker_view::tool_steps(events, m - 1);
        assert(a =~= b.take(a.len() as int));
        assert(b.is_prefix_of(c)) by {
            assert(c.take(b.len() as int) =~= b);
        }
        assert(c.take(a.len() as int) =~= a);
    } else {
        assert(c.take(a.len() as int) =~= a);
    }
}

/// The use of a tool is a step of its own, of the name of the tool and at the place that its turn
/// among the uses gives it. The step shows what was said and what was thought since the use of a
/// tool before it, or since the start, in order, and nothing from before that.
pub proof fn steps_show_what_led_to_a_tool(events: Seq<SessionEventView>, from: int, use_at: int)
    requires
        events.len() <= usize::MAX,
        0 <= from <= use_at < events.len(),
        events[use_at] is ToolUse,
        after_tool(events, from),
        without_tools(events, from, use_at),
    ensures
        ({
            let steps = worker_view::session_steps(events);
            let k = session::tool_uses(events.take(use_at)) as int;
            &&& 0 <= k < steps.len()
            &&& steps[k].step_index == k
            &&& steps[k].step_name == events[use_at]->ToolUse_name
            &&& steps[k].prompt_lines == spoken(events, from, use_at)
            &&& steps[k].thought_lines == pondered(events, from, use_at)
            &&& steps[k].status == StepStatus::Success
        }),
{
    lemma_since_tool(events, from, use_at);
    lemma_steps_of_front(events, use_at);
    lemma_steps_of_front(events, use_at + 1);
    let k = session::tool_uses(events.take(use_at)) as int;
    let next = worker_view::tool_steps(events, use_at + 1);
    let all = worker_view::tool_steps(events, events.len() as int);
    session::tool_uses_bounded(events.take(use_at));
    assert(next.len() == k + 1);
    assert(next =~= all.take(next.len() as int));
    assert(all[k] == next[k]);
}

/// A tool that is used directly after another one is led to by nothing.
pub proof fn nothing_leads_to_a_tool_after_a_tool(events: Seq<SessionEventView>, use_at: int)
    requires
        events.len() <= usize::MAX,
        0 < use_at < events.len(),
        events[use_at] is ToolUse,
        events[use_at - 1] is ToolUse,
    ensures
        ({
            let steps = worker_view::session_steps(events);
            let k = session::tool_uses(events.take(use_at)) as int;
            &&& 0 <= k < steps.len()
            &&& steps[k].prompt_lines.len() == 0
            &&& steps[k].thought_lines.len() == 0
        }),
{
    steps_show_what_led_to_a_tool(events, use_at, use_at);
}

proof fn lemma_result_found(
    events: Seq<SessionEventView>,
    from: int,
    at: int,
    tool: Seq<char>,
)
    requires
        0 <= from <= at <= events.len(),
        without_tools(events, from, at),
        forall|i: int|
            from <= i < at ==> !((#[trigger] events[i]) matches SessionEventView::ToolResult {
                name,
                ..
            } && name == tool),
    ensures
        worker_view::result_after(events, from, tool) == worker_view::result_after(
            events,
            at,
            tool,
        ),
    decreases at - from,
{
    if from < at {
        assert(!(events[from] is ToolUse));
        lemma_result_found(events, from + 1, at, tool);
    }
}

/// A step shows the output of the first result of its tool that comes before the next use of a
/// tool.
pub proof fn steps_show_the_first_result(events: Seq<SessionEventView>, use_at: int, at: int)
    requires
        events.len() <= usize::MAX,
        0 <= use_at < at < events.len(),
        events[use_at] is ToolUse,
        events[at] is ToolResult,
        events[at]->ToolResult_name == events[use_at]->ToolUse_name,
        without_tools(events, use_at + 1, at),
        forall|i: int|
            use_at < i < at ==> !((#[trigger] events[i]) matches SessionEventView::ToolResult {
                name,
                ..
            } && name == events[use_at]->ToolUse_name),
    ensures
        ({
            let steps = worker_view::session_steps(events);
            let k = session::tool_uses(events.take(use_at)) as int;
            &&& 0 <= k < steps.len()
            &&& events[at]->ToolResult_output matches Some(output) ==> steps[k].result_lines
                == text::lines(output)
            &&& events[at]->ToolResult_output is None ==> steps[k].result_lines.len() == 0
        }),
{
    let tool = events[use_at]->ToolUse_name;
    lemma_result_found(events, use_at + 1, at, tool);
    lemma_step_of_use(events, use_at);
}

proof fn lemma_step_of_use(events: Seq<SessionEventView>, use_at: int)
    requires
        events.len() <= usize::MAX,
        0 <= use_at < events.len(),
        events[use_at] is ToolUse,
    ensures
        ({
            let steps = worker_view::session_steps(events);
            let k = session::tool_uses(events.take(use_at)) as int;
            &&& 0 <= k < steps.len()
            &&& steps[k].result_lines == worker_view::result_after(
                events,
                use_at + 1,
                events[use_at]->ToolUse_name,
            )
        }),
{
    lemma_steps_of_front(events, use_at);
    lemma_steps_of_front(events, use_at + 1);
    let k = session::tool_uses(events.take(use_at)) as int;
    let next = worker_view::tool_steps(events, use_at + 1);
    let all = worker_view::tool_steps(events, events.len() as int);
    assert(next =~= all.take(next.len() as int));
    assert(all[k] == next[k]);
}

/// A step whose tool gives no result before the next use of a tool shows none.
pub proof fn steps_without_result_show_none(
    events: Seq<SessionEventView>,
    use_at: int,
    until: int,
)
    requires
        events.len() <= usize::MAX,
        0 <= use_at < until <= events.len(),
        events[use_at] is ToolUse,
        until == events.len() || events[until] is ToolUse,
        without_tools(events, use_at + 1, until),
        forall|i: int|
            use_at < i < until ==> !((#[trigger] events[i]) matches SessionEventView::ToolResult {
                name,
                ..
            } && name == events[use_at]->ToolUse_name),
    ensures
        ({
            let steps = worker_view::session_steps(events);
            let k = session::tool_uses(events.take(use_at)) as int;
            0 <= k < steps.len() && steps[k].result_lines.len() == 0
        }),
{
    lemma_result_found(events, use_at + 1, until, events[use_at]->ToolUse_name);
    lemma_step_of_use(events, use_at);
}

/// There is one step for each use of a tool and no other; a session without tools is one step that
/// shows all that was said and thought, or none where there was nothing.
pub proof fn steps_are_tool_uses(events: Seq<SessionEventView>)
    requires
        events.len() <= usize::MAX,
    ensures
        ({
            let steps = worker_view::session_steps(events);
            let uses = session::tool_uses(events);
            let n = events.len() as int;
            &&& uses > 0 ==> steps.len() == uses
            &&& uses == 0 && (spoken(events, 0, n).len() > 0 || pondered(events, 0, n).len() > 0)
                ==> steps.len() == 1 && steps[0].prompt_lines == spoken(events, 0, n)
                && steps[0].thought_lines == pondered(events, 0, n) && steps[0].result_lines.len()
                == 0
            &&& uses == 0 && spoken(events, 0, n).len() == 0 && pondered(events, 0, n).len() == 0
                ==> steps.len() == 0
        }),
{
    let n = events.len() as int;
    lemma_count(events, n);
    assert(events.take(n) =~= events);
    if session::tool_uses(events) == 0 {
        lemma_no_uses(events, n);
        lemma_since_tool(events, 0, n);
    }
}

proof fn lemma_no_uses(events: Seq<SessionEventView>, n: int)
    requires
        0 <= n <= events.len(),
        session::tool_uses(events.take(n)) == 0,
    ensures
        without_tools(events, 0, n),
    decreases n,
{
    if n > 0 {
        assert(events.take(n).drop_last() =~= events.take(n - 1));
        lemma_no_uses(events, n - 1);
        assert(events.take(n).last() == events[n - 1]);
    }
}

} // verus!
