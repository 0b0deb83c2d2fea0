//! What holds of the arguments of every run of the agent, and of all that its output says.
use crate::clock;
use crate::config::ClaudeStepView;
use crate::json::{self, JsonView};
use crate::state::SessionEventView;
use crate::text;
use crate::text_laws;
use crate::worker::claude::{self, ClaudeRunView};
use vstd::prelude::*;

verus! {

/// Whether a value of the output is of a kind.
pub open spec fn is_kind(value: JsonView, kind: Seq<char>) -> bool {
    value.field("type"@) == Some(JsonView::Text(kind))
}

/// A run once the thoughts of a value have been told, before the value itself is.
pub open spec fn noted(run: ClaudeRunView, value: JsonView, time: Seq<char>) -> ClaudeRunView {
    run.thought(claude::thoughts(value, false), time)
}

/// The kinds of values are told apart.
proof fn lemma_kinds_differ()
    ensures
        "system"@ != "result"@,
        "system"@ != "error"@,
        "system"@ != "assistant"@,
        "system"@ != "tool_use"@,
        "system"@ != "tool_result"@,
        "result"@ != "error"@,
        "result"@ != "assistant"@,
        "result"@ != "tool_use"@,
        "result"@ != "tool_result"@,
        "error"@ != "assistant"@,
        "error"@ != "tool_use"@,
        "error"@ != "tool_result"@,
        "assistant"@ != "tool_use"@,
        "assistant"@ != "tool_result"@,
        "tool_use"@ != "tool_result"@,
{
    reveal_strlit("system");
    reveal_strlit("result");
    reveal_strlit("error");
    reveal_strlit("assistant");
    reveal_strlit("tool_use");
    reveal_strlit("tool_result");
    assert("system"@[0] == 's');
    assert("result"@[0] == 'r');
    assert("system"@.len() == 6 && "result"@.len() == 6 && "error"@.len() == 5
        && "assistant"@.len() == 9 && "tool_use"@.len() == 8 && "tool_result"@.len() == 11);
}

/// A result is an error exactly where it says so: the event that it adds tells what `is_error`
/// says, and the log warns of an error exactly where `is_error` is true. Without a boolean there
/// it is no error.
pub proof fn results_are_errors_where_they_say_so(
    run: ClaudeRunView,
    value: JsonView,
    time: Seq<char>,
    says: bool,
    result: Seq<char>,
)
    requires
        is_kind(value, "result"@),
        match value.field("is_error"@) {
            Some(JsonView::Bool(b)) => says == b,
            _ => !says,
        },
        result.len() > 0,
    ensures
        ({
            let before = noted(run, value, time);
            let after = run.after_value(value, time);
            let warning = if says {
                seq!["⚠️  "@ + run.short_name + " encountered an error"@]
            } else {
                seq![]
            };
            &&& value.field("result"@) == Some(JsonView::Text(result)) ==> {
                &&& after.events == before.events.push(
                    SessionEventView::Result { text: result, is_error: says, timestamp: time },
                )
                &&& after.log == before.log + warning + seq!["─── Result ───"@] + text::lines(
                    result,
                )
            }
            &&& value.field("result"@) is None ==> {
                &&& after.events == before.events
                &&& after.log == before.log + warning
            }
            &&& after.session_id == run.session_id
            &&& after.tool_uses == run.tool_uses
            &&& after.files == run.files
        }),
{
    lemma_kinds_differ();
    let before = noted(run, value, time);
    let after = run.after_value(value, time);
    assert(after == before.concluded(value, time));
    assert(before.short_name == run.short_name);
    let warning = if says {
        seq!["⚠️  "@ + run.short_name + " encountered an error"@]
    } else {
        seq![]
    };
    assert(value.field("result"@) == Some(JsonView::Text(result)) ==> after.log =~= before.log
        + warning + seq!["─── Result ───"@] + text::lines(result));
    assert(value.field("result"@) is None ==> after.log =~= before.log + warning);
}

/// A successful result adds no warning: the log goes on with the result itself.
pub proof fn successes_are_not_warned_of(
    run: ClaudeRunView,
    value: JsonView,
    time: Seq<char>,
    result: Seq<char>,
)
    requires
        is_kind(value, "result"@),
        value.field("is_error"@) == Some(JsonView::Bool(false)),
        value.field("result"@) == Some(JsonView::Text(result)),
        result.len() > 0,
        claude::thoughts(value, false).len() == 0,
    ensures
        run.after_value(value, time).log == run.log + seq!["─── Result ───"@] + text::lines(result),
        run.after_value(value, time).events == run.events.push(
            SessionEventView::Result { text: result, is_error: false, timestamp: time },
        ),
{
    results_are_errors_where_they_say_so(run, value, time, false, result);
    assert(run.log + Seq::<Seq<char>>::empty() =~= run.log);
}

/// What the agent says is logged and becomes a message, unless it is blank.
pub proof fn messages_are_told(
    run: ClaudeRunView,
    value: JsonView,
    time: Seq<char>,
    said: Seq<char>,
)
    requires
        is_kind(value, "assistant"@),
        value.field("text"@) == Some(JsonView::Text(said)),
    ensures
        ({
            let before = noted(run, value, time);
            let after = run.after_value(value, time);
            &&& !text::blank(said) ==> after.log == before.log.push("💬 "@ + said) && after.events
                == before.events.push(
                SessionEventView::AssistantMessage { text: said, timestamp: time },
            )
            &&& text::blank(said) ==> after == before
            &&& after.session_id == run.session_id
            &&& after.tool_uses == run.tool_uses
            &&& after.files == run.files
        }),
{
    lemma_kinds_differ();
}

/// The use of a tool is logged by the name of the tool, becomes an event with what the tool was
/// handed, and is counted as one.
pub proof fn tool_uses_are_told(
    run: ClaudeRunView,
    value: JsonView,
    time: Seq<char>,
    name: Seq<char>,
)
    requires
        is_kind(value, "tool_use"@),
        value.field("name"@) == Some(JsonView::Text(name)),
        run.tool_uses < usize::MAX,
    ensures
        ({
            let before = noted(run, value, time);
            let after = run.after_value(value, time);
            &&& after.log == before.log.push("🔧 Using tool: "@ + name)
            &&& after.events == before.events.push(
                SessionEventView::ToolUse { name, timestamp: time, input: value.field("input"@) },
            )
            &&& after.tool_uses == run.tool_uses + 1
            &&& after.session_id == run.session_id
            &&& forall|input: JsonView, path: Seq<char>|
                value.field("input"@) == Some(input) && #[trigger] input.field("file_path"@) == Some(
                    JsonView::Text(path),
                ) && (name == "Edit"@ || name == "Write"@) ==> #[trigger] after.files.contains(path)
            &&& name != "Edit"@ && name != "Write"@ ==> after.files == run.files
        }),
{
    lemma_kinds_differ();
    let after = run.after_value(value, time);
    assert forall|input: JsonView, path: Seq<char>|
        value.field("input"@) == Some(input) && #[trigger] input.field("file_path"@) == Some(
            JsonView::Text(path),
        ) && (name == "Edit"@ || name == "Write"@) implies #[trigger] after.files.contains(
        path,
    ) by {
        if !run.files.contains(path) {
            assert(after.files =~= run.files.push(path));
            assert(after.files[run.files.len() as int] == path);
        }
    }
}

/// The result of a tool becomes an event of the use that it answers, and is not logged.
pub proof fn tool_results_are_kept(
    run: ClaudeRunView,
    value: JsonView,
    time: Seq<char>,
    answered: Seq<char>,
    content: Seq<char>,
)
    requires
        is_kind(value, "tool_result"@),
        value.field("tool_use_id"@) == Some(JsonView::Text(answered)),
    ensures
        ({
            let before = noted(run, value, time);
            let after = run.after_value(value, time);
            &&& after.log == before.log
            &&& value.field("content"@) == Some(JsonView::Text(content)) ==> after.events
                == before.events.push(
                SessionEventView::ToolResult {
                    name: answered,
                    timestamp: time,
                    output: Some(content),
                },
            )
            &&& value.field("content"@) is None ==> after.events == before.events.push(
                SessionEventView::ToolResult { name: answered, timestamp: time, output: None },
            )
            &&& after.session_id == run.session_id
            &&& after.tool_uses == run.tool_uses
            &&& after.files == run.files
        }),
{
    lemma_kinds_differ();
}

/// An error of the service is logged and becomes an error with its message.
pub proof fn service_errors_are_told(
    run: ClaudeRunView,
    value: JsonView,
    time: Seq<char>,
    error: JsonView,
    message: Seq<char>,
)
    requires
        is_kind(value, "error"@),
    ensures
        ({
            let before = noted(run, value, time);
            let after = run.after_value(value, time);
            &&& value.field("error"@) == Some(error) && error.field("message"@) == Some(
                JsonView::Text(message),
            ) ==> after.log == before.log + seq!["❌ API Error:"@, "  "@ + message] && after.events
                == before.events.push(SessionEventView::Error { message, timestamp: time })
            &&& value.field("error"@) is None ==> after.log == before.log.push("❌ API Error:"@)
                && after.events.len() == before.events.len() + 1 && after.events.last() is Error
            &&& after.session_id == run.session_id
            &&& after.tool_uses == run.tool_uses
        }),
{
    lemma_kinds_differ();
    let before = noted(run, value, time);
    let after = run.after_value(value, time);
    assert(value.field("error"@) == Some(error) && error.field("message"@) == Some(
        JsonView::Text(message),
    ) ==> after.log =~= before.log + seq!["❌ API Error:"@, "  "@ + message]);
}

/// A value of the system that names a session makes it the session of the run, and nothing else
/// does; it is neither logged nor kept as an event.
pub proof fn sessions_are_named_by_the_system(
    run: ClaudeRunView,
    value: JsonView,
    time: Seq<char>,
    id: Seq<char>,
)
    ensures
        ({
            let before = noted(run, value, time);
            let after = run.after_value(value, time);
            &&& is_kind(value, "system"@) && value.field("session_id"@) == Some(
                JsonView::Text(id),
            ) ==> after == (ClaudeRunView { session_id: Some(id), ..before })
            &&& is_kind(value, "system"@) && value.field("session_id"@) is None ==> after == before
            &&& !is_kind(value, "system"@) ==> after.session_id == run.session_id
        }),
{
    lemma_kinds_differ();
}

/// A value of a kind that means nothing here tells of its thoughts alone.
pub proof fn unknown_values_are_passed_over(run: ClaudeRunView, value: JsonView, time: Seq<char>)
    requires
        !is_kind(value, "system"@),
        !is_kind(value, "result"@),
        !is_kind(value, "error"@),
        !is_kind(value, "assistant"@),
        !is_kind(value, "tool_use"@),
        !is_kind(value, "tool_result"@),
    ensures
        run.after_value(value, time) == noted(run, value, time),
{
}

/// Thoughts are logged in order between their markers and make up one event, which says them one
/// below the other; without thoughts nothing is told.
pub proof fn thoughts_are_told(run: ClaudeRunView, lines: Seq<Seq<char>>, time: Seq<char>)
    ensures
        lines.len() == 0 ==> run.thought(lines, time) == run,
        lines.len() > 0 ==> ({
            let after = run.thought(lines, time);
            &&& after.log == run.log + seq!["[THOUGHT_START]"@] + lines + seq!["[THOUGHT_END]"@]
            &&& after.events == run.events.push(
                SessionEventView::ThinkingBlock {
                    content: text::trimmed(text_laws::ended(lines, "\n"@)),
                    timestamp: time,
                },
            )
            &&& after.session_id == run.session_id
            &&& after.tool_uses == run.tool_uses
            &&& after.files == run.files
            &&& after.short_name == run.short_name
        }),
{
    lemma_block(lines);
    if lines.len() > 0 {
        assert(run.thought(lines, time).log =~= run.log + seq!["[THOUGHT_START]"@] + lines + seq![
            "[THOUGHT_END]"@,
        ]);
    }
}

proof fn lemma_block(lines: Seq<Seq<char>>)
    ensures
        claude::block_text(lines) == text_laws::ended(lines, "\n"@),
    decreases lines.len(),
{
    if lines.len() > 0 {
        lemma_block(lines.drop_last());
    }
}

/// A line of the output that is no JSON is logged as it stands, but for white space at its end; a
/// blank line is passed over; a JSON value is told at the time at which it was read.
pub proof fn lines_are_values_or_text(run: ClaudeRunView, line: Seq<char>, now: i128)
    ensures
        ({
            let shown = text::trimmed_end(line);
            let after = run.after_line(line, now);
            &&& shown.len() == 0 ==> after == run
            &&& shown.len() > 0 ==> match json::parsed_json(shown) {
                Some(value) => after == run.after_value(value, clock::timestamp_text(now)),
                None => after == (ClaudeRunView { log: run.log.push(shown), ..run }),
            }
        }),
{
}

/// The output is told line by line, in order: what it says in two pieces is what the second says
/// after the first.
pub proof fn output_is_told_in_order(
    run: ClaudeRunView,
    a: Seq<Seq<char>>,
    a_times: Seq<i128>,
    b: Seq<Seq<char>>,
    b_times: Seq<i128>,
)
    requires
        a.len() == a_times.len(),
        b.len() == b_times.len(),
    ensures
        run.after_lines(a + b, a_times + b_times) == run.after_lines(a, a_times).after_lines(
            b,
            b_times,
        ),
        b.len() == 1 ==> run.after_lines(b, b_times) == run.after_line(b[0], b_times[0]),
        run.after_lines(Seq::empty(), b_times) == run,
    decreases b.len(),
{
    if b.len() == 0 {
        assert(a + b =~= a);
        assert(a_times + b_times =~= a_times);
    } else {
        let front = b.drop_last();
        let front_times = b_times.drop_last();
        output_is_told_in_order(run, a, a_times, front, front_times);
        assert((a + b).drop_last() =~= a + front);
        lemma_times_of_front(run, a + front, a_times + front_times, a_times + b_times);
        lemma_times_of_front(run.after_lines(a, a_times), front, front_times, b_times);
        if b.len() == 1 {
            assert(front =~= Seq::<Seq<char>>::empty());
        }
    }
}

proof fn lemma_times_of_front(
    run: ClaudeRunView,
    lines: Seq<Seq<char>>,
    times: Seq<i128>,
    more: Seq<i128>,
)
    requires
        lines.len() <= times.len() <= more.len(),
        forall|i: int| 0 <= i < times.len() ==> times[i] == more[i],
    ensures
        run.after_lines(lines, times) == run.after_lines(lines, more),
    decreases lines.len(),
{
    if lines.len() > 0 {
        lemma_times_of_front(run, lines.drop_last(), times, more);
    }
}

/// The history of a run tells its prompt, its events, how often tools were used and which files
/// changed, from its start to its end; its session is that of the run, or unknown.
pub proof fn histories_tell_the_run(
    run: ClaudeRunView,
    prompt: Seq<char>,
    start: i128,
    end: i128,
    id: Seq<char>,
    begun: Seq<char>,
    ended: Seq<char>,
)
    ensures
        ({
            let h = claude::run_history(run, prompt, start, end);
            &&& h.prompt == prompt
            &&& h.events == run.events
            &&& h.total_tool_uses == run.tool_uses
            &&& h.files_modified == run.files
            &&& run.session_id == Some(id) ==> h.session_id == id
            &&& run.session_id is None ==> h.session_id == "unknown"@
            &&& clock::rfc3339(start) == Some(begun) ==> h.started_at == begun
            &&& clock::rfc3339(end) == Some(ended) ==> h.ended_at == Some(ended)
            &&& h.ended_at is Some
        }),
{
}

/// A step that configures nothing but its prompt.
pub open spec fn plain_step(prompt: Seq<char>) -> ClaudeStepView {
    ClaudeStepView {
        prompt,
        model: None,
        allowed_tools: None,
        permission_mode: None,
        extra_args: None,
        sandbox_mode: None,
    }
}

/// Arguments with some more put in at a place.
pub open spec fn put_in(args: Seq<Seq<char>>, at: int, more: Seq<Seq<char>>) -> Seq<Seq<char>> {
    args.take(at) + more + args.skip(at)
}

/// A run that is asked for nothing else prints what comes of its prompt as a stream of values,
/// with all permissions; and each thing that a step asks for puts in its own argument and leaves
/// the others alone: the session that goes on, the model, the permission mode, the list of tools.
pub proof fn arguments_say_what_is_asked_for(
    step: ClaudeStepView,
    prompt: Seq<char>,
    dir: Seq<char>,
    model: Seq<char>,
    mode: Seq<char>,
    tools: Seq<Seq<char>>,
    sandbox: Option<bool>,
)
    requires
        tools.len() > 0,
    ensures
        claude::arguments(plain_step(prompt), prompt, dir, false) == seq![
            "--print"@,
            prompt,
            "--output-format"@,
            "stream-json"@,
            "--verbose"@,
            "--permission-mode"@,
            "bypassPermissions"@,
        ],
        claude::arguments(step, prompt, dir, true) == put_in(
            claude::arguments(step, prompt, dir, false),
            5,
            seq!["--continue"@],
        ),
        claude::arguments(
            ClaudeStepView { model: Some(model), ..step },
            prompt,
            dir,
            false,
        ) == put_in(
            claude::arguments(ClaudeStepView { model: None, ..step }, prompt, dir, false),
            5,
            seq!["--model"@, model],
        ),
        step.model is None ==> claude::arguments(
            ClaudeStepView { permission_mode: Some(mode), ..step },
            prompt,
            dir,
            false,
        ) == claude::arguments(step, prompt, dir, false).update(6, mode),
        step.model is None ==> claude::arguments(
            ClaudeStepView { allowed_tools: Some(tools), ..step },
            prompt,
            dir,
            false,
        ) == put_in(
            claude::arguments(
                ClaudeStepView { allowed_tools: None, ..step },
                prompt,
                dir,
                false,
            ),
            7,
            seq!["--allowedTools"@, text::joined(tools, ","@)],
        ),
        claude::arguments(
            ClaudeStepView { allowed_tools: Some(Seq::empty()), ..step },
            prompt,
            dir,
            false,
        ) == claude::arguments(ClaudeStepView { allowed_tools: None, ..step }, prompt, dir, false),
        claude::arguments(ClaudeStepView { sandbox_mode: sandbox, ..step }, prompt, dir, false)
            == claude::arguments(step, prompt, dir, false),
{
    assert(claude::arguments(plain_step(prompt), prompt, dir, false) =~= seq![
        "--print"@,
        prompt,
        "--output-format"@,
        "stream-json"@,
        "--verbose"@,
        "--permission-mode"@,
        "bypassPermissions"@,
    ]);
    assert(claude::arguments(step, prompt, dir, true) =~= put_in(
        claude::arguments(step, prompt, dir, false),
        5,
        seq!["--continue"@],
    ));
    assert(claude::arguments(ClaudeStepView { model: Some(model), ..step }, prompt, dir, false)
        =~= put_in(
        claude::arguments(ClaudeStepView { model: None, ..step }, prompt, dir, false),
        5,
        seq!["--model"@, model],
    ));
    if step.model is None {
        assert(claude::arguments(
            ClaudeStepView { permission_mode: Some(mode), ..step },
            prompt,
            dir,
            false,
        ) =~= claude::arguments(step, prompt, dir, false).update(6, mode));
        assert(claude::arguments(
            ClaudeStepView { allowed_tools: Some(tools), ..step },
            prompt,
            dir,
            false,
        ) =~= put_in(
            claude::arguments(
                ClaudeStepView { allowed_tools: None, ..step },
                prompt,
                dir,
                false,
            ),
            7,
            seq!["--allowedTools"@, text::joined(tools, ","@)],
        ));
    }
}

/// Extra arguments come last, one for each that is configured; in each the prompt and the
/// directory stand in for their names, and one that names neither is passed on as it is.
pub proof fn extra_arguments_come_last(
    step: ClaudeStepView,
    prompt: Seq<char>,
    dir: Seq<char>,
    extra: Seq<Seq<char>>,
    i: int,
    a: Seq<char>,
    b: Seq<char>,
)
    requires
        0 <= i < extra.len(),
        !a.contains('{'),
        !b.contains('{'),
        !prompt.contains('{'),
    ensures
        ({
            let base = claude::arguments(
                ClaudeStepView { extra_args: None, ..step },
                prompt,
                dir,
                false,
            );
            let all = claude::arguments(
                ClaudeStepView { extra_args: Some(extra), ..step },
                prompt,
                dir,
                false,
            );
            &&& all.len() == base.len() + extra.len()
            &&& base.is_prefix_of(all)
            &&& extra[i] == a ==> all[base.len() + i] == a
            &&& extra[i] == a + "{{prompt}}"@ + b ==> all[base.len() + i] == a + prompt + b
            &&& extra[i] == a + "{{workdir}}"@ + b ==> all[base.len() + i] == a + dir + b
        }),
{
    let base = claude::arguments(ClaudeStepView { extra_args: None, ..step }, prompt, dir, false);
    let all = claude::arguments(
        ClaudeStepView { extra_args: Some(extra), ..step },
        prompt,
        dir,
        false,
    );
    let filled = Seq::new(extra.len(), |i: int| claude::filled_in(extra[i], prompt, dir));
    assert(all =~= base + filled);
    assert(all.take(base.len() as int) =~= base);
    assert(all[base.len() + i] == claude::filled_in(extra[i], prompt, dir));
    reveal_strlit("{{prompt}}");
    reveal_strlit("{{workdir}}");
    let pp = "{{prompt}}"@;
    let pd = "{{workdir}}"@;
    assert(!pp.skip(2).contains('{') && !pd.skip(2).contains('{'));
    text_laws::texts_without_braces_stay(a, pp, prompt);
    text_laws::texts_without_braces_stay(a, pd, dir);
    text_laws::one_placeholder_is_replaced(a, pp, b, prompt);
    text_laws::joined_without_braces(a, prompt, b);
    text_laws::texts_without_braces_stay(a + prompt + b, pd, dir);
    text_laws::other_placeholders_stay(a, pd, b, pp, prompt);
    text_laws::one_placeholder_is_replaced(a, pd, b, dir);
}

/// Whether a key tells that what stands under it is a thought.
pub open spec fn names_thought(key: Seq<char>) -> bool {
    key == "thinking"@ || key == "analysis"@ || key == "reasoning"@ || key == "plan"@
}

/// Whether an object says of itself that it is a thought.
pub open spec fn is_thought(value: JsonView) -> bool {
    value.field("type"@) matches Some(JsonView::Text(kind)) && names_thought(
        text::ascii_lowered(kind),
    )
}

/// Whether nothing in a value is a thought.
pub open spec fn thoughtless(value: JsonView) -> bool
    decreases value,
{
    match value {
        JsonView::Array(items) => forall|i: int|
            0 <= i < items.len() ==> thoughtless(#[trigger] items[i]),
        JsonView::Object(entries) => !is_thought(value) && forall|i: int|
            0 <= i < entries.len() ==> !names_thought((#[trigger] entries[i]).0) && thoughtless(
                entries[i].1,
            ),
        _ => true,
    }
}

proof fn lemma_thoughtless_field(value: JsonView, key: Seq<char>)
    requires
        thoughtless(value),
    ensures
        value.field(key) matches Some(member) ==> thoughtless(member) && !names_thought(key),
{
    if let JsonView::Object(entries) = value {
        json::fields_are_first_entries(entries, key, value);
        if let Some(member) = value.field(key) {
            let i = choose|i: int| 0 <= i < entries.len() && #[trigger] entries[i] == (key, member);
            assert(thoughtless(entries[i].1));
        }
    }
}

/// A value in which nothing is a thought gives none, however deep it is.
pub proof fn what_is_no_thought_gives_none(value: JsonView)
    requires
        thoughtless(value),
    ensures
        claude::thoughts(value, false).len() == 0,
    decreases value,
{
    match value {
        JsonView::Array(items) => {
            assert forall|i: int| 0 <= i < items.len() implies claude::thoughts(
                #[trigger] items[i],
                false,
            ).len() == 0 by {
                assert(decreases_to!(value => value->Array_0[i]));
                what_is_no_thought_gives_none(items[i]);
            }
            lemma_items_none(items);
        },
        JsonView::Object(entries) => {
            lemma_thoughtless_field(value, "thinking"@);
            lemma_thoughtless_field(value, "text"@);
            lemma_thoughtless_field(value, "content"@);
            lemma_thoughtless_field(value, "message"@);
            json::field_is_smaller(value, "text"@);
            json::field_is_smaller(value, "content"@);
            json::field_is_smaller(value, "message"@);
            if let Some(member) = value.field("text"@) {
                what_is_no_thought_gives_none(member);
            }
            if let Some(member) = value.field("content"@) {
                what_is_no_thought_gives_none(member);
            }
            if let Some(member) = value.field("message"@) {
                what_is_no_thought_gives_none(member);
            }
            assert forall|i: int| 0 <= i < entries.len() implies !names_thought(
                (#[trigger] entries[i]).0,
            ) && claude::thoughts(entries[i].1, false).len() == 0 by {
                assert(decreases_to!(value => value->Object_0[i].1));
                what_is_no_thought_gives_none(entries[i].1);
            }
            lemma_entries_none(entries);
        },
        _ => {},
    }
}

proof fn lemma_items_none(items: Seq<JsonView>)
    requires
        forall|i: int| 0 <= i < items.len() ==> claude::thoughts(#[trigger] items[i], false).len()
            == 0,
    ensures
        claude::thoughts_of_items(items, false).len() == 0,
    decreases items.len(),
{
    if items.len() > 0 {
        let front = items.drop_last();
        assert forall|i: int| 0 <= i < front.len() implies claude::thoughts(
            #[trigger] front[i],
            false,
        ).len() == 0 by {
            assert(front[i] == items[i]);
        }
        lemma_items_none(front);
        assert(claude::thoughts(items[items.len() - 1], false).len() == 0);
    }
}

proof fn lemma_entries_none(entries: Seq<(Seq<char>, JsonView)>)
    requires
        forall|i: int|
            0 <= i < entries.len() ==> !names_thought((#[trigger] entries[i]).0)
                && claude::thoughts(entries[i].1, false).len() == 0,
    ensures
        claude::thoughts_of_entries(entries, false).len() == 0,
    decreases entries.len(),
{
    if entries.len() > 0 {
        let front = entries.drop_last();
        assert forall|i: int| 0 <= i < front.len() implies !names_thought((#[trigger] front[i]).0)
            && claude::thoughts(front[i].1, false).len() == 0 by {
            assert(front[i] == entries[i]);
        }
        lemma_entries_none(front);
        assert(!names_thought(entries[entries.len() - 1].0));
    }
}

/// Whether all lines of one list stand in another.
pub open spec fn all_in(lines: Seq<Seq<char>>, all: Seq<Seq<char>>) -> bool {
    forall|line: Seq<char>| #[trigger] lines.contains(line) ==> all.contains(line)
}

proof fn lemma_in_sum(a: Seq<Seq<char>>, b: Seq<Seq<char>>, c: Seq<Seq<char>>)
    ensures
        all_in(b, a + b + c),
        all_in(a, a + b),
        all_in(b, a + b),
{
    assert forall|line: Seq<char>| #[trigger] b.contains(line) implies (a + b + c).contains(
        line,
    ) && (a + b).contains(line) by {
        let i = choose|i: int| 0 <= i < b.len() && b[i] == line;
        assert((a + b + c)[a.len() + i] == line);
        assert((a + b)[a.len() + i] == line);
    }
    assert forall|line: Seq<char>| #[trigger] a.contains(line) implies (a + b).contains(line) by {
        let i = choose|i: int| 0 <= i < a.len() && a[i] == line;
        assert((a + b)[i] == line);
    }
}

proof fn lemma_thoughts_of_entry(entries: Seq<(Seq<char>, JsonView)>, i: int, thinking: bool)
    requires
        0 <= i < entries.len(),
    ensures
        names_thought(entries[i].0) ==> all_in(
            claude::thoughts(entries[i].1, true),
            claude::thoughts_of_entries(entries, thinking),
        ),
        !names_thought(entries[i].0) && entries[i].0 != "text"@ && entries[i].0 != "content"@
            && entries[i].0 != "message"@ ==> all_in(
            claude::thoughts(entries[i].1, thinking),
            claude::thoughts_of_entries(entries, thinking),
        ),
    decreases entries.len(),
{
    let front = entries.drop_last();
    let rest = if claude::thoughtful_key(entries.last().0) {
        claude::thoughts(entries.last().1, true)
    } else if claude::leading_key(entries.last().0) {
        seq![]
    } else {
        claude::thoughts(entries.last().1, thinking)
    };
    lemma_in_sum(claude::thoughts_of_entries(front, thinking), rest, seq![]);
    if i < front.len() {
        lemma_thoughts_of_entry(front, i, thinking);
    }
}

/// What stands in an object under a key that names a thought is a thought, line by line; and in an
/// object that says it is a thought so are its text, its content and its message.
pub proof fn thoughts_are_found(
    entries: Seq<(Seq<char>, JsonView)>,
    i: int,
    thinking: bool,
    member: JsonView,
)
    requires
        0 <= i < entries.len(),
    ensures
        names_thought(entries[i].0) ==> all_in(
            claude::thoughts(entries[i].1, true),
            claude::thoughts(JsonView::Object(entries), thinking),
        ),
        is_thought(JsonView::Object(entries)) && JsonView::Object(entries).field("text"@) == Some(
            member,
        ) ==> all_in(
            claude::thoughts(member, true),
            claude::thoughts(JsonView::Object(entries), thinking),
        ),
        is_thought(JsonView::Object(entries)) && JsonView::Object(entries).field("content"@)
            == Some(member) ==> all_in(
            claude::thoughts(member, true),
            claude::thoughts(JsonView::Object(entries), thinking),
        ),
        is_thought(JsonView::Object(entries)) && JsonView::Object(entries).field("message"@)
            == Some(member) ==> all_in(
            claude::thoughts(member, true),
            claude::thoughts(JsonView::Object(entries), thinking),
        ),
        !names_thought(entries[i].0) && entries[i].0 != "text"@ && entries[i].0 != "content"@
            && entries[i].0 != "message"@ ==> all_in(
            claude::thoughts(entries[i].1, thinking || is_thought(JsonView::Object(entries))),
            claude::thoughts(JsonView::Object(entries), thinking),
        ),
{
    let value = JsonView::Object(entries);
    let inside = thinking || claude::thoughtful_type(value.field_text("type"@));
    lemma_thoughts_of_entry(entries, i, inside);
    assert(inside == (thinking || is_thought(value)));
    let a = claude::member_thoughts(value, "thinking"@, true);
    let b = claude::member_thoughts(value, "text"@, inside);
    let c = claude::member_thoughts(value, "content"@, inside);
    let d = claude::member_thoughts(value, "message"@, inside);
    let e = claude::thoughts_of_entries(entries, inside);
    assert(claude::thoughts(value, thinking) == a + b + c + d + e);
    lemma_in_sum(a + b + c + d, e, seq![]);
    lemma_in_sum(a + b + c, d, e);
    lemma_in_sum(a + b, c, d);
    lemma_in_sum(a, b, c);
    lemma_in_sum(a + b + c, d, seq![]);
}

/// The texts of a list are thoughts where the list is one, item by item and in order.
pub proof fn thoughts_of_lists_are_those_of_their_items(
    a: Seq<JsonView>,
    b: Seq<JsonView>,
    item: JsonView,
    thinking: bool,
)
    ensures
        claude::thoughts(JsonView::Array(a + b), thinking) == claude::thoughts(
            JsonView::Array(a),
            thinking,
        ) + claude::thoughts(JsonView::Array(b), thinking),
        claude::thoughts(JsonView::Array(seq![item]), thinking) == claude::thoughts(item, thinking),
    decreases b.len(),
{
    assert(seq![item].drop_last() =~= Seq::<JsonView>::empty());
    assert(claude::thoughts_of_items(Seq::<JsonView>::empty(), thinking) =~= seq![]);
    assert(claude::thoughts_of_items(seq![item], thinking) =~= claude::thoughts(item, thinking));
    if b.len() == 0 {
        assert(a + b =~= a);
        assert(claude::thoughts_of_items(b, thinking) =~= seq![]);
        assert(claude::thoughts_of_items(a + b, thinking) =~= claude::thoughts_of_items(
            a,
            thinking,
        ) + claude::thoughts_of_items(b, thinking));
    } else {
        thoughts_of_lists_are_those_of_their_items(a, b.drop_last(), item, thinking);
        assert((a + b).drop_last() =~= a + b.drop_last());
        assert((a + b).last() == b.last());
        assert(claude::thoughts_of_items(a + b, thinking) =~= claude::thoughts_of_items(
            a,
            thinking,
        ) + claude::thoughts_of_items(b, thinking));
    }
}

/// A text is thought line by line: each line that is not blank, without white space at its end;
/// where it is no thought it gives nothing, and neither do numbers, truth values and nothing.
pub proof fn texts_are_thought_line_by_line(t: Seq<char>, line: Seq<char>, thinking: bool)
    ensures
        claude::thoughts(JsonView::Text(t), false).len() == 0,
        text::lines(t).contains(line) && !text::blank(line) ==> claude::thoughts(
            JsonView::Text(t),
            true,
        ).contains(text::trimmed_end(line)),
        claude::thoughts(JsonView::Text(t), true).contains(line) ==> line.len() > 0,
        claude::thoughts(JsonView::Null, thinking).len() == 0,
        claude::thoughts(JsonView::Number(t), thinking).len() == 0,
        claude::thoughts(JsonView::Bool(thinking), thinking).len() == 0,
{
    lemma_thought_text(text::lines(t), line);
    text_laws::blank_texts_are_space(line);
    text_laws::trimming_takes_off_space(line);
    if text::trimmed_end(line).len() == 0 {
        assert(line.skip(0) =~= line);
    }
}

proof fn lemma_thought_text(lines: Seq<Seq<char>>, line: Seq<char>)
    ensures
        lines.contains(line) && text::trimmed_end(line).len() > 0 ==> claude::thought_text(
            lines,
        ).contains(text::trimmed_end(line)),
        claude::thought_text(lines).contains(line) ==> line.len() > 0,
    decreases lines.len(),
{
    if lines.len() > 0 {
        let front = lines.drop_last();
        lemma_thought_text(front, line);
        let before = claude::thought_text(front);
        let all = claude::thought_text(lines);
        let t = text::trimmed_end(line);
        if lines.contains(line) && t.len() > 0 {
            let i = choose|i: int| 0 <= i < lines.len() && lines[i] == line;
            if i < front.len() {
                assert(front[i] == line);
                let k = choose|k: int| 0 <= k < before.len() && before[k] == t;
                assert(all[k] == t);
            } else {
                assert(all[all.len() - 1] == t);
            }
        }
        if all.contains(line) && !before.contains(line) {
            let k = choose|k: int| 0 <= k < all.len() && all[k] == line;
            if k < before.len() {
                assert(before[k] == line);
            }
        }
    }
}

} // verus!
