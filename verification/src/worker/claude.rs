//! Runs of the agent's command line: its arguments, what its output means, and the history
//! that a run leaves.
use crate::clock::{self, timestamp};
use crate::config::{ClaudeStep, ClaudeStepView};
use crate::json::{self, Json, JsonView};
use crate::model::{extend_with, Duplicate};
use crate::product::Product;
use crate::session::{self, add_changed_file};
use crate::state::{SessionEvent, SessionEventView, SessionHistory, SessionHistoryView};
use crate::text::{
    self, cat2, cat3, cat5, is_blank, join, lines_of, replace, same, to_ascii_lower, trim,
    trim_end, u64_text,
};
use vstd::prelude::*;

verus! {

/// Returns where an agent that was installed for one user is found.
pub fn local_binary(home: Option<String>, product: &Product) -> (r: String)
    ensures
        r@ == (match home {
            Some(h) => h@,
            None => "."@,
        }) + "/"@ + product.directory@ + "/local/"@ + product.command@,
{
    let base = match &home {
        Some(h) => h.as_str(),
        None => ".",
    };
    cat5(base, "/", product.directory.as_str(), "/local/", product.command.as_str())
}

/// Returns the program to start: the configured one, else the one of the user where it
/// exists, else whatever the search path has.
pub fn claude_binary(
    configured: Option<String>,
    local: String,
    local_exists: bool,
    product: &Product,
) -> (r: String)
    ensures
        r@ == (match configured {
            Some(c) => c@,
            None => if local_exists {
                local@
            } else {
                product.command@
            },
        }),
{
    match configured {
        Some(c) => c,
        None => {
            if local_exists {
                local
            } else {
                product.command.clone()
            }
        },
    }
}

/// The permission mode of a run: without one of its own, permissions are not asked for.
pub open spec fn effective_mode(mode: Option<Seq<char>>) -> Seq<char> {
    match mode {
        Some(m) => m,
        None => "bypassPermissions"@,
    }
}

/// Returns the permission mode of a run.
pub fn mode_or_bypass(mode: &Option<String>) -> (r: &str)
    ensures
        r@ == effective_mode(mode.deep_view()),
{
    match mode {
        Some(m) => m.as_str(),
        None => "bypassPermissions",
    }
}

/// An extra argument with the prompt and the directory in place of their names.
pub open spec fn filled_in(arg: Seq<char>, prompt: Seq<char>, dir: Seq<char>) -> Seq<char> {
    text::replaced(text::replaced(arg, "{{prompt}}"@, prompt), "{{workdir}}"@, dir)
}

/// The arguments of a run.
pub open spec fn arguments(
    step: ClaudeStepView,
    prompt: Seq<char>,
    dir: Seq<char>,
    resumes: bool,
) -> Seq<Seq<char>> {
    seq!["--print"@, prompt, "--output-format"@, "stream-json"@, "--verbose"@] + (if resumes {
        seq!["--continue"@]
    } else {
        seq![]
    }) + (match step.model {
        Some(model) => seq!["--model"@, model],
        None => seq![],
    }) + seq!["--permission-mode"@, effective_mode(step.permission_mode)] + (
    match step.allowed_tools {
        Some(tools) => if tools.len() > 0 {
            seq!["--allowedTools"@, text::joined(tools, ","@)]
        } else {
            seq![]
        },
        None => seq![],
    }) + (match step.extra_args {
        Some(extra) => Seq::new(extra.len(), |i: int| filled_in(extra[i], prompt, dir)),
        None => seq![],
    })
}

fn push_text(out: &mut Vec<String>, line: &str)
    ensures
        final(out).deep_view() == old(out).deep_view().push(line@),
{
    let ghost before = out.deep_view();
    out.push(line.to_owned());
    assert(out.deep_view() =~= before.push(line@));
}

/// Returns the arguments of a run: `session_id` is the session to go on with, if any.
pub fn claude_args(
    step: &ClaudeStep,
    prompt: &str,
    dir: &str,
    session_id: Option<&str>,
) -> (args: Vec<String>)
    ensures
        args.deep_view() == arguments(step.deep_view(), prompt@, dir@, session_id is Some),
{
    let mut args: Vec<String> = Vec::new();
    push_text(&mut args, "--print");
    push_text(&mut args, prompt);
    push_text(&mut args, "--output-format");
    push_text(&mut args, "stream-json");
    push_text(&mut args, "--verbose");
    if let Some(_) = session_id {
        push_text(&mut args, "--continue");
    }
    if let Some(model) = &step.model {
        push_text(&mut args, "--model");
        push_text(&mut args, model.as_str());
    }
    push_text(&mut args, "--permission-mode");
    push_text(&mut args, mode_or_bypass(&step.permission_mode));
    if let Some(tools) = &step.allowed_tools {
        if tools.len() > 0 {
            push_text(&mut args, "--allowedTools");
            push_text(&mut args, join(tools, ",").as_str());
        }
    }
    if let Some(extra) = &step.extra_args {
        let ghost before = args.deep_view();
        let ghost filled = Seq::new(
            extra.deep_view().len(),
            |i: int| filled_in(extra.deep_view()[i], prompt@, dir@),
        );
        for i in 0..extra.len()
            invariant
                filled == Seq::new(
                    extra.deep_view().len(),
                    |i: int| filled_in(extra.deep_view()[i], prompt@, dir@),
                ),
                args.deep_view() == before + filled.take(i as int),
        {
            proof {
                reveal_strlit("{{prompt}}");
                reveal_strlit("{{workdir}}");
            }
            let with_prompt = replace(extra[i].as_str(), "{{prompt}}", prompt);
            let with_dir = replace(with_prompt.as_str(), "{{workdir}}", dir);
            push_text(&mut args, with_dir.as_str());
            assert(filled.take(i + 1) =~= filled.take(i as int).push(filled[i as int]));
            assert(args.deep_view() =~= before + filled.take(i + 1));
        }
        assert(filled.take(extra.len() as int) =~= filled);
    }
    args
}

/// The lines of a text without what ends them in white space, those that are then empty
/// left out.
pub open spec fn thought_text(lines: Seq<Seq<char>>) -> Seq<Seq<char>>
    decreases lines.len(),
{
    if lines.len() == 0 {
        seq![]
    } else {
        let line = text::trimmed_end(lines.last());
        if line.len() == 0 {
            thought_text(lines.drop_last())
        } else {
            thought_text(lines.drop_last()).push(line)
        }
    }
}

/// Whether a type says that an object is a thought.
pub open spec fn thoughtful_type(kind: Option<Seq<char>>) -> bool {
    match kind {
        Some(k) => {
            let lower = text::ascii_lowered(k);
            lower == "thinking"@ || lower == "analysis"@ || lower == "plan"@ || lower
                == "reasoning"@
        },
        None => false,
    }
}

/// Whether what stands under a key is a thought.
pub open spec fn thoughtful_key(key: Seq<char>) -> bool {
    key == "thinking"@ || key == "analysis"@ || key == "reasoning"@ || key == "plan"@
}

/// Whether a key is one of those that are looked at first.
pub open spec fn leading_key(key: Seq<char>) -> bool {
    key == "text"@ || key == "content"@ || key == "message"@
}

/// The thoughts in a value; `thinking` tells whether its texts are thoughts already.
pub open spec fn thoughts(value: JsonView, thinking: bool) -> Seq<Seq<char>>
    decreases value,
{
    match value {
        JsonView::Text(t) => if thinking {
            thought_text(text::lines(t))
        } else {
            seq![]
        },
        JsonView::Array(items) => thoughts_of_items(items, thinking),
        JsonView::Object(entries) => {
            let inside = thinking || thoughtful_type(value.field_text("type"@));
            proof {
                json::field_is_smaller(value, "thinking"@);
                json::field_is_smaller(value, "text"@);
                json::field_is_smaller(value, "content"@);
                json::field_is_smaller(value, "message"@);
            }
            (match value.field("thinking"@) {
                Some(member) => thoughts(member, true),
                None => seq![],
            }) + (match value.field("text"@) {
                Some(member) => thoughts(member, inside),
                None => seq![],
            }) + (match value.field("content"@) {
                Some(member) => thoughts(member, inside),
                None => seq![],
            }) + (match value.field("message"@) {
                Some(member) => thoughts(member, inside),
                None => seq![],
            }) + thoughts_of_entries(entries, inside)
        },
        _ => seq![],
    }
}

/// The thoughts in the items of an array.
pub open spec fn thoughts_of_items(items: Seq<JsonView>, thinking: bool) -> Seq<Seq<char>>
    decreases items,
{
    if items.len() == 0 {
        seq![]
    } else {
        thoughts_of_items(items.drop_last(), thinking) + thoughts(items.last(), thinking)
    }
}

/// The thoughts in the entries of an object, but for those that are looked at first.
pub open spec fn thoughts_of_entries(
    entries: Seq<(Seq<char>, JsonView)>,
    thinking: bool,
) -> Seq<Seq<char>>
    decreases entries,
{
    if entries.len() == 0 {
        seq![]
    } else {
        let (key, value) = entries.last();
        thoughts_of_entries(entries.drop_last(), thinking) + (if thoughtful_key(key) {
            thoughts(value, true)
        } else if leading_key(key) {
            seq![]
        } else {
            thoughts(value, thinking)
        })
    }
}

fn is_thoughtful_type(kind: &str) -> (r: bool)
    ensures
        r == thoughtful_type(Some(kind@)),
{
    let lower = to_ascii_lower(kind);
    same(lower.as_str(), "thinking") || same(lower.as_str(), "analysis") || same(
        lower.as_str(),
        "plan",
    ) || same(lower.as_str(), "reasoning")
}

fn is_thoughtful_key(key: &str) -> (r: bool)
    ensures
        r == thoughtful_key(key@),
{
    same(key, "thinking") || same(key, "analysis") || same(key, "reasoning") || same(key, "plan")
}

fn is_leading_key(key: &str) -> (r: bool)
    ensures
        r == leading_key(key@),
{
    same(key, "text") || same(key, "content") || same(key, "message")
}

/// Appends the thoughts in a text.
fn walk_text(text: &str, acc: &mut Vec<String>)
    ensures
        final(acc).deep_view() == old(acc).deep_view() + thought_text(text::lines(text@)),
{
    let all = lines_of(text);
    let ghost lines = all.deep_view();
    let ghost before = acc.deep_view();
    assert(lines.take(0) =~= seq![]);
    assert(before + thought_text(lines.take(0)) =~= before);
    for i in 0..all.len()
        invariant
            lines == all.deep_view(),
            acc.deep_view() == before + thought_text(lines.take(i as int)),
    {
        assert(lines.take(i + 1).drop_last() =~= lines.take(i as int));
        assert(lines.take(i + 1).last() == all@[i as int]@);
        let line = trim_end(all[i].as_str());
        if !line.as_str().is_empty() {
            push_text(acc, line.as_str());
            assert(acc.deep_view() =~= before + thought_text(lines.take(i + 1)));
        }
    }
    assert(lines.take(all.len() as int) =~= lines);
}

/// The thoughts in the member under `key`.
pub open spec fn member_thoughts(value: JsonView, key: Seq<char>, thinking: bool) -> Seq<Seq<char>> {
    match value.field(key) {
        Some(member) => thoughts(member, thinking),
        None => seq![],
    }
}

/// Appends the thoughts in the member under `key`.
fn walk_member(value: &Json, key: &str, acc: &mut Vec<String>, thinking: bool)
    ensures
        final(acc).deep_view() == old(acc).deep_view() + member_thoughts(
            value.deep_view(),
            key@,
            thinking,
        ),
    decreases value, 0nat,
{
    if let Some(member) = value.get(key) {
        walk(member, acc, thinking);
    }
    assert(acc.deep_view() =~= old(acc).deep_view() + member_thoughts(
        value.deep_view(),
        key@,
        thinking,
    ));
}

/// Appends the thoughts in the items of an array.
fn walk_items(value: &Json, items: &Vec<Json>, acc: &mut Vec<String>, thinking: bool)
    requires
        *value == Json::Array(*items),
    ensures
        final(acc).deep_view() == old(acc).deep_view() + thoughts_of_items(
            items.deep_view(),
            thinking,
        ),
    decreases value, 0nat,
{
    let ghost start = acc.deep_view();
    let ghost all = items.deep_view();
    assert(all.take(0) =~= seq![]);
    for i in 0..items.len()
        invariant
            *value == Json::Array(*items),
            all == items.deep_view(),
            acc.deep_view() == start + thoughts_of_items(all.take(i as int), thinking),
    {
        assert(decreases_to!(value => value->Array_0@[i as int]));
        assert(all.take(i + 1).drop_last() =~= all.take(i as int));
        walk(&items[i], acc, thinking);
        assert(acc.deep_view() =~= start + thoughts_of_items(all.take(i + 1), thinking));
    }
    assert(all.take(items.len() as int) =~= all);
}

/// Appends the thoughts in the entries of an object, but for those that are looked at first.
fn walk_entries(value: &Json, entries: &Vec<(String, Json)>, acc: &mut Vec<String>, inside: bool)
    requires
        *value == Json::Object(*entries),
    ensures
        final(acc).deep_view() == old(acc).deep_view() + thoughts_of_entries(
            value.deep_view()->Object_0,
            inside,
        ),
    decreases value, 0nat,
{
    let ghost start = acc.deep_view();
    let ghost all = value.deep_view()->Object_0;
    assert(all.take(0) =~= seq![]);
    for i in 0..entries.len()
        invariant
            *value == Json::Object(*entries),
            all == value.deep_view()->Object_0,
            all.len() == entries.len(),
            acc.deep_view() == start + thoughts_of_entries(all.take(i as int), inside),
    {
        assert(decreases_to!(value => value->Object_0@[i as int].1));
        assert(all.take(i + 1).drop_last() =~= all.take(i as int));
        assert(all.take(i + 1).last() == (
            entries@[i as int].0@,
            entries@[i as int].1.deep_view(),
        ));
        let key = entries[i].0.as_str();
        if is_thoughtful_key(key) {
            walk(&entries[i].1, acc, true);
        } else if !is_leading_key(key) {
            walk(&entries[i].1, acc, inside);
        }
        assert(acc.deep_view() =~= start + thoughts_of_entries(all.take(i + 1), inside));
    }
    assert(all.take(entries.len() as int) =~= all);
}

/// Appending five parts one by one appends their concatenation.
proof fn lemma_five_parts(
    start: Seq<Seq<char>>,
    a: Seq<Seq<char>>,
    b: Seq<Seq<char>>,
    c: Seq<Seq<char>>,
    d: Seq<Seq<char>>,
    e: Seq<Seq<char>>,
)
    ensures
        start + a + b + c + d + e == start + (a + b + c + d + e),
{
    assert(start + a + b =~= start + (a + b));
    assert(start + (a + b) + c =~= start + (a + b + c));
    assert(start + (a + b + c) + d =~= start + (a + b + c + d));
    assert(start + (a + b + c + d) + e =~= start + (a + b + c + d + e));
}

/// Appends the thoughts in a value.
fn walk(value: &Json, acc: &mut Vec<String>, thinking: bool)
    ensures
        final(acc).deep_view() == old(acc).deep_view() + thoughts(value.deep_view(), thinking),
    decreases value, 1nat,
{
    let ghost start = acc.deep_view();
    match value {
        Json::Text(text) => {
            if thinking {
                walk_text(text.as_str(), acc);
            } else {
                assert(acc.deep_view() =~= start + Seq::<Seq<char>>::empty());
            }
        },
        Json::Array(items) => {
            assert(value.deep_view()->Array_0 =~= items.deep_view());
            walk_items(value, items, acc, thinking);
        },
        Json::Object(entries) => {
            let inside = thinking || match value.get_str("type") {
                Some(kind) => is_thoughtful_type(kind),
                None => false,
            };
            walk_member(value, "thinking", acc, true);
            walk_member(value, "text", acc, inside);
            walk_member(value, "content", acc, inside);
            walk_member(value, "message", acc, inside);
            walk_entries(value, entries, acc, inside);
            proof {
                let v = value.deep_view();
                lemma_five_parts(
                    start,
                    member_thoughts(v, "thinking"@, true),
                    member_thoughts(v, "text"@, inside),
                    member_thoughts(v, "content"@, inside),
                    member_thoughts(v, "message"@, inside),
                    thoughts_of_entries(v->Object_0, inside),
                );
            }
        },
        _ => {
            assert(acc.deep_view() =~= start + Seq::<Seq<char>>::empty());
        },
    }
}

/// Returns the thoughts in a value.
pub fn extract_thinking_lines(value: &Json) -> (r: Vec<String>)
    ensures
        r.deep_view() == thoughts(value.deep_view(), false),
{
    let mut acc: Vec<String> = Vec::new();
    let ghost nothing = acc.deep_view();
    walk(value, &mut acc, false);
    assert(acc.deep_view() =~= thoughts(value.deep_view(), false));
    acc
}

/// What a run has said so far; `log` holds the lines for the log of the worker, in which the agent
/// goes by its short name.
#[derive(Debug)]
pub struct ClaudeRun {
    pub short_name: String,
    pub session_id: Option<String>,
    pub events: Vec<SessionEvent>,
    pub tool_uses: usize,
    pub files: Vec<String>,
    pub log: Vec<String>,
}

/// What a [`ClaudeRun`] holds.
#[verifier::ext_equal]
pub struct ClaudeRunView {
    pub short_name: Seq<char>,
    pub session_id: Option<Seq<char>>,
    pub events: Seq<SessionEventView>,
    pub tool_uses: usize,
    pub files: Seq<Seq<char>>,
    pub log: Seq<Seq<char>>,
}

impl DeepView for ClaudeRun {
    type V = ClaudeRunView;

    open spec fn deep_view(&self) -> ClaudeRunView {
        ClaudeRunView {
            short_name: self.short_name@,
            session_id: self.session_id.deep_view(),
            events: self.events.deep_view(),
            tool_uses: self.tool_uses,
            files: self.files.deep_view(),
            log: self.log.deep_view(),
        }
    }
}

impl ClaudeRunView {
    /// Nothing said yet.
    pub open spec fn silent(short_name: Seq<char>) -> ClaudeRunView {
        ClaudeRunView {
            short_name,
            session_id: None,
            events: seq![],
            tool_uses: 0,
            files: seq![],
            log: seq![],
        }
    }

    /// With one more line for the log.
    pub open spec fn logged(self, line: Seq<char>) -> ClaudeRunView {
        ClaudeRunView { log: self.log.push(line), ..self }
    }

    /// With one more event.
    pub open spec fn happened(self, event: SessionEventView) -> ClaudeRunView {
        ClaudeRunView { events: self.events.push(event), ..self }
    }

    /// With some thoughts: they are logged between markers and make up one event.
    pub open spec fn thought(self, lines: Seq<Seq<char>>, timestamp: Seq<char>) -> ClaudeRunView {
        if lines.len() == 0 {
            self
        } else {
            ClaudeRunView {
                log: self.log.push("[THOUGHT_START]"@) + lines.push("[THOUGHT_END]"@),
                ..self
            }.happened(
                SessionEventView::ThinkingBlock {
                    content: text::trimmed(block_text(lines)),
                    timestamp,
                },
            )
        }
    }

    /// With the final result.
    pub open spec fn concluded(self, value: JsonView, timestamp: Seq<char>) -> ClaudeRunView {
        let is_error = match value.field("is_error"@) {
            Some(v) => v.truth() == Some(true),
            None => false,
        };
        let warned = if is_error {
            self.logged("⚠️  "@ + self.short_name + " encountered an error"@)
        } else {
            self
        };
        match value.field_text("result"@) {
            Some(text) => if text.len() == 0 {
                warned
            } else {
                ClaudeRunView {
                    log: warned.log.push("─── Result ───"@) + text::lines(text),
                    ..warned
                }.happened(SessionEventView::Result { text, is_error, timestamp })
            },
            None => warned,
        }
    }

    /// With an error of the service.
    pub open spec fn failed(self, value: JsonView, timestamp: Seq<char>) -> ClaudeRunView {
        let noted = self.logged("❌ API Error:"@);
        let message = match value.field("error"@) {
            Some(error) => error.field_text("message"@),
            None => None,
        };
        match message {
            Some(m) => noted.logged("  "@ + m).happened(
                SessionEventView::Error { message: m, timestamp },
            ),
            None => noted.happened(SessionEventView::Error { message: seq![], timestamp }),
        }
    }

    /// With a message of the agent.
    pub open spec fn answered(self, value: JsonView, timestamp: Seq<char>) -> ClaudeRunView {
        match value.field_text("text"@) {
            Some(text) => if text::blank(text) {
                self
            } else {
                self.logged("💬 "@ + text).happened(
                    SessionEventView::AssistantMessage { text, timestamp },
                )
            },
            None => self,
        }
    }

    /// With the use of a tool.
    pub open spec fn used_tool(self, value: JsonView, timestamp: Seq<char>) -> ClaudeRunView {
        match value.field_text("name"@) {
            Some(name) => {
                let input = value.field("input"@);
                let noted = self.logged("🔧 Using tool: "@ + name).happened(
                    SessionEventView::ToolUse { name, timestamp, input },
                );
                ClaudeRunView {
                    tool_uses: (self.tool_uses + 1) as usize,
                    files: session::files_after(self.files, name, input),
                    ..noted
                }
            },
            None => self,
        }
    }

    /// With the result of a tool.
    pub open spec fn got_result(self, value: JsonView, timestamp: Seq<char>) -> ClaudeRunView {
        match value.field_text("tool_use_id"@) {
            Some(name) => self.happened(
                SessionEventView::ToolResult {
                    name,
                    timestamp,
                    output: value.field_text("content"@),
                },
            ),
            None => self,
        }
    }

    /// With one JSON value of the output, after its thoughts.
    pub open spec fn after_value(self, value: JsonView, timestamp: Seq<char>) -> ClaudeRunView {
        let run = self.thought(thoughts(value, false), timestamp);
        let kind = value.field_text("type"@);
        if kind == Some("system"@) {
            match value.field_text("session_id"@) {
                Some(id) => ClaudeRunView { session_id: Some(id), ..run },
                None => run,
            }
        } else if kind == Some("result"@) {
            run.concluded(value, timestamp)
        } else if kind == Some("error"@) {
            run.failed(value, timestamp)
        } else if kind == Some("assistant"@) {
            run.answered(value, timestamp)
        } else if kind == Some("tool_use"@) {
            run.used_tool(value, timestamp)
        } else if kind == Some("tool_result"@) {
            run.got_result(value, timestamp)
        } else {
            run
        }
    }

    /// With one line of the output: a JSON value, or a line for the log.
    pub open spec fn after_line(self, line: Seq<char>, now: i128) -> ClaudeRunView {
        let shown = text::trimmed_end(line);
        if shown.len() == 0 {
            self
        } else {
            match json::parsed_json(shown) {
                Some(value) => self.after_value(value, clock::timestamp_text(now)),
                None => self.logged(shown),
            }
        }
    }

    /// With some lines of the output, each read at a time of its own.
    pub open spec fn after_lines(self, lines: Seq<Seq<char>>, times: Seq<i128>) -> ClaudeRunView
        decreases lines.len(),
    {
        if lines.len() == 0 {
            self
        } else {
            self.after_lines(lines.drop_last(), times).after_line(
                lines.last(),
                times[lines.len() - 1],
            )
        }
    }

    /// Whether the uses of tools and the changed files are those of the events.
    pub open spec fn counted(self) -> bool {
        &&& self.tool_uses == session::tool_uses(self.events)
        &&& self.files == session::changed_files(self.events)
    }
}

/// Some lines, each with its end.
pub open spec fn block_text(lines: Seq<Seq<char>>) -> Seq<char>
    decreases lines.len(),
{
    if lines.len() == 0 {
        seq![]
    } else {
        block_text(lines.drop_last()) + lines.last() + "\n"@
    }
}

/// One more event that is no use of a tool leaves count and files those of the events.
proof fn lemma_plain_event(run: ClaudeRunView, event: SessionEventView)
    requires
        run.counted(),
        !session::is_tool_use(event),
    ensures
        run.happened(event).counted(),
{
    session::tool_uses_push(run.events, event);
    session::changed_files_push(run.events, event);
}

impl ClaudeRun {
    /// Returns a run that has said nothing.
    pub fn new(product: &Product) -> (r: Self)
        ensures
            r.deep_view() == ClaudeRunView::silent(product.deep_view().short_name),
            r.deep_view().counted(),
    {
        let r = ClaudeRun {
            short_name: product.short_name.clone(),
            session_id: None,
            events: Vec::new(),
            tool_uses: 0,
            files: Vec::new(),
            log: Vec::new(),
        };
        assert(r.deep_view() =~= ClaudeRunView::silent(product.deep_view().short_name));
        r
    }

    fn push_log(&mut self, line: &str)
        ensures
            final(self).deep_view() == old(self).deep_view().logged(line@),
    {
        push_text(&mut self.log, line);
    }

    fn push_event(&mut self, event: SessionEvent)
        ensures
            final(self).deep_view() == old(self).deep_view().happened(event.deep_view()),
    {
        let ghost before = self.events.deep_view();
        self.events.push(event);
        assert(self.events.deep_view() =~= before.push(event.deep_view()));
    }

    fn push_lines(&mut self, lines: &Vec<String>)
        ensures
            final(self).deep_view() == (ClaudeRunView {
                log: old(self).deep_view().log + lines.deep_view(),
                ..old(self).deep_view()
            }),
    {
        extend_with(&mut self.log, lines);
    }

    fn take_thoughts(&mut self, value: &Json, time: &str)
        requires
            old(self).deep_view().counted(),
        ensures
            final(self).deep_view() == old(self).deep_view().thought(
                thoughts(value.deep_view(), false),
                time@,
            ),
            final(self).deep_view().counted(),
    {
        let ghost before = self.deep_view();
        let lines = extract_thinking_lines(value);
        if lines.len() > 0 {
            let ghost all = lines.deep_view();
            self.push_log("[THOUGHT_START]");
            self.push_lines(&lines);
            self.push_log("[THOUGHT_END]");
            assert(self.log.deep_view() =~= before.log.push("[THOUGHT_START]"@) + all.push(
                "[THOUGHT_END]"@,
            ));
            let mut content = String::new();
            assert(all.take(0) =~= seq![]);
            for i in 0..lines.len()
                invariant
                    all == lines.deep_view(),
                    content@ == block_text(all.take(i as int)),
            {
                assert(all.take(i + 1).drop_last() =~= all.take(i as int));
                content = cat3(content.as_str(), lines[i].as_str(), "\n");
            }
            assert(all.take(lines.len() as int) =~= all);
            let event = SessionEvent::ThinkingBlock {
                content: trim(content.as_str()),
                timestamp: time.to_owned(),
            };
            proof {
                lemma_plain_event(self.deep_view(), event.deep_view());
            }
            self.push_event(event);
        }
    }

    fn take_result(&mut self, value: &Json, time: &str)
        requires
            old(self).deep_view().counted(),
        ensures
            final(self).deep_view() == old(self).deep_view().concluded(value.deep_view(), time@),
            final(self).deep_view().counted(),
    {
        let is_error = match value.get("is_error") {
            Some(v) => match v.as_bool() {
                Some(b) => b,
                None => false,
            },
            None => false,
        };
        if is_error {
            let warning = cat3("⚠️  ", self.short_name.as_str(), " encountered an error");
            self.push_log(warning.as_str());
        }
        if let Some(text) = value.get_str("result") {
            if !text.is_empty() {
                self.push_log("─── Result ───");
                self.push_lines(&lines_of(text));
                let event = SessionEvent::Result {
                    text: text.to_owned(),
                    is_error,
                    timestamp: time.to_owned(),
                };
                proof {
                    lemma_plain_event(self.deep_view(), event.deep_view());
                }
                self.push_event(event);
            }
        }
    }

    fn take_error(&mut self, value: &Json, time: &str)
        requires
            old(self).deep_view().counted(),
        ensures
            final(self).deep_view() == old(self).deep_view().failed(value.deep_view(), time@),
            final(self).deep_view().counted(),
    {
        self.push_log("❌ API Error:");
        let message = match value.get("error") {
            Some(error) => error.get_str("message"),
            None => None,
        };
        let event = match message {
            Some(m) => {
                self.push_log(cat2("  ", m).as_str());
                SessionEvent::Error { message: m.to_owned(), timestamp: time.to_owned() }
            },
            None => SessionEvent::Error { message: String::new(), timestamp: time.to_owned() },
        };
        assert(message is None ==> event->Error_message@ =~= seq![]);
        proof {
            lemma_plain_event(self.deep_view(), event.deep_view());
        }
        self.push_event(event);
    }

    fn take_message(&mut self, value: &Json, time: &str)
        requires
            old(self).deep_view().counted(),
        ensures
            final(self).deep_view() == old(self).deep_view().answered(value.deep_view(), time@),
            final(self).deep_view().counted(),
    {
        if let Some(text) = value.get_str("text") {
            if !is_blank(text) {
                self.push_log(cat2("💬 ", text).as_str());
                let event = SessionEvent::AssistantMessage {
                    text: text.to_owned(),
                    timestamp: time.to_owned(),
                };
                proof {
                    lemma_plain_event(self.deep_view(), event.deep_view());
                }
                self.push_event(event);
            }
        }
    }

    fn take_tool_use(&mut self, value: &Json, time: &str)
        requires
            old(self).deep_view().counted(),
        ensures
            final(self).deep_view() == old(self).deep_view().used_tool(value.deep_view(), time@),
            final(self).deep_view().counted(),
    {
        if let Some(name) = value.get_str("name") {
            let ghost before = self.deep_view();
            self.push_log(cat2("🔧 Using tool: ", name).as_str());
            let input = value.get("input");
            add_changed_file(&mut self.files, name, input);
            let event = SessionEvent::ToolUse {
                name: name.to_owned(),
                timestamp: time.to_owned(),
                input: match input {
                    Some(v) => Some(v.clone()),
                    None => None,
                },
            };
            proof {
                session::tool_uses_bounded(before.events);
                session::tool_uses_push(before.events, event.deep_view());
                session::changed_files_push(before.events, event.deep_view());
            }
            self.push_event(event);
            let count: usize = self.events.len();
            assert(before.tool_uses < count);
            self.tool_uses = self.tool_uses + 1;
        }
    }

    fn take_tool_result(&mut self, value: &Json, time: &str)
        requires
            old(self).deep_view().counted(),
        ensures
            final(self).deep_view() == old(self).deep_view().got_result(value.deep_view(), time@),
            final(self).deep_view().counted(),
    {
        if let Some(name) = value.get_str("tool_use_id") {
            let event = SessionEvent::ToolResult {
                name: name.to_owned(),
                timestamp: time.to_owned(),
                output: match value.get_str("content") {
                    Some(text) => Some(text.to_owned()),
                    None => None,
                },
            };
            proof {
                lemma_plain_event(self.deep_view(), event.deep_view());
            }
            self.push_event(event);
        }
    }

    /// Takes in one JSON value of the output.
    pub fn take_value(&mut self, value: &Json, time: &str)
        requires
            old(self).deep_view().counted(),
        ensures
            final(self).deep_view() == old(self).deep_view().after_value(value.deep_view(), time@),
            final(self).deep_view().counted(),
    {
        self.take_thoughts(value, time);
        if let Some(kind) = value.get_str("type") {
            if same(kind, "system") {
                if let Some(id) = value.get_str("session_id") {
                    self.session_id = Some(id.to_owned());
                }
            } else if same(kind, "result") {
                self.take_result(value, time);
            } else if same(kind, "error") {
                self.take_error(value, time);
            } else if same(kind, "assistant") {
                self.take_message(value, time);
            } else if same(kind, "tool_use") {
                self.take_tool_use(value, time);
            } else if same(kind, "tool_result") {
                self.take_tool_result(value, time);
            }
        }
    }

    /// Takes in one line of the output, read at the time `now`.
    pub fn take_line(&mut self, line: &str, now: i128)
        requires
            old(self).deep_view().counted(),
        ensures
            final(self).deep_view() == old(self).deep_view().after_line(line@, now),
            final(self).deep_view().counted(),
    {
        let shown = trim_end(line);
        if shown.as_str().is_empty() {
            return ;
        }
        match json::parse(shown.as_str()) {
            Some(value) => {
                let time = timestamp(now);
                self.take_value(&value, time.as_str());
            },
            None => {
                self.push_log(shown.as_str());
            },
        }
    }

    /// Takes in the whole output, line by line; `clock` gives the time at which a line is
    /// read.
    pub fn take_output<F: Fn() -> i128>(&mut self, output: &str, clock: F)
        requires
            old(self).deep_view().counted(),
            clock.requires(()),
        ensures
            final(self).deep_view().counted(),
            exists|times: Seq<i128>|
                times.len() == text::lines(output@).len() && (forall|i: int|
                    0 <= i < times.len() ==> clock.ensures((), #[trigger] times[i]))
                    && final(self).deep_view() == #[trigger] old(self).deep_view().after_lines(
                    text::lines(output@),
                    times,
                ),
    {
        let ghost before = self.deep_view();
        let lines = lines_of(output);
        let ghost all = lines.deep_view();
        let ghost mut times: Seq<i128> = seq![];
        assert(all.take(0) =~= seq![]);
        for i in 0..lines.len()
            invariant
                clock.requires(()),
                all == lines.deep_view(),
                self.deep_view().counted(),
                times.len() == i,
                forall|j: int| 0 <= j < i ==> clock.ensures((), #[trigger] times[j]),
                self.deep_view() == before.after_lines(all.take(i as int), times),
        {
            let now: i128 = clock();
            proof {
                lemma_times(before, all.take(i as int), times, times.push(now));
                times = times.push(now);
            }
            assert(all.take(i + 1).drop_last() =~= all.take(i as int));
            self.take_line(lines[i].as_str(), now);
        }
        assert(all.take(lines.len() as int) =~= all);
        assert(self.deep_view() == before.after_lines(text::lines(output@), times));
    }
}

/// What a run has said depends on the times of its lines only.
proof fn lemma_times(
    run: ClaudeRunView,
    lines: Seq<Seq<char>>,
    times: Seq<i128>,
    more: Seq<i128>,
)
    requires
        lines.len() <= times.len() <= more.len(),
        forall|i: int| 0 <= i < times.len() ==> times[i] == more[i],
    ensures
        run.after_lines(lines, times) == run.after_lines(lines, more),
    decreases lines.len(),
{
    if lines.len() > 0 {
        lemma_times(run, lines.drop_last(), times, more);
    }
}

/// Why a run failed.
#[derive(Debug)]
pub struct ClaudeError {
    pub short_name: String,
    pub exit_code: u32,
}

impl ClaudeError {
    /// The text of an error.
    pub open spec fn text(self) -> Seq<char> {
        self.short_name@ + " CLI exited with status "@ + text::decimal(self.exit_code as nat)
    }

    /// Returns the text of an error.
    pub fn message(&self) -> (r: String)
        ensures
            r@ == self.text(),
    {
        cat3(
            self.short_name.as_str(),
            " CLI exited with status ",
            u64_text(self.exit_code as u64).as_str(),
        )
    }
}

/// The history of a run of a prompt from one point in time to another.
pub open spec fn run_history(
    run: ClaudeRunView,
    prompt: Seq<char>,
    start: i128,
    end: i128,
) -> SessionHistoryView {
    SessionHistoryView {
        session_id: clock::known(run.session_id),
        started_at: clock::timestamp_text(start),
        ended_at: Some(clock::timestamp_text(end)),
        prompt,
        events: run.events,
        total_tool_uses: run.tool_uses,
        files_modified: run.files,
    }
}

/// Returns what a run gives that ended with an exit code: its session and its history, or
/// the failure.
pub fn finish_run(run: ClaudeRun, prompt: &str, exit_code: u32, start: i128, end: i128) -> (r: Result<
    (Option<String>, SessionHistory),
    ClaudeError,
>)
    ensures
        match r {
            Ok((session_id, history)) => exit_code == 0 && session_id.deep_view()
                == run.deep_view().session_id && history.deep_view() == run_history(
                run.deep_view(),
                prompt@,
                start,
                end,
            ),
            Err(error) => exit_code != 0 && error.exit_code == exit_code && error.short_name@
                == run.deep_view().short_name,
        },
{
    if exit_code != 0 {
        return Err(ClaudeError { short_name: run.short_name, exit_code });
    }
    let session_id = run.session_id.duplicate();
    let history = SessionHistory {
        session_id: clock::or_unknown(run.session_id),
        started_at: timestamp(start),
        ended_at: Some(timestamp(end)),
        prompt: prompt.to_owned(),
        events: run.events,
        total_tool_uses: run.tool_uses,
        files_modified: run.files,
    };
    Ok((session_id, history))
}

} // verus!
