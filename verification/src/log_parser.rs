//! Takes the raw log of a worker apart into one entry per workflow step.
use crate::model::Duplicate;
use crate::text::{self, ends_with, parse_usize, same, split_once, starts_with, strip_prefix, strip_suffix};
use crate::ui::types::{LogEntry, LogEntryView, StepStatus};
use vstd::prelude::*;

verus! {

/// The parser: the step it is in, what it has collected for it, and the open section.
#[derive(Debug)]
pub struct LogParser {
    current_step_index: Option<usize>,
    current_step_name: Option<String>,
    current_prompt: Vec<String>,
    current_result: Vec<String>,
    current_thought: Vec<String>,
    in_prompt: bool,
    in_result: bool,
    in_thought: bool,
}

/// What a [`LogParser`] holds.
#[verifier::ext_equal]
pub struct LogParserView {
    pub index: Option<usize>,
    pub name: Option<Seq<char>>,
    pub prompt: Seq<Seq<char>>,
    pub result: Seq<Seq<char>>,
    pub thought: Seq<Seq<char>>,
    pub in_prompt: bool,
    pub in_result: bool,
    pub in_thought: bool,
}

impl DeepView for LogParser {
    type V = LogParserView;

    closed spec fn deep_view(&self) -> LogParserView {
        LogParserView {
            index: self.current_step_index,
            name: self.current_step_name.deep_view(),
            prompt: self.current_prompt.deep_view(),
            result: self.current_result.deep_view(),
            thought: self.current_thought.deep_view(),
            in_prompt: self.in_prompt,
            in_result: self.in_result,
            in_thought: self.in_thought,
        }
    }
}

/// What a log line is to the parser.
pub enum Marker {
    /// A step begins; the marker may be malformed.
    StepStart(Option<(usize, Seq<char>)>),
    PromptStart,
    PromptEnd,
    ResultStart,
    ResultEnd,
    ThoughtStart,
    ThoughtEnd,
    /// A step ends; the marker may be malformed.
    StepEnd(Option<StepStatus>),
    /// A heading of another section.
    Heading,
    /// A line that begins like a heading.
    Ruled,
    Text,
}

/// What stands between a prefix and a closing bracket.
pub open spec fn bracketed(line: Seq<char>, prefix: Seq<char>) -> Option<Seq<char>> {
    let rest = line.skip(prefix.len() as int);
    if prefix.is_prefix_of(line) && "]"@.is_suffix_of(rest) {
        Some(rest.take(rest.len() - "]"@.len()))
    } else {
        None
    }
}

/// The number and the name that a step start marker gives.
pub open spec fn step_start(line: Seq<char>) -> Option<(usize, Seq<char>)> {
    match bracketed(line, "[STEP_START:"@) {
        Some(content) => match text::split_at(content, ':') {
            Some((number, name)) => match text::parsed_usize(number) {
                Some(index) => Some((index, name)),
                None => None,
            },
            None => None,
        },
        None => None,
    }
}

/// The status that a step end marker gives.
pub open spec fn step_end(line: Seq<char>) -> Option<StepStatus> {
    match bracketed(line, "[STEP_END:"@) {
        Some(content) => Some(
            if content == "Success"@ {
                StepStatus::Success
            } else if content == "Failed"@ {
                StepStatus::Failed
            } else {
                StepStatus::Running
            },
        ),
        None => None,
    }
}

/// Tells the markers apart.
pub open spec fn marker(line: Seq<char>) -> Marker {
    if "[STEP_START:"@.is_prefix_of(line) {
        Marker::StepStart(step_start(line))
    } else if line == "─── Prompt ───"@ || line == "[PROMPT_START]"@ {
        Marker::PromptStart
    } else if line == "[PROMPT_END]"@ {
        Marker::PromptEnd
    } else if line == "─── Result ───"@ || line == "[RESULT_START]"@ {
        Marker::ResultStart
    } else if line == "[RESULT_END]"@ {
        Marker::ResultEnd
    } else if line == "[THOUGHT_START]"@ {
        Marker::ThoughtStart
    } else if line == "[THOUGHT_END]"@ {
        Marker::ThoughtEnd
    } else if "[STEP_END:"@.is_prefix_of(line) {
        Marker::StepEnd(step_end(line))
    } else if "───"@.is_prefix_of(line) && "───"@.is_suffix_of(line) {
        Marker::Heading
    } else if "─"@.is_prefix_of(line) {
        Marker::Ruled
    } else {
        Marker::Text
    }
}

impl LogParserView {
    /// The parser before any line.
    pub open spec fn initial() -> LogParserView {
        LogParserView {
            index: None,
            name: None,
            prompt: seq![],
            result: seq![],
            thought: seq![],
            in_prompt: false,
            in_result: false,
            in_thought: false,
        }
    }

    /// With nothing collected and no section open.
    pub open spec fn reset(self) -> LogParserView {
        LogParserView { index: self.index, name: self.name, ..LogParserView::initial() }
    }

    /// With a line added to the section that is open; a line that begins like a heading is
    /// kept in a thought only.
    pub open spec fn collecting(self, line: Seq<char>, ruled: bool) -> LogParserView {
        if self.in_prompt && !ruled {
            LogParserView { prompt: self.prompt.push(line), ..self }
        } else if self.in_result && !ruled {
            LogParserView { result: self.result.push(line), ..self }
        } else if self.in_thought {
            LogParserView { thought: self.thought.push(line), ..self }
        } else {
            self
        }
    }

    /// The entry of the step that ends, if a step is under way.
    pub open spec fn entry(self, status: StepStatus) -> Option<LogEntryView> {
        match (self.index, self.name) {
            (Some(step_index), Some(step_name)) => Some(
                LogEntryView {
                    step_index,
                    step_name,
                    prompt_lines: self.prompt,
                    result_lines: self.result,
                    thought_lines: self.thought,
                    status,
                },
            ),
            _ => None,
        }
    }

    /// The parser after one line.
    pub open spec fn after(self, line: Seq<char>) -> LogParserView {
        match marker(line) {
            Marker::StepStart(Some((index, name))) => LogParserView {
                index: Some(index),
                name: Some(name),
                ..LogParserView::initial()
            },
            Marker::StepStart(None) => self,
            Marker::PromptStart => LogParserView {
                in_prompt: true,
                in_result: false,
                in_thought: false,
                ..self
            },
            Marker::PromptEnd => LogParserView { in_prompt: false, ..self },
            Marker::ResultStart => LogParserView {
                in_prompt: false,
                in_result: true,
                in_thought: false,
                ..self
            },
            Marker::ResultEnd => LogParserView { in_result: false, ..self },
            Marker::ThoughtStart => LogParserView {
                in_prompt: false,
                in_result: false,
                in_thought: true,
                thought: seq![],
                ..self
            },
            Marker::ThoughtEnd => LogParserView { in_thought: false, ..self },
            Marker::StepEnd(Some(status)) => if self.entry(status) is Some {
                LogParserView::initial()
            } else {
                self
            },
            Marker::StepEnd(None) => self,
            Marker::Heading => LogParserView {
                in_prompt: false,
                in_result: false,
                in_thought: false,
                ..self
            },
            Marker::Ruled => self.collecting(line, true),
            Marker::Text => self.collecting(line, false),
        }
    }

    /// The entry that one line completes.
    pub open spec fn completed(self, line: Seq<char>) -> Option<LogEntryView> {
        match marker(line) {
            Marker::StepEnd(Some(status)) => self.entry(status),
            _ => None,
        }
    }
}

/// Returns what stands between a prefix and a closing bracket.
fn bracketed_text(line: &str, prefix: &str) -> (r: Option<String>)
    ensures
        r.deep_view() == bracketed(line@, prefix@),
{
    match strip_prefix(line, prefix) {
        Some(rest) => strip_suffix(rest.as_str(), "]"),
        None => None,
    }
}

impl Default for LogParser {
    fn default() -> (r: Self)
        ensures
            r.deep_view() == LogParserView::initial(),
    {
        LogParser {
            current_step_index: None,
            current_step_name: None,
            current_prompt: Vec::new(),
            current_result: Vec::new(),
            current_thought: Vec::new(),
            in_prompt: false,
            in_result: false,
            in_thought: false,
        }
    }
}

impl LogParser {
    /// Returns a parser that has seen no line.
    pub fn new() -> (r: Self)
        ensures
            r.deep_view() == LogParserView::initial(),
    {
        Self::default()
    }

    /// Takes in one line; returns the entry that it completes, if it ends a step.
    pub fn parse_line(&mut self, line: &str) -> (r: Option<LogEntry>)
        ensures
            final(self).deep_view() == old(self).deep_view().after(line@),
            r.deep_view() == old(self).deep_view().completed(line@),
    {
        if starts_with(line, "[STEP_START:") {
            self.handle_step_start(line);
            None
        } else if same(line, "─── Prompt ───") || same(line, "[PROMPT_START]") {
            self.in_prompt = true;
            self.in_result = false;
            self.in_thought = false;
            None
        } else if same(line, "[PROMPT_END]") {
            self.in_prompt = false;
            None
        } else if same(line, "─── Result ───") || same(line, "[RESULT_START]") {
            self.in_prompt = false;
            self.in_result = true;
            self.in_thought = false;
            None
        } else if same(line, "[RESULT_END]") {
            self.in_result = false;
            None
        } else if same(line, "[THOUGHT_START]") {
            self.in_prompt = false;
            self.in_result = false;
            self.in_thought = true;
            self.current_thought = Vec::new();
            None
        } else if same(line, "[THOUGHT_END]") {
            self.in_thought = false;
            None
        } else if starts_with(line, "[STEP_END:") {
            self.finalize_step(line)
        } else if starts_with(line, "───") && ends_with(line, "───") {
            self.in_prompt = false;
            self.in_result = false;
            self.in_thought = false;
            None
        } else {
            self.collect(line);
            None
        }
    }

    /// Adds a line to the open section.
    fn collect(&mut self, line: &str)
        ensures
            final(self).deep_view() == old(self).deep_view().collecting(
                line@,
                "─"@.is_prefix_of(line@),
            ),
    {
        let ruled = starts_with(line, "─");
        if self.in_prompt && !ruled {
            self.current_prompt.push(line.to_owned());
        } else if self.in_result && !ruled {
            self.current_result.push(line.to_owned());
        } else if self.in_thought {
            self.current_thought.push(line.to_owned());
        }
    }

    /// Takes in a step start marker.
    fn handle_step_start(&mut self, line: &str)
        ensures
            final(self).deep_view() == (match step_start(line@) {
                Some((index, name)) => (LogParserView {
                    index: Some(index),
                    name: Some(name),
                    ..LogParserView::initial()
                }),
                None => old(self).deep_view(),
            }),
    {
        if let Some(content) = bracketed_text(line, "[STEP_START:") {
            if let Some((number, name)) = split_once(content.as_str(), ':') {
                if let Some(index) = parse_usize(number.as_str()) {
                    self.current_step_index = Some(index);
                    self.current_step_name = Some(name);
                    self.reset_buffers();
                }
            }
        }
    }

    /// Drops what was collected and closes all sections.
    fn reset_buffers(&mut self)
        ensures
            final(self).deep_view() == old(self).deep_view().reset(),
    {
        self.current_prompt = Vec::new();
        self.current_result = Vec::new();
        self.current_thought = Vec::new();
        self.in_prompt = false;
        self.in_result = false;
        self.in_thought = false;
    }

    /// Takes in a step end marker.
    fn finalize_step(&mut self, line: &str) -> (r: Option<LogEntry>)
        ensures
            match step_end(line@) {
                Some(status) => r.deep_view() == old(self).deep_view().entry(status)
                    && final(self).deep_view() == (if r is Some {
                    LogParserView::initial()
                } else {
                    old(self).deep_view()
                }),
                None => r is None && final(self).deep_view() == old(self).deep_view(),
            },
    {
        let status = match bracketed_text(line, "[STEP_END:") {
            Some(content) => {
                if same(content.as_str(), "Success") {
                    StepStatus::Success
                } else if same(content.as_str(), "Failed") {
                    StepStatus::Failed
                } else {
                    StepStatus::Running
                }
            },
            None => {
                return None;
            },
        };
        if let (Some(index), Some(name)) = (self.current_step_index, &self.current_step_name) {
            let entry = LogEntry {
                step_index: index,
                step_name: name.clone(),
                prompt_lines: self.current_prompt.duplicate(),
                result_lines: self.current_result.duplicate(),
                thought_lines: self.current_thought.duplicate(),
                status,
            };
            self.current_step_index = None;
            self.current_step_name = None;
            self.reset_buffers();
            Some(entry)
        } else {
            None
        }
    }

    /// Returns which of the prompt, result and thought sections is open.
    pub fn current_state(&self) -> (r: (bool, bool, bool))
        ensures
            r.0 == self.deep_view().in_prompt,
            r.1 == self.deep_view().in_result,
            r.2 == self.deep_view().in_thought,
    {
        (self.in_prompt, self.in_result, self.in_thought)
    }
}

/// At most one section is open.
pub open spec fn one_section(p: LogParserView) -> bool {
    &&& !(p.in_prompt && p.in_result)
    &&& !(p.in_prompt && p.in_thought)
    &&& !(p.in_result && p.in_thought)
}

/// No line opens a section beside another one: at most one is open, from the start on.
pub proof fn sections_exclude_each_other(p: LogParserView, line: Seq<char>)
    requires
        one_section(p),
    ensures
        one_section(LogParserView::initial()),
        one_section(p.after(line)),
{
}

/// The line that announces a step.
pub open spec fn step_start_line(index: nat, name: Seq<char>) -> Seq<char> {
    "[STEP_START:"@ + text::decimal(index) + ":"@ + name + "]"@
}

/// The line that announces a step is read back as that step, whatever its name holds.
pub proof fn step_start_gives_back(index: usize, name: Seq<char>)
    ensures
        marker(step_start_line(index as nat, name)) == Marker::StepStart(Some((index, name))),
{
    reveal_strlit("[STEP_START:");
    reveal_strlit(":");
    reveal_strlit("]");
    let number = text::decimal(index as nat);
    let line = step_start_line(index as nat, name);
    let prefix = "[STEP_START:"@;
    assert(prefix =~= line.subrange(0, prefix.len() as int));
    let rest = line.skip(prefix.len() as int);
    assert(rest =~= number + ":"@ + name + "]"@);
    assert("]"@ =~= rest.subrange(rest.len() - 1, rest.len() as int));
    let content = rest.take(rest.len() - 1);
    assert(content =~= number + ":"@ + name);
    text::decimal_gives_back(index as nat);
    text::parse_of_decimal(index);
    text::lemma_position(content, ':');
    assert forall|j: int| 0 <= j < number.len() implies content[j] != ':' by {
        assert(text::is_digit(number[j]));
    }
    assert(content[number.len() as int] == ':');
    assert(text::position(content, ':') == number.len());
    assert(content.take(number.len() as int) =~= number);
    assert(content.skip(number.len() as int + 1) =~= name);
}

/// The lines that announce the end of a step are read back as its status.
pub proof fn step_end_gives_back()
    ensures
        marker("[STEP_END:Success]"@) == Marker::StepEnd(Some(StepStatus::Success)),
        marker("[STEP_END:Failed]"@) == Marker::StepEnd(Some(StepStatus::Failed)),
{
    reveal_strlit("[STEP_END:Success]");
    reveal_strlit("[STEP_END:Failed]");
    reveal_strlit("[STEP_START:");
    reveal_strlit("[STEP_END:");
    reveal_strlit("]");
    reveal_strlit("Success");
    reveal_strlit("Failed");
    reveal_strlit("─── Prompt ───");
    reveal_strlit("[PROMPT_START]");
    reveal_strlit("[PROMPT_END]");
    reveal_strlit("─── Result ───");
    reveal_strlit("[RESULT_START]");
    reveal_strlit("[RESULT_END]");
    reveal_strlit("[THOUGHT_START]");
    reveal_strlit("[THOUGHT_END]");
    let good = "[STEP_END:Success]"@;
    let bad = "[STEP_END:Failed]"@;
    let prefix = "[STEP_END:"@;
    assert(good[6] == 'E' && bad[6] == 'E' && "[STEP_START:"@[6] == 'S');
    assert(good[1] == 'S' && bad[1] == 'S');
    assert(prefix =~= good.subrange(0, 10));
    assert(prefix =~= bad.subrange(0, 10));
    assert("]"@ =~= good.skip(10).subrange(7, 8));
    assert("]"@ =~= bad.skip(10).subrange(6, 7));
    assert(good.skip(10).take(7) =~= "Success"@);
    assert(bad.skip(10).take(6) =~= "Failed"@);
    assert("Failed"@.len() != "Success"@.len());
}

impl LogParserView {
    /// The parser after some lines.
    pub open spec fn after_all(self, lines: Seq<Seq<char>>) -> LogParserView
        decreases lines.len(),
    {
        if lines.len() == 0 {
            self
        } else {
            self.after_all(lines.drop_last()).after(lines.last())
        }
    }

    /// The entries that some lines complete.
    pub open spec fn completed_all(self, lines: Seq<Seq<char>>) -> Seq<LogEntryView>
        decreases lines.len(),
    {
        if lines.len() == 0 {
            seq![]
        } else {
            let before = self.completed_all(lines.drop_last());
            match self.after_all(lines.drop_last()).completed(lines.last()) {
                Some(entry) => before.push(entry),
                None => before,
            }
        }
    }
}

/// Lines that follow other lines.
pub proof fn lemma_after_more(p: LogParserView, lines: Seq<Seq<char>>, more: Seq<Seq<char>>)
    ensures
        p.after_all(lines + more) == p.after_all(lines).after_all(more),
        p.completed_all(lines + more) == p.completed_all(lines) + p.after_all(
            lines,
        ).completed_all(more),
    decreases more.len(),
{
    if more.len() == 0 {
        assert(lines + more =~= lines);
        assert(p.completed_all(lines) + seq![] =~= p.completed_all(lines));
    } else {
        lemma_after_more(p, lines, more.drop_last());
        assert((lines + more).drop_last() =~= lines + more.drop_last());
        assert((lines + more).last() == more.last());
        let mid = p.after_all(lines);
        let q = mid.after_all(more.drop_last());
        match q.completed(more.last()) {
            Some(entry) => {
                assert((p.completed_all(lines) + mid.completed_all(more.drop_last())).push(entry)
                    =~= p.completed_all(lines) + mid.completed_all(more.drop_last()).push(entry));
            },
            None => {},
        }
    }
}

/// One line.
pub proof fn lemma_after_one(p: LogParserView, line: Seq<char>)
    ensures
        p.after_all(seq![line]) == p.after(line),
        p.completed_all(seq![line]) == (match p.completed(line) {
            Some(entry) => seq![entry],
            None => seq![],
        }),
{
    assert(seq![line].drop_last() =~= seq![]);
    assert(p.after_all(seq![]) == p);
    assert(p.completed_all(seq![]) =~= seq![]);
    match p.completed(line) {
        Some(entry) => {
            assert(Seq::<LogEntryView>::empty().push(entry) =~= seq![entry]);
        },
        None => {},
    }
}

/// Whether no line is a marker or looks like a heading.
pub open spec fn all_text(lines: Seq<Seq<char>>) -> bool {
    forall|i: int| 0 <= i < lines.len() ==> marker(#[trigger] lines[i]) is Text
}

/// Lines of text go to the section that is open.
pub proof fn lemma_text_lines(p: LogParserView, lines: Seq<Seq<char>>)
    requires
        all_text(lines),
    ensures
        p.completed_all(lines) == Seq::<LogEntryView>::empty(),
        p.after_all(lines) == (if p.in_prompt {
            LogParserView { prompt: p.prompt + lines, ..p }
        } else if p.in_result {
            LogParserView { result: p.result + lines, ..p }
        } else if p.in_thought {
            LogParserView { thought: p.thought + lines, ..p }
        } else {
            p
        }),
    decreases lines.len(),
{
    if lines.len() == 0 {
        assert(p.prompt + lines =~= p.prompt);
        assert(p.result + lines =~= p.result);
        assert(p.thought + lines =~= p.thought);
    } else {
        let front = lines.drop_last();
        assert(all_text(front)) by {
            assert forall|i: int| 0 <= i < front.len() implies marker(
                #[trigger] front[i],
            ) is Text by {
                assert(front[i] == lines[i]);
            }
        }
        lemma_text_lines(p, front);
        assert(marker(lines[lines.len() - 1]) is Text);
        assert((p.prompt + front).push(lines.last()) =~= p.prompt + lines);
        assert((p.result + front).push(lines.last()) =~= p.result + lines);
        assert((p.thought + front).push(lines.last()) =~= p.thought + lines);
    }
}

/// What the fixed marker lines are.
pub proof fn section_markers()
    ensures
        marker("[PROMPT_START]"@) is PromptStart,
        marker("[PROMPT_END]"@) is PromptEnd,
        marker("[RESULT_START]"@) is ResultStart,
        marker("[RESULT_END]"@) is ResultEnd,
        marker("[THOUGHT_START]"@) is ThoughtStart,
        marker("[THOUGHT_END]"@) is ThoughtEnd,
        marker("─── Prompt ───"@) is PromptStart,
        marker("─── Result ───"@) is ResultStart,
{
    reveal_strlit("[STEP_START:");
    reveal_strlit("[STEP_END:");
    reveal_strlit("[PROMPT_START]");
    reveal_strlit("[PROMPT_END]");
    reveal_strlit("[RESULT_START]");
    reveal_strlit("[RESULT_END]");
    reveal_strlit("[THOUGHT_START]");
    reveal_strlit("[THOUGHT_END]");
    reveal_strlit("─── Prompt ───");
    reveal_strlit("─── Result ───");
    let head = "[STEP_START:"@;
    assert(head[1] == 'S' && head[0] == '[');
    assert("[PROMPT_START]"@[1] == 'P');
    assert("[PROMPT_END]"@[1] == 'P');
    assert("[RESULT_START]"@[1] == 'R');
    assert("[RESULT_END]"@[1] == 'R');
    assert("[THOUGHT_START]"@[1] == 'T');
    assert("[THOUGHT_END]"@[1] == 'T');
    assert("[PROMPT_START]"@.len() != "[PROMPT_END]"@.len());
    assert("[RESULT_START]"@.len() != "[RESULT_END]"@.len());
    assert("[THOUGHT_START]"@.len() != "[THOUGHT_END]"@.len());
    assert("─── Prompt ───"@[0] == '─');
    assert("─── Result ───"@[0] == '─');
    assert("─── Prompt ───"@[4] == 'P');
    assert("─── Result ───"@[4] == 'R');
}

/// Text between the markers of the prompt section is read back as prompt.
pub proof fn prompt_is_read_back(p: LogParserView, lines: Seq<Seq<char>>)
    requires
        all_text(lines),
    ensures
        p.after_all(seq!["[PROMPT_START]"@] + lines + seq!["[PROMPT_END]"@]) == (LogParserView {
            prompt: p.prompt + lines,
            in_prompt: false,
            in_result: false,
            in_thought: false,
            ..p
        }),
{
    section_markers();
    let open = p.after("[PROMPT_START]"@);
    lemma_after_more(p, seq!["[PROMPT_START]"@] + lines, seq!["[PROMPT_END]"@]);
    lemma_after_more(p, seq!["[PROMPT_START]"@], lines);
    lemma_after_one(p, "[PROMPT_START]"@);
    lemma_text_lines(open, lines);
    lemma_after_one(open.after_all(lines), "[PROMPT_END]"@);
}

/// Text between the markers of the thought section is read back as the thought.
pub proof fn thought_is_read_back(p: LogParserView, lines: Seq<Seq<char>>)
    requires
        all_text(lines),
    ensures
        p.after_all(seq!["[THOUGHT_START]"@] + lines + seq!["[THOUGHT_END]"@]) == (LogParserView {
            thought: lines,
            in_prompt: false,
            in_result: false,
            in_thought: false,
            ..p
        }),
{
    section_markers();
    let open = p.after("[THOUGHT_START]"@);
    lemma_after_more(p, seq!["[THOUGHT_START]"@] + lines, seq!["[THOUGHT_END]"@]);
    lemma_after_more(p, seq!["[THOUGHT_START]"@], lines);
    lemma_after_one(p, "[THOUGHT_START]"@);
    lemma_text_lines(open, lines);
    lemma_after_one(open.after_all(lines), "[THOUGHT_END]"@);
    assert(Seq::<Seq<char>>::empty() + lines =~= lines);
}

/// The log of a step that has no prompt: its announcement, some remarks, and its result.
pub open spec fn step_log(
    index: nat,
    name: Seq<char>,
    remarks: Seq<Seq<char>>,
    result: Seq<Seq<char>>,
    end: Seq<char>,
) -> Seq<Seq<char>> {
    seq![step_start_line(index, name)] + remarks + seq!["[RESULT_START]"@] + result + seq![
        "[RESULT_END]"@,
    ] + seq![end]
}

/// The log of a step is read back as one entry with the number, the name, the result and the
/// status of the step, whatever came before it. Remarks outside the sections leave no trace.
pub proof fn step_is_read_back(
    p: LogParserView,
    index: usize,
    name: Seq<char>,
    remarks: Seq<Seq<char>>,
    result: Seq<Seq<char>>,
    success: bool,
)
    requires
        all_text(remarks),
        all_text(result),
    ensures
        ({
            let end = if success {
                "[STEP_END:Success]"@
            } else {
                "[STEP_END:Failed]"@
            };
            let log = step_log(index as nat, name, remarks, result, end);
            &&& p.completed_all(log) == seq![
                LogEntryView {
                    step_index: index,
                    step_name: name,
                    prompt_lines: seq![],
                    result_lines: result,
                    thought_lines: seq![],
                    status: if success {
                        StepStatus::Success
                    } else {
                        StepStatus::Failed
                    },
                },
            ]
            &&& p.after_all(log) == LogParserView::initial()
        }),
{
    section_markers();
    step_start_gives_back(index, name);
    step_end_gives_back();
    let end = if success {
        "[STEP_END:Success]"@
    } else {
        "[STEP_END:Failed]"@
    };
    let a = seq![step_start_line(index as nat, name)];
    let c = seq!["[RESULT_START]"@];
    let e = seq!["[RESULT_END]"@];
    let f = seq![end];
    let p1 = p.after_all(a);
    lemma_after_one(p, a[0]);
    lemma_after_more(p, a, remarks);
    lemma_text_lines(p1, remarks);
    lemma_after_more(p, a + remarks, c);
    lemma_after_one(p1, c[0]);
    let p2 = p1.after(c[0]);
    lemma_after_more(p, a + remarks + c, result);
    lemma_text_lines(p2, result);
    let p3 = p2.after_all(result);
    assert(Seq::<Seq<char>>::empty() + result =~= result);
    lemma_after_more(p, a + remarks + c + result, e);
    lemma_after_one(p3, e[0]);
    let p4 = p3.after(e[0]);
    lemma_after_more(p, a + remarks + c + result + e, f);
    lemma_after_one(p4, f[0]);
    let log = step_log(index as nat, name, remarks, result, end);
    assert(log =~= a + remarks + c + result + e + f);
    assert(p.completed_all(a + remarks + c + result + e) =~= seq![]);
    assert(p.completed_all(log) =~= p4.completed_all(f));
}

} // verus!
