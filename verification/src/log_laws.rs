//! What holds of every log that is taken apart into steps.
use crate::log_parser::{self, LogParserView, Marker};
use crate::text;
use crate::ui::types::{LogEntryView, StepStatus};
use vstd::prelude::*;

verus! {

/// Whether a line is plain: it begins neither with a bracket nor with a rule.
pub open spec fn plain(line: Seq<char>) -> bool {
    line.len() == 0 || (line[0] != '[' && line[0] != '─')
}

/// Whether lines are plain.
pub open spec fn all_plain(lines: Seq<Seq<char>>) -> bool {
    forall|i: int| 0 <= i < lines.len() ==> plain(#[trigger] lines[i])
}

proof fn lemma_plain_is_text(line: Seq<char>)
    requires
        plain(line),
    ensures
        log_parser::marker(line) is Text,
{
    reveal_strlit("[STEP_START:");
    reveal_strlit("[STEP_END:");
    reveal_strlit("[PROMPT_START]");
    reveal_strlit("[PROMPT_END]");
    reveal_strlit("[RESULT_START]");
    reveal_strlit("[RESULT_END]");
    reveal_strlit("[THOUGHT_START]");
    reveal_strlit("[THOUGHT_END]");
    reveal_strlit("─── Prompt ───");
    reveal_strlit("─── Result ───");
    reveal_strlit("───");
    reveal_strlit("─");
    assert("[PROMPT_START]"@[0] == '[');
    assert("[PROMPT_END]"@[0] == '[');
    assert("[RESULT_START]"@[0] == '[');
    assert("[RESULT_END]"@[0] == '[');
    assert("[THOUGHT_START]"@[0] == '[');
    assert("[THOUGHT_END]"@[0] == '[');
    assert("─── Prompt ───"@[0] == '─');
    assert("─── Result ───"@[0] == '─');
    if "[STEP_START:"@.is_prefix_of(line) {
        assert("[STEP_START:"@[0] == line[0]);
    }
    if "[STEP_END:"@.is_prefix_of(line) {
        assert("[STEP_END:"@[0] == line[0]);
    }
    if "───"@.is_prefix_of(line) {
        assert("───"@[0] == line[0]);
    }
    if "─"@.is_prefix_of(line) {
        assert("─"@[0] == line[0]);
    }
}

proof fn lemma_all_plain(lines: Seq<Seq<char>>)
    requires
        all_plain(lines),
    ensures
        log_parser::all_text(lines),
{
    assert forall|i: int| 0 <= i < lines.len() implies log_parser::marker(
        #[trigger] lines[i],
    ) is Text by {
        lemma_plain_is_text(lines[i]);
    }
}

/// Plain lines go to the section that is open, each as it stands and in order; where none is open
/// they leave no trace. They never end a step.
pub proof fn plain_lines_are_kept(p: LogParserView, lines: Seq<Seq<char>>)
    requires
        all_plain(lines),
    ensures
        p.completed_all(lines).len() == 0,
        p.in_prompt ==> p.after_all(lines) == (LogParserView { prompt: p.prompt + lines, ..p }),
        !p.in_prompt && p.in_result ==> p.after_all(lines) == (LogParserView {
            result: p.result + lines,
            ..p
        }),
        !p.in_prompt && !p.in_result && p.in_thought ==> p.after_all(lines) == (LogParserView {
            thought: p.thought + lines,
            ..p
        }),
        !p.in_prompt && !p.in_result && !p.in_thought ==> p.after_all(lines) == p,
{
    lemma_all_plain(lines);
    log_parser::lemma_text_lines(p, lines);
}

/// The log of a step with a prompt, a thought and a result, each between its markers, with remarks
/// before them.
pub open spec fn full_log(
    index: nat,
    name: Seq<char>,
    remarks: Seq<Seq<char>>,
    prompt: Seq<Seq<char>>,
    thought: Seq<Seq<char>>,
    result: Seq<Seq<char>>,
    status: Seq<char>,
) -> Seq<Seq<char>> {
    seq!["[STEP_START:"@ + text::decimal(index) + ":"@ + name + "]"@] + remarks + (seq![
        "[PROMPT_START]"@,
    ] + prompt + seq!["[PROMPT_END]"@]) + (seq!["[THOUGHT_START]"@] + thought + seq![
        "[THOUGHT_END]"@,
    ]) + seq!["[RESULT_START]"@] + result + seq!["[RESULT_END]"@] + seq![
        "[STEP_END:"@ + status + "]"@,
    ]
}

/// The end of a step tells whether it succeeded or failed; whatever else it says, it still runs.
pub proof fn step_ends_tell_the_status(p: LogParserView, status: Seq<char>)
    ensures
        ({
            let line = "[STEP_END:"@ + status + "]"@;
            let found = if status == "Success"@ {
                StepStatus::Success
            } else if status == "Failed"@ {
                StepStatus::Failed
            } else {
                StepStatus::Running
            };
            log_parser::marker(line) == Marker::StepEnd(Some(found))
        }),
{
    reveal_strlit("[STEP_START:");
    reveal_strlit("[STEP_END:");
    reveal_strlit("]");
    reveal_strlit("[PROMPT_START]");
    reveal_strlit("[PROMPT_END]");
    reveal_strlit("[RESULT_START]");
    reveal_strlit("[RESULT_END]");
    reveal_strlit("[THOUGHT_START]");
    reveal_strlit("[THOUGHT_END]");
    reveal_strlit("─── Prompt ───");
    reveal_strlit("─── Result ───");
    let prefix = "[STEP_END:"@;
    let line = prefix + status + "]"@;
    assert(line[0] == '[' && line[1] == 'S' && line[6] == 'E');
    assert("[STEP_START:"@[6] == 'S');
    assert("[PROMPT_START]"@[1] == 'P');
    assert("[PROMPT_END]"@[1] == 'P');
    assert("[RESULT_START]"@[1] == 'R');
    assert("[RESULT_END]"@[1] == 'R');
    assert("[THOUGHT_START]"@[1] == 'T');
    assert("[THOUGHT_END]"@[1] == 'T');
    assert("─── Prompt ───"@[0] == '─');
    assert("─── Result ───"@[0] == '─');
    if "[STEP_START:"@.is_prefix_of(line) {
        assert("[STEP_START:"@[6] == line[6]);
    }
    assert(prefix =~= line.subrange(0, prefix.len() as int));
    let rest = line.skip(prefix.len() as int);
    assert(rest =~= status + "]"@);
    assert("]"@ =~= rest.subrange(rest.len() - 1, rest.len() as int));
    assert(rest.take(rest.len() - 1) =~= status);
}

/// The log of a step is read back as one entry: with its number, its name and its status, and with
/// the prompt, the thought and the result each as it was logged, whatever came before. After it
/// nothing is under way.
pub proof fn steps_are_read_back_whole(
    p: LogParserView,
    index: usize,
    name: Seq<char>,
    remarks: Seq<Seq<char>>,
    prompt: Seq<Seq<char>>,
    thought: Seq<Seq<char>>,
    result: Seq<Seq<char>>,
    status: Seq<char>,
)
    requires
        all_plain(remarks),
        all_plain(prompt),
        all_plain(thought),
        all_plain(result),
    ensures
        ({
            let log = full_log(index as nat, name, remarks, prompt, thought, result, status);
            &&& p.completed_all(log) == seq![
                LogEntryView {
                    step_index: index,
                    step_name: name,
                    prompt_lines: prompt,
                    result_lines: result,
                    thought_lines: thought,
                    status: if status == "Success"@ {
                        StepStatus::Success
                    } else if status == "Failed"@ {
                        StepStatus::Failed
                    } else {
                        StepStatus::Running
                    },
                },
            ]
            &&& p.after_all(log) == LogParserView::initial()
        }),
{
    log_parser::section_markers();
    log_parser::step_start_gives_back(index, name);
    step_ends_tell_the_status(p, status);
    let none = Seq::<LogEntryView>::empty();
    let a = seq![log_parser::step_start_line(index as nat, name)];
    let b = seq!["[PROMPT_START]"@] + prompt + seq!["[PROMPT_END]"@];
    let c = seq!["[THOUGHT_START]"@] + thought + seq!["[THOUGHT_END]"@];
    let d = seq!["[RESULT_START]"@];
    let e = seq!["[RESULT_END]"@];
    let f = seq!["[STEP_END:"@ + status + "]"@];
    lemma_all_plain(remarks);
    lemma_all_plain(prompt);
    lemma_all_plain(thought);
    lemma_all_plain(result);
    let p1 = p.after(a[0]);
    log_parser::lemma_after_one(p, a[0]);
    log_parser::lemma_after_more(p, a, remarks);
    log_parser::lemma_text_lines(p1, remarks);
    assert(p.after_all(a + remarks) == p1);
    assert(p.completed_all(a + remarks) =~= none);
    log_parser::prompt_is_read_back(p1, prompt);
    lemma_section_completes_none(p1, "[PROMPT_START]"@, prompt, "[PROMPT_END]"@);
    let p2 = p1.after_all(b);
    log_parser::lemma_after_more(p, a + remarks, b);
    assert(p.completed_all(a + remarks + b) =~= none);
    log_parser::thought_is_read_back(p2, thought);
    lemma_section_completes_none(p2, "[THOUGHT_START]"@, thought, "[THOUGHT_END]"@);
    let p3 = p2.after_all(c);
    log_parser::lemma_after_more(p, a + remarks + b, c);
    assert(p.completed_all(a + remarks + b + c) =~= none);
    let p4 = p3.after(d[0]);
    log_parser::lemma_after_one(p3, d[0]);
    log_parser::lemma_after_more(p, a + remarks + b + c, d);
    assert(p.completed_all(a + remarks + b + c + d) =~= none);
    log_parser::lemma_text_lines(p4, result);
    let p5 = p4.after_all(result);
    log_parser::lemma_after_more(p, a + remarks + b + c + d, result);
    assert(p.completed_all(a + remarks + b + c + d + result) =~= none);
    let p6 = p5.after(e[0]);
    log_parser::lemma_after_one(p5, e[0]);
    log_parser::lemma_after_more(p, a + remarks + b + c + d + result, e);
    assert(p.completed_all(a + remarks + b + c + d + result + e) =~= none);
    log_parser::lemma_after_one(p6, f[0]);
    log_parser::lemma_after_more(p, a + remarks + b + c + d + result + e, f);
    let log = full_log(index as nat, name, remarks, prompt, thought, result, status);
    assert(log =~= a + remarks + b + c + d + result + e + f);
    assert(Seq::<Seq<char>>::empty() + prompt =~= prompt);
    assert(Seq::<Seq<char>>::empty() + result =~= result);
    assert(p.completed_all(log) =~= p6.completed_all(f));
}

proof fn lemma_section_completes_none(
    p: LogParserView,
    open: Seq<char>,
    lines: Seq<Seq<char>>,
    close: Seq<char>,
)
    requires
        log_parser::all_text(lines),
        !(log_parser::marker(open) is StepEnd),
        !(log_parser::marker(close) is StepEnd),
    ensures
        p.completed_all(seq![open] + lines + seq![close]) == Seq::<LogEntryView>::empty(),
{
    log_parser::lemma_after_more(p, seq![open] + lines, seq![close]);
    log_parser::lemma_after_more(p, seq![open], lines);
    log_parser::lemma_after_one(p, open);
    log_parser::lemma_text_lines(p.after(open), lines);
    log_parser::lemma_after_one(p.after(open).after_all(lines), close);
    assert(p.completed_all(seq![open] + lines + seq![close]) =~= Seq::<LogEntryView>::empty());
}

/// Between two rules stands a heading, which closes the section that is open and is not part of
/// it.
pub proof fn headings_close_sections(p: LogParserView, line: Seq<char>, inner: Seq<char>)
    requires
        line == "───"@ + inner + "───"@,
        line != "─── Prompt ───"@,
        line != "─── Result ───"@,
    ensures
        p.after(line) == (LogParserView {
            in_prompt: false,
            in_result: false,
            in_thought: false,
            ..p
        }),
        p.completed(line) is None,
{
    reveal_strlit("───");
    reveal_strlit("[STEP_START:");
    reveal_strlit("[STEP_END:");
    reveal_strlit("[PROMPT_START]");
    reveal_strlit("[PROMPT_END]");
    reveal_strlit("[RESULT_START]");
    reveal_strlit("[RESULT_END]");
    reveal_strlit("[THOUGHT_START]");
    reveal_strlit("[THOUGHT_END]");
    assert(line[0] == '─');
    assert("[PROMPT_START]"@[0] == '[');
    assert("[PROMPT_END]"@[0] == '[');
    assert("[RESULT_START]"@[0] == '[');
    assert("[RESULT_END]"@[0] == '[');
    assert("[THOUGHT_START]"@[0] == '[');
    assert("[THOUGHT_END]"@[0] == '[');
    if "[STEP_START:"@.is_prefix_of(line) {
        assert("[STEP_START:"@[0] == line[0]);
    }
    if "[STEP_END:"@.is_prefix_of(line) {
        assert("[STEP_END:"@[0] == line[0]);
    }
    assert("───"@ =~= line.subrange(0, 3));
    assert("───"@ =~= line.subrange(line.len() - 3, line.len() as int));
}

/// A step that has not begun does not end, and what was collected for a step is forgotten when the
/// next one begins.
pub proof fn steps_begin_with_nothing(p: LogParserView, index: usize, name: Seq<char>, status: Seq<char>)
    ensures
        ({
            let begun = p.after("[STEP_START:"@ + text::decimal(index as nat) + ":"@ + name + "]"@);
            &&& begun.index == Some(index)
            &&& begun.name == Some(name)
            &&& begun.prompt.len() == 0 && begun.result.len() == 0 && begun.thought.len() == 0
            &&& !begun.in_prompt && !begun.in_result && !begun.in_thought
        }),
        p.index is None ==> p.completed("[STEP_END:"@ + status + "]"@) is None,
        p.index == Some(index) && p.name == Some(name) ==> {
            let entry = p.completed("[STEP_END:"@ + status + "]"@);
            &&& entry is Some
            &&& entry->0.step_index == index
            &&& entry->0.step_name == name
            &&& entry->0.prompt_lines == p.prompt
            &&& entry->0.result_lines == p.result
            &&& entry->0.thought_lines == p.thought
        },
{
    log_parser::step_start_gives_back(index, name);
    step_ends_tell_the_status(p, status);
}

/// A line that begins with a rule, but does not end with one, is part of a thought, and of nothing
/// else.
pub proof fn ruled_lines_belong_to_thoughts(p: LogParserView, rest: Seq<char>)
    requires
        rest.len() > 0,
        rest.last() != '─',
    ensures
        ({
            let line = "─"@ + rest;
            &&& p.completed(line) is None
            &&& p.after(line) == if p.in_thought {
                LogParserView { thought: p.thought.push(line), ..p }
            } else {
                p
            }
        }),
{
    reveal_strlit("─");
    reveal_strlit("───");
    reveal_strlit("[STEP_START:");
    reveal_strlit("[STEP_END:");
    reveal_strlit("[PROMPT_START]");
    reveal_strlit("[PROMPT_END]");
    reveal_strlit("[RESULT_START]");
    reveal_strlit("[RESULT_END]");
    reveal_strlit("[THOUGHT_START]");
    reveal_strlit("[THOUGHT_END]");
    reveal_strlit("─── Prompt ───");
    reveal_strlit("─── Result ───");
    let line = "─"@ + rest;
    let n = line.len() as int;
    assert(line[0] == '─' && line[n - 1] == rest.last());
    assert("[PROMPT_START]"@[0] == '[');
    assert("[PROMPT_END]"@[0] == '[');
    assert("[RESULT_START]"@[0] == '[');
    assert("[RESULT_END]"@[0] == '[');
    assert("[THOUGHT_START]"@[0] == '[');
    assert("[THOUGHT_END]"@[0] == '[');
    assert("─── Prompt ───"@.last() == '─');
    assert("─── Result ───"@.last() == '─');
    if "[STEP_START:"@.is_prefix_of(line) {
        assert(line.subrange(0, 12)[0] == '[');
    }
    if "[STEP_END:"@.is_prefix_of(line) {
        assert(line.subrange(0, 10)[0] == '[');
    }
    if "───"@.is_suffix_of(line) {
        assert(line.subrange(n - 3, n)[2] == '─');
    }
    assert(line.subrange(0, 1) =~= "─"@);
}

/// A thought that begins takes the place of an earlier one of the same step; a prompt and a result
/// go on where they stopped. Only one section is open at a time.
pub proof fn sections_open_one_at_a_time(p: LogParserView)
    ensures
        p.after("[THOUGHT_START]"@) == (LogParserView {
            in_prompt: false,
            in_result: false,
            in_thought: true,
            thought: seq![],
            ..p
        }),
        p.after("[PROMPT_START]"@) == (LogParserView {
            in_prompt: true,
            in_result: false,
            in_thought: false,
            ..p
        }),
        p.after("[RESULT_START]"@) == (LogParserView {
            in_prompt: false,
            in_result: true,
            in_thought: false,
            ..p
        }),
        p.after("─── Prompt ───"@) == p.after("[PROMPT_START]"@),
        p.after("─── Result ───"@) == p.after("[RESULT_START]"@),
        p.after("[PROMPT_END]"@) == (LogParserView { in_prompt: false, ..p }),
        p.after("[RESULT_END]"@) == (LogParserView { in_result: false, ..p }),
        p.after("[THOUGHT_END]"@) == (LogParserView { in_thought: false, ..p }),
{
    log_parser::section_markers();
}

} // verus!
