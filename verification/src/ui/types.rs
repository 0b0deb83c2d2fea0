//! Types of the log views and of the tool list.
use crate::model::Duplicate;
use vstd::prelude::*;

verus! {

/// The tabs of the log view.
#[derive(Debug, Clone, Copy, PartialEq, Eq, Structural)]
pub enum LogViewMode {
    Overview,
    Detail,
    Raw,
}

/// How a workflow step ended, or that it has not.
#[derive(Debug, Clone, Copy, PartialEq, Eq, Structural)]
pub enum StepStatus {
    Running,
    Success,
    Failed,
}

/// The log of one workflow step, taken apart into sections.
#[derive(Debug)]
pub struct LogEntry {
    pub step_index: usize,
    pub step_name: String,
    pub prompt_lines: Vec<String>,
    pub result_lines: Vec<String>,
    pub thought_lines: Vec<String>,
    pub status: StepStatus,
}

/// What a [`LogEntry`] holds.
#[verifier::ext_equal]
pub struct LogEntryView {
    pub step_index: usize,
    pub step_name: Seq<char>,
    pub prompt_lines: Seq<Seq<char>>,
    pub result_lines: Seq<Seq<char>>,
    pub thought_lines: Seq<Seq<char>>,
    pub status: StepStatus,
}

impl DeepView for LogEntry {
    type V = LogEntryView;

    open spec fn deep_view(&self) -> LogEntryView {
        LogEntryView {
            step_index: self.step_index,
            step_name: self.step_name@,
            prompt_lines: self.prompt_lines.deep_view(),
            result_lines: self.result_lines.deep_view(),
            thought_lines: self.thought_lines.deep_view(),
            status: self.status,
        }
    }
}

impl Clone for LogEntry {
    fn clone(&self) -> (r: Self)
        ensures
            r.deep_view() == self.deep_view(),
    {
        LogEntry {
            step_index: self.step_index,
            step_name: self.step_name.clone(),
            prompt_lines: self.prompt_lines.duplicate(),
            result_lines: self.result_lines.duplicate(),
            thought_lines: self.thought_lines.duplicate(),
            status: self.status,
        }
    }
}

impl Duplicate for LogEntry {
    fn duplicate(&self) -> (r: Self) {
        self.clone()
    }
}

/// A tool that an agent may be allowed to use.
#[derive(Debug, Clone, Copy)]
pub struct ToolDef {
    pub name: &'static str,
    pub description: &'static str,
}

/// The tools on offer, in the order in which they are listed.
pub const AVAILABLE_TOOLS: [(&'static str, &'static str); 8] = [
    ("Read", "ファイル読み取り"),
    ("Write", "ファイル書き込み"),
    ("Edit", "ファイル編集"),
    ("Glob", "ファイル検索"),
    ("Grep", "コード検索"),
    ("Bash", "シェルコマンド実行"),
    ("WebFetch", "Web取得"),
    ("NotebookEdit", "Jupyter編集"),
];

/// Returns the tool at a place in the list.
pub fn tool_def(idx: usize) -> (r: ToolDef)
    requires
        idx < AVAILABLE_TOOLS@.len(),
    ensures
        r.name@ == AVAILABLE_TOOLS@[idx as int].0@,
        r.description@ == AVAILABLE_TOOLS@[idx as int].1@,
{
    let tools = AVAILABLE_TOOLS;
    ToolDef { name: tools[idx].0, description: tools[idx].1 }
}

} // verus!
