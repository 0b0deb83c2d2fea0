//! What is kept on disk, and where.
use crate::config::{Workflow, WorkflowView};
use crate::json::{Json, JsonView};
use crate::model::Duplicate;
use crate::paths;
use crate::text::{self, cat2, cat3, in_order, is_blank, lines_of};
use crate::text_laws;
use vstd::prelude::*;

verus! {

/// The state of the worker manager.
#[derive(Debug)]
pub struct ManagerState {
    pub next_id: usize,
}

/// What a [`ManagerState`] holds.
#[verifier::ext_equal]
pub struct ManagerStateView {
    pub next_id: usize,
}

impl DeepView for ManagerState {
    type V = ManagerStateView;

    open spec fn deep_view(&self) -> ManagerStateView {
        ManagerStateView {
            next_id: self.next_id,
        }
    }
}

impl Clone for ManagerState {
    fn clone(&self) -> (r: Self)
        ensures
            r.deep_view() == self.deep_view(),
    {
        ManagerState {
            next_id: self.next_id,
        }
    }
}

impl Duplicate for ManagerState {
    fn duplicate(&self) -> (r: Self) {
        self.clone()
    }
}

/// All that is kept of one worker.
#[derive(Debug)]
pub struct WorkerRecord {
    pub snapshot: WorkerSnapshotData,
    pub logs: Vec<String>,
    pub workflow: Workflow,
    pub completed_steps: usize,
    pub session_history: Vec<SessionHistory>,
}

/// What a [`WorkerRecord`] holds.
#[verifier::ext_equal]
pub struct WorkerRecordView {
    pub snapshot: WorkerSnapshotDataView,
    pub logs: Seq<Seq<char>>,
    pub workflow: WorkflowView,
    pub completed_steps: usize,
    pub session_history: Seq<SessionHistoryView>,
}

impl DeepView for WorkerRecord {
    type V = WorkerRecordView;

    open spec fn deep_view(&self) -> WorkerRecordView {
        WorkerRecordView {
            snapshot: self.snapshot.deep_view(),
            logs: self.logs.deep_view(),
            workflow: self.workflow.deep_view(),
            completed_steps: self.completed_steps,
            session_history: self.session_history.deep_view(),
        }
    }
}

impl Clone for WorkerRecord {
    fn clone(&self) -> (r: Self)
        ensures
            r.deep_view() == self.deep_view(),
    {
        WorkerRecord {
            snapshot: self.snapshot.duplicate(),
            logs: self.logs.duplicate(),
            workflow: self.workflow.duplicate(),
            completed_steps: self.completed_steps,
            session_history: self.session_history.duplicate(),
        }
    }
}

impl Duplicate for WorkerRecord {
    fn duplicate(&self) -> (r: Self) {
        self.clone()
    }
}

/// The worker itself, its status as a text.
#[derive(Debug)]
pub struct WorkerSnapshotData {
    pub id: usize,
    pub name: String,
    pub issue: Option<String>,
    pub agent: String,
    pub worktree: String,
    pub branch: String,
    pub status: String,
    pub last_event: String,
    pub workflow: String,
    pub total_steps: usize,
    pub current_step: Option<String>,
    pub session_id: Option<String>,
}

/// What a [`WorkerSnapshotData`] holds.
#[verifier::ext_equal]
pub struct WorkerSnapshotDataView {
    pub id: usize,
    pub name: Seq<char>,
    pub issue: Option<Seq<char>>,
    pub agent: Seq<char>,
    pub worktree: Seq<char>,
    pub branch: Seq<char>,
    pub status: Seq<char>,
    pub last_event: Seq<char>,
    pub workflow: Seq<char>,
    pub total_steps: usize,
    pub current_step: Option<Seq<char>>,
    pub session_id: Option<Seq<char>>,
}

impl DeepView for WorkerSnapshotData {
    type V = WorkerSnapshotDataView;

    open spec fn deep_view(&self) -> WorkerSnapshotDataView {
        WorkerSnapshotDataView {
            id: self.id,
            name: self.name@,
            issue: self.issue.deep_view(),
            agent: self.agent@,
            worktree: self.worktree@,
            branch: self.branch@,
            status: self.status@,
            last_event: self.last_event@,
            workflow: self.workflow@,
            total_steps: self.total_steps,
            current_step: self.current_step.deep_view(),
            session_id: self.session_id.deep_view(),
        }
    }
}

impl Clone for WorkerSnapshotData {
    fn clone(&self) -> (r: Self)
        ensures
            r.deep_view() == self.deep_view(),
    {
        WorkerSnapshotData {
            id: self.id,
            name: self.name.clone(),
            issue: self.issue.duplicate(),
            agent: self.agent.clone(),
            worktree: self.worktree.clone(),
            branch: self.branch.clone(),
            status: self.status.clone(),
            last_event: self.last_event.clone(),
            workflow: self.workflow.clone(),
            total_steps: self.total_steps,
            current_step: self.current_step.duplicate(),
            session_id: self.session_id.duplicate(),
        }
    }
}

impl Duplicate for WorkerSnapshotData {
    fn duplicate(&self) -> (r: Self) {
        self.clone()
    }
}

/// One line of the action log.
#[derive(Debug)]
pub struct ActionLogEntry {
    pub timestamp: String,
    pub message: String,
    pub worker: Option<String>,
}

/// What a [`ActionLogEntry`] holds.
#[verifier::ext_equal]
pub struct ActionLogEntryView {
    pub timestamp: Seq<char>,
    pub message: Seq<char>,
    pub worker: Option<Seq<char>>,
}

impl DeepView for ActionLogEntry {
    type V = ActionLogEntryView;

    open spec fn deep_view(&self) -> ActionLogEntryView {
        ActionLogEntryView {
            timestamp: self.timestamp@,
            message: self.message@,
            worker: self.worker.deep_view(),
        }
    }
}

impl Clone for ActionLogEntry {
    fn clone(&self) -> (r: Self)
        ensures
            r.deep_view() == self.deep_view(),
    {
        ActionLogEntry {
            timestamp: self.timestamp.clone(),
            message: self.message.clone(),
            worker: self.worker.duplicate(),
        }
    }
}

impl Duplicate for ActionLogEntry {
    fn duplicate(&self) -> (r: Self) {
        self.clone()
    }
}

/// What happened in one agent session.
#[derive(Debug)]
pub struct SessionHistory {
    pub session_id: String,
    pub started_at: String,
    pub ended_at: Option<String>,
    pub prompt: String,
    pub events: Vec<SessionEvent>,
    pub total_tool_uses: usize,
    pub files_modified: Vec<String>,
}

/// What a [`SessionHistory`] holds.
#[verifier::ext_equal]
pub struct SessionHistoryView {
    pub session_id: Seq<char>,
    pub started_at: Seq<char>,
    pub ended_at: Option<Seq<char>>,
    pub prompt: Seq<char>,
    pub events: Seq<SessionEventView>,
    pub total_tool_uses: usize,
    pub files_modified: Seq<Seq<char>>,
}

impl DeepView for SessionHistory {
    type V = SessionHistoryView;

    open spec fn deep_view(&self) -> SessionHistoryView {
        SessionHistoryView {
            session_id: self.session_id@,
            started_at: self.started_at@,
            ended_at: self.ended_at.deep_view(),
            prompt: self.prompt@,
            events: self.events.deep_view(),
            total_tool_uses: self.total_tool_uses,
            files_modified: self.files_modified.deep_view(),
        }
    }
}

impl Clone for SessionHistory {
    fn clone(&self) -> (r: Self)
        ensures
            r.deep_view() == self.deep_view(),
    {
        SessionHistory {
            session_id: self.session_id.clone(),
            started_at: self.started_at.clone(),
            ended_at: self.ended_at.duplicate(),
            prompt: self.prompt.clone(),
            events: self.events.duplicate(),
            total_tool_uses: self.total_tool_uses,
            files_modified: self.files_modified.duplicate(),
        }
    }
}

impl Duplicate for SessionHistory {
    fn duplicate(&self) -> (r: Self) {
        self.clone()
    }
}

/// One event of a session.
#[derive(Debug)]
pub enum SessionEvent {
    ToolUse { name: String, timestamp: String, input: Option<Json> },
    ToolResult { name: String, timestamp: String, output: Option<String> },
    AssistantMessage { text: String, timestamp: String },
    ThinkingBlock { content: String, timestamp: String },
    Result { text: String, is_error: bool, timestamp: String },
    Error { message: String, timestamp: String },
}

/// What a [`SessionEvent`] holds.
#[verifier::ext_equal]
pub enum SessionEventView {
    ToolUse { name: Seq<char>, timestamp: Seq<char>, input: Option<JsonView> },
    ToolResult { name: Seq<char>, timestamp: Seq<char>, output: Option<Seq<char>> },
    AssistantMessage { text: Seq<char>, timestamp: Seq<char> },
    ThinkingBlock { content: Seq<char>, timestamp: Seq<char> },
    Result { text: Seq<char>, is_error: bool, timestamp: Seq<char> },
    Error { message: Seq<char>, timestamp: Seq<char> },
}

impl DeepView for SessionEvent {
    type V = SessionEventView;

    open spec fn deep_view(&self) -> SessionEventView {
        match self {
            SessionEvent::ToolUse { name, timestamp, input } => SessionEventView::ToolUse {
                name: name@,
                timestamp: timestamp@,
                input: input.deep_view(),
            },
            SessionEvent::ToolResult { name, timestamp, output } => SessionEventView::ToolResult {
                name: name@,
                timestamp: timestamp@,
                output: output.deep_view(),
            },
            SessionEvent::AssistantMessage { text, timestamp } => SessionEventView::AssistantMessage {
                text: text@,
                timestamp: timestamp@,
            },
            SessionEvent::ThinkingBlock { content, timestamp } => SessionEventView::ThinkingBlock {
                content: content@,
                timestamp: timestamp@,
            },
            SessionEvent::Result { text, is_error, timestamp } => SessionEventView::Result {
                text: text@,
                is_error: *is_error,
                timestamp: timestamp@,
            },
            SessionEvent::Error { message, timestamp } => SessionEventView::Error {
                message: message@,
                timestamp: timestamp@,
            },
        }
    }
}

impl Clone for SessionEvent {
    fn clone(&self) -> (r: Self)
        ensures
            r.deep_view() == self.deep_view(),
    {
        match self {
            SessionEvent::ToolUse { name, timestamp, input } => SessionEvent::ToolUse {
                name: name.clone(),
                timestamp: timestamp.clone(),
                input: input.duplicate(),
            },
            SessionEvent::ToolResult { name, timestamp, output } => SessionEvent::ToolResult {
                name: name.clone(),
                timestamp: timestamp.clone(),
                output: output.duplicate(),
            },
            SessionEvent::AssistantMessage { text, timestamp } => SessionEvent::AssistantMessage {
                text: text.clone(),
                timestamp: timestamp.clone(),
            },
            SessionEvent::ThinkingBlock { content, timestamp } => SessionEvent::ThinkingBlock {
                content: content.clone(),
                timestamp: timestamp.clone(),
            },
            SessionEvent::Result { text, is_error, timestamp } => SessionEvent::Result {
                text: text.clone(),
                is_error: *is_error,
                timestamp: timestamp.clone(),
            },
            SessionEvent::Error { message, timestamp } => SessionEvent::Error {
                message: message.clone(),
                timestamp: timestamp.clone(),
            },
        }
    }
}

impl Duplicate for SessionEvent {
    fn duplicate(&self) -> (r: Self) {
        self.clone()
    }
}

/// Why a state file could not be renamed.
#[derive(Debug)]
pub enum StateError {
    /// There is no file for the old name.
    NotFound(String),
    /// There is a file for the new name already.
    AlreadyExists(String),
}

impl StateError {
    /// The text of an error.
    pub open spec fn text(self) -> Seq<char> {
        match self {
            StateError::NotFound(path) => "Worker state file "@ + path@ + " not found"@,
            StateError::AlreadyExists(path) => "Worker state file "@ + path@ + " already exists"@,
        }
    }

    /// Returns the text of an error.
    pub fn message(&self) -> (r: String)
        ensures
            r@ == self.text(),
    {
        match self {
            StateError::NotFound(path) => cat3("Worker state file ", path.as_str(), " not found"),
            StateError::AlreadyExists(path) => cat3(
                "Worker state file ",
                path.as_str(),
                " already exists",
            ),
        }
    }
}

/// The directory that holds the state.
#[derive(Debug)]
pub struct StateStore {
    base: String,
}

impl View for StateStore {
    type V = Seq<char>;

    closed spec fn view(&self) -> Seq<char> {
        self.base@
    }
}

/// Where the file of a worker is kept, in a store at `base`.
pub open spec fn worker_file(base: Seq<char>, name: Seq<char>) -> Seq<char> {
    paths::joined(paths::joined(base, "workers"@), name + ".json"@)
}

impl StateStore {
    /// Returns a store at `base`.
    pub fn new(base: String) -> (r: Self)
        ensures
            r@ == base@,
    {
        StateStore { base }
    }

    /// Returns the directory of the store.
    pub fn base(&self) -> (r: &str)
        ensures
            r@ == self@,
    {
        self.base.as_str()
    }

    /// Returns where the state of the manager is kept.
    pub fn manager_state_path(&self) -> (r: String)
        ensures
            r@ == paths::joined(self@, "manager.json"@),
    {
        paths::join(self.base.as_str(), "manager.json")
    }

    /// Returns where the action log is kept.
    pub fn action_log_path(&self) -> (r: String)
        ensures
            r@ == paths::joined(self@, "action_log.jsonl"@),
    {
        paths::join(self.base.as_str(), "action_log.jsonl")
    }

    /// Returns the directory of the workers' files.
    pub fn workers_dir(&self) -> (r: String)
        ensures
            r@ == paths::joined(self@, "workers"@),
    {
        paths::join(self.base.as_str(), "workers")
    }

    /// Returns where the file of a worker is kept.
    pub fn worker_path(&self, worker_name: &str) -> (r: String)
        ensures
            r@ == worker_file(self@, worker_name@),
    {
        let file = cat2(worker_name, ".json");
        paths::join(self.workers_dir().as_str(), file.as_str())
    }

    /// Returns the records of all workers that could be read, ordered by name; those of the
    /// same name keep their order.
    pub fn load_workers(&self, read: &Vec<WorkerRecord>) -> (r: Vec<WorkerRecord>)
        ensures
            r.deep_view() == by_name(read.deep_view()),
    {
        order_by_name(read)
    }

    /// Returns what is appended to the action log for an entry: its text and a newline.
    pub fn action_log_line(&self, entry: &str) -> (r: String)
        ensures
            r@ == log_line(entry@),
    {
        cat2(entry, "\n")
    }

    /// Returns the texts of the entries in the action log: its lines but for blank ones.
    pub fn action_log_texts(&self, log: &str) -> (r: Vec<String>)
        ensures
            r.deep_view() == log_texts(log@),
    {
        let lines = lines_of(log);
        let ghost all = lines.deep_view();
        let mut texts: Vec<String> = Vec::new();
        assert(texts.deep_view() =~= without_blank(all.take(0)));
        for i in 0..lines.len()
            invariant
                all == lines.deep_view(),
                texts.deep_view() == without_blank(all.take(i as int)),
        {
            assert(all.take(i + 1).drop_last() =~= all.take(i as int));
            assert(all[i as int] == lines@[i as int]@);
            let ghost before = texts.deep_view();
            if !is_blank(lines[i].as_str()) {
                texts.push(lines[i].clone());
                assert(texts.deep_view() =~= before.push(all[i as int]));
            }
        }
        assert(all.take(lines.len() as int) =~= all);
        texts
    }

    /// Returns the entries of the action log to go on with: of the lines that could be read,
    /// the last `limit`.
    pub fn load_action_log(&self, read: &Vec<Option<ActionLogEntry>>, limit: usize) -> (r: Vec<
        ActionLogEntry,
    >)
        ensures
            r.deep_view() == last_items(present(read.deep_view()), limit as int),
    {
        recent_entries(read, limit)
    }

    /// Returns the old and the new path under which the file of a worker is renamed, from
    /// which of the two paths exist.
    pub fn rename_worker(
        &self,
        old_name: &str,
        new_name: &str,
        old_exists: bool,
        new_exists: bool,
    ) -> (r: Result<(String, String), StateError>)
        ensures
            match r {
                Ok((old_path, new_path)) => old_exists && !new_exists && old_path@
                    == worker_file(self@, old_name@) && new_path@ == worker_file(
                    self@,
                    new_name@,
                ),
                Err(StateError::NotFound(path)) => !old_exists && path@ == worker_file(
                    self@,
                    old_name@,
                ),
                Err(StateError::AlreadyExists(path)) => old_exists && new_exists && path@
                    == worker_file(self@, new_name@),
            },
    {
        let old_path = self.worker_path(old_name);
        let new_path = self.worker_path(new_name);
        if !old_exists {
            return Err(StateError::NotFound(old_path));
        }
        if new_exists {
            return Err(StateError::AlreadyExists(new_path));
        }
        Ok((old_path, new_path))
    }
}

/// Two workers whose names hold no separator never share a file.
pub proof fn worker_files_differ(base: Seq<char>, a: Seq<char>, b: Seq<char>)
    requires
        !a.contains('/'),
        !b.contains('/'),
        a != b,
    ensures
        worker_file(base, a) != worker_file(base, b),
{
    reveal_strlit("/");
    reveal_strlit(".json");
    let dir = paths::joined(base, "workers"@);
    let fa = a + ".json"@;
    let fb = b + ".json"@;
    assert(fa.take(fa.len() - 5) =~= a);
    assert(fb.take(fb.len() - 5) =~= b);
    assert(!"/"@.is_prefix_of(fa)) by {
        if "/"@.is_prefix_of(fa) {
            assert(fa.subrange(0, 1)[0] == '/');
            if a.len() > 0 {
                assert(a[0] == '/');
            }
        }
    }
    assert(!"/"@.is_prefix_of(fb)) by {
        if "/"@.is_prefix_of(fb) {
            assert(fb.subrange(0, 1)[0] == '/');
            if b.len() > 0 {
                assert(b[0] == '/');
            }
        }
    }
    let front = if dir.len() == 0 || "/"@.is_suffix_of(dir) {
        dir
    } else {
        dir + "/"@
    };
    assert(worker_file(base, a) =~= front + fa);
    assert(worker_file(base, b) =~= front + fb);
    assert((front + fa).skip(front.len() as int) =~= fa);
    assert((front + fb).skip(front.len() as int) =~= fb);
}

/// The number of the first new worker, from the state that was read.
pub fn first_id(state: Option<ManagerState>) -> (r: usize)
    ensures
        r == (match state {
            Some(s) => if s.next_id < 1 {
                1
            } else {
                s.next_id
            },
            None => 1,
        }),
{
    match state {
        Some(s) => {
            if s.next_id < 1 {
                1
            } else {
                s.next_id
            }
        },
        None => 1,
    }
}

/// The values that are there, in order.
pub open spec fn present<A>(s: Seq<Option<A>>) -> Seq<A>
    decreases s.len(),
{
    if s.len() == 0 {
        seq![]
    } else {
        match s.last() {
            Some(a) => present(s.drop_last()).push(a),
            None => present(s.drop_last()),
        }
    }
}

/// The last `limit` items, all of them where there are fewer.
pub open spec fn last_items<A>(s: Seq<A>, limit: int) -> Seq<A> {
    if s.len() > limit {
        s.skip(s.len() - limit)
    } else {
        s
    }
}

/// What is appended to the action log for an entry.
pub open spec fn log_line(entry: Seq<char>) -> Seq<char> {
    entry + "\n"@
}

/// The action log after some entries have been appended to it, beginning with none.
pub open spec fn log_of(entries: Seq<Seq<char>>) -> Seq<char>
    decreases entries.len(),
{
    if entries.len() == 0 {
        seq![]
    } else {
        log_of(entries.drop_last()) + log_line(entries.last())
    }
}

/// The lines that are not blank, in order.
pub open spec fn without_blank(lines: Seq<Seq<char>>) -> Seq<Seq<char>>
    decreases lines.len(),
{
    if lines.len() == 0 {
        seq![]
    } else if text::blank(lines.last()) {
        without_blank(lines.drop_last())
    } else {
        without_blank(lines.drop_last()).push(lines.last())
    }
}

/// The texts of the entries in an action log.
pub open spec fn log_texts(log: Seq<char>) -> Seq<Seq<char>> {
    without_blank(text::lines(log))
}

/// A text that fills one line, as that of an entry does.
pub open spec fn fills_line(s: Seq<char>) -> bool {
    !s.contains('\n') && !s.contains('\r') && !text::blank(s)
}

/// Characters that hold no newline only lengthen the line that a text has begun.
proof fn lemma_line_scan_more(s: Seq<char>, more: Seq<char>)
    requires
        !more.contains('\n'),
    ensures
        text::line_scan(s + more) == (text::line_scan(s).0, text::line_scan(s).1 + more),
    decreases more.len(),
{
    if more.len() == 0 {
        assert(s + more =~= s);
        assert(text::line_scan(s).1 + more =~= text::line_scan(s).1);
    } else {
        let front = more.drop_last();
        assert(!front.contains('\n')) by {
            if front.contains('\n') {
                let i = choose|i: int| 0 <= i < front.len() && front[i] == '\n';
                assert(more[i] == '\n');
            }
        }
        lemma_line_scan_more(s, front);
        assert((s + more).drop_last() =~= s + front);
        assert((s + more).last() == more.last());
        assert(more[more.len() - 1] != '\n');
        assert((text::line_scan(s).1 + front).push(more.last()) =~= text::line_scan(s).1 + more);
    }
}

/// The lines of an action log are the texts that were appended to it.
proof fn lemma_lines_of_log(entries: Seq<Seq<char>>)
    requires
        forall|i: int| 0 <= i < entries.len() ==> fills_line(#[trigger] entries[i]),
    ensures
        text::line_scan(log_of(entries)) == (entries, Seq::<char>::empty()),
    decreases entries.len(),
{
    if entries.len() == 0 {
        assert(entries =~= seq![]);
    } else {
        let front = entries.drop_last();
        let entry = entries.last();
        assert forall|i: int| 0 <= i < front.len() implies fills_line(#[trigger] front[i]) by {
            assert(fills_line(entries[i]));
        }
        lemma_lines_of_log(front);
        assert(fills_line(entries[entries.len() - 1]));
        lemma_line_scan_more(log_of(front), entry);
        reveal_strlit("\n");
        let log = log_of(entries);
        assert(log.drop_last() =~= log_of(front) + entry);
        assert(log.last() == '\n');
        assert(Seq::<char>::empty() + entry =~= entry);
        if entry.len() > 0 {
            assert(entry[entry.len() - 1] != '\r');
        }
        assert(front.push(entry) =~= entries);
    }
}

/// Lines of which none is blank are all kept.
proof fn lemma_none_blank(lines: Seq<Seq<char>>)
    requires
        forall|i: int| 0 <= i < lines.len() ==> fills_line(#[trigger] lines[i]),
    ensures
        without_blank(lines) == lines,
    decreases lines.len(),
{
    if lines.len() > 0 {
        let front = lines.drop_last();
        assert forall|i: int| 0 <= i < front.len() implies fills_line(#[trigger] front[i]) by {
            assert(fills_line(lines[i]));
        }
        lemma_none_blank(front);
        assert(fills_line(lines[lines.len() - 1]));
        assert(front.push(lines.last()) =~= lines);
    } else {
        assert(lines =~= seq![]);
    }
}

/// What was appended to the action log is read back from it: every text, in order.
pub proof fn appended_texts_are_read_back(entries: Seq<Seq<char>>)
    requires
        forall|i: int| 0 <= i < entries.len() ==> fills_line(#[trigger] entries[i]),
    ensures
        log_texts(log_of(entries)) == entries,
{
    lemma_lines_of_log(entries);
    lemma_none_blank(entries);
}

/// Values that are all there are all kept.
proof fn lemma_all_present<A>(s: Seq<A>)
    ensures
        present(s.map_values(|a: A| Some(a))) == s,
    decreases s.len(),
{
    let all = s.map_values(|a: A| Some(a));
    if s.len() > 0 {
        lemma_all_present(s.drop_last());
        assert(all.drop_last() =~= s.drop_last().map_values(|a: A| Some(a)));
        assert(s.drop_last().push(s.last()) =~= s);
    } else {
        assert(present(all) =~= s);
    }
}

/// The action log gives back what was appended to it: of `m` entries that were appended, the
/// last `limit`, or all `m` where there are fewer, in order. This holds of every way to write an
/// entry as a text that fills one line, and to read it back.
pub proof fn appended_entries_are_given_back(
    entries: Seq<ActionLogEntryView>,
    limit: nat,
    write: spec_fn(ActionLogEntryView) -> Seq<char>,
    read: spec_fn(Seq<char>) -> Option<ActionLogEntryView>,
)
    requires
        forall|i: int|
            0 <= i < entries.len() ==> fills_line(write(#[trigger] entries[i])) && read(
                write(entries[i]),
            ) == Some(entries[i]),
    ensures
        ({
            let log = log_of(entries.map_values(write));
            let found = last_items(present(log_texts(log).map_values(read)), limit as int);
            &&& found.len() == (if entries.len() < limit {
                entries.len()
            } else {
                limit
            })
            &&& forall|i: int|
                0 <= i < found.len() ==> #[trigger] found[i] == entries[entries.len()
                    - found.len() + i]
        }),
{
    let texts = entries.map_values(write);
    assert forall|i: int| 0 <= i < texts.len() implies fills_line(#[trigger] texts[i]) by {
        assert(fills_line(write(entries[i])));
    }
    appended_texts_are_read_back(texts);
    lemma_all_present(entries);
    assert(texts.map_values(read) =~= entries.map_values(|a: ActionLogEntryView| Some(a)));
}

/// Returns the last `limit` of the entries that could be read.
fn recent_entries(read: &Vec<Option<ActionLogEntry>>, limit: usize) -> (r: Vec<ActionLogEntry>)
    ensures
        r.deep_view() == last_items(present(read.deep_view()), limit as int),
{
    let mut entries: Vec<ActionLogEntry> = Vec::new();
    assert(present(read.deep_view().take(0)) =~= seq![]);
    for i in 0..read.len()
        invariant
            entries.deep_view() == present(read.deep_view().take(i as int)),
    {
        assert(read.deep_view().take(i + 1).drop_last() =~= read.deep_view().take(i as int));
        let ghost before = entries.deep_view();
        if let Some(entry) = &read[i] {
            entries.push(entry.clone());
            assert(entries.deep_view() =~= before.push(entry.deep_view()));
        }
    }
    assert(read.deep_view().take(read.len() as int) =~= read.deep_view());
    if entries.len() > limit {
        let skipped: usize = entries.len() - limit;
        let kept = entries.split_off(skipped);
        assert(kept.deep_view() =~= last_items(present(read.deep_view()), limit as int));
        kept
    } else {
        entries
    }
}

/// A list ordered by name with one more record in its place, behind those of the same name.
pub open spec fn placed(sorted: Seq<WorkerRecordView>, record: WorkerRecordView) -> Seq<
    WorkerRecordView,
>
    decreases sorted.len(),
{
    if sorted.len() == 0 {
        seq![record]
    } else if text::text_le(sorted.last().snapshot.name, record.snapshot.name) {
        sorted.push(record)
    } else {
        placed(sorted.drop_last(), record).push(sorted.last())
    }
}

/// The records ordered by name; those of the same name keep their order.
pub open spec fn by_name(records: Seq<WorkerRecordView>) -> Seq<WorkerRecordView>
    decreases records.len(),
{
    if records.len() == 0 {
        seq![]
    } else {
        placed(by_name(records.drop_last()), records.last())
    }
}

/// Whether the names of some records do not decrease.
pub open spec fn ordered(records: Seq<WorkerRecordView>) -> bool {
    forall|i: int, j: int|
        0 <= i < j < records.len() ==> text::text_le(
            #[trigger] records[i].snapshot.name,
            #[trigger] records[j].snapshot.name,
        )
}

proof fn lemma_placed(sorted: Seq<WorkerRecordView>, record: WorkerRecordView)
    requires
        ordered(sorted),
    ensures
        ordered(placed(sorted, record)),
        placed(sorted, record).to_multiset() == sorted.to_multiset().insert(record),
        forall|i: int|
            0 <= i < placed(sorted, record).len() ==> #[trigger] placed(sorted, record)[i]
                == record || sorted.contains(placed(sorted, record)[i]),
    decreases sorted.len(),
{
    broadcast use vstd::seq_lib::group_to_multiset_ensures;

    let out = placed(sorted, record);
    if sorted.len() == 0 {
        assert(sorted.push(record) =~= out);
    } else if text::text_le(sorted.last().snapshot.name, record.snapshot.name) {
        assert forall|i: int, j: int| 0 <= i < j < out.len() implies text::text_le(
            #[trigger] out[i].snapshot.name,
            #[trigger] out[j].snapshot.name,
        ) by {
            if j == sorted.len() && i < sorted.len() - 1 {
                text::text_order_transitive(
                    out[i].snapshot.name,
                    sorted.last().snapshot.name,
                    record.snapshot.name,
                );
            }
        }
        assert forall|i: int| 0 <= i < out.len() implies #[trigger] out[i] == record
            || sorted.contains(out[i]) by {
            if i < sorted.len() {
                assert(sorted[i] == out[i]);
            }
        }
    } else {
        let front = sorted.drop_last();
        let inner = placed(front, record);
        lemma_placed(front, record);
        text::text_order_total(sorted.last().snapshot.name, record.snapshot.name);
        assert forall|i: int, j: int| 0 <= i < j < out.len() implies text::text_le(
            #[trigger] out[i].snapshot.name,
            #[trigger] out[j].snapshot.name,
        ) by {
            if j == inner.len() {
                if inner[i] != record {
                    assert(front.contains(inner[i]));
                    let k = choose|k: int| 0 <= k < front.len() && front[k] == inner[i];
                    assert(text::text_le(sorted[k].snapshot.name, sorted.last().snapshot.name));
                }
            } else {
                assert(out[i] == inner[i] && out[j] == inner[j]);
            }
        }
        assert forall|i: int| 0 <= i < out.len() implies #[trigger] out[i] == record
            || sorted.contains(out[i]) by {
            if i < inner.len() {
                assert(out[i] == inner[i]);
                if inner[i] != record {
                    let k = choose|k: int| 0 <= k < front.len() && front[k] == inner[i];
                    assert(sorted[k] == out[i]);
                }
            } else {
                assert(sorted[sorted.len() - 1] == out[i]);
            }
        }
        assert(front.push(sorted.last()) =~= sorted);
        assert(out.to_multiset() =~= sorted.to_multiset().insert(record));
    }
}

/// Ordering by name gives the same records in an order in which the names do not decrease.
pub proof fn by_name_is_ordered(records: Seq<WorkerRecordView>)
    ensures
        ordered(by_name(records)),
        by_name(records).to_multiset() == records.to_multiset(),
    decreases records.len(),
{
    broadcast use vstd::seq_lib::group_to_multiset_ensures;

    if records.len() > 0 {
        by_name_is_ordered(records.drop_last());
        lemma_placed(by_name(records.drop_last()), records.last());
        assert(records.drop_last().push(records.last()) =~= records);
    } else {
        assert(records =~= seq![]);
    }
}

/// Puts a record in its place among records ordered by name.
fn place(sorted: &mut Vec<WorkerRecord>, record: WorkerRecord)
    ensures
        final(sorted).deep_view() == placed(old(sorted).deep_view(), record.deep_view()),
    decreases old(sorted).len(),
{
    let ghost before = sorted.deep_view();
    let ghost view = record.deep_view();
    match sorted.pop() {
        None => {
            sorted.push(record);
            assert(sorted.deep_view() =~= seq![view]);
        },
        Some(last) => {
            assert(sorted.deep_view() =~= before.drop_last());
            if in_order(last.snapshot.name.as_str(), record.snapshot.name.as_str()) {
                let ghost v = last.deep_view();
                sorted.push(last);
                sorted.push(record);
                assert(sorted.deep_view() =~= before.push(view));
            } else {
                let ghost v = last.deep_view();
                place(sorted, record);
                let ghost inner = sorted.deep_view();
                sorted.push(last);
                assert(sorted.deep_view() =~= inner.push(v));
            }
        },
    }
}

/// Returns the records ordered by name; those of the same name keep their order.
fn order_by_name(read: &Vec<WorkerRecord>) -> (r: Vec<WorkerRecord>)
    ensures
        r.deep_view() == by_name(read.deep_view()),
{
    let mut sorted: Vec<WorkerRecord> = Vec::new();
    assert(read.deep_view().take(0) =~= seq![]);
    assert(sorted.deep_view() =~= seq![]);
    for i in 0..read.len()
        invariant
            sorted.deep_view() == by_name(read.deep_view().take(i as int)),
    {
        assert(read.deep_view().take(i + 1).drop_last() =~= read.deep_view().take(i as int));
        place(&mut sorted, read[i].clone());
    }
    assert(read.deep_view().take(read.len() as int) =~= read.deep_view());
    sorted
}

/// Records that are ordered by name stay as they are; so do those that share a name, and their
/// order is that in which they came.
pub proof fn records_of_one_name_keep_their_order(records: Seq<WorkerRecordView>)
    requires
        ordered(records),
    ensures
        by_name(records) == records,
    decreases records.len(),
{
    if records.len() > 0 {
        let front = records.drop_last();
        assert forall|i: int, j: int| 0 <= i < j < front.len() implies text::text_le(
            #[trigger] front[i].snapshot.name,
            #[trigger] front[j].snapshot.name,
        ) by {
            assert(text::text_le(records[i].snapshot.name, records[j].snapshot.name));
        }
        records_of_one_name_keep_their_order(front);
        if front.len() > 0 {
            assert(text::text_le(
                records[records.len() - 2].snapshot.name,
                records[records.len() - 1].snapshot.name,
            ));
        }
        assert(front.push(records.last()) =~= records);
        assert(by_name(records) =~= records);
    } else {
        assert(by_name(records) =~= records);
    }
}

/// What could not be read is passed over, and nothing else; blank lines are, too.
pub proof fn only_what_is_missing_is_passed_over<A>(
    s: Seq<Option<A>>,
    a: A,
    lines: Seq<Seq<char>>,
    line: Seq<char>,
)
    ensures
        present(s.push(Some(a))) == present(s).push(a),
        present(s.push(None)) == present(s),
        text_laws::all_space(line) ==> without_blank(lines.push(line)) == without_blank(lines),
        !text_laws::all_space(line) ==> without_blank(lines.push(line)) == without_blank(
            lines,
        ).push(line),
{
    text_laws::blank_texts_are_space(line);
    assert(s.push(Some(a)).drop_last() =~= s);
    assert(s.push(None).drop_last() =~= s);
    assert(lines.push(line).drop_last() =~= lines);
}

/// The last items are those at the end, in their order, as many as are asked for or as there are.
pub proof fn last_items_are_at_the_end<A>(s: Seq<A>, limit: nat)
    ensures
        ({
            let r = last_items(s, limit as int);
            &&& r.len() == if s.len() < limit {
                s.len()
            } else {
                limit
            }
            &&& s.skip(s.len() - r.len()) == r
        }),
{
    let r = last_items(s, limit as int);
    assert(s.skip(s.len() - r.len()) =~= r);
}

/// A worker's file lies in the directory of the workers, under the worker's name.
pub proof fn files_are_named_after_their_worker(base: Seq<char>, name: Seq<char>)
    requires
        base.len() > 0,
        base.last() != '/',
        name.len() > 0,
        name[0] != '/',
    ensures
        worker_file(base, name) == base + "/workers/"@ + name + ".json"@,
{
    reveal_strlit("/workers/");
    reveal_strlit("workers");
    reveal_strlit(".json");
    let file = name + ".json"@;
    assert(file[0] == name[0]);
    paths::relative_paths_stand_behind_their_base(base, "workers"@);
    let dir = base + seq!['/'] + "workers"@;
    assert(dir.last() == 's');
    paths::relative_paths_stand_behind_their_base(dir, file);
    assert(seq!['/'] + "workers"@ + seq!['/'] =~= "/workers/"@);
    assert(dir + seq!['/'] + file =~= base + "/workers/"@ + name + ".json"@);
}

} // verus!
