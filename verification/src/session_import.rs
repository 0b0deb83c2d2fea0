//! Reads the session files that an agent leaves behind.
use crate::clock::{self, timestamp};
use crate::json::{self, Json, JsonView};
use crate::paths;
use crate::product::{Product, ProductView};
use crate::session::{self, add_changed_file};
use crate::state::{SessionEvent, SessionEventView, SessionHistory, SessionHistoryView};
use crate::text::{self, cat2, ends_with, is_blank, same};
use vstd::prelude::*;

verus! {

/// Why no session could be imported.
#[derive(Debug)]
pub enum SessionImportError {
    /// There is no home directory to look in.
    NoHome,
    /// The file at this path holds no JSON.
    Unreadable(String),
}

impl SessionImportError {
    /// The text of an error.
    pub open spec fn text(self) -> Seq<char> {
        match self {
            SessionImportError::NoHome => "HOME or USERPROFILE environment variable not set"@,
            SessionImportError::Unreadable(path) => "Failed to parse session file: "@ + path@,
        }
    }

    /// Returns the text of an error.
    pub fn message(&self) -> (r: String)
        ensures
            r@ == self.text(),
    {
        match self {
            SessionImportError::NoHome => {
                "HOME or USERPROFILE environment variable not set".to_owned()
            },
            SessionImportError::Unreadable(path) => {
                cat2("Failed to parse session file: ", path.as_str())
            },
        }
    }
}

/// Where sessions are kept: under the configuration directory of the agent where one is set,
/// else under the home directory. Without a home directory there is no place.
pub open spec fn sessions_dir(
    home: Option<Seq<char>>,
    user_profile: Option<Seq<char>>,
    config_dir: Option<Seq<char>>,
    product: ProductView,
) -> Option<Seq<char>> {
    let base = match home {
        Some(h) => Some(h),
        None => user_profile,
    };
    match (base, config_dir) {
        (None, _) => None,
        (Some(_), Some(dir)) => Some(paths::joined(dir, "sessions"@)),
        (Some(h), None) => Some(paths::joined(paths::joined(h, product.directory), "sessions"@)),
    }
}

/// Returns where sessions are kept, from the home directory, the profile directory and the
/// configuration directory of the agent, as far as they are set.
pub fn get_claude_sessions_dir(
    home: Option<String>,
    user_profile: Option<String>,
    config_dir: Option<String>,
    product: &Product,
) -> (r: Result<String, SessionImportError>)
    ensures
        match sessions_dir(
            home.deep_view(),
            user_profile.deep_view(),
            config_dir.deep_view(),
            product.deep_view(),
        ) {
            Some(dir) => r matches Ok(d) && d@ == dir,
            None => r matches Err(SessionImportError::NoHome),
        },
{
    let base = match home {
        Some(h) => Some(h),
        None => user_profile,
    };
    match base {
        None => Err(SessionImportError::NoHome),
        Some(h) => match config_dir {
            Some(dir) => Ok(paths::join(dir.as_str(), "sessions")),
            None => {
                let own = paths::join(h.as_str(), product.directory.as_str());
                Ok(paths::join(own.as_str(), "sessions"))
            },
        },
    }
}

/// An entry of the sessions directory; the time of its last change may be unknown.
#[derive(Debug)]
pub struct SessionFile {
    pub path: String,
    pub is_file: bool,
    pub modified: Option<i128>,
}

/// Whether the last part of a path has the extension `json`.
pub open spec fn has_json_extension(path: Seq<char>) -> bool {
    &&& ".json"@.is_suffix_of(path)
    &&& path.len() > 5
    &&& path[path.len() - 6] != '/'
}

/// Whether an entry is a session file that was changed after `since`.
pub open spec fn eligible(file: SessionFile, since: Option<i128>) -> bool {
    &&& file.is_file
    &&& has_json_extension(file.path@)
    &&& file.modified is Some
    &&& since matches Some(t) ==> file.modified->0 > t
}

/// Whether an entry is the latest eligible one, the first of those of the same time.
pub open spec fn is_latest(files: Seq<SessionFile>, since: Option<i128>, i: int) -> bool {
    &&& 0 <= i < files.len()
    &&& eligible(files[i], since)
    &&& forall|j: int|
        0 <= j < files.len() && eligible(#[trigger] files[j], since) ==> files[j].modified->0
            <= files[i].modified->0
    &&& forall|j: int|
        0 <= j < i && eligible(#[trigger] files[j], since) ==> files[j].modified->0
            < files[i].modified->0
}

/// There is at most one latest entry.
pub proof fn latest_is_unique(files: Seq<SessionFile>, since: Option<i128>, i: int, j: int)
    requires
        is_latest(files, since, i),
        is_latest(files, since, j),
    ensures
        i == j,
{
}

fn is_eligible(file: &SessionFile, since: Option<i128>) -> (r: bool)
    ensures
        r == eligible(*file, since),
{
    if !file.is_file || !ends_with(file.path.as_str(), ".json") {
        return false;
    }
    let n: usize = file.path.as_str().unicode_len();
    proof {
        reveal_strlit(".json");
    }
    if n <= 5 || file.path.as_str().get_char(n - 6) == '/' {
        return false;
    }
    match (file.modified, since) {
        (None, _) => false,
        (Some(_), None) => true,
        (Some(m), Some(t)) => m > t,
    }
}

/// Returns the path of the latest session file that was changed after `since`.
pub fn get_latest_session_file(files: &Vec<SessionFile>, since: Option<i128>) -> (r: Option<
    String,
>)
    ensures
        match r {
            Some(path) => exists|i: int|
                #[trigger] is_latest(files@, since, i) && path@ == files@[i].path@,
            None => forall|i: int|
                0 <= i < files.len() ==> !eligible(#[trigger] files@[i], since),
        },
{
    let mut latest: Option<usize> = None;
    for i in 0..files.len()
        invariant
            match latest {
                Some(k) => k < i && is_latest(files@.take(i as int), since, k as int),
                None => forall|j: int|
                    0 <= j < i ==> !eligible(#[trigger] files@[j], since),
            },
    {
        let ghost old_front = files@.take(i as int);
        let ghost front = files@.take(i + 1);
        assert(forall|j: int| 0 <= j < i ==> front[j] == #[trigger] old_front[j]);
        assert(forall|j: int| 0 <= j < i ==> files@[j] == #[trigger] old_front[j]);
        assert(front[i as int] == files@[i as int]);
        if is_eligible(&files[i], since) {
            let newer = match latest {
                Some(k) => match (files[i].modified, files[k].modified) {
                    (Some(m), Some(n)) => m > n,
                    _ => false,
                },
                None => true,
            };
            if newer {
                latest = Some(i);
                assert(is_latest(front, since, i as int));
            } else {
                assert(is_latest(front, since, latest->0 as int));
            }
        } else {
            assert(latest is Some ==> is_latest(front, since, latest->0 as int));
        }
    }
    assert(files@.take(files.len() as int) =~= files@);
    match latest {
        Some(k) => Some(files[k].path.clone()),
        None => None,
    }
}

/// What has been gathered from the messages of a session.
#[verifier::ext_equal]
pub struct Gathered {
    pub prompt: Seq<char>,
    pub events: Seq<SessionEventView>,
    pub tool_uses: nat,
    pub files: Seq<Seq<char>>,
}

/// A text where there is one, else another.
pub open spec fn text_or(text: Option<Seq<char>>, other: Seq<char>) -> Seq<char> {
    match text {
        Some(t) => t,
        None => other,
    }
}

impl Gathered {
    /// Nothing yet.
    pub open spec fn nothing() -> Gathered {
        Gathered { prompt: seq![], events: seq![], tool_uses: 0, files: seq![] }
    }

    /// With one block of an answer of the agent.
    pub open spec fn with_block(self, block: JsonView, timestamp: Seq<char>) -> Gathered {
        let kind = block.field_text("type"@);
        if kind == Some("text"@) {
            match block.field_text("text"@) {
                Some(text) => if text::blank(text) {
                    self
                } else {
                    Gathered {
                        events: self.events.push(
                            SessionEventView::AssistantMessage { text, timestamp },
                        ),
                        ..self
                    }
                },
                None => self,
            }
        } else if kind == Some("tool_use"@) {
            let name = text_or(block.field_text("name"@), "unknown"@);
            let input = block.field("input"@);
            Gathered {
                events: self.events.push(SessionEventView::ToolUse { name, timestamp, input }),
                tool_uses: self.tool_uses + 1,
                files: session::files_after(self.files, name, input),
                ..self
            }
        } else if kind == Some("thinking"@) {
            match block.field_text("thinking"@) {
                Some(content) => Gathered {
                    events: self.events.push(
                        SessionEventView::ThinkingBlock { content, timestamp },
                    ),
                    ..self
                },
                None => self,
            }
        } else {
            self
        }
    }

    /// With some blocks of an answer of the agent.
    pub open spec fn with_blocks(self, blocks: Seq<JsonView>, timestamp: Seq<char>) -> Gathered
        decreases blocks.len(),
    {
        if blocks.len() == 0 {
            self
        } else {
            self.with_blocks(blocks.drop_last(), timestamp).with_block(blocks.last(), timestamp)
        }
    }

    /// With one message; `started` is the time of messages that have none.
    pub open spec fn with_message(self, message: JsonView, started: Seq<char>) -> Gathered {
        let role = message.field_text("role"@);
        let timestamp = text_or(message.field_text("timestamp"@), started);
        if role == Some("user"@) {
            if self.prompt.len() == 0 {
                Gathered { prompt: text_or(prompt_of(message), self.prompt), ..self }
            } else {
                self
            }
        } else if role == Some("assistant"@) {
            match message.field("content"@) {
                Some(JsonView::Array(blocks)) => self.with_blocks(blocks, timestamp),
                _ => self,
            }
        } else {
            self
        }
    }

    /// With some messages.
    pub open spec fn with_messages(self, messages: Seq<JsonView>, started: Seq<char>) -> Gathered
        decreases messages.len(),
    {
        if messages.len() == 0 {
            self
        } else {
            self.with_messages(messages.drop_last(), started).with_message(
                messages.last(),
                started,
            )
        }
    }
}

/// The first text among some blocks.
pub open spec fn first_text(blocks: Seq<JsonView>) -> Option<Seq<char>>
    decreases blocks.len(),
{
    if blocks.len() == 0 {
        None
    } else {
        match blocks[0].field_text("text"@) {
            Some(text) => Some(text),
            None => first_text(blocks.skip(1)),
        }
    }
}

/// The text of a message of the user: its content, or the first text in it.
pub open spec fn prompt_of(message: JsonView) -> Option<Seq<char>> {
    match message.field("content"@) {
        Some(JsonView::Text(text)) => Some(text),
        Some(JsonView::Array(blocks)) => first_text(blocks),
        _ => None,
    }
}

/// The messages of a session.
pub open spec fn messages_of(session: JsonView) -> Seq<JsonView> {
    match session.field("messages"@) {
        Some(JsonView::Array(messages)) => messages,
        _ => seq![],
    }
}

/// When a session ended: its last update, or its end where nothing is said of an update.
pub open spec fn end_of(session: JsonView) -> Option<Seq<char>> {
    match session.field("updated_at"@) {
        Some(value) => value.text(),
        None => session.field_text("ended_at"@),
    }
}

/// The history of a session file; `now` is its start where the file does not give one.
pub open spec fn history_of(session: JsonView, now: Seq<char>) -> SessionHistoryView {
    let started = text_or(session.field_text("created_at"@), now);
    let gathered = Gathered::nothing().with_messages(messages_of(session), started);
    SessionHistoryView {
        session_id: text_or(session.field_text("id"@), "unknown"@),
        started_at: started,
        ended_at: end_of(session),
        prompt: if gathered.prompt.len() == 0 {
            "(Interactive session)"@
        } else {
            gathered.prompt
        },
        events: gathered.events,
        total_tool_uses: gathered.tool_uses as usize,
        files_modified: gathered.files,
    }
}

/// Whether the uses of tools and the changed files are those of the events.
pub open spec fn counted(g: Gathered) -> bool {
    &&& g.tool_uses == session::tool_uses(g.events)
    &&& g.files == session::changed_files(g.events)
}

/// One more block keeps the tool uses and the files those of the events.
pub proof fn block_keeps_count(g: Gathered, block: JsonView, timestamp: Seq<char>)
    requires
        counted(g),
    ensures
        counted(g.with_block(block, timestamp)),
{
    let after = g.with_block(block, timestamp);
    if after.events != g.events {
        assert(after.events =~= g.events.push(after.events.last()));
        session::tool_uses_push(g.events, after.events.last());
        session::changed_files_push(g.events, after.events.last());
    }
}

/// More blocks keep the tool uses and the files those of the events.
pub proof fn blocks_keep_count(g: Gathered, blocks: Seq<JsonView>, timestamp: Seq<char>)
    requires
        counted(g),
    ensures
        counted(g.with_blocks(blocks, timestamp)),
    decreases blocks.len(),
{
    if blocks.len() > 0 {
        blocks_keep_count(g, blocks.drop_last(), timestamp);
        block_keeps_count(
            g.with_blocks(blocks.drop_last(), timestamp),
            blocks.last(),
            timestamp,
        );
    }
}

/// More messages keep the tool uses and the files those of the events.
pub proof fn messages_keep_count(g: Gathered, messages: Seq<JsonView>, started: Seq<char>)
    requires
        counted(g),
    ensures
        counted(g.with_messages(messages, started)),
    decreases messages.len(),
{
    if messages.len() > 0 {
        let before = g.with_messages(messages.drop_last(), started);
        let message = messages.last();
        messages_keep_count(g, messages.drop_last(), started);
        match message.field("content"@) {
            Some(JsonView::Array(blocks)) => {
                blocks_keep_count(
                    before,
                    blocks,
                    text_or(message.field_text("timestamp"@), started),
                );
            },
            _ => {},
        }
    }
}

/// What is being gathered from the messages of a session.
struct Gathering {
    prompt: String,
    events: Vec<SessionEvent>,
    tool_uses: usize,
    files: Vec<String>,
}

impl DeepView for Gathering {
    type V = Gathered;

    closed spec fn deep_view(&self) -> Gathered {
        Gathered {
            prompt: self.prompt@,
            events: self.events.deep_view(),
            tool_uses: self.tool_uses as nat,
            files: self.files.deep_view(),
        }
    }
}

/// Returns a text where there is one, else another.
fn str_or<'a>(text: Option<&'a str>, other: &'a str) -> (r: &'a str)
    ensures
        r@ == text_or(
            match text {
                Some(t) => Some(t@),
                None => None,
            },
            other@,
        ),
{
    match text {
        Some(t) => t,
        None => other,
    }
}

impl Gathering {
    /// Appends an event that is no use of a tool.
    fn push_event(&mut self, event: SessionEvent)
        ensures
            final(self).deep_view() == (Gathered {
                events: old(self).deep_view().events.push(event.deep_view()),
                ..old(self).deep_view()
            }),
    {
        let ghost before = self.events.deep_view();
        self.events.push(event);
        assert(self.events.deep_view() =~= before.push(event.deep_view()));
    }

    /// Takes in one block of an answer of the agent.
    fn block(&mut self, block: &Json, timestamp: &str)
        requires
            counted(old(self).deep_view()),
        ensures
            final(self).deep_view() == old(self).deep_view().with_block(
                block.deep_view(),
                timestamp@,
            ),
            counted(final(self).deep_view()),
    {
        let ghost before = self.deep_view();
        proof {
            block_keeps_count(before, block.deep_view(), timestamp@);
        }
        let kind = match block.get_str("type") {
            Some(kind) => kind,
            None => {
                return ;
            },
        };
        if same(kind, "text") {
            if let Some(text) = block.get_str("text") {
                if !is_blank(text) {
                    self.push_event(
                        SessionEvent::AssistantMessage {
                            text: text.to_owned(),
                            timestamp: timestamp.to_owned(),
                        },
                    );
                }
            }
        } else if same(kind, "tool_use") {
            let name = str_or(block.get_str("name"), "unknown");
            let input = block.get("input");
            add_changed_file(&mut self.files, name, input);
            self.push_event(
                SessionEvent::ToolUse {
                    name: name.to_owned(),
                    timestamp: timestamp.to_owned(),
                    input: match input {
                        Some(value) => Some(value.clone()),
                        None => None,
                    },
                },
            );
            proof {
                session::tool_uses_bounded(before.events);
            }
            let count: usize = self.events.len();
            assert(before.tool_uses < count);
            self.tool_uses = self.tool_uses + 1;
        } else if same(kind, "thinking") {
            if let Some(content) = block.get_str("thinking") {
                self.push_event(
                    SessionEvent::ThinkingBlock {
                        content: content.to_owned(),
                        timestamp: timestamp.to_owned(),
                    },
                );
            }
        }
    }

    /// Takes in one message.
    fn message(&mut self, message: &Json, started: &str)
        requires
            counted(old(self).deep_view()),
        ensures
            final(self).deep_view() == old(self).deep_view().with_message(
                message.deep_view(),
                started@,
            ),
            counted(final(self).deep_view()),
    {
        let role = match message.get_str("role") {
            Some(role) => role,
            None => {
                return ;
            },
        };
        let timestamp = str_or(message.get_str("timestamp"), started);
        if same(role, "user") {
            if self.prompt.as_str().is_empty() {
                if let Some(prompt) = user_prompt(message) {
                    self.prompt = prompt;
                }
            }
        } else if same(role, "assistant") {
            if let Some(content) = message.get("content") {
                if let Some(blocks) = content.as_array() {
                    let ghost start = self.deep_view();
                    let ghost all = blocks.deep_view();
                    assert(all.take(0) =~= seq![]);
                    for i in 0..blocks.len()
                        invariant
                            all == blocks.deep_view(),
                            counted(self.deep_view()),
                            self.deep_view() == start.with_blocks(
                                all.take(i as int),
                                timestamp@,
                            ),
                    {
                        assert(all.take(i + 1).drop_last() =~= all.take(i as int));
                        self.block(&blocks[i], timestamp);
                    }
                    assert(all.take(blocks.len() as int) =~= all);
                }
            }
        }
    }
}

/// Returns the text of a message of the user.
fn user_prompt(message: &Json) -> (r: Option<String>)
    ensures
        r.deep_view() == prompt_of(message.deep_view()),
{
    let content = match message.get("content") {
        Some(content) => content,
        None => {
            return None;
        },
    };
    if let Some(text) = content.as_str() {
        return Some(text.to_owned());
    }
    if let Some(blocks) = content.as_array() {
        let ghost all = blocks.deep_view();
        assert(all.skip(0) =~= all);
        for i in 0..blocks.len()
            invariant
                all == blocks.deep_view(),
                message.deep_view().field("content"@) == Some(JsonView::Array(all)),
                first_text(all) == first_text(all.skip(i as int)),
        {
            assert(all.skip(i as int)[0] == blocks@[i as int].deep_view());
            assert(all.skip(i as int).skip(1) =~= all.skip(i + 1));
            if let Some(text) = blocks[i].get_str("text") {
                return Some(text.to_owned());
            }
        }
    }
    None
}

/// Returns the history of a session file that has been read; `now` is its start where the
/// file does not give one.
pub fn import_session(file: &Json, now: i128) -> (r: SessionHistory)
    ensures
        r.deep_view() == history_of(file.deep_view(), clock::timestamp_text(now)),
        r.total_tool_uses == session::tool_uses(r.deep_view().events),
        r.files_modified.deep_view() == session::changed_files(r.deep_view().events),
{
    let session_id = str_or(file.get_str("id"), "unknown").to_owned();
    let started_at = match file.get_str("created_at") {
        Some(text) => text.to_owned(),
        None => timestamp(now),
    };
    let ended_at = match file.get("updated_at") {
        Some(value) => value.as_str(),
        None => file.get_str("ended_at"),
    };
    let mut gathering = Gathering {
        prompt: String::new(),
        events: Vec::new(),
        tool_uses: 0,
        files: Vec::new(),
    };
    let ghost start = Gathered::nothing();
    assert(gathering.deep_view() =~= start);
    if let Some(value) = file.get("messages") {
        if let Some(messages) = value.as_array() {
            let ghost all = messages.deep_view();
            assert(all.take(0) =~= seq![]);
            for i in 0..messages.len()
                invariant
                    all == messages.deep_view(),
                    counted(gathering.deep_view()),
                    gathering.deep_view() == start.with_messages(
                        all.take(i as int),
                        started_at@,
                    ),
            {
                assert(all.take(i + 1).drop_last() =~= all.take(i as int));
                gathering.message(&messages[i], started_at.as_str());
            }
            assert(all.take(messages.len() as int) =~= all);
        }
    }
    let Gathering { prompt, events, tool_uses, files } = gathering;
    SessionHistory {
        session_id,
        started_at,
        ended_at: match ended_at {
            Some(text) => Some(text.to_owned()),
            None => None,
        },
        prompt: if prompt.as_str().is_empty() {
            "(Interactive session)".to_owned()
        } else {
            prompt
        },
        events,
        total_tool_uses: tool_uses,
        files_modified: files,
    }
}

/// Returns the history of the session file at `path` with the given content.
pub fn parse_session_file(path: &str, content: &str, now: i128) -> (r: Result<
    SessionHistory,
    SessionImportError,
>)
    ensures
        match json::parsed_json(content@) {
            Some(file) => r matches Ok(history) && history.deep_view() == history_of(
                file,
                clock::timestamp_text(now),
            ) && history.total_tool_uses == session::tool_uses(history.deep_view().events)
                && history.files_modified.deep_view() == session::changed_files(
                history.deep_view().events,
            ),
            None => r matches Err(SessionImportError::Unreadable(p)) && p@ == path@,
        },
{
    match json::parse(content) {
        Some(file) => Ok(import_session(&file, now)),
        None => Err(SessionImportError::Unreadable(path.to_owned())),
    }
}

} // verus!
