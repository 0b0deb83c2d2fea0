//! What holds of every session file that is imported.
use crate::json::JsonView;
use crate::paths;
use crate::product::ProductView;
use crate::session_import::{self, Gathered, SessionFile};
use crate::state::SessionEventView;
use crate::text;
use vstd::prelude::*;

verus! {

/// Whether a message is by someone.
pub open spec fn is_by(message: JsonView, role: Seq<char>) -> bool {
    message.field("role"@) == Some(JsonView::Text(role))
}

/// Whether a message offers a text as prompt: its content is the text, or a list whose first
/// block with a text has it.
pub open spec fn offers(message: JsonView, prompt: Seq<char>) -> bool {
    ||| message.field("content"@) == Some(JsonView::Text(prompt))
    ||| exists|blocks: Seq<JsonView>, k: int|
        message.field("content"@) == Some(JsonView::Array(blocks)) && #[trigger] first_with_text(
            blocks,
            k,
        ) && blocks[k].field("text"@) == Some(JsonView::Text(prompt))
}

/// Whether a block is the first one with a text.
pub open spec fn first_with_text(blocks: Seq<JsonView>, k: int) -> bool {
    &&& 0 <= k < blocks.len()
    &&& blocks[k].field("text"@) matches Some(v) && v is Text
    &&& forall|j: int|
        0 <= j < k ==> !((#[trigger] blocks[j]).field("text"@) matches Some(v) && v is Text)
}

/// Whether a message of the user offers a prompt that says something.
pub open spec fn prompts(message: JsonView) -> bool {
    is_by(message, "user"@) && exists|prompt: Seq<char>|
        prompt.len() > 0 && #[trigger] offers(message, prompt)
}

proof fn lemma_first_text(blocks: Seq<JsonView>)
    ensures
        match session_import::first_text(blocks) {
            Some(t) => exists|k: int|
                #[trigger] first_with_text(blocks, k) && blocks[k].field("text"@) == Some(
                    JsonView::Text(t),
                ),
            None => forall|k: int| !first_with_text(blocks, k),
        },
        forall|k: int|
            #[trigger] first_with_text(blocks, k) ==> session_import::first_text(blocks)
                == blocks[k].field_text("text"@),
    decreases blocks.len(),
{
    if blocks.len() > 0 {
        let rest = blocks.skip(1);
        lemma_first_text(rest);
        assert forall|j: int| 0 <= j < rest.len() implies rest[j] == blocks[j + 1] by {}
        if blocks[0].field_text("text"@) is Some {
            assert(first_with_text(blocks, 0));
        } else {
            assert forall|k: int| #[trigger] first_with_text(blocks, k) implies
                session_import::first_text(blocks) == blocks[k].field_text("text"@) by {
                assert(k > 0);
                assert forall|j: int| 0 <= j < k - 1 implies !((#[trigger] rest[j]).field("text"@)
                    matches Some(v) && v is Text) by {
                    assert(rest[j] == blocks[j + 1]);
                }
                assert(first_with_text(rest, k - 1));
            }
            if let Some(t) = session_import::first_text(rest) {
                let k = choose|k: int|
                    #[trigger] first_with_text(rest, k) && rest[k].field("text"@) == Some(
                        JsonView::Text(t),
                    );
                assert forall|j: int| 0 <= j < k + 1 implies !((#[trigger] blocks[j]).field(
                    "text"@,
                ) matches Some(v) && v is Text) by {
                    if j > 0 {
                        assert(blocks[j] == rest[j - 1]);
                    }
                }
                assert(first_with_text(blocks, k + 1));
            }
        }
    }
}

proof fn lemma_offers(message: JsonView)
    ensures
        forall|prompt: Seq<char>| #[trigger]
            offers(message, prompt) <==> session_import::prompt_of(message) == Some(prompt),
{
    if let Some(JsonView::Array(blocks)) = message.field("content"@) {
        lemma_first_text(blocks);
        assert forall|prompt: Seq<char>| #[trigger] offers(message, prompt) implies
            session_import::prompt_of(message) == Some(prompt) by {
            let k = choose|k: int|
                #[trigger] first_with_text(blocks, k) && blocks[k].field("text"@) == Some(
                    JsonView::Text(prompt),
                );
            assert(session_import::first_text(blocks) == blocks[k].field_text("text"@));
        }
    }
}

/// Blocks of an answer leave the prompt alone.
proof fn lemma_blocks_keep_prompt(g: Gathered, blocks: Seq<JsonView>, timestamp: Seq<char>)
    ensures
        g.with_blocks(blocks, timestamp).prompt == g.prompt,
    decreases blocks.len(),
{
    if blocks.len() > 0 {
        lemma_blocks_keep_prompt(g, blocks.drop_last(), timestamp);
    }
}

proof fn lemma_message_prompt(g: Gathered, message: JsonView, started: Seq<char>)
    ensures
        g.prompt.len() > 0 ==> g.with_message(message, started).prompt == g.prompt,
        g.prompt.len() == 0 && !prompts(message) ==> g.with_message(message, started).prompt.len()
            == 0,
        g.prompt.len() == 0 && prompts(message) ==> offers(
            message,
            g.with_message(message, started).prompt,
        ) && g.with_message(message, started).prompt.len() > 0,
{
    lemma_offers(message);
    if let Some(JsonView::Array(blocks)) = message.field("content"@) {
        lemma_blocks_keep_prompt(
            g,
            blocks,
            session_import::text_or(message.field_text("timestamp"@), started),
        );
    }
    reveal_strlit("user");
    reveal_strlit("assistant");
    assert("user"@.len() != "assistant"@.len());
    if let Some(p) = session_import::prompt_of(message) {
        assert(offers(message, p));
    }
}

proof fn lemma_prompt_of_messages(g: Gathered, messages: Seq<JsonView>, started: Seq<char>)
    requires
        g.prompt.len() == 0,
    ensures
        ({
            let after = g.with_messages(messages, started).prompt;
            ||| after.len() == 0 && forall|j: int|
                0 <= j < messages.len() ==> !prompts(#[trigger] messages[j])
            ||| after.len() > 0 && exists|i: int|
                0 <= i < messages.len() && prompts(messages[i]) && #[trigger] offers(
                    messages[i],
                    after,
                ) && forall|j: int| 0 <= j < i ==> !prompts(#[trigger] messages[j])
        }),
    decreases messages.len(),
{
    if messages.len() > 0 {
        let front = messages.drop_last();
        let before = g.with_messages(front, started);
        lemma_prompt_of_messages(g, front, started);
        lemma_message_prompt(before, messages.last(), started);
        assert forall|j: int| 0 <= j < front.len() implies front[j] == messages[j] by {}
        if before.prompt.len() > 0 {
            let i = choose|i: int|
                0 <= i < front.len() && prompts(front[i]) && #[trigger] offers(
                    front[i],
                    before.prompt,
                ) && forall|j: int| 0 <= j < i ==> !prompts(#[trigger] front[j]);
            assert(offers(messages[i], before.prompt));
            assert forall|j: int| 0 <= j < i implies !prompts(#[trigger] messages[j]) by {
                assert(!prompts(front[j]));
            }
        } else {
            assert forall|j: int| 0 <= j < front.len() implies !prompts(#[trigger] messages[j]) by {
                assert(!prompts(front[j]));
            }
            let last = messages.len() - 1;
            assert(messages[last] == messages.last());
            if prompts(messages.last()) {
                assert(offers(messages[last], g.with_messages(messages, started).prompt));
            }
        }
    }
}

/// The prompt of an imported session is what the first message of the user says that says
/// anything.
pub proof fn the_first_prompt_is_kept(
    session: JsonView,
    now: Seq<char>,
    messages: Seq<JsonView>,
    i: int,
    prompt: Seq<char>,
)
    requires
        session.field("messages"@) == Some(JsonView::Array(messages)),
        0 <= i < messages.len(),
        is_by(messages[i], "user"@),
        offers(messages[i], prompt),
        prompt.len() > 0,
        forall|j: int| 0 <= j < i ==> !prompts(#[trigger] messages[j]),
    ensures
        session_import::history_of(session, now).prompt == prompt,
{
    let started = session_import::text_or(session.field_text("created_at"@), now);
    let g = Gathered::nothing();
    lemma_prompt_of_messages(g, messages, started);
    assert(prompts(messages[i]));
    let after = g.with_messages(messages, started).prompt;
    let k = choose|k: int|
        0 <= k < messages.len() && prompts(messages[k]) && #[trigger] offers(messages[k], after)
            && forall|j: int| 0 <= j < k ==> !prompts(#[trigger] messages[j]);
    assert(k == i);
    lemma_offers(messages[i]);
}

/// A prompt whose content is a plain text is kept as it is, and so is the first text of a prompt
/// that is a list of blocks.
pub proof fn plain_prompts_are_kept(
    session: JsonView,
    now: Seq<char>,
    messages: Seq<JsonView>,
    i: int,
    prompt: Seq<char>,
)
    requires
        session.field("messages"@) == Some(JsonView::Array(messages)),
        0 <= i < messages.len(),
        prompt.len() > 0,
        messages[i].field("role"@) == Some(JsonView::Text("user"@)),
        forall|j: int|
            0 <= j < i ==> (#[trigger] messages[j]).field("role"@) != Some(
                JsonView::Text("user"@),
            ),
        match messages[i].field("content"@) {
            Some(JsonView::Text(t)) => t == prompt,
            Some(JsonView::Array(blocks)) => blocks.len() > 0 && blocks[0].field("text"@) == Some(
                JsonView::Text(prompt),
            ),
            _ => false,
        },
    ensures
        session_import::history_of(session, now).prompt == prompt,
{
    if let Some(JsonView::Array(blocks)) = messages[i].field("content"@) {
        assert(first_with_text(blocks, 0));
    }
    assert(offers(messages[i], prompt));
    assert forall|j: int| 0 <= j < i implies !prompts(#[trigger] messages[j]) by {
        assert(!is_by(messages[j], "user"@));
    }
    the_first_prompt_is_kept(session, now, messages, i, prompt);
}

/// Without a prompt of the user the session counts as interactive.
pub proof fn sessions_without_prompt_are_interactive(
    session: JsonView,
    now: Seq<char>,
    messages: Seq<JsonView>,
)
    requires
        session.field("messages"@) == Some(JsonView::Array(messages)),
        forall|j: int| 0 <= j < messages.len() ==> !prompts(#[trigger] messages[j]),
    ensures
        session_import::history_of(session, now).prompt == "(Interactive session)"@,
{
    let started = session_import::text_or(session.field_text("created_at"@), now);
    lemma_prompt_of_messages(Gathered::nothing(), messages, started);
}

/// What a file says of its session is taken over: its number, its start, and as its end the last
/// update or, where nothing is said of one, the end.
pub proof fn session_data_is_taken_over(
    session: JsonView,
    now: Seq<char>,
    id: Seq<char>,
    created: Seq<char>,
    end: Seq<char>,
)
    ensures
        ({
            let h = session_import::history_of(session, now);
            &&& session.field("id"@) == Some(JsonView::Text(id)) ==> h.session_id == id
            &&& session.field("id"@) is None ==> h.session_id == "unknown"@
            &&& session.field("created_at"@) == Some(JsonView::Text(created)) ==> h.started_at
                == created
            &&& session.field("created_at"@) is None ==> h.started_at == now
            &&& session.field("updated_at"@) == Some(JsonView::Text(end)) ==> h.ended_at == Some(
                end,
            )
            &&& session.field("updated_at"@) is None && session.field("ended_at"@) == Some(
                JsonView::Text(end),
            ) ==> h.ended_at == Some(end)
            &&& session.field("updated_at"@) is None && session.field("ended_at"@) is None
                ==> h.ended_at is None
        }),
{
}

/// Whether two sessions start alike and have the same messages but for the last.
pub open spec fn alike_but_last(
    a: JsonView,
    b: JsonView,
    messages: Seq<JsonView>,
    last_a: JsonView,
    last_b: JsonView,
) -> bool {
    &&& a.field("messages"@) == Some(JsonView::Array(messages.push(last_a)))
    &&& b.field("messages"@) == Some(JsonView::Array(messages.push(last_b)))
    &&& a.field("created_at"@) == b.field("created_at"@)
}

/// Whether an answer of the agent at a time consists of some blocks.
pub open spec fn is_answer(message: JsonView, time: Seq<char>, blocks: Seq<JsonView>) -> bool {
    &&& is_by(message, "assistant"@)
    &&& message.field("timestamp"@) == Some(JsonView::Text(time))
    &&& message.field("content"@) == Some(JsonView::Array(blocks))
}

/// Whether a block is of a kind.
pub open spec fn is_kind(block: JsonView, kind: Seq<char>) -> bool {
    block.field("type"@) == Some(JsonView::Text(kind))
}

/// One more block of an answer adds one event, of the time of the answer: a text that is not
/// blank a message, the use of a tool a use, a thought a thought; any other block adds none. What
/// came before it stays.
pub proof fn one_block_adds_its_event(
    a: JsonView,
    b: JsonView,
    now: Seq<char>,
    messages: Seq<JsonView>,
    short: JsonView,
    long: JsonView,
    time: Seq<char>,
    blocks: Seq<JsonView>,
    block: JsonView,
)
    requires
        alike_but_last(a, b, messages, short, long),
        is_answer(short, time, blocks),
        is_answer(long, time, blocks.push(block)),
    ensures
        ({
            let before = session_import::history_of(a, now).events;
            let after = session_import::history_of(b, now).events;
            &&& forall|t: Seq<char>|
                is_kind(block, "text"@) && #[trigger] block.field("text"@) == Some(
                    JsonView::Text(t),
                ) && !text::blank(t) ==> after == before.push(
                    SessionEventView::AssistantMessage { text: t, timestamp: time },
                )
            &&& forall|t: Seq<char>|
                is_kind(block, "text"@) && #[trigger] block.field("text"@) == Some(
                    JsonView::Text(t),
                ) && text::blank(t) ==> after == before
            &&& forall|name: Seq<char>|
                is_kind(block, "tool_use"@) && #[trigger] block.field("name"@) == Some(
                    JsonView::Text(name),
                ) ==> after == before.push(
                    SessionEventView::ToolUse {
                        name,
                        timestamp: time,
                        input: block.field("input"@),
                    },
                )
            &&& forall|t: Seq<char>|
                is_kind(block, "thinking"@) && #[trigger] block.field("thinking"@) == Some(
                    JsonView::Text(t),
                ) ==> after == before.push(
                    SessionEventView::ThinkingBlock { content: t, timestamp: time },
                )
            &&& !is_kind(block, "text"@) && !is_kind(block, "tool_use"@) && !is_kind(
                block,
                "thinking"@,
            ) ==> after == before
        }),
{
    reveal_strlit("text");
    reveal_strlit("tool_use");
    reveal_strlit("thinking");
    reveal_strlit("user");
    reveal_strlit("assistant");
    assert("text"@.len() == 4 && "tool_use"@.len() == 8 && "thinking"@.len() == 8);
    assert("tool_use"@[1] != "thinking"@[1]);
    assert("user"@.len() != "assistant"@.len());
    let started = session_import::text_or(a.field_text("created_at"@), now);
    let g = Gathered::nothing().with_messages(messages, started);
    assert(messages.push(short).drop_last() =~= messages);
    assert(messages.push(long).drop_last() =~= messages);
    assert(blocks.push(block).drop_last() =~= blocks);
    let before = g.with_message(short, started);
    let after = g.with_message(long, started);
    assert(before == g.with_blocks(blocks, time));
    assert(after == before.with_block(block, time));
}

/// Messages of the user, and answers without a block, add no event; a session without messages
/// has none.
pub proof fn only_answers_add_events(
    a: JsonView,
    b: JsonView,
    now: Seq<char>,
    messages: Seq<JsonView>,
    last: JsonView,
)
    requires
        a.field("messages"@) == Some(JsonView::Array(messages)),
        b.field("messages"@) == Some(JsonView::Array(messages.push(last))),
        a.field("created_at"@) == b.field("created_at"@),
    ensures
        ({
            let before = session_import::history_of(a, now).events;
            let after = session_import::history_of(b, now).events;
            &&& !is_by(last, "assistant"@) ==> after == before
            &&& last.field("content"@) == Some(JsonView::Array(Seq::<JsonView>::empty()))
                ==> after == before
            &&& messages.len() == 0 ==> before.len() == 0
        }),
{
    assert(messages.push(last).drop_last() =~= messages);
}

/// An answer without a time of its own happened when the session started.
pub proof fn answers_without_time_take_the_start(
    a: JsonView,
    b: JsonView,
    now: Seq<char>,
    messages: Seq<JsonView>,
    timed: JsonView,
    untimed: JsonView,
    blocks: Seq<JsonView>,
)
    requires
        alike_but_last(a, b, messages, timed, untimed),
        is_answer(timed, session_import::history_of(a, now).started_at, blocks),
        is_by(untimed, "assistant"@),
        untimed.field("timestamp"@) is None,
        untimed.field("content"@) == Some(JsonView::Array(blocks)),
    ensures
        session_import::history_of(a, now).events == session_import::history_of(b, now).events,
{
    assert(messages.push(timed).drop_last() =~= messages);
    assert(messages.push(untimed).drop_last() =~= messages);
    reveal_strlit("user");
    reveal_strlit("assistant");
    assert("user"@.len() != "assistant"@.len());
}

/// Whether a file holds a session that may be taken over: it is a file, it is named with the
/// extension `json`, and it was changed, after the given time where one is given.
pub open spec fn may_be_taken_over(
    file: SessionFile,
    stem: Seq<char>,
    modified: i128,
    since: Option<i128>,
) -> bool {
    &&& file.is_file
    &&& file.path@ == stem + ".json"@
    &&& stem.len() > 0
    &&& stem.last() != '/'
    &&& file.modified == Some(modified)
    &&& match since {
        Some(t) => modified > t,
        None => true,
    }
}

/// The session that is taken over is one that may be, and no other that may be was changed after
/// it; where there is none, no file may be taken over.
pub proof fn the_latest_session_is_taken_over(
    files: Seq<SessionFile>,
    since: Option<i128>,
    i: int,
    j: int,
    stem: Seq<char>,
    modified: i128,
)
    requires
        0 <= i < files.len(),
        0 <= j < files.len(),
    ensures
        session_import::is_latest(files, since, i) && may_be_taken_over(
            files[j],
            stem,
            modified,
            since,
        ) ==> files[i].modified is Some && (files[i].modified->0 > modified || files[i].modified->0
            == modified && i <= j),
        session_import::is_latest(files, since, i) ==> exists|s: Seq<char>, m: i128| #[trigger]
            may_be_taken_over(files[i], s, m, since),
        may_be_taken_over(files[j], stem, modified, since) ==> session_import::eligible(
            files[j],
            since,
        ),
{
    reveal_strlit(".json");
    if may_be_taken_over(files[j], stem, modified, since) {
        let path = files[j].path@;
        assert(path.subrange(path.len() - 5, path.len() as int) =~= ".json"@);
        assert(path[path.len() - 6] == stem.last());
        assert(session_import::eligible(files[j], since));
    }
    if session_import::is_latest(files, since, i) {
        let path = files[i].path@;
        let s = path.take(path.len() - 5);
        assert(path.subrange(path.len() - 5, path.len() as int) =~= ".json"@);
        assert(path =~= s + ".json"@);
        assert(s.last() == path[path.len() - 6]);
        assert(may_be_taken_over(files[i], s, files[i].modified->0, since));
    }
}

/// Sessions are looked for in the directory that is set for the agent, else in the agent's
/// directory under the home directory, else under the profile directory; where neither of the
/// last two is set, nowhere.
pub proof fn sessions_are_looked_for_at_home(
    home: Option<Seq<char>>,
    user_profile: Option<Seq<char>>,
    config_dir: Option<Seq<char>>,
    product: ProductView,
    dir: Seq<char>,
)
    requires
        product.directory.len() > 0,
        product.directory[0] != '/',
        product.directory.last() != '/',
        dir.len() > 0,
        dir.last() != '/',
    ensures
        ({
            let found = session_import::sessions_dir(home, user_profile, config_dir, product);
            &&& home is None && user_profile is None ==> found is None
            &&& home is Some || user_profile is Some ==> found is Some
            &&& found is Some && config_dir == Some(dir) ==> found == Some(dir + "/sessions"@)
            &&& config_dir is None && home == Some(dir) ==> found == Some(
                dir + seq!['/'] + product.directory + "/sessions"@,
            )
            &&& config_dir is None && home is None && user_profile == Some(dir) ==> found == Some(
                dir + seq!['/'] + product.directory + "/sessions"@,
            )
        }),
{
    reveal_strlit("sessions");
    reveal_strlit("/sessions");
    assert(seq!['/'] + "sessions"@ =~= "/sessions"@);
    paths::relative_paths_stand_behind_their_base(dir, "sessions"@);
    paths::relative_paths_stand_behind_their_base(dir, product.directory);
    let own = dir + seq!['/'] + product.directory;
    assert(own.last() == product.directory.last());
    paths::relative_paths_stand_behind_their_base(own, "sessions"@);
    assert(dir + seq!['/'] + "sessions"@ =~= dir + "/sessions"@);
    assert(own + seq!['/'] + "sessions"@ =~= own + "/sessions"@);
}

} // verus!
