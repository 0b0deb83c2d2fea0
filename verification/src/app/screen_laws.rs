//! What stands on the screen: which texts a reader of the dashboard and of its windows sees.
use crate::app::rendering::Window;
use crate::app::types::{InputModeView, PermissionPromptStateView};
use crate::app::typing;
use crate::app::use_laws;
use crate::app::{self, AppView};
use crate::model;
use crate::state::{SessionEventView, SessionHistoryView};
use crate::text;
use crate::text_laws;
use crate::ui::canvas::{
    self, CellContentView, CellView, Color, LineView, Rect, SpanView, Style, WidgetView,
};
use crate::ui::helpers;
use crate::ui::input;
use crate::ui::log_view;
use crate::ui::modals;
use crate::ui::render;
use crate::ui::types::{LogEntryView, LogViewMode, StepStatus, AVAILABLE_TOOLS};
use crate::worker::{ExistingWorktreeView, PermissionDecisionView, WorkerStatus};
use vstd::prelude::*;

verus! {

/// What some pieces of text say, one after the other.
pub open spec fn reads(spans: Seq<SpanView>) -> Seq<char>
    decreases spans.len(),
{
    if spans.len() == 0 {
        seq![]
    } else {
        reads(spans.drop_last()) + spans.last().content
    }
}

/// What a cell says.
pub open spec fn cell_reads(cell: CellView) -> Seq<char> {
    match cell.content {
        CellContentView::Text(t) => t,
        CellContentView::Styled(line) => reads(line.spans),
    }
}

/// The lines of a window.
pub open spec fn lines_of(widget: WidgetView) -> Seq<LineView> {
    match widget {
        WidgetView::Panel(panel) => panel.lines,
        WidgetView::Grid(_) => seq![],
    }
}

/// What a status is called.
pub open spec fn status_name(status: WorkerStatus) -> Seq<char> {
    match status {
        WorkerStatus::Idle => "Idle"@,
        WorkerStatus::Running => "Running"@,
        WorkerStatus::Paused => "Paused"@,
        WorkerStatus::Failed => "Failed"@,
        WorkerStatus::Archived => "Archived"@,
    }
}

proof fn lemma_reads_more(a: Seq<SpanView>, b: Seq<SpanView>)
    ensures
        reads(a + b) == reads(a) + reads(b),
    decreases b.len(),
{
    if b.len() == 0 {
        assert(a + b =~= a);
        assert(reads(a) + reads(b) =~= reads(a));
    } else {
        assert((a + b).drop_last() =~= a + b.drop_last());
        lemma_reads_more(a, b.drop_last());
        assert(reads(a) + (reads(b.drop_last()) + b.last().content) =~= reads(a) + reads(
            b.drop_last(),
        ) + b.last().content);
    }
}

proof fn lemma_reads_one(a: SpanView)
    ensures
        reads(seq![a]) == a.content,
{
    reveal_with_fuel(reads, 2);
    assert(seq![a].drop_last() =~= seq![]);
    assert(reads(seq![a]) =~= a.content);
}

proof fn lemma_reads_two(a: SpanView, b: SpanView)
    ensures
        reads(seq![a, b]) == a.content + b.content,
{
    reveal_with_fuel(reads, 3);
    assert(seq![a, b].drop_last() =~= seq![a]);
    assert(seq![a].drop_last() =~= seq![]);
    assert(reads(seq![a]) =~= a.content);
}

proof fn lemma_letters(content: Seq<char>, spans: Seq<SpanView>, n: int)
    requires
        0 <= n <= content.len() == spans.len(),
        forall|i: int| 0 <= i < content.len() ==> (#[trigger] spans[i]).content == seq![content[i]],
    ensures
        reads(spans.take(n)) == content.take(n),
    decreases n,
{
    if n > 0 {
        lemma_letters(content, spans, n - 1);
        assert(spans.take(n).drop_last() =~= spans.take(n - 1));
        assert(content.take(n) =~= content.take(n - 1) + seq![content[n - 1]]);
        assert(spans.take(n).last() == spans[n - 1]);
    }
}

proof fn lemma_rainbow(content: Seq<char>, frame: usize, selected: bool)
    ensures
        reads(render::rainbow(content, frame, selected)) == content,
{
    let spans = render::rainbow(content, frame, selected);
    if content.len() == 0 {
        reveal_strlit("");
        lemma_reads_one(spans[0]);
        assert(content =~= ""@);
    } else {
        lemma_letters(content, spans, content.len() as int);
        assert(spans.take(spans.len() as int) =~= spans);
        assert(content.take(content.len() as int) =~= content);
    }
}

/// The row of a worker says what it is called, what it is about, which workflow it runs, which
/// agent, where and on which branch, and what happened last; where it does not run, also how it
/// stands, and nothing more.
pub proof fn rows_say_what_a_worker_does(app: AppView, area: Rect, i: int)
    requires
        app.workers.len() <= usize::MAX,
        0 <= i < app.workers.len(),
        app.status_filter is None || app.status_filter == Some(app.workers[i].snapshot.status),
    ensures
        match app.table(area) {
            WidgetView::Grid(grid) => {
                let place = use_laws::shown_before(app.workers, app.status_filter, i);
                let worker = app.workers[i].snapshot;
                let row = grid.rows[place];
                &&& grid.rows.len() == use_laws::shown_before(
                    app.workers,
                    app.status_filter,
                    app.workers.len() as int,
                )
                &&& 0 <= place < grid.rows.len()
                &&& row.cells.len() == 9
                &&& cell_reads(row.cells[0]) == worker.name
                &&& cell_reads(row.cells[1]) == match worker.issue {
                    Some(issue) => issue,
                    None => "Unassigned"@,
                }
                &&& cell_reads(row.cells[2]) == worker.workflow
                &&& worker.current_step matches Some(step) ==> cell_reads(row.cells[3]) == step
                &&& worker.current_step is None && worker.total_steps > 0 ==> cell_reads(
                    row.cells[3],
                ) == "0/"@ + text::decimal(worker.total_steps as nat) + " steps"@
                &&& worker.current_step is None && worker.total_steps == 0 ==> cell_reads(
                    row.cells[3],
                ) == "-"@
                &&& cell_reads(row.cells[4]) == worker.agent
                &&& cell_reads(row.cells[5]) == worker.worktree
                &&& cell_reads(row.cells[6]) == worker.branch
                &&& worker.status != WorkerStatus::Running ==> cell_reads(row.cells[7])
                    == status_name(worker.status) && cell_reads(row.cells[8]) == worker.last_event
                &&& worker.status == WorkerStatus::Running ==> {
                    &&& cell_reads(row.cells[7]) == render::spinner(app.animation_frame) + " "@
                        + "Running"@
                    &&& cell_reads(row.cells[8]) == render::sparkle(
                        app.animation_frame,
                        app.selected == place,
                    ).content + worker.last_event
                }
                &&& cell_reads(grid.header.cells[0]) == "NAME"@
                &&& cell_reads(grid.header.cells[7]) == "STATUS"@
            },
            _ => false,
        },
{
    use_laws::lemma_visible_places(app.workers, app.status_filter, i, app.workers.len() as int);
    let place = use_laws::shown_before(app.workers, app.status_filter, i);
    let worker = app.workers[i].snapshot;
    let selected = app.selected == place;
    let frame = app.animation_frame;
    assert(app.shown_workers()[place].1 == worker);
    lemma_rainbow(worker.name, frame, selected);
    lemma_rainbow(render::spinner(frame) + " "@ + worker.status.text(), frame, selected);
    lemma_rainbow(worker.last_event, frame, selected);
    let first = seq![render::sparkle(frame, selected)];
    lemma_reads_more(first, render::rainbow(worker.last_event, frame, selected));
    lemma_reads_one(render::sparkle(frame, selected));
}

/// The row of the selected worker is set off from the others by what is behind it.
pub proof fn the_selected_row_is_set_off(app: AppView, area: Rect, i: int)
    requires
        app.workers.len() <= usize::MAX,
        0 <= i < app.workers.len(),
        app.status_filter is None || app.status_filter == Some(app.workers[i].snapshot.status),
        app.workers[i].snapshot.status != WorkerStatus::Running,
    ensures
        match app.table(area) {
            WidgetView::Grid(grid) => {
                let place = use_laws::shown_before(app.workers, app.status_filter, i);
                let style = grid.rows[place].style;
                &&& style.bg == Some(Color::DarkGray) <==> use_laws::selects(app, i)
                &&& !use_laws::selects(app, i) ==> style.fg == Some(
                    match app.workers[i].snapshot.status {
                        WorkerStatus::Running => Color::Green,
                        WorkerStatus::Paused => Color::Yellow,
                        WorkerStatus::Failed => Color::Red,
                        WorkerStatus::Idle => Color::Gray,
                        WorkerStatus::Archived => Color::Blue,
                    },
                )
            },
            _ => false,
        },
{
    use_laws::lemma_visible_places(app.workers, app.status_filter, i, app.workers.len() as int);
    let place = use_laws::shown_before(app.workers, app.status_filter, i);
    assert(app.shown_workers()[place].1 == app.workers[i].snapshot);
}

/// The header says how many workers there are, which of them are shown, and which workflow is in
/// use.
pub proof fn the_header_counts_workers(app: AppView, area: Rect)
    requires
        app.wf(),
    ensures
        ({
            let lines = lines_of(app.header(area));
            &&& lines.len() == 1
            &&& lines[0].spans.len() == 3
            &&& lines[0].spans[0].content == "Gensui"@
            &&& lines[0].spans[2].content == "Workers: "@ + text::decimal(app.workers.len())
                + "  Filter: "@ + (match app.status_filter {
                Some(status) => status_name(status),
                None => "All"@,
            }) + "  Workflow: "@ + app.workflows[app.selected_workflow_idx as int].name
        }),
{
}

/// A text of one line is shown as it is.
pub proof fn one_line_is_shown_as_it_is(s: Seq<char>)
    requires
        s.len() > 0,
        forall|i: int| 0 <= i < s.len() ==> #[trigger] s[i] != '\n' && s[i] != '\r',
    ensures
        reads(canvas::text_line(s).spans) == s,
{
    lemma_one_line(s);
    let spans = canvas::text_line(s).spans;
    assert(spans.len() == 1 && spans[0].content == s);
    lemma_reads_one(spans[0]);
    assert(spans =~= seq![spans[0]]);
}

proof fn lemma_one_line(s: Seq<char>)
    requires
        s.len() > 0,
        forall|i: int| 0 <= i < s.len() ==> #[trigger] s[i] != '\n' && s[i] != '\r',
    ensures
        text::lines(s) == seq![s],
{
    text_laws::lines_are_read_back(seq![], "\n"@, s);
}

/// The window of a permission request says which worker asks, for which step, in which mode and
/// with which tools; of the two answers the selected one is set off.
pub proof fn requests_say_what_is_asked_for(
    app: AppView,
    prompt: PermissionPromptStateView,
    area: Rect,
)
    requires
        app.permission_prompt == Some(prompt),
    ensures
        ({
            let lines = lines_of(app.window(Window::Permission, area));
            let request = prompt.request;
            &&& lines.len() == 11
            &&& reads(lines[2].spans) == "ワーカー: "@ + prompt.worker_name
            &&& reads(lines[3].spans) == "ステップ: "@ + request.step_name
            &&& request.description matches Some(d) ==> reads(lines[4].spans) == "説明: "@ + d
            &&& reads(lines[5].spans) == "権限モード: "@ + helpers::mode_label(
                request.permission_mode,
            )
            &&& reads(lines[6].spans) == "許可ツール: "@ + modals::tools_text(request.allowed_tools)
            &&& lines[8].spans[0].content == "許可する"@
            &&& lines[8].spans[2].content == "拒否する"@
            &&& lines[8].spans[2].style.bg == Some(Color::Yellow) <==> prompt.selection is Deny
            &&& prompt.selection is Deny ==> lines[8].spans[0].style.bg != Some(Color::Yellow)
            &&& prompt.selection == (PermissionDecisionView::Allow {
                permission_mode: None,
                allowed_tools: None,
            }) ==> lines[8].spans[0].style.bg == Some(Color::Yellow)
        }),
{
    let lines = lines_of(app.window(Window::Permission, area));
    let request = prompt.request;
    lemma_reads_two(lines[2].spans[0], lines[2].spans[1]);
    lemma_reads_two(lines[3].spans[0], lines[3].spans[1]);
    lemma_reads_two(lines[4].spans[0], lines[4].spans[1]);
    lemma_reads_two(lines[5].spans[0], lines[5].spans[1]);
    lemma_reads_two(lines[6].spans[0], lines[6].spans[1]);
    assert(lines[2].spans =~= seq![lines[2].spans[0], lines[2].spans[1]]);
    assert(lines[3].spans =~= seq![lines[3].spans[0], lines[3].spans[1]]);
    assert(lines[4].spans =~= seq![lines[4].spans[0], lines[4].spans[1]]);
    assert(lines[5].spans =~= seq![lines[5].spans[0], lines[5].spans[1]]);
    assert(lines[6].spans =~= seq![lines[6].spans[0], lines[6].spans[1]]);
}

/// A permission mode is named by what it lets the agent do; one that has no name of its own is
/// shown as it is.
pub proof fn modes_have_names(mode: Seq<char>)
    ensures
        helpers::mode_label(None) == "制限なしモード"@,
        helpers::mode_label(Some("plan"@)) == "プランモード"@,
        helpers::mode_label(Some("acceptEdits"@)) == "編集承認モード"@,
        helpers::mode_label(Some("bypassPermissions"@)) == "制限なしモード"@,
        mode != "plan"@ && mode != "acceptEdits"@ && mode != "bypassPermissions"@
            ==> helpers::mode_label(Some(mode)) == mode,
{
    reveal_strlit("plan");
    reveal_strlit("acceptEdits");
    reveal_strlit("bypassPermissions");
    assert("plan"@.len() == 4);
    assert("acceptEdits"@.len() == 11);
    assert("bypassPermissions"@.len() == 17);
}

/// A list of tools is shown by their names, in their order; no list says that all are allowed, and
/// an empty one that none is.
pub proof fn tools_are_shown_by_name(tools: Seq<Seq<char>>, tool: Seq<char>)
    ensures
        modals::tools_text(None) == "制限なし"@,
        tools.len() == 0 ==> modals::tools_text(Some(tools)) == "なし"@,
        modals::tools_text(Some(seq![tool])) == tool,
        tools.len() > 0 ==> modals::tools_text(Some(tools.push(tool))) == modals::tools_text(
            Some(tools),
        ) + ", "@ + tool,
{
    assert(tools + seq![tool] =~= tools.push(tool));
    if tools.len() > 0 {
        text_laws::joining_goes_piece_by_piece(tools, seq![tool], ", "@, tool);
    }
}

/// The ways to a new worker are listed, and the selected one of them is marked, and no other.
pub proof fn the_selected_way_is_marked(app: AppView, selected: usize, area: Rect, i: int)
    requires
        app.wf(),
        0 <= i < 3,
    ensures
        ({
            let lines = lines_of(
                app.input_window(InputModeView::CreateWorkerSelection { selected }, area),
            );
            let way = if i == 0 {
                "  ワークフローを実行 ("@ + app.workflows[app.selected_workflow_idx as int].name + ")"@
            } else if i == 1 {
                "  自由入力でワーカーを作成"@
            } else {
                "  既存worktreeを使用"@
            };
            &&& i == selected ==> lines[2 + i].spans == seq![
                SpanView { content: "> "@ + way, style: lines[2 + i].spans[0].style },
            ]
            &&& i != selected ==> lines[2 + i] == canvas::text_line(way)
        }),
{
}

/// The worktrees are listed in their order, each by its path and its branch, and the selected one
/// of them is marked, and no other.
pub proof fn worktrees_are_listed(
    app: AppView,
    worktrees: Seq<ExistingWorktreeView>,
    selected: usize,
    area: Rect,
    i: int,
)
    requires
        0 <= i < worktrees.len(),
    ensures
        ({
            let lines = lines_of(
                app.input_window(InputModeView::WorktreeSelection { worktrees, selected }, area),
            );
            let worktree = "  "@ + worktrees[i].path + " (branch: "@ + worktrees[i].branch + ")"@;
            &&& lines.len() == worktrees.len() + 4
            &&& i == selected ==> lines[2 + i].spans == seq![
                SpanView { content: "> "@ + worktree, style: lines[2 + i].spans[0].style },
            ]
            &&& i != selected ==> lines[2 + i] == canvas::text_line(worktree)
        }),
{
}

/// The tools are listed in their order, each with a mark where it is checked and with none where
/// it is not, and the selected one of them is pointed at, and no other.
pub proof fn tools_are_listed(
    app: AppView,
    tools: Seq<bool>,
    selected_idx: usize,
    mode: InputModeView,
    area: Rect,
    i: int,
)
    requires
        match mode {
            InputModeView::ToolSelection { tools: t, selected_idx: s, .. } => t == tools && s
                == selected_idx,
            _ => false,
        },
        0 <= i < tools.len() == 8,
    ensures
        ({
            let lines = lines_of(app.input_window(mode, area));
            let tool = (if tools[i] {
                "[✓]"@
            } else {
                "[ ]"@
            }) + " "@ + AVAILABLE_TOOLS@[i].0@ + "  - "@ + AVAILABLE_TOOLS@[i].1@;
            &&& lines.len() == 14
            &&& i == selected_idx ==> lines[4 + i].spans == seq![
                SpanView { content: "> "@ + tool, style: lines[4 + i].spans[0].style },
            ]
            &&& i != selected_idx ==> lines[4 + i] == canvas::text_line(tool)
        }),
{
    assert(AVAILABLE_TOOLS@.len() == 8);
}

/// A worker that gets another name is shown by the name that it has.
pub proof fn the_name_so_far_is_shown(
    app: AppView,
    buffer: Seq<char>,
    cursor: usize,
    i: int,
    area: Rect,
)
    requires
        app.wf(),
        0 <= i < app.workers.len(),
    ensures
        ({
            let mode = InputModeView::RenameWorker {
                buffer,
                cursor,
                worker_id: app.workers[i].snapshot.id,
            };
            reads(lines_of(app.input_window(mode, area))[2].spans) == "現在の名前: "@
                + app.workers[i].snapshot.name
        }),
{
    use_laws::lemma_found(app, i);
    let mode = InputModeView::RenameWorker {
        buffer,
        cursor,
        worker_id: app.workers[i].snapshot.id,
    };
    let line = lines_of(app.input_window(mode, area))[2];
    lemma_reads_two(line.spans[0], line.spans[1]);
    assert(line.spans =~= seq![line.spans[0], line.spans[1]]);
}

/// Whether the raw log shows some lines, from the one on that it is scrolled to, and at least the
/// last one.
pub open spec fn shows_lines(
    shown: Seq<LineView>,
    all: Seq<Seq<char>>,
    scroll: int,
) -> bool {
    let start = if scroll < all.len() {
        scroll
    } else {
        all.len() - 1
    };
    all.len() > 0 ==> {
        &&& shown.len() == all.len() - start
        &&& forall|k: int|
            start <= k < all.len() ==> #[trigger] shown[k - start] == canvas::text_line(all[k])
    }
}

proof fn lemma_raw_log(
    worker_logs: Option<Seq<Seq<char>>>,
    global_logs: Seq<Seq<char>>,
    log_scroll: usize,
    auto_scroll: bool,
)
    ensures
        shows_lines(
            log_view::raw_log(worker_logs, global_logs, log_scroll, auto_scroll).lines,
            match worker_logs {
                Some(logs) => logs,
                None => global_logs,
            },
            log_scroll as int,
        ),
{
}

proof fn lemma_raw_window(app: AppView, area: Rect)
    requires
        app.log_view_mode == LogViewMode::Raw,
    ensures
        lines_of(app.window(Window::Log, area)) == log_view::raw_log(
            match app.selected_worker() {
                Some(worker) => Some(worker.logs),
                None => None,
            },
            app.log_messages,
            app.log_scroll,
            app.auto_scroll_logs,
        ).lines,
{
}

/// The raw log shows the lines of the selected worker, or of the action log where none is
/// selected, from the one on that it is scrolled to, and at least the last one.
pub proof fn the_raw_log_shows_its_lines(app: AppView, i: int, area: Rect)
    requires
        app.workers.len() <= usize::MAX,
        app.log_view_mode == LogViewMode::Raw,
    ensures
        use_laws::selects(app, i) ==> shows_lines(
            lines_of(app.window(Window::Log, area)),
            app.workers[i].logs,
            app.log_scroll as int,
        ),
        use_laws::shows_none(app) ==> shows_lines(
            lines_of(app.window(Window::Log, area)),
            app.log_messages,
            app.log_scroll as int,
        ),
{
    lemma_raw_window(app, area);
    if use_laws::selects(app, i) {
        use_laws::the_selected_worker_is_on_the_screen(app, i);
        lemma_raw_log(
            Some(app.workers[i].logs),
            app.log_messages,
            app.log_scroll,
            app.auto_scroll_logs,
        );
    }
    if use_laws::shows_none(app) {
        use_laws::nothing_is_selected_on_an_empty_screen(app);
        lemma_raw_log(None, app.log_messages, app.log_scroll, app.auto_scroll_logs);
    }
}

/// Whether a row of a table tells of a step: its number, its name and how it ended, and the first
/// of what it thought, else of what came of it.
pub open spec fn tells_of(cells: Seq<CellView>, step: LogEntryView) -> bool {
    &&& cells.len() == 4
    &&& cell_reads(cells[0]) == text::decimal(step.step_index as nat)
    &&& cell_reads(cells[1]) == step.step_name
    &&& cell_reads(cells[2]) == match step.status {
        StepStatus::Running => "Running"@,
        StepStatus::Success => "✓ Success"@,
        StepStatus::Failed => "✗ Failed"@,
    }
    &&& step.thought_lines.len() > 0 && step.thought_lines[0].len() <= 60 ==> cell_reads(cells[3])
        == "🤔 "@ + step.thought_lines[0]
    &&& step.thought_lines.len() == 0 && step.result_lines.len() > 0 && step.result_lines[0].len()
        <= 60 ==> cell_reads(cells[3]) == step.result_lines[0]
    &&& step.thought_lines.len() == 0 && step.result_lines.len() > 0 && step.result_lines[0].len()
        > 60 ==> cell_reads(cells[3]) == step.result_lines[0].take(60) + "..."@
}

proof fn lemma_overview(
    area: Rect,
    steps: Seq<LogEntryView>,
    selected_step: usize,
    auto_scroll: bool,
    k: int,
)
    requires
        0 <= k < steps.len(),
    ensures
        match log_view::overview(area, steps, selected_step, auto_scroll) {
            WidgetView::Grid(grid) => {
                &&& grid.rows.len() == steps.len()
                &&& tells_of(grid.rows[k].cells, steps[k])
                &&& grid.rows[k].style.bg == Some(Color::DarkGray) <==> k == selected_step || k
                    == steps.len() - 1 && selected_step > k
            },
            _ => false,
        },
{
    reveal_strlit("");
    let step = steps[k];
    if step.result_lines.len() > 0 {
        assert(""@ + log_view::summary_body(step.result_lines[0]) =~= log_view::summary_body(
            step.result_lines[0],
        ));
    }
}

/// The overview has a row for each step of the selected worker, which tells of it, and the selected
/// step is set off.
pub proof fn the_overview_shows_the_steps(app: AppView, i: int, area: Rect, k: int)
    requires
        app.workers.len() <= usize::MAX,
        use_laws::selects(app, i),
        app.log_view_mode == LogViewMode::Overview,
        0 <= k < app.workers[i].structured_logs.len(),
    ensures
        match app.window(Window::Log, area) {
            WidgetView::Grid(grid) => {
                &&& grid.rows.len() == app.workers[i].structured_logs.len()
                &&& tells_of(grid.rows[k].cells, app.workers[i].structured_logs[k])
                &&& grid.rows[k].style.bg == Some(Color::DarkGray) <==> k == app.selected_step || k
                    == app.workers[i].structured_logs.len() - 1 && app.selected_step > k
            },
            _ => false,
        },
{
    use_laws::the_selected_worker_is_on_the_screen(app, i);
    lemma_overview(
        area,
        app.workers[i].structured_logs,
        app.selected_step,
        app.auto_scroll_logs,
        k,
    );
}

/// Whether lines show a step: what was asked for, what was thought and what came of it, line by
/// line, each under its heading.
pub open spec fn shows_step(lines: Seq<LineView>, step: LogEntryView) -> bool {
    let p = step.prompt_lines.len() as int;
    let t = step.thought_lines.len() as int;
    let r = step.result_lines.len() as int;
    let thought = if t > 0 {
        t + 2
    } else {
        0
    };
    &&& lines.len() == 3 + p + 1 + thought + 1 + r
    &&& lines[0] == canvas::text_line(
        "Step #"@ + text::decimal(step.step_index as nat) + ": "@ + step.step_name,
    )
    &&& lines[2].spans[0].content == "─── Prompt ───"@
    &&& lines.subrange(3, 3 + p) == canvas::text_lines(step.prompt_lines)
    &&& t > 0 ==> lines[4 + p].spans[0].content == "─── Thought ───"@ && lines.subrange(
        5 + p,
        5 + p + t,
    ) == canvas::text_lines(step.thought_lines)
    &&& lines[4 + p + thought].spans[0].content == "─── Result ───"@
    &&& lines.skip(5 + p + thought) == canvas::text_lines(step.result_lines)
}

proof fn lemma_detail(step: LogEntryView)
    ensures
        shows_step(log_view::detail_lines(step), step),
{
    let lines = log_view::detail_lines(step);
    let p = step.prompt_lines.len() as int;
    let t = step.thought_lines.len() as int;
    let thought = if t > 0 {
        t + 2
    } else {
        0
    };
    assert(lines.subrange(3, 3 + p) =~= canvas::text_lines(step.prompt_lines));
    if t > 0 {
        assert(lines.subrange(5 + p, 5 + p + t) =~= canvas::text_lines(step.thought_lines));
    }
    assert(lines.skip(5 + p + thought) =~= canvas::text_lines(step.result_lines));
}

proof fn lemma_detail_window(app: AppView, i: int, area: Rect)
    requires
        app.selected_worker() == Some(app.workers[i]),
        app.log_view_mode == LogViewMode::Detail,
        app.selected_step < app.workers[i].structured_logs.len(),
        app.log_scroll == 0,
    ensures
        lines_of(app.window(Window::Log, area)) == log_view::detail_lines(
            app.workers[i].structured_logs[app.selected_step as int],
        ),
{
    let step = app.workers[i].structured_logs[app.selected_step as int];
    let lines = log_view::detail_lines(step);
    assert(lines.skip(0) =~= lines);
}

/// The detail shows the selected step of the selected worker.
pub proof fn the_detail_shows_the_step(app: AppView, i: int, area: Rect)
    requires
        app.workers.len() <= usize::MAX,
        use_laws::selects(app, i),
        app.log_view_mode == LogViewMode::Detail,
        app.selected_step < app.workers[i].structured_logs.len(),
        app.log_scroll == 0,
    ensures
        shows_step(
            lines_of(app.window(Window::Log, area)),
            app.workers[i].structured_logs[app.selected_step as int],
        ),
{
    use_laws::the_selected_worker_is_on_the_screen(app, i);
    lemma_detail_window(app, i, area);
    lemma_detail(app.workers[i].structured_logs[app.selected_step as int]);
}

/// What stands before an event on its line, and what is said of it.
pub open spec fn event_says(event: SessionEventView) -> (Seq<char>, Seq<char>) {
    match event {
        SessionEventView::ToolUse { name, .. } => ("    🔧 "@, name),
        SessionEventView::AssistantMessage { text, .. } => ("    💬 "@, text),
        SessionEventView::ThinkingBlock { .. } => ("    💭 "@, "Thinking..."@),
        SessionEventView::Result { text, is_error, .. } => (
            if is_error {
                "    "@ + "❌"@ + " "@
            } else {
                "    "@ + "✅"@ + " "@
            },
            text,
        ),
        SessionEventView::Error { message, .. } => ("    ⚠️  "@, message),
        SessionEventView::ToolResult { name, .. } => ("    ✓  "@, name + " result"@),
    }
}

/// The line of an event of a session tells what kind of event it is and, as far as it fits, what
/// was said; a result that is an error is marked as one, and no other result.
pub proof fn events_are_shown_by_their_kind(event: SessionEventView)
    ensures
        ({
            let spans = modals::event_line(event).spans;
            let (mark, says) = event_says(event);
            &&& spans.len() == 4
            &&& spans[0].content == mark
            &&& says.len() <= 50 ==> spans[1].content == says
            &&& event is ToolUse || event is ToolResult ==> spans[1].content == says
            &&& event matches SessionEventView::Result { is_error, .. } ==> spans[1].style.fg
                == Some(
                if is_error {
                    Color::Red
                } else {
                    Color::Green
                },
            )
        }),
{
    reveal_strlit("Thinking...");
}

/// A text that is cut off is the start of the text, with dots behind it.
pub proof fn cut_texts_are_their_start(s: Seq<char>, max: int)
    requires
        3 <= max < s.len(),
    ensures
        modals::truncated(s, max).take(max - 3) == s.take(max - 3),
        modals::truncated(s, max).skip(max - 3) == "..."@,
{
    reveal_strlit("...");
    assert(modals::truncated(s, max).take(max - 3) =~= s.take(max - 3));
    assert(modals::truncated(s, max).skip(max - 3) =~= "..."@);
}

proof fn lemma_first(s: Seq<char>, c: char, n: int)
    requires
        0 <= n <= s.len(),
        forall|i: int| 0 <= i < n ==> #[trigger] s[i] != c,
        n < s.len() ==> s[n] == c,
    ensures
        text::position(s, c) == n,
{
    text::lemma_position(s, c);
}

/// The time of day is what stands between the date and the fraction of a second.
pub proof fn times_of_day_are_read(date: Seq<char>, time: Seq<char>, rest: Seq<char>)
    requires
        forall|i: int| 0 <= i < date.len() ==> #[trigger] date[i] != 'T',
        forall|i: int| 0 <= i < time.len() ==> #[trigger] time[i] != 'T' && time[i] != '.',
        forall|i: int| 0 <= i < rest.len() ==> #[trigger] rest[i] != 'T',
    ensures
        modals::time_of_day(date + seq!['T'] + time + seq!['.'] + rest) == time,
        modals::time_of_day(date) == date,
{
    let behind = time + seq!['.'] + rest;
    let all = date + seq!['T'] + time + seq!['.'] + rest;
    assert(all =~= date + seq!['T'] + behind);
    lemma_first(all, 'T', date.len() as int);
    assert(all.skip(date.len() as int + 1) =~= behind);
    assert forall|i: int| 0 <= i < behind.len() implies #[trigger] behind[i] != 'T' by {
        if i > time.len() {
            assert(behind[i] == rest[i - time.len() - 1]);
        }
    }
    lemma_first(behind, 'T', behind.len() as int);
    assert(behind.take(behind.len() as int) =~= behind);
    lemma_first(behind, '.', time.len() as int);
    assert(behind.take(time.len() as int) =~= time);
    lemma_first(date, 'T', date.len() as int);
}

/// What some lines say, with a newline between two of them.
pub open spec fn said(rows: Seq<LineView>) -> Seq<char>
    decreases rows.len(),
{
    if rows.len() == 0 {
        seq![]
    } else if rows.len() == 1 {
        reads(rows[0].spans)
    } else {
        reads(rows[0].spans) + seq!['\n'] + said(rows.skip(1))
    }
}

/// A text as it is shown while it is typed: where the place is at the end of a line, a space stands
/// there.
pub open spec fn with_place(s: Seq<char>, place: int) -> Seq<char> {
    if place < s.len() && s[place] != '\n' {
        s
    } else {
        s.take(place) + seq![' '] + s.skip(place)
    }
}

proof fn lemma_row(row: Seq<char>, at: Option<int>, style: Style)
    requires
        at matches Some(a) ==> 0 <= a <= row.len(),
    ensures
        reads(input::row_spans(row, at, style)) == match at {
            Some(a) => if a < row.len() {
                row
            } else {
                row + seq![' ']
            },
            None => row,
        },
{
    reveal_strlit(" ");
    let spans = input::row_spans(row, at, style);
    match at {
        Some(a) => {
            input::rows_are_shown_whole(row, a, style);
            lemma_reads_two(spans[0], spans[1]);
            lemma_reads_one(spans[2]);
            lemma_reads_more(seq![spans[0], spans[1]], seq![spans[2]]);
            assert(spans =~= seq![spans[0], spans[1]] + seq![spans[2]]);
            assert(" "@ =~= seq![' ']);
        },
        None => {
            lemma_reads_one(spans[0]);
            assert(spans =~= seq![spans[0]]);
        },
    }
}

proof fn lemma_typed_rows(s: Seq<char>, start: int, place: int, style: Style)
    requires
        0 <= start <= s.len(),
        0 <= place <= s.len(),
    ensures
        input::typed_rows(s, start, place, style).len() > 0,
        said(input::typed_rows(s, start, place, style)) == if place < start {
            s.skip(start)
        } else {
            with_place(s, place).skip(start)
        },
    decreases s.len() - start,
{
    let end = typing::line_end(s, start);
    typing::lines_hold_places(s, start);
    let row = s.subrange(start, end);
    let at = input::place_on(start, end, place);
    let rows = input::typed_rows(s, start, place, style);
    let shown = if place < start {
        s.skip(start)
    } else {
        with_place(s, place).skip(start)
    };
    lemma_row(row, at, style);
    lemma_no_newline(s, start);
    if end >= s.len() {
        assert(reads(rows[0].spans) =~= shown);
    } else {
        lemma_typed_rows(s, end + 1, place, style);
        assert(rows.skip(1) =~= input::typed_rows(s, end + 1, place, style));
        assert(said(rows) =~= shown);
    }
}

proof fn lemma_no_newline(s: Seq<char>, start: int)
    requires
        0 <= start <= s.len(),
    ensures
        forall|k: int| start <= k < typing::line_end(s, start) ==> #[trigger] s[k] != '\n',
    decreases s.len() - start,
{
    if start < s.len() && s[start] != '\n' {
        lemma_no_newline(s, start + 1);
    }
}

/// A prompt is shown as it has been typed, line by line, with the place in it and the permission
/// mode below it.
pub proof fn prompts_are_shown_as_typed(
    app: AppView,
    buffer: Seq<char>,
    cursor: usize,
    force_new: bool,
    permission_mode: Option<Seq<char>>,
    worker_name: Option<Seq<char>>,
    area: Rect,
)
    requires
        cursor <= buffer.len(),
    ensures
        ({
            let mode = InputModeView::FreePrompt {
                buffer,
                cursor,
                force_new,
                permission_mode,
                worker_name,
            };
            let lines = lines_of(app.input_window(mode, area));
            let n = lines.len() as int;
            &&& n > 5
            &&& said(lines.subrange(2, n - 3)) == with_place(buffer, cursor as int)
            &&& reads(lines[n - 2].spans) == "モード: "@ + helpers::mode_label(permission_mode)
        }),
{
    let mode = InputModeView::FreePrompt {
        buffer,
        cursor,
        force_new,
        permission_mode,
        worker_name,
    };
    let lines = lines_of(app.input_window(mode, area));
    let n = lines.len() as int;
    let style = modals::bold(Color::Yellow);
    let rows = input::typed_lines(buffer, cursor as int, style);
    lemma_typed_rows(buffer, 0, cursor as int, style);
    assert(lines.subrange(2, n - 3) =~= rows);
    assert(with_place(buffer, cursor as int).skip(0) =~= with_place(buffer, cursor as int));
    lemma_reads_two(lines[n - 2].spans[0], lines[n - 2].spans[1]);
    assert(lines[n - 2].spans =~= seq![lines[n - 2].spans[0], lines[n - 2].spans[1]]);
}

/// A name is shown as it has been typed, behind what it is for.
pub proof fn names_are_shown_as_typed(label: Seq<char>, s: Seq<char>, place: int, style: Style)
    requires
        0 <= place <= s.len(),
    ensures
        reads(input::labelled_input(label, s, place, style).spans) == label + (if place < s.len() {
            s
        } else {
            s + seq![' ']
        }),
{
    let at = input::place_on(0, s.len() as int, place);
    lemma_row(s, at, style);
    lemma_reads_one(canvas::raw(label));
    lemma_reads_more(seq![canvas::raw(label)], input::row_spans(s, at, style));
}

/// The windows that are open are all drawn, and only those.
pub proof fn open_windows_are_drawn(app: AppView, window: Window)
    ensures
        app.windows().contains(window) <==> match window {
            Window::Log => app.show_logs,
            Window::Help => app.show_help,
            Window::SessionHistory => app.show_session_history,
            Window::Permission => app.permission_prompt is Some,
            Window::Input => match app.input_mode {
                Some(InputModeView::RenameWorker { worker_id, .. }) => exists|i: int|
                    0 <= i < app.workers.len() && (#[trigger] app.workers[i]).snapshot.id
                        == worker_id,
                Some(_) => true,
                None => false,
            },
        },
{
    lemma_windows(app, window);
    if let Some(InputModeView::RenameWorker { worker_id, .. }) = app.input_mode {
        let ids = app::view_ids(app.workers);
        model::first_index_is_first(ids, worker_id);
        if let Some(k) = app.find(worker_id) {
            assert(ids[k] == worker_id);
            assert(app.workers[k].snapshot.id == worker_id);
        } else {
            assert forall|i: int| 0 <= i < app.workers.len() implies (
            #[trigger] app.workers[i]).snapshot.id != worker_id by {
                assert(ids[i] != worker_id);
            }
        }
    }
}

proof fn lemma_windows(app: AppView, window: Window)
    ensures
        app.windows().contains(window) <==> app.shows(window),
{
    let a = app.if_open(Window::Log);
    let b = a + app.if_open(Window::Help);
    let c = b + app.if_open(Window::SessionHistory);
    let d = c + app.if_open(Window::Permission);
    let w = app.windows();
    assert(w == d + app.if_open(Window::Input));
    if app.shows(window) {
        let k: int = match window {
            Window::Log => 0,
            Window::Help => a.len() as int,
            Window::SessionHistory => b.len() as int,
            Window::Permission => c.len() as int,
            Window::Input => d.len() as int,
        };
        assert(w[k] == window);
    }
}

/// The sessions of the selected worker are shown in their order, each with its number, when it ran,
/// what it was about, how often it used a tool and how many files it changed.
pub proof fn sessions_are_shown(idx: int, session: SessionHistoryView, selected: bool)
    requires
        idx >= 0,
    ensures
        ({
            let lines = modals::session_lines(idx, session, selected);
            let after = if session.ended_at is Some {
                1int
            } else {
                0int
            };
            let mark = if selected {
                "> "@
            } else {
                seq![]
            };
            let id = if session.session_id.len() > 8 {
                session.session_id.take(8)
            } else {
                session.session_id
            };
            &&& lines.len() >= 5 + after
            &&& reads(lines[1].spans) == mark + ("Session #"@ + text::decimal((idx + 1) as nat)
                + " ["@ + id + "]"@)
            &&& reads(lines[2].spans) == "  開始: "@ + session.started_at
            &&& session.ended_at matches Some(ended) ==> reads(lines[3].spans) == "  終了: "@ + ended
            &&& session.prompt.len() <= 60 ==> reads(lines[3 + after].spans) == "  プロンプト: "@
                + session.prompt
            &&& reads(lines[4 + after].spans) == "  ツール使用: "@ + (text::decimal(
                session.total_tool_uses as nat,
            ) + " 回"@)
            &&& session.files_modified.len() > 0 ==> reads(lines[5 + after].spans)
                == "  編集ファイル: "@ + (text::decimal(session.files_modified.len()) + " 件"@)
        }),
{
    let lines = modals::session_lines(idx, session, selected);
    let head = modals::session_head(idx, session, selected);
    let after = if session.ended_at is Some {
        1int
    } else {
        0int
    };
    text_laws::first_chars_are_a_front(session.session_id, 8);
    assert(forall|k: int| 0 <= k < head.len() ==> lines[k] == head[k]);
    lemma_one(lines[1], lines[1].spans[0].content);
    let header = "Session #"@ + text::decimal((idx + 1) as nat) + " ["@ + text::first_chars(
        session.session_id,
        8,
    ) + "]"@;
    assert(Seq::<char>::empty() + header =~= header);
    lemma_pair(lines[2]);
    lemma_pair(lines[3]);
    lemma_pair(lines[3 + after]);
    lemma_pair(lines[4 + after]);
    if session.files_modified.len() > 0 {
        lemma_pair(lines[5 + after]);
    }
}

proof fn lemma_pair(line: LineView)
    requires
        line.spans.len() == 2,
    ensures
        reads(line.spans) == line.spans[0].content + line.spans[1].content,
{
    lemma_reads_two(line.spans[0], line.spans[1]);
    assert(line.spans =~= seq![line.spans[0], line.spans[1]]);
}

proof fn lemma_one(line: LineView, content: Seq<char>)
    requires
        line.spans.len() == 1,
        line.spans[0].content == content,
    ensures
        reads(line.spans) == content,
{
    lemma_reads_one(line.spans[0]);
    assert(line.spans =~= seq![line.spans[0]]);
}

/// The events of a session are shown in their order, the first ten of them, and only where it is
/// selected; of the files that it changed the first three. How many are left out is said.
pub proof fn events_are_shown_of_the_selected_session(
    idx: int,
    session: SessionHistoryView,
    k: int,
)
    requires
        idx >= 0,
    ensures
        ({
            let plain = modals::session_lines(idx, session, false);
            let lines = modals::session_lines(idx, session, true);
            let n = session.events.len() as int;
            let start = plain.len() as int + 2;
            let files = session.files_modified;
            let first = modals::session_lines(
                idx,
                SessionHistoryView { files_modified: seq![], ..session },
                false,
            ).len() as int;
            &&& 0 <= k < n && k < 10 ==> lines[start + k] == modals::event_line(session.events[k])
            &&& n <= 10 ==> lines.len() == start + n
            &&& n > 10 ==> lines.len() == start + 11 && lines[start + 10].spans[1].content
                == "... あと "@ + text::decimal((n - 10) as nat) + " イベント"@
            &&& 0 <= k < files.len() && k < 3 && files[k].len() <= 50 ==> plain[first + 1
                + k].spans[1].content == files[k]
            &&& files.len() > 3 ==> plain.len() == first + 5 && plain[first + 4].spans[1].content
                == "... あと "@ + text::decimal((files.len() - 3) as nat) + " 件"@
            &&& 0 < files.len() <= 3 ==> plain.len() == first + 1 + files.len()
        }),
{
}

/// Sessions are shown one after the other; one more comes behind them.
pub proof fn sessions_follow_each_other(
    sessions: Seq<SessionHistoryView>,
    session: SessionHistoryView,
    selected: usize,
)
    ensures
        modals::sessions_lines(sessions.push(session), selected) == modals::sessions_lines(
            sessions,
            selected,
        ) + modals::session_lines(
            sessions.len() as int,
            session,
            selected == sessions.len(),
        ),
        modals::sessions_lines(seq![], selected).len() == 0,
{
    assert(sessions.push(session).drop_last() =~= sessions);
}

/// The window of the sessions shows those of the selected worker.
pub proof fn the_sessions_of_the_selected_worker_are_shown(app: AppView, i: int, area: Rect)
    requires
        app.workers.len() <= usize::MAX,
        use_laws::selects(app, i),
        app.workers[i].session_histories.len() > 0,
        app.session_history_scroll == 0,
    ensures
        lines_of(app.window(Window::SessionHistory, area)).skip(4) == modals::sessions_lines(
            app.workers[i].session_histories,
            app.selected_session,
        ),
{
    use_laws::the_selected_worker_is_on_the_screen(app, i);
    let all = modals::history_modal_lines(
        area.width,
        app.workers[i].session_histories,
        app.selected_session,
    );
    assert(all.skip(0) =~= all);
    assert(all.skip(4) =~= modals::sessions_lines(
        app.workers[i].session_histories,
        app.selected_session,
    ));
}

} // verus!
