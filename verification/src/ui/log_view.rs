//! The log views.
use crate::model::{self, queue_lines};
use crate::text::{self, cat2, cat3, cat4, cat5, take_chars, usize_text};
use crate::ui::canvas::{
    self, drop_lines, push_line, push_texts, Cell, Color, Grid, GridView, Line, LineView,
    Panel, PanelView, Rect, Style, TableRow, TableRowView, Widget, WidgetView, Width, WrapMode,
};
use crate::ui::helpers::{self, centered_rect};
use crate::ui::types::{LogEntry, LogEntryView, StepStatus};
use std::collections::VecDeque;
use vstd::prelude::*;

verus! {

/// The title and the lines of a log window.
#[derive(Debug)]
pub struct LogModalData {
    pub title: String,
    pub lines: Vec<Line>,
}

/// What a [`LogModalData`] holds.
#[verifier::ext_equal]
pub struct LogModalDataView {
    pub title: Seq<char>,
    pub lines: Seq<LineView>,
}

impl DeepView for LogModalData {
    type V = LogModalDataView;

    open spec fn deep_view(&self) -> LogModalDataView {
        LogModalDataView {
            title: self.title@,
            lines: self.lines.deep_view(),
        }
    }
}

/// The mark for automatic scrolling.
pub open spec fn auto_scroll_mark(auto_scroll: bool) -> Seq<char> {
    if auto_scroll {
        "[Auto-scroll: ON]"@
    } else {
        "[Auto-scroll: OFF]"@
    }
}

fn auto_scroll_status(auto_scroll: bool) -> (r: &'static str)
    ensures
        r@ == auto_scroll_mark(auto_scroll),
{
    if auto_scroll {
        "[Auto-scroll: ON]"
    } else {
        "[Auto-scroll: OFF]"
    }
}

/// The lines of the raw log: those of the worker where one is selected, else the action log;
/// a notice where there are none.
pub open spec fn raw_log_lines(
    worker_logs: Option<Seq<Seq<char>>>,
    global_logs: Seq<Seq<char>>,
) -> Seq<Seq<char>> {
    match worker_logs {
        Some(logs) => if logs.len() == 0 {
            seq!["このワーカーのログはまだありません。"@]
        } else {
            logs
        },
        None => if global_logs.len() == 0 {
            seq!["アクションログはまだありません。"@]
        } else {
            global_logs
        },
    }
}

/// The first line that is shown: where the view has been scrolled to, but at least the last
/// line stays in view.
pub open spec fn first_shown(scroll: int, total: int) -> int {
    if scroll < total - 1 {
        scroll
    } else {
        total - 1
    }
}

/// The raw log from the line that it has been scrolled to.
pub open spec fn raw_log(
    worker_logs: Option<Seq<Seq<char>>>,
    global_logs: Seq<Seq<char>>,
    log_scroll: usize,
    auto_scroll: bool,
) -> LogModalDataView {
    let all = raw_log_lines(worker_logs, global_logs);
    let start = first_shown(log_scroll as int, all.len() as int);
    let base = if worker_logs is Some {
        "Worker Logs"@
    } else {
        "Action Logs"@
    };
    LogModalDataView {
        title: if all.len() > 1 {
            base + " (line "@ + (text::decimal((start + 1) as nat) + "/"@ + text::decimal(
                all.len(),
            ) + ") "@) + auto_scroll_mark(auto_scroll)
                + " [↑↓:scroll PgUp/PgDn:page Home/End:jump Shift+A:toggle]"@
        } else {
            base + " "@ + auto_scroll_mark(auto_scroll)
        },
        lines: canvas::text_lines(all.skip(start)),
    }
}

fn notice(text: &str) -> (r: Vec<String>)
    ensures
        r.deep_view() == seq![text@],
{
    let r = vec![text.to_owned()];
    assert(r.deep_view() =~= seq![text@]);
    r
}

/// Returns the raw log from the line that it has been scrolled to.
pub fn prepare_raw_log_data(
    worker_logs: Option<&VecDeque<String>>,
    global_logs: &VecDeque<String>,
    log_scroll: usize,
    auto_scroll: bool,
) -> (r: LogModalData)
    ensures
        r.deep_view() == raw_log(
            match worker_logs {
                Some(logs) => Some(model::queued(*logs)),
                None => None,
            },
            model::queued(*global_logs),
            log_scroll,
            auto_scroll,
        ),
{
    let (all, base) = match worker_logs {
        Some(logs) => {
            if logs.len() == 0 {
                (notice("このワーカーのログはまだありません。"), "Worker Logs")
            } else {
                (queue_lines(logs), "Worker Logs")
            }
        },
        None => {
            if global_logs.len() == 0 {
                (notice("アクションログはまだありません。"), "Action Logs")
            } else {
                (queue_lines(global_logs), "Action Logs")
            }
        },
    };
    let ghost view = all.deep_view();
    let mut all = all;
    let total: usize = all.len();
    assert(view.len() == total);
    let start: usize = if log_scroll < total - 1 {
        log_scroll
    } else {
        total - 1
    };
    let status = auto_scroll_status(auto_scroll);
    let title = if total > 1 {
        let place = cat4(usize_text(start + 1).as_str(), "/", usize_text(total).as_str(), ") ");
        cat5(
            base,
            " (line ",
            place.as_str(),
            status,
            " [↑↓:scroll PgUp/PgDn:page Home/End:jump Shift+A:toggle]",
        )
    } else {
        cat3(base, " ", status)
    };
    let shown = all.split_off(start);
    assert(shown.deep_view() =~= view.skip(start as int));
    let mut lines: Vec<Line> = Vec::new();
    push_texts(&mut lines, &shown);
    assert(lines.deep_view() =~= canvas::text_lines(view.skip(start as int)));
    LogModalData { title, lines }
}

/// The text of a step status.
pub open spec fn status_text(status: StepStatus) -> Seq<char> {
    match status {
        StepStatus::Running => "Running"@,
        StepStatus::Success => "✓ Success"@,
        StepStatus::Failed => "✗ Failed"@,
    }
}

/// A text of at most 60 characters; of a longer one, its start.
pub open spec fn summary_body(source: Seq<char>) -> Seq<char> {
    if source.len() > 60 {
        source.take(60) + "..."@
    } else {
        source
    }
}

/// The summary of a step: its first thought, else the first line of its result.
pub open spec fn summary(entry: LogEntryView) -> Seq<char> {
    if entry.thought_lines.len() > 0 {
        "🤔 "@ + summary_body(entry.thought_lines[0])
    } else if entry.result_lines.len() > 0 {
        ""@ + summary_body(entry.result_lines[0])
    } else {
        ""@ + summary_body("(no result)"@)
    }
}

/// The row of a step.
pub open spec fn overview_row(entry: LogEntryView, selected: bool) -> TableRowView {
    TableRowView {
        cells: canvas::text_cells(
            seq![
                text::decimal(entry.step_index as nat),
                entry.step_name,
                status_text(entry.status),
                summary(entry),
            ],
        ),
        style: if selected {
            Style::plain().on(Color::DarkGray)
        } else {
            Style::plain()
        },
        bottom_margin: 0,
    }
}

/// The step that is shown as selected: the last one where the selection is beyond it.
pub open spec fn safe_selection(selected: int, count: int) -> int {
    if selected < count - 1 {
        selected
    } else {
        count - 1
    }
}

/// The overview of the steps of a worker.
pub open spec fn overview(
    area: Rect,
    entries: Seq<LogEntryView>,
    selected_step: usize,
    auto_scroll: bool,
) -> WidgetView {
    if entries.len() == 0 {
        WidgetView::Panel(
            PanelView {
                area,
                clear: true,
                title: "Overview "@ + auto_scroll_mark(auto_scroll)
                    + " [Tab:switch tabs Shift+A:toggle]"@,
                wrap: WrapMode::Off,
                lines: seq![canvas::text_line("このワーカーにはまだステップログがありません。"@)],
            },
        )
    } else {
        let selected = safe_selection(selected_step as int, entries.len() as int);
        WidgetView::Grid(
            GridView {
                area,
                clear: true,
                title: "Overview "@ + auto_scroll_mark(auto_scroll)
                    + " [Tab:switch tabs | Enter:detail | j/k:select | Shift+A:toggle]"@,
                header: TableRowView {
                    cells: canvas::text_cells(seq!["#"@, "Step"@, "Status"@, "Summary"@]),
                    style: Style::plain().strong(),
                    bottom_margin: 1,
                },
                rows: Seq::new(
                    entries.len(),
                    |i: int| overview_row(entries[i], i == selected),
                ),
                widths: seq![
                    Width::Length(4),
                    Width::Length(20),
                    Width::Length(12),
                    Width::Min(30),
                ],
                highlight: Style::plain(),
            },
        )
    }
}

fn shorten(source: &str) -> (r: String)
    ensures
        r@ == summary_body(source@),
{
    if source.unicode_len() > 60 {
        cat2(take_chars(source, 60).as_str(), "...")
    } else {
        source.to_owned()
    }
}

fn summarize(entry: &LogEntry) -> (r: String)
    ensures
        r@ == summary(entry.deep_view()),
{
    if entry.thought_lines.len() > 0 {
        cat2("🤔 ", shorten(entry.thought_lines[0].as_str()).as_str())
    } else if entry.result_lines.len() > 0 {
        cat2("", shorten(entry.result_lines[0].as_str()).as_str())
    } else {
        cat2("", shorten("(no result)").as_str())
    }
}

fn row_of(entry: &LogEntry, selected: bool) -> (r: TableRow)
    ensures
        r.deep_view() == overview_row(entry.deep_view(), selected),
{
    let status = match entry.status {
        StepStatus::Running => "Running",
        StepStatus::Success => "✓ Success",
        StepStatus::Failed => "✗ Failed",
    };
    let plain = Style::new();
    let cells = vec![
        Cell::text(usize_text(entry.step_index).as_str(), plain),
        Cell::text(entry.step_name.as_str(), plain),
        Cell::text(status, plain),
        Cell::text(summarize(entry).as_str(), plain),
    ];
    assert(cells.deep_view() =~= overview_row(entry.deep_view(), selected).cells);
    TableRow {
        cells,
        style: if selected {
            plain.bg(Color::DarkGray)
        } else {
            plain
        },
        bottom_margin: 0,
    }
}

/// Returns the overview of the steps of a worker, in the middle of the screen.
pub fn render_overview_tab(
    screen: Rect,
    entries: &Vec<LogEntry>,
    selected_step: usize,
    auto_scroll: bool,
) -> (r: Widget)
    ensures
        exists|area: Rect|
            #[trigger] helpers::may_center(80, 60, screen, area) && r.deep_view() == overview(
                area,
                entries.deep_view(),
                selected_step,
                auto_scroll,
            ),
{
    let area = centered_rect(80, 60, screen);
    overview_in(area, entries, selected_step, auto_scroll)
}

/// Returns the overview of the steps of a worker.
pub fn overview_in(
    area: Rect,
    entries: &Vec<LogEntry>,
    selected_step: usize,
    auto_scroll: bool,
) -> (r: Widget)
    ensures
        r.deep_view() == overview(area, entries.deep_view(), selected_step, auto_scroll),
{
    let status = auto_scroll_status(auto_scroll);
    let ghost expected = overview(area, entries.deep_view(), selected_step, auto_scroll);
    if entries.len() == 0 {
        let lines = vec![Line::raw("このワーカーにはまだステップログがありません。")];
        assert(lines.deep_view() =~= expected->Panel_0.lines);
        let r = Widget::Panel(
            Panel {
                area,
                clear: true,
                title: cat3("Overview ", status, " [Tab:switch tabs Shift+A:toggle]"),
                wrap: WrapMode::Off,
                lines,
            },
        );
        return r;
    }
    let last: usize = entries.len() - 1;
    let selected: usize = if selected_step < last {
        selected_step
    } else {
        last
    };
    let plain = Style::new();
    let header = TableRow {
        cells: vec![
            Cell::text("#", plain),
            Cell::text("Step", plain),
            Cell::text("Status", plain),
            Cell::text("Summary", plain),
        ],
        style: plain.bold(),
        bottom_margin: 1,
    };
    assert(header.cells.deep_view() =~= expected->Grid_0.header.cells);
    let mut rows: Vec<TableRow> = Vec::new();
    let ghost all = expected->Grid_0.rows;
    for i in 0..entries.len()
        invariant
            rows.len() == i,
            all == Seq::new(
                entries.deep_view().len(),
                |i: int| overview_row(entries.deep_view()[i], i == selected),
            ),
            forall|j: int| 0 <= j < i ==> (#[trigger] rows@[j]).deep_view() == all[j],
    {
        rows.push(row_of(&entries[i], i == selected));
        assert(rows@[i as int].deep_view() == all[i as int]);
    }
    assert(rows.deep_view() =~= all);
    let widths = vec![Width::Length(4), Width::Length(20), Width::Length(12), Width::Min(30)];
    assert(widths@ =~= expected->Grid_0.widths);
    Widget::Grid(
        Grid {
            area,
            clear: true,
            title: cat3(
                "Overview ",
                status,
                " [Tab:switch tabs | Enter:detail | j/k:select | Shift+A:toggle]",
            ),
            header,
            rows,
            widths,
            highlight: plain,
        },
    )
}

/// A heading.
pub open spec fn heading(text: Seq<char>) -> LineView {
    canvas::styled_line(text, Style::plain().strong())
}

/// The lines of the detail of a step: prompt, thought where there is one, and result.
pub open spec fn detail_lines(entry: LogEntryView) -> Seq<LineView> {
    seq![
        canvas::text_line(
            "Step #"@ + text::decimal(entry.step_index as nat) + ": "@ + entry.step_name,
        ),
        canvas::text_line(""@),
        heading("─── Prompt ───"@),
    ] + canvas::text_lines(entry.prompt_lines) + seq![canvas::text_line(""@)] + (
    if entry.thought_lines.len() > 0 {
        seq![heading("─── Thought ───"@)] + canvas::text_lines(entry.thought_lines) + seq![
            canvas::text_line(""@),
        ]
    } else {
        seq![]
    }) + seq![heading("─── Result ───"@)] + canvas::text_lines(entry.result_lines)
}

/// The detail of a step, from the line that it has been scrolled to.
pub open spec fn detail(
    area: Rect,
    entry: LogEntryView,
    log_scroll: usize,
    auto_scroll: bool,
) -> WidgetView {
    WidgetView::Panel(
        PanelView {
            area,
            clear: true,
            title: "Detail - Step "@ + text::decimal(entry.step_index as nat) + " "@
                + auto_scroll_mark(auto_scroll)
                + " [Tab:switch tabs | Esc:back | ↑↓:scroll | Shift+A:toggle]"@,
            wrap: WrapMode::Keep,
            lines: canvas::dropped(detail_lines(entry), log_scroll as int),
        },
    )
}

fn lines_of_entry(entry: &LogEntry) -> (lines: Vec<Line>)
    ensures
        lines.deep_view() == detail_lines(entry.deep_view()),
{
    let strong = Style::new().bold();
    let mut lines: Vec<Line> = Vec::new();
    let ghost v = entry.deep_view();
    push_line(
        &mut lines,
        Line::raw(
            cat4(
                "Step #",
                usize_text(entry.step_index).as_str(),
                ": ",
                entry.step_name.as_str(),
            ).as_str(),
        ),
    );
    push_line(&mut lines, Line::raw(""));
    push_line(&mut lines, Line::styled("─── Prompt ───", strong));
    let ghost a = lines.deep_view();
    push_texts(&mut lines, &entry.prompt_lines);
    push_line(&mut lines, Line::raw(""));
    let ghost b = lines.deep_view();
    assert(b =~= a + canvas::text_lines(v.prompt_lines) + seq![canvas::text_line(""@)]);
    if entry.thought_lines.len() > 0 {
        push_line(&mut lines, Line::styled("─── Thought ───", strong));
        push_texts(&mut lines, &entry.thought_lines);
        push_line(&mut lines, Line::raw(""));
        assert(lines.deep_view() =~= b + (seq![heading("─── Thought ───"@)] + canvas::text_lines(
            v.thought_lines,
        ) + seq![canvas::text_line(""@)]));
    } else {
        assert(lines.deep_view() =~= b + Seq::<LineView>::empty());
    }
    let ghost c = lines.deep_view();
    push_line(&mut lines, Line::styled("─── Result ───", strong));
    assert(lines.deep_view() =~= c + seq![heading("─── Result ───"@)]);
    push_texts(&mut lines, &entry.result_lines);
    assert(a =~= detail_lines(v).take(3));
    lines
}

/// Returns the detail of a step, in the middle of the screen.
pub fn render_detail_tab(screen: Rect, entry: &LogEntry, log_scroll: usize, auto_scroll: bool) -> (
    r: Widget)
    ensures
        exists|area: Rect|
            #[trigger] helpers::may_center(80, 60, screen, area) && r.deep_view() == detail(
                area,
                entry.deep_view(),
                log_scroll,
                auto_scroll,
            ),
{
    let area = centered_rect(80, 60, screen);
    detail_in(area, entry, log_scroll, auto_scroll)
}

/// Returns the detail of a step.
pub fn detail_in(area: Rect, entry: &LogEntry, log_scroll: usize, auto_scroll: bool) -> (r: Widget)
    ensures
        r.deep_view() == detail(area, entry.deep_view(), log_scroll, auto_scroll),
{
    let lines = drop_lines(lines_of_entry(entry), log_scroll);
    let title = cat5(
        "Detail - Step ",
        usize_text(entry.step_index).as_str(),
        " ",
        auto_scroll_status(auto_scroll),
        " [Tab:switch tabs | Esc:back | ↑↓:scroll | Shift+A:toggle]",
    );
    Widget::Panel(Panel { area, clear: true, title, wrap: WrapMode::Keep, lines })
}

/// A window with a log.
pub open spec fn log_modal(area: Rect, title: Seq<char>, lines: Seq<LineView>) -> WidgetView {
    WidgetView::Panel(PanelView { area, clear: true, title, wrap: WrapMode::Off, lines })
}

/// Returns a window with a log.
pub fn render_log_modal(area: Rect, title: &str, lines: Vec<Line>) -> (r: Widget)
    ensures
        r.deep_view() == log_modal(area, title@, lines.deep_view()),
{
    Widget::Panel(
        Panel { area, clear: true, title: title.to_owned(), wrap: WrapMode::Off, lines },
    )
}

/// The raw log always shows at least one line, and never more than there are.
pub proof fn raw_log_shows_something(
    worker_logs: Option<Seq<Seq<char>>>,
    global_logs: Seq<Seq<char>>,
    log_scroll: usize,
    auto_scroll: bool,
)
    ensures
        1 <= raw_log(worker_logs, global_logs, log_scroll, auto_scroll).lines.len()
            <= raw_log_lines(worker_logs, global_logs).len(),
{
}

/// A summary has at most 63 characters before its mark.
pub proof fn summaries_are_short(source: Seq<char>)
    ensures
        summary_body(source).len() <= 63,
{
    reveal_strlit("...");
}

} // verus!
