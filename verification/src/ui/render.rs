//! The main window: header, table of workers, footer and help.
use crate::text::{self, cat2, cat3, cat6, chars_of, usize_text};
use crate::ui::canvas::{
    self, Cell, CellContentView, CellView, Color, Grid, GridView, Line, LineView, Panel, PanelView,
    Rect, Span, SpanView, Style, TableRow, TableRowView, Widget, WidgetView, Width, WrapMode,
};
use crate::ui::helpers::{self, status_color};
use crate::worker::{WorkerSnapshot, WorkerSnapshotView, WorkerStatus};
use vstd::prelude::*;

verus! {

/// A window that leaves what is below it.
pub open spec fn pane(area: Rect, title: Seq<char>, lines: Seq<LineView>) -> WidgetView {
    WidgetView::Panel(PanelView { area, clear: false, title, wrap: WrapMode::Off, lines })
}

/// The line of the header.
pub open spec fn header_line(
    total_workers: usize,
    filter_label: Seq<char>,
    workflow_name: Seq<char>,
) -> LineView {
    canvas::line_of(
        seq![
            canvas::styled("Gensui"@, Style::plain().colored(Color::Cyan).strong()),
            canvas::raw(" – multi-worker dashboard  "@),
            canvas::raw(
                "Workers: "@ + text::decimal(total_workers as nat) + "  Filter: "@ + filter_label
                    + "  Workflow: "@ + workflow_name,
            ),
        ],
    )
}

/// Returns the header.
pub fn render_header(
    area: Rect,
    total_workers: usize,
    filter_label: &str,
    workflow_name: &str,
) -> (r: Widget)
    ensures
        r.deep_view() == pane(
            area,
            "Overview"@,
            seq![header_line(total_workers, filter_label@, workflow_name@)],
        ),
{
    let spans = vec![
        Span::styled("Gensui", Style::new().fg(Color::Cyan).bold()),
        Span::raw(" – multi-worker dashboard  "),
        Span::raw(
            cat6(
                "Workers: ",
                usize_text(total_workers).as_str(),
                "  Filter: ",
                filter_label,
                "  Workflow: ",
                workflow_name,
            ).as_str(),
        ),
    ];
    assert(spans.deep_view() =~= header_line(total_workers, filter_label@, workflow_name@).spans);
    let lines = vec![Line::from_spans(spans)];
    assert(lines.deep_view() =~= seq![header_line(total_workers, filter_label@, workflow_name@)]);
    Widget::Panel(
        Panel { area, clear: false, title: "Overview".to_owned(), wrap: WrapMode::Off, lines },
    )
}

/// The pictures of the spinner.
pub const SPINNER_CHARS: [&'static str; 10] = [
    "⠋",
    "⠙",
    "⠹",
    "⠸",
    "⠼",
    "⠴",
    "⠦",
    "⠧",
    "⠇",
    "⠏",
];

/// The pictures that twinkle before the last event.
pub const SPARKLES: [&'static str; 4] = ["✨", "💫", "⭐", "🌟"];

/// The colors that run through the texts of a running worker.
pub const RAINBOW_COLORS: [Color; 12] = [
    Color::Red,
    Color::LightRed,
    Color::Yellow,
    Color::LightYellow,
    Color::Green,
    Color::LightGreen,
    Color::Cyan,
    Color::LightCyan,
    Color::Blue,
    Color::LightBlue,
    Color::Magenta,
    Color::LightMagenta,
];

/// The style of a character of a running worker.
pub open spec fn rainbow_style(frame: usize, char_idx: int, selected: bool) -> Style {
    let color = RAINBOW_COLORS@[(frame as int / 3 + char_idx / 2) % 12];
    let style = Style::plain().colored(color).strong();
    if selected {
        style.on(Color::DarkGray)
    } else {
        style
    }
}

/// A text of a running worker: each character in a color of its own.
pub open spec fn rainbow(content: Seq<char>, frame: usize, selected: bool) -> Seq<SpanView> {
    if content.len() == 0 {
        seq![canvas::raw(""@)]
    } else {
        Seq::new(
            content.len(),
            |i: int| canvas::styled(seq![content[i]], rainbow_style(frame, i, selected)),
        )
    }
}

fn rainbow_spans(content: &str, frame: usize, selected: bool) -> (spans: Vec<Span>)
    ensures
        spans.deep_view() == rainbow(content@, frame, selected),
{
    let chars = chars_of(content);
    if chars.len() == 0 {
        let spans = vec![Span::raw("")];
        assert(spans.deep_view() =~= seq![canvas::raw(""@)]);
        return spans;
    }
    let colors = RAINBOW_COLORS;
    let slow: usize = frame / 3;
    let mut spans: Vec<Span> = Vec::new();
    for i in 0..chars.len()
        invariant
            chars@ == content@,
            colors@ == RAINBOW_COLORS@,
            slow == frame / 3,
            spans.len() == i,
            forall|j: int|
                0 <= j < i ==> (#[trigger] spans@[j]).deep_view() == canvas::styled(
                    seq![content@[j]],
                    rainbow_style(frame, j, selected),
                ),
    {
        let idx: usize = (slow + i / 2) % 12;
        let mut style = Style::new().fg(colors[idx]).bold();
        if selected {
            style = style.bg(Color::DarkGray);
        }
        let mut letter = String::new();
        letter.push(chars[i]);
        assert(letter@ =~= seq![content@[i as int]]);
        let span = Span { content: letter, style };
        assert(span.deep_view() == canvas::styled(
            seq![content@[i as int]],
            rainbow_style(frame, i as int, selected),
        ));
        spans.push(span);
    }
    assert(spans.deep_view() =~= rainbow(content@, frame, selected));
    spans
}

/// A cell with a line.
pub open spec fn line_cell(spans: Seq<SpanView>) -> CellView {
    CellView {
        content: CellContentView::Styled(canvas::line_of(spans)),
        style: Style::plain(),
    }
}

/// The spinner picture of a frame.
pub open spec fn spinner(frame: usize) -> Seq<char> {
    SPINNER_CHARS@[frame as int % 10]@
}

/// The twinkle before the last event.
pub open spec fn sparkle(frame: usize, selected: bool) -> SpanView {
    canvas::styled(
        SPARKLES@[frame as int / 10 % 4]@ + " "@,
        if selected {
            Style::plain().on(Color::DarkGray)
        } else {
            Style::plain()
        },
    )
}

/// The step that a worker is at.
pub open spec fn step_text(worker: WorkerSnapshotView) -> Seq<char> {
    match worker.current_step {
        Some(step) => step,
        None => if worker.total_steps > 0 {
            "0/"@ + text::decimal(worker.total_steps as nat) + " steps"@
        } else {
            "-"@
        },
    }
}

/// The style of the row of a worker that is not running.
pub open spec fn row_style(status: WorkerStatus, selected: bool) -> Style {
    let style = Style::plain().colored(helpers::color_of(status));
    if selected {
        style.on(Color::DarkGray).colored(Color::White)
    } else {
        style
    }
}

/// The row of a worker: a running one is animated.
pub open spec fn worker_row(worker: WorkerSnapshotView, selected: bool, frame: usize) -> TableRowView {
    let running = worker.status == WorkerStatus::Running;
    let name = if running {
        line_cell(rainbow(worker.name, frame, selected))
    } else {
        canvas::text_cell(worker.name, Style::plain())
    };
    let status = if running {
        line_cell(rainbow(spinner(frame) + " "@ + worker.status.text(), frame, selected))
    } else {
        canvas::text_cell(worker.status.text(), Style::plain())
    };
    let last_event = if running {
        line_cell(
            seq![sparkle(frame, selected)] + rainbow(worker.last_event, frame, selected),
        )
    } else {
        canvas::text_cell(worker.last_event, Style::plain())
    };
    let other = if running && selected {
        Style::plain().on(Color::DarkGray)
    } else {
        Style::plain()
    };
    TableRowView {
        cells: seq![
            name,
            canvas::text_cell(
                match worker.issue {
                    Some(issue) => issue,
                    None => "Unassigned"@,
                },
                other,
            ),
            canvas::text_cell(worker.workflow, other),
            canvas::text_cell(step_text(worker), other),
            canvas::text_cell(worker.agent, other),
            canvas::text_cell(worker.worktree, other),
            canvas::text_cell(worker.branch, other),
            status,
            last_event,
        ],
        style: if running {
            Style::plain()
        } else {
            row_style(worker.status, selected)
        },
        bottom_margin: 0,
    }
}

/// The table of workers.
pub open spec fn worker_table(
    area: Rect,
    workers: Seq<(usize, WorkerSnapshotView)>,
    selected: usize,
    frame: usize,
) -> WidgetView {
    WidgetView::Grid(
        GridView {
            area,
            clear: false,
            title: "Workers"@,
            header: TableRowView {
                cells: canvas::text_cells(
                    seq![
                        "NAME"@,
                        "ISSUE"@,
                        "WORKFLOW"@,
                        "STEP"@,
                        "AGENT"@,
                        "WORKTREE"@,
                        "BRANCH"@,
                        "STATUS"@,
                        "LAST EVENT"@,
                    ],
                ),
                style: Style::plain().strong(),
                bottom_margin: 0,
            },
            rows: Seq::new(
                workers.len(),
                |i: int| worker_row(workers[i].1, i == selected, frame),
            ),
            widths: seq![
                Width::Length(12),
                Width::Length(10),
                Width::Length(14),
                Width::Length(18),
                Width::Length(20),
                Width::Length(24),
                Width::Length(20),
                Width::Length(10),
                Width::Min(24),
            ],
            highlight: Style { reversed: true, ..Style::plain() },
        },
    )
}

fn step_of(worker: &WorkerSnapshot) -> (r: String)
    ensures
        r@ == step_text(worker.deep_view()),
{
    match &worker.current_step {
        Some(step) => step.clone(),
        None => {
            if worker.total_steps > 0 {
                cat3("0/", usize_text(worker.total_steps).as_str(), " steps")
            } else {
                "-".to_owned()
            }
        },
    }
}

/// The cells of a worker that show what it is doing: name, status and last event.
fn lively_cells(worker: &WorkerSnapshot, selected: bool, frame: usize) -> (r: (Cell, Cell, Cell))
    ensures
        r.0.deep_view() == worker_row(worker.deep_view(), selected, frame).cells[0],
        r.1.deep_view() == worker_row(worker.deep_view(), selected, frame).cells[7],
        r.2.deep_view() == worker_row(worker.deep_view(), selected, frame).cells[8],
{
    let plain = Style::new();
    if worker.status == WorkerStatus::Running {
        let spinners = SPINNER_CHARS;
        let status = cat3(spinners[frame % 10], " ", worker.status.label());
        let sparkles = SPARKLES;
        let twinkle = cat2(sparkles[frame / 10 % 4], " ");
        let twinkle_style = if selected {
            plain.bg(Color::DarkGray)
        } else {
            plain
        };
        let mut event = vec![Span::styled(twinkle.as_str(), twinkle_style)];
        let ghost head = event.deep_view();
        assert(head =~= seq![sparkle(frame, selected)]);
        let mut rest = rainbow_spans(worker.last_event.as_str(), frame, selected);
        let ghost tail = rest.deep_view();
        event.append(&mut rest);
        assert(event.deep_view() =~= head + tail);
        (
            Cell::line(
                Line::from_spans(rainbow_spans(worker.name.as_str(), frame, selected)),
            ),
            Cell::line(Line::from_spans(rainbow_spans(status.as_str(), frame, selected))),
            Cell::line(Line::from_spans(event)),
        )
    } else {
        (
            Cell::text(worker.name.as_str(), plain),
            Cell::text(worker.status.label(), plain),
            Cell::text(worker.last_event.as_str(), plain),
        )
    }
}

fn row_of(worker: &WorkerSnapshot, selected: bool, frame: usize) -> (r: TableRow)
    ensures
        r.deep_view() == worker_row(worker.deep_view(), selected, frame),
{
    let plain = Style::new();
    let running = worker.status == WorkerStatus::Running;
    let (name, status, last_event) = lively_cells(worker, selected, frame);
    let other = if running && selected {
        plain.bg(Color::DarkGray)
    } else {
        plain
    };
    let issue = match &worker.issue {
        Some(issue) => issue.as_str(),
        None => "Unassigned",
    };
    let cells = vec![
        name,
        Cell::text(issue, other),
        Cell::text(worker.workflow.as_str(), other),
        Cell::text(step_of(worker).as_str(), other),
        Cell::text(worker.agent.as_str(), other),
        Cell::text(worker.worktree.as_str(), other),
        Cell::text(worker.branch.as_str(), other),
        status,
        last_event,
    ];
    assert(cells.deep_view() =~= worker_row(worker.deep_view(), selected, frame).cells);
    let style = if running {
        plain
    } else if selected {
        plain.fg(status_color(worker.status)).bg(Color::DarkGray).fg(Color::White)
    } else {
        plain.fg(status_color(worker.status))
    };
    TableRow { cells, style, bottom_margin: 0 }
}

fn header_row() -> (r: TableRow)
    ensures
        r.deep_view() == worker_table(Rect { x: 0, y: 0, width: 0, height: 0 }, seq![], 0, 0)->Grid_0.header,
{
    let plain = Style::new();
    let cells = vec![
        Cell::text("NAME", plain),
        Cell::text("ISSUE", plain),
        Cell::text("WORKFLOW", plain),
        Cell::text("STEP", plain),
        Cell::text("AGENT", plain),
        Cell::text("WORKTREE", plain),
        Cell::text("BRANCH", plain),
        Cell::text("STATUS", plain),
        Cell::text("LAST EVENT", plain),
    ];
    assert(cells.deep_view() =~= worker_table(
        Rect { x: 0, y: 0, width: 0, height: 0 },
        seq![],
        0,
        0,
    )->Grid_0.header.cells);
    TableRow { cells, style: plain.bold(), bottom_margin: 0 }
}

/// Returns the table of workers, each with its number.
pub fn render_table(
    area: Rect,
    workers: &Vec<(usize, &WorkerSnapshot)>,
    selected: usize,
    animation_frame: usize,
) -> (r: Widget)
    ensures
        r.deep_view() == worker_table(area, workers.deep_view(), selected, animation_frame),
{
    let ghost expected = worker_table(area, workers.deep_view(), selected, animation_frame);
    let ghost all = expected->Grid_0.rows;
    let mut rows: Vec<TableRow> = Vec::new();
    for i in 0..workers.len()
        invariant
            rows.len() == i,
            all == Seq::new(
                workers.deep_view().len(),
                |i: int| worker_row(workers.deep_view()[i].1, i == selected, animation_frame),
            ),
            forall|j: int| 0 <= j < i ==> (#[trigger] rows@[j]).deep_view() == all[j],
    {
        let row = row_of(workers[i].1, i == selected, animation_frame);
        assert(workers.deep_view()[i as int].1 == workers@[i as int].1.deep_view());
        assert(row.deep_view() == all[i as int]);
        rows.push(row);
    }
    assert(rows.deep_view() =~= all);
    let widths = vec![
        Width::Length(12),
        Width::Length(10),
        Width::Length(14),
        Width::Length(18),
        Width::Length(20),
        Width::Length(24),
        Width::Length(20),
        Width::Length(10),
        Width::Min(24),
    ];
    assert(widths@ =~= expected->Grid_0.widths);
    let highlight = Style { fg: None, bg: None, bold: false, reversed: true };
    Widget::Grid(
        Grid {
            area,
            clear: false,
            title: "Workers".to_owned(),
            header: header_row(),
            rows,
            widths,
            highlight,
        },
    )
}

/// A key in the footer.
pub open spec fn key_span(name: Seq<char>) -> SpanView {
    canvas::styled(name, Style::plain().colored(Color::Cyan))
}

/// The first line of the footer.
pub open spec fn footer_keys() -> LineView {
    canvas::line_of(
        seq![
            key_span("q"@),
            canvas::raw(" quit  "@),
            key_span("c"@),
            canvas::raw(" create  "@),
            key_span("d"@),
            canvas::raw(" delete  "@),
            key_span("r"@),
            canvas::raw(" restart  "@),
            key_span("n"@),
            canvas::raw(" rename  "@),
            key_span("a"@),
            canvas::raw(" filter  "@),
            key_span("w"@),
            canvas::raw(" workflow  "@),
            key_span("h"@),
            canvas::raw(" help  "@),
            key_span("l"@),
            canvas::raw(" logs"@),
        ],
    )
}

/// The second line of the footer.
pub open spec fn footer_prompt(workflow_name: Seq<char>) -> LineView {
    canvas::line_of(
        seq![
            key_span("i"@),
            canvas::raw(": send prompt (or continue if worker selected) | "@),
            canvas::raw("Active workflow: "@),
            canvas::styled(workflow_name, Style::plain().colored(Color::Magenta)),
        ],
    )
}

fn key(name: &str) -> (r: Span)
    ensures
        r.deep_view() == key_span(name@),
{
    Span::styled(name, Style::new().fg(Color::Cyan))
}

/// Returns the footer.
pub fn render_footer(area: Rect, workflow_name: &str) -> (r: Widget)
    ensures
        r.deep_view() == pane(
            area,
            "Controls"@,
            seq![footer_keys(), footer_prompt(workflow_name@)],
        ),
{
    let keys = vec![
        key("q"),
        Span::raw(" quit  "),
        key("c"),
        Span::raw(" create  "),
        key("d"),
        Span::raw(" delete  "),
        key("r"),
        Span::raw(" restart  "),
        key("n"),
        Span::raw(" rename  "),
        key("a"),
        Span::raw(" filter  "),
        key("w"),
        Span::raw(" workflow  "),
        key("h"),
        Span::raw(" help  "),
        key("l"),
        Span::raw(" logs"),
    ];
    assert(keys.deep_view() =~= footer_keys().spans);
    let prompt = vec![
        key("i"),
        Span::raw(": send prompt (or continue if worker selected) | "),
        Span::raw("Active workflow: "),
        Span::styled(workflow_name, Style::new().fg(Color::Magenta)),
    ];
    assert(prompt.deep_view() =~= footer_prompt(workflow_name@).spans);
    let lines = vec![Line::from_spans(keys), Line::from_spans(prompt)];
    assert(lines.deep_view() =~= seq![footer_keys(), footer_prompt(workflow_name@)]);
    Widget::Panel(
        Panel { area, clear: false, title: "Controls".to_owned(), wrap: WrapMode::Off, lines },
    )
}

/// The help.
pub open spec fn help_text(product: Seq<char>) -> Seq<LineView> {
    seq![
        canvas::text_line("MVP ショートカット"@),
        canvas::text_line(""@),
        canvas::text_line("c – ワーカーを作成（ワークフロー or 自由入力を選択）"@),
        canvas::text_line("d – ワーカー停止と worktree 削除（アーカイブは状態削除のみ）"@),
        canvas::text_line("r – ワーカーを再起動（アーカイブは不可）"@),
        canvas::text_line("n – ワーカー名を変更"@),
        canvas::text_line("i – 自由指示を送信（ワーカー選択時は追加指示、アーカイブは不可）"@),
        canvas::text_line("a – ステータスフィルタを切り替え"@),
        canvas::text_line("w – 使用するワークフローを切り替え"@),
        canvas::text_line("j/k または ↑/↓ – 選択移動 (ログ表示時はスクロール)"@),
        canvas::text_line("PgUp/PgDn – ログを10行スクロール"@),
        canvas::text_line("Home/End – ログの先頭/末尾へジャンプ"@),
        canvas::text_line("l – 選択ワーカーのログを表示"@),
        canvas::text_line("s – 選択ワーカーのセッション履歴を表示"@),
        canvas::text_line("h – このヘルプを表示"@),
        canvas::text_line("Shift+C – アクションログを圧縮"@),
        canvas::text_line(
            "Shift+I – インタラクティブ"@ + product + "起動（権限を手動承認可能）"@,
        ),
        canvas::text_line("Shift+A – ログの自動スクロールON/OFF切替"@),
        canvas::text_line("q – 終了"@),
        canvas::text_line(""@),
        canvas::text_line("入力モーダル操作:"@),
        canvas::text_line("  プロンプト入力: Enter で送信 / Ctrl+J で改行 / Esc でキャンセル"@),
        canvas::text_line("  名前入力/変更: Enter で確定 / Esc でキャンセル"@),
        canvas::text_line("  矢印キー/Home/End でカーソル移動、複数行入力可能"@),
        canvas::text_line(""@),
        canvas::text_line("ステータス: Running/Idle/Paused/Failed/Archived(青=履歴)"@),
    ]
}

/// Returns the help; `product` is the agent that it speaks of.
pub fn help_lines(product: &str) -> (r: Vec<Line>)
    ensures
        r.deep_view() == help_text(product@),
{
    let r = vec![
        Line::raw("MVP ショートカット"),
        Line::raw(""),
        Line::raw("c – ワーカーを作成（ワークフロー or 自由入力を選択）"),
        Line::raw("d – ワーカー停止と worktree 削除（アーカイブは状態削除のみ）"),
        Line::raw("r – ワーカーを再起動（アーカイブは不可）"),
        Line::raw("n – ワーカー名を変更"),
        Line::raw("i – 自由指示を送信（ワーカー選択時は追加指示、アーカイブは不可）"),
        Line::raw("a – ステータスフィルタを切り替え"),
        Line::raw("w – 使用するワークフローを切り替え"),
        Line::raw("j/k または ↑/↓ – 選択移動 (ログ表示時はスクロール)"),
        Line::raw("PgUp/PgDn – ログを10行スクロール"),
        Line::raw("Home/End – ログの先頭/末尾へジャンプ"),
        Line::raw("l – 選択ワーカーのログを表示"),
        Line::raw("s – 選択ワーカーのセッション履歴を表示"),
        Line::raw("h – このヘルプを表示"),
        Line::raw("Shift+C – アクションログを圧縮"),
        Line::raw(
            cat3("Shift+I – インタラクティブ", product, "起動（権限を手動承認可能）").as_str(),
        ),
        Line::raw("Shift+A – ログの自動スクロールON/OFF切替"),
        Line::raw("q – 終了"),
        Line::raw(""),
        Line::raw("入力モーダル操作:"),
        Line::raw("  プロンプト入力: Enter で送信 / Ctrl+J で改行 / Esc でキャンセル"),
        Line::raw("  名前入力/変更: Enter で確定 / Esc でキャンセル"),
        Line::raw("  矢印キー/Home/End でカーソル移動、複数行入力可能"),
        Line::raw(""),
        Line::raw("ステータス: Running/Idle/Paused/Failed/Archived(青=履歴)"),
    ];
    assert(r.deep_view() =~= help_text(product@));
    r
}

/// The texts of a running worker are shown whole, character by character.
pub proof fn rainbow_shows_text(content: Seq<char>, frame: usize, selected: bool, i: int)
    requires
        0 <= i < content.len(),
    ensures
        rainbow(content, frame, selected).len() == content.len(),
        rainbow(content, frame, selected)[i].content == seq![content[i]],
{
}

} // verus!
