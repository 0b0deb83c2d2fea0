//! The modal windows.
use crate::state::{SessionEvent, SessionEventView, SessionHistory, SessionHistoryView};
use crate::text::{
    self, cat2, cat3, cat5, chars_of, find_char, join, repeat_char, same, split_once,
    take_chars, usize_text,
};
use crate::ui::canvas::{
    self, drop_lines, push_line, Color, Line, LineView, Panel, PanelView, Rect, Span, SpanView,
    Style, Widget, WidgetView, WrapMode,
};
use crate::ui::helpers::{self, permission_mode_label};
use crate::ui::input::{self, input_line, push_typed};
use crate::ui::types::{tool_def, AVAILABLE_TOOLS};
use crate::worker::{
    ExistingWorktree, ExistingWorktreeView, PermissionDecision, PermissionDecisionView,
    PermissionRequest, PermissionRequestView,
};
use vstd::prelude::*;

verus! {

/// The text of a list of allowed tools.
pub open spec fn tools_text(tools: Option<Seq<Seq<char>>>) -> Seq<char> {
    match tools {
        None => "制限なし"@,
        Some(list) => if list.len() == 0 {
            "なし"@
        } else {
            text::joined(list, ", "@)
        },
    }
}

/// Returns the text of a list of allowed tools.
pub fn describe_allowed_tools(tools: &Option<Vec<String>>) -> (r: String)
    ensures
        r@ == tools_text(tools.deep_view()),
{
    match tools {
        None => "制限なし".to_owned(),
        Some(list) => {
            if list.len() == 0 {
                "なし".to_owned()
            } else {
                join(list, ", ")
            }
        },
    }
}

/// A text in a color.
pub open spec fn colored(color: Color) -> Style {
    Style::plain().colored(color)
}

/// A text in a color, in bold.
pub open spec fn bold(color: Color) -> Style {
    Style::plain().colored(color).strong()
}

fn in_color(color: Color) -> (r: Style)
    ensures
        r == colored(color),
{
    Style::new().fg(color)
}

fn in_bold(color: Color) -> (r: Style)
    ensures
        r == bold(color),
{
    Style::new().fg(color).bold()
}

/// A window that covers what is below it.
pub open spec fn modal(
    area: Rect,
    title: Seq<char>,
    wrap: WrapMode,
    lines: Seq<LineView>,
) -> WidgetView {
    WidgetView::Panel(PanelView { area, clear: true, title, wrap, lines })
}

fn modal_of(area: Rect, title: &str, wrap: WrapMode, lines: Vec<Line>) -> (r: Widget)
    ensures
        r.deep_view() == modal(area, title@, wrap, lines.deep_view()),
{
    Widget::Panel(Panel { area, clear: true, title: title.to_owned(), wrap, lines })
}

/// Two pieces of text: one as it comes, one in a style.
pub open spec fn labelled(label: Seq<char>, value: Seq<char>, style: Style) -> LineView {
    canvas::line_of(seq![canvas::raw(label), canvas::styled(value, style)])
}

fn label_line(label: &str, value: &str, style: Style) -> (r: Line)
    ensures
        r.deep_view() == labelled(label@, value@, style),
{
    let spans = vec![Span::raw(label), Span::styled(value, style)];
    assert(spans.deep_view() =~= seq![canvas::raw(label@), canvas::styled(value@, style)]);
    Line::from_spans(spans)
}

/// Returns a window with some lines.
pub fn render_modal(area: Rect, title: &str, lines: Vec<Line>) -> (r: Widget)
    ensures
        r.deep_view() == modal(area, title@, WrapMode::Trim, lines.deep_view()),
{
    modal_of(area, title, WrapMode::Trim, lines)
}

/// The color of a permission mode.
pub open spec fn mode_color(mode: Option<Seq<char>>) -> Color {
    if mode == Some("plan"@) {
        Color::Cyan
    } else if mode == Some("acceptEdits"@) {
        Color::Yellow
    } else {
        Color::Green
    }
}

fn color_of_mode(mode: &Option<String>) -> (r: Color)
    ensures
        r == mode_color(mode.deep_view()),
{
    match mode {
        Some(m) => {
            if same(m.as_str(), "plan") {
                Color::Cyan
            } else if same(m.as_str(), "acceptEdits") {
                Color::Yellow
            } else {
                Color::Green
            }
        },
        None => Color::Green,
    }
}

/// The lines of the window for a prompt.
pub open spec fn prompt_modal_lines(
    buffer: Seq<char>,
    cursor: usize,
    mode: Option<Seq<char>>,
    product: Seq<char>,
) -> Seq<LineView> {
    seq![
        canvas::text_line(
            "自由指示を入力してください (Enterで送信 / Escでキャンセル / Ctrl+Pでモード切替)"@,
        ),
        canvas::text_line(""@),
    ] + input::typed_lines(buffer, cursor as int, bold(Color::Yellow)) + seq![
        canvas::text_line(""@),
        labelled("モード: "@, helpers::mode_label(mode), bold(mode_color(mode))),
        canvas::text_line(product + "がheadlessモードで実行されます"@),
    ]
}

/// Returns the window for a prompt; `product` is the agent that it is for.
pub fn render_prompt_modal(
    area: Rect,
    buffer: &str,
    cursor: usize,
    permission_mode: &Option<String>,
    product: &str,
) -> (r: Widget)
    ensures
        r.deep_view() == modal(
            area,
            "Free Prompt"@,
            WrapMode::Keep,
            prompt_modal_lines(buffer@, cursor, permission_mode.deep_view(), product@),
        ),
{
    let mode = permission_mode_label(permission_mode);
    let color = color_of_mode(permission_mode);
    let mut lines = vec![
        Line::raw(
            "自由指示を入力してください (Enterで送信 / Escでキャンセル / Ctrl+Pでモード切替)",
        ),
        Line::raw(""),
    ];
    push_typed(&mut lines, buffer, cursor, in_bold(Color::Yellow));
    push_line(&mut lines, Line::raw(""));
    push_line(&mut lines, label_line("モード: ", mode, in_bold(color)));
    push_line(
        &mut lines,
        Line::raw(cat2(product, "がheadlessモードで実行されます").as_str()),
    );
    assert(lines.deep_view() =~= prompt_modal_lines(
        buffer@,
        cursor,
        permission_mode.deep_view(),
        product@,
    ));
    modal_of(area, "Free Prompt", WrapMode::Keep, lines)
}

/// Whether a decision allows everything as it is configured.
pub open spec fn plain_allow(decision: PermissionDecisionView) -> bool {
    decision == PermissionDecisionView::Allow { permission_mode: None, allowed_tools: None }
}

/// The style of an option.
pub open spec fn option_style(selected: bool) -> Style {
    if selected {
        Style::plain().colored(Color::Black).on(Color::Yellow).strong()
    } else {
        colored(Color::Gray)
    }
}

fn style_of_option(selected: bool) -> (r: Style)
    ensures
        r == option_style(selected),
{
    if selected {
        Style::new().fg(Color::Black).bg(Color::Yellow).bold()
    } else {
        in_color(Color::Gray)
    }
}

/// The lines of the window for a permission request.
pub open spec fn permission_modal_lines(
    worker_name: Seq<char>,
    request: PermissionRequestView,
    selection: PermissionDecisionView,
) -> Seq<LineView> {
    seq![
        canvas::styled_line("権限確認"@, bold(Color::Yellow)),
        canvas::text_line(""@),
        labelled("ワーカー: "@, worker_name, colored(Color::Cyan)),
        labelled("ステップ: "@, request.step_name, colored(Color::Green)),
        labelled(
            "説明: "@,
            match request.description {
                Some(d) => d,
                None => "このステップに進む前に権限が必要です"@,
            },
            Style::plain(),
        ),
        labelled(
            "権限モード: "@,
            helpers::mode_label(request.permission_mode),
            colored(Color::Yellow),
        ),
        labelled("許可ツール: "@, tools_text(request.allowed_tools), colored(Color::Cyan)),
        canvas::text_line(""@),
        canvas::line_of(
            seq![
                canvas::styled("許可する"@, option_style(plain_allow(selection))),
                canvas::raw("    "@),
                canvas::styled(
                    "拒否する"@,
                    option_style(selection == PermissionDecisionView::Deny),
                ),
            ],
        ),
        canvas::text_line(""@),
        canvas::text_line("←/→ で切替 • Enter/ Y = 許可 • Esc/ N = 拒否"@),
    ]
}

/// Returns the window for a permission request.
pub fn render_permission_modal(
    area: Rect,
    worker_name: &str,
    request: &PermissionRequest,
    selection: &PermissionDecision,
) -> (r: Widget)
    ensures
        r.deep_view() == modal(
            area,
            "Permission"@,
            WrapMode::Trim,
            permission_modal_lines(worker_name@, request.deep_view(), selection.deep_view()),
        ),
{
    let (allows, denies) = match selection {
        PermissionDecision::Allow { permission_mode, allowed_tools } => (
            match (permission_mode, allowed_tools) {
                (None, None) => true,
                _ => false,
            },
            false,
        ),
        PermissionDecision::Deny => (false, true),
    };
    let description = match &request.description {
        Some(d) => d.as_str(),
        None => "このステップに進む前に権限が必要です",
    };
    let options = vec![
        Span::styled("許可する", style_of_option(allows)),
        Span::raw("    "),
        Span::styled("拒否する", style_of_option(denies)),
    ];
    assert(options.deep_view() =~= permission_modal_lines(
        worker_name@,
        request.deep_view(),
        selection.deep_view(),
    )[8].spans);
    let lines = vec![
        Line::styled("権限確認", in_bold(Color::Yellow)),
        Line::raw(""),
        label_line("ワーカー: ", worker_name, in_color(Color::Cyan)),
        label_line("ステップ: ", request.step_name.as_str(), in_color(Color::Green)),
        label_line("説明: ", description, Style::new()),
        label_line(
            "権限モード: ",
            permission_mode_label(&request.permission_mode),
            in_color(Color::Yellow),
        ),
        label_line(
            "許可ツール: ",
            describe_allowed_tools(&request.allowed_tools).as_str(),
            in_color(Color::Cyan),
        ),
        Line::raw(""),
        Line::from_spans(options),
        Line::raw(""),
        Line::raw("←/→ で切替 • Enter/ Y = 許可 • Esc/ N = 拒否"),
    ];
    assert(lines.deep_view() =~= permission_modal_lines(
        worker_name@,
        request.deep_view(),
        selection.deep_view(),
    ));
    modal_of(area, "Permission", WrapMode::Trim, lines)
}

/// A line of a list: the selected one is marked.
pub open spec fn choice_line(content: Seq<char>, selected: bool) -> LineView {
    if selected {
        canvas::styled_line("> "@ + content, bold(Color::Yellow))
    } else {
        canvas::text_line(content)
    }
}

fn line_of_choice(content: &str, selected: bool) -> (r: Line)
    ensures
        r.deep_view() == choice_line(content@, selected),
{
    if selected {
        Line::styled(cat2("> ", content).as_str(), in_bold(Color::Yellow))
    } else {
        Line::raw(content)
    }
}

/// The lines of the window in which the way to a new worker is chosen.
pub open spec fn create_modal_lines(selected: usize, workflow_name: Seq<char>) -> Seq<LineView> {
    seq![
        canvas::text_line("ワーカーの作成方法を選択してください"@),
        canvas::text_line(""@),
        choice_line("  ワークフローを実行 ("@ + workflow_name + ")"@, selected == 0),
        choice_line("  自由入力でワーカーを作成"@, selected == 1),
        choice_line("  既存worktreeを使用"@, selected == 2),
        canvas::text_line(""@),
        canvas::text_line("↑↓: 選択移動  Enter: 決定  Esc: キャンセル"@),
    ]
}

/// Returns the window in which the way to a new worker is chosen.
pub fn render_create_selection_modal(area: Rect, selected: usize, workflow_name: &str) -> (r:
    Widget)
    ensures
        r.deep_view() == modal(
            area,
            "Create Worker"@,
            WrapMode::Keep,
            create_modal_lines(selected, workflow_name@),
        ),
{
    let lines = vec![
        Line::raw("ワーカーの作成方法を選択してください"),
        Line::raw(""),
        line_of_choice(
            cat3("  ワークフローを実行 (", workflow_name, ")").as_str(),
            selected == 0,
        ),
        line_of_choice("  自由入力でワーカーを作成", selected == 1),
        line_of_choice("  既存worktreeを使用", selected == 2),
        Line::raw(""),
        Line::raw("↑↓: 選択移動  Enter: 決定  Esc: キャンセル"),
    ];
    assert(lines.deep_view() =~= create_modal_lines(selected, workflow_name@));
    modal_of(area, "Create Worker", WrapMode::Keep, lines)
}

/// The text of a tool with its check mark.
pub open spec fn tool_text(idx: int, checked: bool) -> Seq<char> {
    (if checked {
        "[✓]"@
    } else {
        "[ ]"@
    }) + " "@ + AVAILABLE_TOOLS@[idx].0@ + "  - "@ + AVAILABLE_TOOLS@[idx].1@
}

/// Whether a tool is checked; tools that are not listed are not.
pub open spec fn is_checked(tools: Seq<bool>, idx: int) -> bool {
    idx < tools.len() && tools[idx]
}

/// The text of the permission mode that is to be granted.
pub open spec fn granted_mode_text(mode: Seq<char>) -> Seq<char> {
    "Permission Mode: "@ + (if mode == "acceptEdits"@ {
        "acceptEdits (編集承認)"@
    } else if mode == "bypassPermissions"@ {
        "bypassPermissions (制限なし)"@
    } else {
        mode
    })
}

/// The lines of the window in which tools are chosen.
pub open spec fn tool_modal_lines(
    tools: Seq<bool>,
    selected_idx: usize,
    permission_mode: Seq<char>,
) -> Seq<LineView> {
    seq![
        canvas::styled_line("ツール選択"@, bold(Color::Cyan)),
        canvas::text_line(""@),
        canvas::text_line("↑/↓: 移動  Space: 切替  Enter: 決定  Esc: キャンセル"@),
        canvas::text_line(""@),
    ] + Seq::new(
        AVAILABLE_TOOLS@.len(),
        |i: int| choice_line(tool_text(i, is_checked(tools, i)), i == selected_idx),
    ) + seq![
        canvas::text_line(""@),
        if selected_idx == AVAILABLE_TOOLS@.len() {
            canvas::styled_line(
                "> "@ + granted_mode_text(permission_mode) + " (Space で切替)"@,
                bold(Color::Yellow),
            )
        } else {
            canvas::text_line(granted_mode_text(permission_mode))
        },
    ]
}

/// Returns the window in which tools are chosen.
pub fn render_tool_selection_modal(
    area: Rect,
    tools: &Vec<bool>,
    selected_idx: usize,
    permission_mode: &str,
) -> (r: Widget)
    ensures
        r.deep_view() == modal(
            area,
            "Tool Selection"@,
            WrapMode::Keep,
            tool_modal_lines(tools@, selected_idx, permission_mode@),
        ),
{
    let mut lines = vec![
        Line::styled("ツール選択", in_bold(Color::Cyan)),
        Line::raw(""),
        Line::raw("↑/↓: 移動  Space: 切替  Enter: 決定  Esc: キャンセル"),
        Line::raw(""),
    ];
    let ghost head = lines.deep_view();
    let ghost all = Seq::new(
        AVAILABLE_TOOLS@.len(),
        |i: int| choice_line(tool_text(i, is_checked(tools@, i)), i == selected_idx),
    );
    assert(head + all.take(0) =~= head);
    let count: usize = AVAILABLE_TOOLS.len();
    for i in 0..count
        invariant
            count == AVAILABLE_TOOLS@.len(),
            all == Seq::new(
                AVAILABLE_TOOLS@.len(),
                |i: int| choice_line(tool_text(i, is_checked(tools@, i)), i == selected_idx),
            ),
            lines.deep_view() == head + all.take(i as int),
    {
        let tool = tool_def(i);
        let mark = if i < tools.len() && tools[i] {
            "[✓]"
        } else {
            "[ ]"
        };
        let content = cat5(mark, " ", tool.name, "  - ", tool.description);
        push_line(&mut lines, line_of_choice(content.as_str(), i == selected_idx));
        assert(all.take(i + 1) =~= all.take(i as int).push(all[i as int]));
        assert(lines.deep_view() =~= head + all.take(i + 1));
    }
    assert(all.take(count as int) =~= all);
    let mode = if same(permission_mode, "acceptEdits") {
        "acceptEdits (編集承認)"
    } else if same(permission_mode, "bypassPermissions") {
        "bypassPermissions (制限なし)"
    } else {
        permission_mode
    };
    let mode_text = cat2("Permission Mode: ", mode);
    push_line(&mut lines, Line::raw(""));
    if selected_idx == count {
        let content = cat3("> ", mode_text.as_str(), " (Space で切替)");
        push_line(&mut lines, Line::styled(content.as_str(), in_bold(Color::Yellow)));
    } else {
        push_line(&mut lines, Line::raw(mode_text.as_str()));
    }
    assert(lines.deep_view() =~= tool_modal_lines(tools@, selected_idx, permission_mode@));
    modal_of(area, "Tool Selection", WrapMode::Keep, lines)
}

/// The text of a worktree in a list.
pub open spec fn worktree_text(worktree: ExistingWorktreeView) -> Seq<char> {
    "  "@ + worktree.path + " (branch: "@ + worktree.branch + ")"@
}

/// The lines of the window in which a worktree is chosen.
pub open spec fn worktree_modal_lines(
    worktrees: Seq<ExistingWorktreeView>,
    selected: usize,
) -> Seq<LineView> {
    seq![canvas::text_line("既存のworktreeを選択してください"@), canvas::text_line(""@)]
        + Seq::new(
        worktrees.len(),
        |i: int| choice_line(worktree_text(worktrees[i]), i == selected),
    ) + seq![
        canvas::text_line(""@),
        canvas::text_line("↑↓: 選択移動  Enter: 決定  Esc: キャンセル"@),
    ]
}

/// Returns the window in which a worktree is chosen.
pub fn render_worktree_selection_modal(
    area: Rect,
    worktrees: &Vec<ExistingWorktree>,
    selected: usize,
) -> (r: Widget)
    ensures
        r.deep_view() == modal(
            area,
            "Select Worktree"@,
            WrapMode::Keep,
            worktree_modal_lines(worktrees.deep_view(), selected),
        ),
{
    let mut lines = vec![Line::raw("既存のworktreeを選択してください"), Line::raw("")];
    let ghost head = lines.deep_view();
    let ghost all = Seq::new(
        worktrees.deep_view().len(),
        |i: int| choice_line(worktree_text(worktrees.deep_view()[i]), i == selected),
    );
    assert(head + all.take(0) =~= head);
    for i in 0..worktrees.len()
        invariant
            all == Seq::new(
                worktrees.deep_view().len(),
                |i: int| choice_line(worktree_text(worktrees.deep_view()[i]), i == selected),
            ),
            lines.deep_view() == head + all.take(i as int),
    {
        let content = cat5(
            "  ",
            worktrees[i].path.as_str(),
            " (branch: ",
            worktrees[i].branch.as_str(),
            ")",
        );
        push_line(&mut lines, line_of_choice(content.as_str(), i == selected));
        assert(all.take(i + 1) =~= all.take(i as int).push(all[i as int]));
        assert(lines.deep_view() =~= head + all.take(i + 1));
    }
    assert(all.take(worktrees.len() as int) =~= all);
    push_line(&mut lines, Line::raw(""));
    push_line(&mut lines, Line::raw("↑↓: 選択移動  Enter: 決定  Esc: キャンセル"));
    assert(lines.deep_view() =~= worktree_modal_lines(worktrees.deep_view(), selected));
    modal_of(area, "Select Worktree", WrapMode::Keep, lines)
}

/// The line that says which names there are.
pub open spec fn name_hint() -> LineView {
    canvas::line_of(
        seq![
            canvas::styled("※"@, colored(Color::Gray)),
            canvas::styled(
                " 使用可能: 英数字、ハイフン、アンダースコア、日本語 (1-64文字)"@,
                colored(Color::Gray),
            ),
        ],
    )
}

fn hint_line() -> (r: Line)
    ensures
        r.deep_view() == name_hint(),
{
    let spans = vec![
        Span::styled("※", in_color(Color::Gray)),
        Span::styled(
            " 使用可能: 英数字、ハイフン、アンダースコア、日本語 (1-64文字)",
            in_color(Color::Gray),
        ),
    ];
    assert(spans.deep_view() =~= name_hint().spans);
    Line::from_spans(spans)
}

/// The lines of the window for the name of a new worker.
pub open spec fn name_modal_lines(
    buffer: Seq<char>,
    cursor: usize,
    workflow_name: Option<Seq<char>>,
) -> Seq<LineView> {
    seq![
        canvas::styled_line("Worker名を入力してください"@, bold(Color::Cyan)),
        canvas::text_line(""@),
        canvas::text_line(
            match workflow_name {
                Some(name) => "ワークフロー: "@ + name,
                None => "新規ワーカー"@,
            },
        ),
        canvas::text_line(""@),
        input::labelled_input("名前: "@, buffer, cursor as int, bold(Color::Yellow)),
        canvas::text_line(""@),
        canvas::text_line("Enter: 確定 / Esc: スキップ（デフォルト名を使用）"@),
        canvas::text_line(""@),
        name_hint(),
    ]
}

/// Returns the window for the name of a new worker.
pub fn render_name_input_modal(
    area: Rect,
    buffer: &str,
    cursor: usize,
    workflow_name: &Option<String>,
) -> (r: Widget)
    ensures
        r.deep_view() == modal(
            area,
            "Worker Name"@,
            WrapMode::Keep,
            name_modal_lines(buffer@, cursor, workflow_name.deep_view()),
        ),
{
    let workflow_text = match workflow_name {
        Some(name) => cat2("ワークフロー: ", name.as_str()),
        None => "新規ワーカー".to_owned(),
    };
    let lines = vec![
        Line::styled("Worker名を入力してください", in_bold(Color::Cyan)),
        Line::raw(""),
        Line::raw(workflow_text.as_str()),
        Line::raw(""),
        input_line("名前: ", buffer, cursor, in_bold(Color::Yellow)),
        Line::raw(""),
        Line::raw("Enter: 確定 / Esc: スキップ（デフォルト名を使用）"),
        Line::raw(""),
        hint_line(),
    ];
    assert(lines.deep_view() =~= name_modal_lines(buffer@, cursor, workflow_name.deep_view()));
    modal_of(area, "Worker Name", WrapMode::Keep, lines)
}

/// The lines of the window for another name of a worker.
pub open spec fn rename_modal_lines(
    buffer: Seq<char>,
    cursor: usize,
    current_name: Seq<char>,
) -> Seq<LineView> {
    seq![
        canvas::styled_line("Worker名を変更"@, bold(Color::Cyan)),
        canvas::text_line(""@),
        labelled("現在の名前: "@, current_name, colored(Color::Gray)),
        canvas::text_line(""@),
        input::labelled_input("新しい名前: "@, buffer, cursor as int, bold(Color::Yellow)),
        canvas::text_line(""@),
        canvas::text_line("Enter: 確定 / Esc: キャンセル"@),
        canvas::text_line(""@),
        name_hint(),
    ]
}

/// Returns the window for another name of a worker.
pub fn render_rename_worker_modal(
    area: Rect,
    buffer: &str,
    cursor: usize,
    current_name: &str,
) -> (r: Widget)
    ensures
        r.deep_view() == modal(
            area,
            "Rename Worker"@,
            WrapMode::Keep,
            rename_modal_lines(buffer@, cursor, current_name@),
        ),
{
    let lines = vec![
        Line::styled("Worker名を変更", in_bold(Color::Cyan)),
        Line::raw(""),
        label_line("現在の名前: ", current_name, in_color(Color::Gray)),
        Line::raw(""),
        input_line("新しい名前: ", buffer, cursor, in_bold(Color::Yellow)),
        Line::raw(""),
        Line::raw("Enter: 確定 / Esc: キャンセル"),
        Line::raw(""),
        hint_line(),
    ];
    assert(lines.deep_view() =~= rename_modal_lines(buffer@, cursor, current_name@));
    modal_of(area, "Rename Worker", WrapMode::Keep, lines)
}

/// A text of at most `max` characters; of a longer one, its start and dots, or as many dots
/// as there is room for.
pub open spec fn truncated(s: Seq<char>, max: int) -> Seq<char> {
    if s.len() <= max {
        s
    } else if max >= 3 {
        s.take(max - 3) + "..."@
    } else {
        "..."@.take(max)
    }
}

/// Returns a text of at most `max_len` characters; of a longer one, its start and dots, or as
/// many dots as there is room for.
pub fn truncate_string(s: &str, max_len: usize) -> (r: String)
    ensures
        r@ == truncated(s@, max_len as int),
{
    proof {
        reveal_strlit("...");
    }
    if s.unicode_len() <= max_len {
        s.to_owned()
    } else if max_len >= 3 {
        cat2(take_chars(s, max_len - 3).as_str(), "...")
    } else {
        take_chars("...", max_len)
    }
}

/// A truncated text has at most the given number of characters, and a text that fits is not
/// changed.
pub proof fn truncation_is_short(s: Seq<char>, max: int)
    requires
        max >= 0,
    ensures
        truncated(s, max).len() <= max,
        s.len() <= max ==> truncated(s, max) == s,
{
    reveal_strlit("...");
}

/// What stands before the first `c`, all of the text where there is none.
pub open spec fn before_char(s: Seq<char>, c: char) -> Seq<char> {
    s.take(text::position(s, c))
}

/// The time of day in a timestamp, without fractions of a second; the timestamp itself where
/// it has no time of day.
pub open spec fn time_of_day(timestamp: Seq<char>) -> Seq<char> {
    match text::split_at(timestamp, 'T') {
        Some((_, rest)) => before_char(before_char(rest, 'T'), '.'),
        None => timestamp,
    }
}

fn text_before(s: &str, c: char) -> (r: String)
    ensures
        r@ == before_char(s@, c),
{
    let n: usize = find_char(&chars_of(s), c);
    take_chars(s, n)
}

/// Returns the time of day in a timestamp.
pub fn format_timestamp(timestamp: &str) -> (r: String)
    ensures
        r@ == time_of_day(timestamp@),
{
    match split_once(timestamp, 'T') {
        Some((_, rest)) => {
            let time = text_before(rest.as_str(), 'T');
            text_before(time.as_str(), '.')
        },
        None => timestamp.to_owned(),
    }
}

/// The end of the line of an event: when it happened.
pub open spec fn at_time(timestamp: Seq<char>) -> Seq<SpanView> {
    seq![
        canvas::raw(" @ "@),
        canvas::styled(time_of_day(timestamp), colored(Color::Gray)),
    ]
}

/// The line of an event.
pub open spec fn event_line(event: SessionEventView) -> LineView {
    canvas::line_of(
        match event {
            SessionEventView::ToolUse { name, timestamp, .. } => seq![
                canvas::raw("    🔧 "@),
                canvas::styled(name, colored(Color::Blue)),
            ] + at_time(timestamp),
            SessionEventView::AssistantMessage { text, timestamp } => seq![
                canvas::raw("    💬 "@),
                canvas::styled(truncated(text, 50), colored(Color::White)),
            ] + at_time(timestamp),
            SessionEventView::ThinkingBlock { timestamp, .. } => seq![
                canvas::raw("    💭 "@),
                canvas::styled("Thinking..."@, colored(Color::Magenta)),
            ] + at_time(timestamp),
            SessionEventView::Result { text, is_error, timestamp } => seq![
                canvas::raw(
                    "    "@ + (if is_error {
                        "❌"@
                    } else {
                        "✅"@
                    }) + " "@,
                ),
                canvas::styled(
                    truncated(text, 50),
                    colored(
                        if is_error {
                            Color::Red
                        } else {
                            Color::Green
                        },
                    ),
                ),
            ] + at_time(timestamp),
            SessionEventView::Error { message, timestamp } => seq![
                canvas::raw("    ⚠️  "@),
                canvas::styled(truncated(message, 50), colored(Color::Red)),
            ] + at_time(timestamp),
            SessionEventView::ToolResult { name, timestamp, .. } => seq![
                canvas::raw("    ✓  "@),
                canvas::styled(name + " result"@, colored(Color::Green)),
            ] + at_time(timestamp),
        },
    )
}

fn spans_at(first: &str, content: &str, color: Color, timestamp: &str) -> (r: Line)
    ensures
        r.deep_view() == canvas::line_of(
            seq![canvas::raw(first@), canvas::styled(content@, colored(color))] + at_time(
                timestamp@,
            ),
        ),
{
    let spans = vec![
        Span::raw(first),
        Span::styled(content, in_color(color)),
        Span::raw(" @ "),
        Span::styled(format_timestamp(timestamp).as_str(), in_color(Color::Gray)),
    ];
    assert(spans.deep_view() =~= seq![canvas::raw(first@), canvas::styled(content@, colored(color))]
        + at_time(timestamp@));
    Line::from_spans(spans)
}

fn line_of_event(event: &SessionEvent) -> (r: Line)
    ensures
        r.deep_view() == event_line(event.deep_view()),
{
    match event {
        SessionEvent::ToolUse { name, timestamp, .. } => spans_at(
            "    🔧 ",
            name.as_str(),
            Color::Blue,
            timestamp.as_str(),
        ),
        SessionEvent::AssistantMessage { text, timestamp } => spans_at(
            "    💬 ",
            truncate_string(text.as_str(), 50).as_str(),
            Color::White,
            timestamp.as_str(),
        ),
        SessionEvent::ThinkingBlock { timestamp, .. } => spans_at(
            "    💭 ",
            "Thinking...",
            Color::Magenta,
            timestamp.as_str(),
        ),
        SessionEvent::Result { text, is_error, timestamp } => {
            let (icon, color) = if *is_error {
                ("❌", Color::Red)
            } else {
                ("✅", Color::Green)
            };
            spans_at(
                cat3("    ", icon, " ").as_str(),
                truncate_string(text.as_str(), 50).as_str(),
                color,
                timestamp.as_str(),
            )
        },
        SessionEvent::Error { message, timestamp } => spans_at(
            "    ⚠️  ",
            truncate_string(message.as_str(), 50).as_str(),
            Color::Red,
            timestamp.as_str(),
        ),
        SessionEvent::ToolResult { name, timestamp, .. } => spans_at(
            "    ✓  ",
            cat2(name.as_str(), " result").as_str(),
            Color::Green,
            timestamp.as_str(),
        ),
    }
}

/// The first lines of a session: when it ran and what it was about.
pub open spec fn session_head(idx: int, session: SessionHistoryView, selected: bool) -> Seq<
    LineView,
> {
    let header = "Session #"@ + text::decimal((idx + 1) as nat) + " ["@ + text::first_chars(
        session.session_id,
        8,
    ) + "]"@;
    seq![
        canvas::text_line(""@),
        if selected {
            canvas::styled_line("> "@ + header, bold(Color::Yellow))
        } else {
            canvas::styled_line(header, colored(Color::Cyan))
        },
        labelled("  開始: "@, session.started_at, colored(Color::Green)),
    ] + (match session.ended_at {
        Some(ended) => seq![labelled("  終了: "@, ended, colored(Color::Green))],
        None => seq![],
    }) + seq![
        labelled("  プロンプト: "@, truncated(session.prompt, 60), colored(Color::White)),
        labelled(
            "  ツール使用: "@,
            text::decimal(session.total_tool_uses as nat) + " 回"@,
            colored(Color::Magenta),
        ),
    ]
}

/// The line of a changed file.
pub open spec fn file_line(path: Seq<char>) -> LineView {
    labelled("    "@, truncated(path, 50), colored(Color::Gray))
}

/// The lines of the changed files of a session: how many there are, the first three, and how
/// many are left out.
pub open spec fn session_files(files: Seq<Seq<char>>) -> Seq<LineView> {
    if files.len() == 0 {
        seq![]
    } else {
        let shown = if files.len() > 3 {
            3
        } else {
            files.len() as int
        };
        seq![
            labelled(
                "  編集ファイル: "@,
                text::decimal(files.len()) + " 件"@,
                colored(Color::Yellow),
            ),
        ] + Seq::new(shown as nat, |i: int| file_line(files[i])) + (if files.len() > 3 {
            seq![
                labelled(
                    "    "@,
                    "... あと "@ + text::decimal((files.len() - 3) as nat) + " 件"@,
                    colored(Color::Gray),
                ),
            ]
        } else {
            seq![]
        })
    }
}

/// The lines of the events of a session: the first ten, and how many are left out.
pub open spec fn session_events(events: Seq<SessionEventView>) -> Seq<LineView> {
    let shown = if events.len() > 10 {
        10
    } else {
        events.len() as int
    };
    seq![
        canvas::text_line(""@),
        canvas::styled_line("  イベント:"@, colored(Color::Cyan)),
    ] + Seq::new(shown as nat, |i: int| event_line(events[i])) + (if events.len() > 10 {
        seq![
            labelled(
                "    "@,
                "... あと "@ + text::decimal((events.len() - 10) as nat) + " イベント"@,
                colored(Color::Gray),
            ),
        ]
    } else {
        seq![]
    })
}

/// The lines of a session; its events are shown where it is selected.
pub open spec fn session_lines(idx: int, session: SessionHistoryView, selected: bool) -> Seq<
    LineView,
> {
    session_head(idx, session, selected) + session_files(session.files_modified) + (if selected {
        session_events(session.events)
    } else {
        seq![]
    })
}

/// The lines of some sessions.
pub open spec fn sessions_lines(sessions: Seq<SessionHistoryView>, selected: usize) -> Seq<
    LineView,
>
    decreases sessions.len(),
{
    if sessions.len() == 0 {
        seq![]
    } else {
        sessions_lines(sessions.drop_last(), selected) + session_lines(
            sessions.len() - 1,
            sessions.last(),
            sessions.len() - 1 == selected,
        )
    }
}

/// All lines of the window for session histories.
pub open spec fn history_modal_lines(
    width: u16,
    sessions: Seq<SessionHistoryView>,
    selected: usize,
) -> Seq<LineView> {
    seq![
        canvas::styled_line("Session History"@, bold(Color::Cyan)),
        canvas::text_line(""@),
        canvas::text_line("↑/↓: スクロール  j/k: セッション選択  q/Esc: 閉じる"@),
        canvas::text_line(text::repeated('━', width as nat)),
    ] + (if sessions.len() == 0 {
        seq![
            canvas::text_line(""@),
            canvas::styled_line("セッション履歴がありません"@, colored(Color::Gray)),
        ]
    } else {
        sessions_lines(sessions, selected)
    })
}

fn push_session_head(lines: &mut Vec<Line>, idx: usize, session: &SessionHistory, selected: bool)
    requires
        idx < usize::MAX,
    ensures
        final(lines).deep_view() == old(lines).deep_view() + session_head(
            idx as int,
            session.deep_view(),
            selected,
        ),
{
    let ghost before = lines.deep_view();
    let id = take_chars(session.session_id.as_str(), 8);
    let header = cat5("Session #", usize_text(idx + 1).as_str(), " [", id.as_str(), "]");
    push_line(lines, Line::raw(""));
    if selected {
        let marked = cat2("> ", header.as_str());
        push_line(lines, Line::styled(marked.as_str(), in_bold(Color::Yellow)));
    } else {
        push_line(lines, Line::styled(header.as_str(), in_color(Color::Cyan)));
    }
    push_line(
        lines,
        label_line("  開始: ", session.started_at.as_str(), in_color(Color::Green)),
    );
    if let Some(ended) = &session.ended_at {
        push_line(lines, label_line("  終了: ", ended.as_str(), in_color(Color::Green)));
    }
    push_line(
        lines,
        label_line(
            "  プロンプト: ",
            truncate_string(session.prompt.as_str(), 60).as_str(),
            in_color(Color::White),
        ),
    );
    let uses = cat2(usize_text(session.total_tool_uses).as_str(), " 回");
    push_line(lines, label_line("  ツール使用: ", uses.as_str(), in_color(Color::Magenta)));
    assert(lines.deep_view() =~= before + session_head(
        idx as int,
        session.deep_view(),
        selected,
    ));
}

fn push_session_files(lines: &mut Vec<Line>, files: &Vec<String>)
    ensures
        final(lines).deep_view() == old(lines).deep_view() + session_files(files.deep_view()),
{
    let ghost before = lines.deep_view();
    let count: usize = files.len();
    if count == 0 {
        assert(lines.deep_view() =~= before + Seq::<LineView>::empty());
        return ;
    }
    let total = cat2(usize_text(count).as_str(), " 件");
    push_line(lines, label_line("  編集ファイル: ", total.as_str(), in_color(Color::Yellow)));
    let ghost head = lines.deep_view();
    let shown: usize = if count > 3 {
        3
    } else {
        count
    };
    let ghost all = Seq::new(shown as nat, |i: int| file_line(files.deep_view()[i]));
    assert(head + all.take(0) =~= head);
    for i in 0..shown
        invariant
            shown <= files.len(),
            all == Seq::new(shown as nat, |i: int| file_line(files.deep_view()[i])),
            lines.deep_view() == head + all.take(i as int),
    {
        let path = truncate_string(files[i].as_str(), 50);
        push_line(lines, label_line("    ", path.as_str(), in_color(Color::Gray)));
        assert(all.take(i + 1) =~= all.take(i as int).push(all[i as int]));
        assert(lines.deep_view() =~= head + all.take(i + 1));
    }
    assert(all.take(shown as int) =~= all);
    if count > 3 {
        let rest = cat3("... あと ", usize_text(count - 3).as_str(), " 件");
        push_line(lines, label_line("    ", rest.as_str(), in_color(Color::Gray)));
    }
    assert(lines.deep_view() =~= before + session_files(files.deep_view()));
}

fn push_session_events(lines: &mut Vec<Line>, events: &Vec<SessionEvent>)
    ensures
        final(lines).deep_view() == old(lines).deep_view() + session_events(events.deep_view()),
{
    let ghost before = lines.deep_view();
    let count: usize = events.len();
    push_line(lines, Line::raw(""));
    push_line(lines, Line::styled("  イベント:", in_color(Color::Cyan)));
    let ghost head = lines.deep_view();
    let shown: usize = if count > 10 {
        10
    } else {
        count
    };
    let ghost all = Seq::new(shown as nat, |i: int| event_line(events.deep_view()[i]));
    assert(head + all.take(0) =~= head);
    for i in 0..shown
        invariant
            shown <= events.len(),
            all == Seq::new(shown as nat, |i: int| event_line(events.deep_view()[i])),
            lines.deep_view() == head + all.take(i as int),
    {
        push_line(lines, line_of_event(&events[i]));
        assert(all.take(i + 1) =~= all.take(i as int).push(all[i as int]));
        assert(lines.deep_view() =~= head + all.take(i + 1));
    }
    assert(all.take(shown as int) =~= all);
    if count > 10 {
        let rest = cat3("... あと ", usize_text(count - 10).as_str(), " イベント");
        push_line(lines, label_line("    ", rest.as_str(), in_color(Color::Gray)));
    }
    assert(lines.deep_view() =~= before + session_events(events.deep_view()));
}

fn push_session(lines: &mut Vec<Line>, idx: usize, session: &SessionHistory, selected: bool)
    requires
        idx < usize::MAX,
    ensures
        final(lines).deep_view() == old(lines).deep_view() + session_lines(
            idx as int,
            session.deep_view(),
            selected,
        ),
{
    let ghost before = lines.deep_view();
    push_session_head(lines, idx, session, selected);
    push_session_files(lines, &session.files_modified);
    if selected {
        push_session_events(lines, &session.events);
    }
    assert(lines.deep_view() =~= before + session_lines(
        idx as int,
        session.deep_view(),
        selected,
    ));
}

/// Returns the window for session histories, from the line that it has been scrolled to.
pub fn render_session_history_modal(
    area: Rect,
    sessions: &Vec<SessionHistory>,
    selected_session: usize,
    scroll: usize,
) -> (r: Widget)
    ensures
        r.deep_view() == modal(
            area,
            "Session History"@,
            WrapMode::Keep,
            canvas::dropped(
                history_modal_lines(area.width, sessions.deep_view(), selected_session),
                scroll as int,
            ),
        ),
{
    let mut lines = vec![
        Line::styled("Session History", in_bold(Color::Cyan)),
        Line::raw(""),
        Line::raw("↑/↓: スクロール  j/k: セッション選択  q/Esc: 閉じる"),
        Line::raw(repeat_char('━', area.width as usize).as_str()),
    ];
    let ghost head = lines.deep_view();
    let ghost all = sessions.deep_view();
    if sessions.len() == 0 {
        push_line(&mut lines, Line::raw(""));
        push_line(
            &mut lines,
            Line::styled("セッション履歴がありません", in_color(Color::Gray)),
        );
    } else {
        assert(all.take(0) =~= seq![]);
        assert(head + sessions_lines(all.take(0), selected_session) =~= head);
        for i in 0..sessions.len()
            invariant
                all == sessions.deep_view(),
                lines.deep_view() == head + sessions_lines(all.take(i as int), selected_session),
        {
            assert(all.take(i + 1).drop_last() =~= all.take(i as int));
            push_session(&mut lines, i, &sessions[i], i == selected_session);
            assert(lines.deep_view() =~= head + sessions_lines(
                all.take(i + 1),
                selected_session,
            ));
        }
        assert(all.take(sessions.len() as int) =~= all);
    }
    assert(lines.deep_view() =~= history_modal_lines(area.width, all, selected_session));
    modal_of(area, "Session History", WrapMode::Keep, drop_lines(lines, scroll))
}

} // verus!
