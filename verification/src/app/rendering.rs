//! What the dashboard shows.
use crate::app::types::{InputMode, InputModeView};
use crate::app::{self, find_view, App, AppView};
use crate::state::SessionHistory;
use crate::ui::canvas::{self, divide, Direction, Line, Rect, Share, Widget, WidgetView, WrapMode};
use crate::ui::helpers::{self, centered_rect};
use crate::ui::log_view::{
    self, detail_in, overview_in, prepare_raw_log_data, render_log_modal, LogModalData,
    LogModalDataView,
};
use crate::ui::modals::{
    self, render_create_selection_modal, render_modal, render_name_input_modal,
    render_permission_modal, render_prompt_modal, render_rename_worker_modal,
    render_session_history_modal, render_tool_selection_modal, render_worktree_selection_modal,
};
use crate::ui::render::{self, help_lines, render_footer, render_header, render_table};
use crate::ui::types::LogViewMode;
use crate::worker::{WorkerSnapshot, WorkerSnapshotView};
use vstd::prelude::*;

verus! {

/// A window over the table of workers.
#[derive(Debug, Clone, Copy, PartialEq, Eq, Structural)]
pub enum Window {
    Log,
    Help,
    SessionHistory,
    Permission,
    Input,
}

impl AppView {
    /// What the filter is called.
    pub open spec fn filter_label(self) -> Seq<char> {
        match self.status_filter {
            Some(status) => status.text(),
            None => "All"@,
        }
    }

    /// The header.
    pub open spec fn header(self, area: Rect) -> WidgetView {
        render::pane(
            area,
            "Overview"@,
            seq![
                render::header_line(
                    self.workers.len() as usize,
                    self.filter_label(),
                    self.workflow_name(),
                ),
            ],
        )
    }

    /// The visible workers, each with its place.
    pub open spec fn shown_workers(self) -> Seq<(usize, WorkerSnapshotView)> {
        Seq::new(
            self.visible().len(),
            |i: int| (self.visible()[i], self.workers[self.visible()[i] as int].snapshot),
        )
    }

    /// The table of workers.
    pub open spec fn table(self, area: Rect) -> WidgetView {
        render::worker_table(area, self.shown_workers(), self.selected, self.animation_frame)
    }

    /// The footer.
    pub open spec fn footer(self, area: Rect) -> WidgetView {
        render::pane(
            area,
            "Controls"@,
            seq![render::footer_keys(), render::footer_prompt(self.workflow_name())],
        )
    }

    /// The raw log: of the selected worker, else of the actions.
    pub open spec fn raw_log(self) -> LogModalDataView {
        log_view::raw_log(
            match self.selected_worker() {
                Some(worker) => Some(worker.logs),
                None => None,
            },
            self.log_messages,
            self.log_scroll,
            self.auto_scroll_logs,
        )
    }

    /// Whether an input mode has something to show: a new name can be typed only for a worker
    /// that is there.
    pub open spec fn input_shown(self) -> bool {
        match self.input_mode {
            Some(InputModeView::RenameWorker { worker_id, .. }) => self.find(worker_id) is Some,
            Some(_) => true,
            None => false,
        }
    }

    /// Whether a window is open.
    pub open spec fn shows(self, window: Window) -> bool {
        match window {
            Window::Log => self.show_logs,
            Window::Help => self.show_help,
            Window::SessionHistory => self.show_session_history,
            Window::Permission => self.permission_prompt is Some,
            Window::Input => self.input_shown(),
        }
    }

    /// A window where it is open.
    pub open spec fn if_open(self, window: Window) -> Seq<Window> {
        if self.shows(window) {
            seq![window]
        } else {
            seq![]
        }
    }

    /// The open windows, from the back to the front.
    pub open spec fn windows(self) -> Seq<Window> {
        self.if_open(Window::Log) + self.if_open(Window::Help) + self.if_open(
            Window::SessionHistory,
        ) + self.if_open(Window::Permission) + self.if_open(Window::Input)
    }

    /// The size of an input window, in percent of the screen.
    pub open spec fn input_size(self) -> (u16, u16) {
        match self.input_mode {
            Some(InputModeView::FreePrompt { .. }) => (70, 30),
            Some(InputModeView::WorktreeSelection { .. }) => (70, 50),
            Some(InputModeView::ToolSelection { .. }) => (70, 60),
            _ => (60, 40),
        }
    }

    /// The size of a window, in percent of the screen.
    pub open spec fn window_size(self, window: Window) -> (u16, u16) {
        match window {
            Window::Log => if self.log_view_mode == LogViewMode::Raw {
                (70, 45)
            } else {
                (80, 60)
            },
            Window::Help => (60, 50),
            Window::SessionHistory => (85, 80),
            Window::Permission => (70, 45),
            Window::Input => self.input_size(),
        }
    }

    /// The log window.
    pub open spec fn log_window(self, area: Rect) -> WidgetView {
        match self.log_view_mode {
            LogViewMode::Overview => match self.selected_worker() {
                Some(worker) => log_view::overview(
                    area,
                    worker.structured_logs,
                    self.selected_step,
                    self.auto_scroll_logs,
                ),
                None => log_view::log_modal(area, self.raw_log().title, self.raw_log().lines),
            },
            LogViewMode::Detail => match self.selected_worker() {
                Some(worker) => if self.selected_step < worker.structured_logs.len() {
                    log_view::detail(
                        area,
                        worker.structured_logs[self.selected_step as int],
                        self.log_scroll,
                        self.auto_scroll_logs,
                    )
                } else {
                    log_view::log_modal(
                        area,
                        "Detail"@,
                        seq![canvas::text_line("選択されたステップが見つかりません。"@)],
                    )
                },
                None => log_view::log_modal(
                    area,
                    "Detail"@,
                    seq![canvas::text_line("ワーカーが選択されていません。"@)],
                ),
            },
            LogViewMode::Raw => modals::modal(
                area,
                self.raw_log().title,
                WrapMode::Trim,
                self.raw_log().lines,
            ),
        }
    }

    /// The window of an input mode.
    pub open spec fn input_window(self, mode: InputModeView, area: Rect) -> WidgetView {
        match mode {
            InputModeView::FreePrompt { buffer, cursor, permission_mode, .. } => modals::modal(
                area,
                "Free Prompt"@,
                WrapMode::Keep,
                modals::prompt_modal_lines(buffer, cursor, permission_mode, self.product.name),
            ),
            InputModeView::CreateWorkerSelection { selected } => modals::modal(
                area,
                "Create Worker"@,
                WrapMode::Keep,
                modals::create_modal_lines(selected, self.workflow_name()),
            ),
            InputModeView::WorktreeSelection { worktrees, selected } => modals::modal(
                area,
                "Select Worktree"@,
                WrapMode::Keep,
                modals::worktree_modal_lines(worktrees, selected),
            ),
            InputModeView::ToolSelection { tools, selected_idx, permission_mode, .. } =>
                modals::modal(
                area,
                "Tool Selection"@,
                WrapMode::Keep,
                modals::tool_modal_lines(tools, selected_idx, permission_mode),
            ),
            InputModeView::NameInput { buffer, cursor, workflow_name, .. } => modals::modal(
                area,
                "Worker Name"@,
                WrapMode::Keep,
                modals::name_modal_lines(buffer, cursor, workflow_name),
            ),
            InputModeView::RenameWorker { buffer, cursor, worker_id } => modals::modal(
                area,
                "Rename Worker"@,
                WrapMode::Keep,
                modals::rename_modal_lines(
                    buffer,
                    cursor,
                    self.workers[self.find(worker_id)->0].snapshot.name,
                ),
            ),
        }
    }

    /// A window.
    pub open spec fn window(self, window: Window, area: Rect) -> WidgetView {
        match window {
            Window::Log => self.log_window(area),
            Window::Help => modals::modal(area, "Help"@, WrapMode::Trim, render::help_text(self.product.name)),
            Window::SessionHistory => modals::modal(
                area,
                "Session History"@,
                WrapMode::Keep,
                canvas::dropped(
                    modals::history_modal_lines(
                        area.width,
                        self.selected_histories(),
                        self.selected_session,
                    ),
                    self.session_history_scroll as int,
                ),
            ),
            Window::Permission => {
                let prompt = self.permission_prompt->0;
                modals::modal(
                    area,
                    "Permission"@,
                    WrapMode::Trim,
                    modals::permission_modal_lines(
                        prompt.worker_name,
                        prompt.request,
                        prompt.selection,
                    ),
                )
            },
            Window::Input => self.input_window(self.input_mode->0, area),
        }
    }

    /// The dashboard with its panes and its windows in the given areas.
    pub open spec fn drawn(self, panes: Seq<Rect>, areas: Seq<Rect>) -> Seq<WidgetView> {
        seq![self.header(panes[0]), self.table(panes[1]), self.footer(panes[2])] + Seq::new(
            self.windows().len(),
            |i: int| self.window(self.windows()[i], areas[i]),
        )
    }

    /// Whether areas are such as the screen may be divided into: three panes from top to
    /// bottom, and the windows in the middle.
    pub open spec fn laid_out(self, screen: Rect, panes: Seq<Rect>, areas: Seq<Rect>) -> bool {
        &&& panes.len() == 3
        &&& canvas::may_divide(
            Direction::Vertical,
            screen,
            seq![Share::Length(3), Share::Min(8), Share::Length(5)],
            panes,
        )
        &&& areas.len() == self.windows().len()
        &&& forall|i: int|
            0 <= i < areas.len() ==> helpers::may_center(
                self.window_size(self.windows()[i]).0,
                self.window_size(self.windows()[i]).1,
                screen,
                #[trigger] areas[i],
            ) && areas[i].within(screen)
    }
}

/// What takes the keys is shown in front: a permission request over everything but an input
/// window, and an input window over everything. No window is shown that is not open.
pub proof fn front_window_takes_keys(app: AppView)
    ensures
        app.input_shown() ==> app.windows().len() > 0 && app.windows().last() == Window::Input,
        !app.input_shown() && app.permission_prompt is Some ==> app.windows().len() > 0
            && app.windows().last() == Window::Permission,
        forall|i: int| 0 <= i < app.windows().len() ==> app.shows(#[trigger] app.windows()[i]),
{
}

impl App {
    fn add_window(&self, windows: &mut Vec<Window>, window: Window, open: bool)
        requires
            open == self.deep_view().shows(window),
        ensures
            final(windows)@ == old(windows)@ + self.deep_view().if_open(window),
    {
        if open {
            windows.push(window);
        }
    }

    /// Returns the open windows, from the back to the front.
    pub fn open_windows(&self) -> (r: Vec<Window>)
        ensures
            r@ == self.deep_view().windows(),
    {
        let input = match &self.input_mode {
            Some(InputMode::RenameWorker { worker_id, .. }) => {
                find_view(&self.workers, *worker_id).is_some()
            },
            Some(_) => true,
            None => false,
        };
        let mut windows: Vec<Window> = Vec::new();
        self.add_window(&mut windows, Window::Log, self.show_logs);
        self.add_window(&mut windows, Window::Help, self.show_help);
        self.add_window(&mut windows, Window::SessionHistory, self.show_session_history);
        self.add_window(&mut windows, Window::Permission, self.permission_prompt.is_some());
        self.add_window(&mut windows, Window::Input, input);
        windows
    }

    fn size_of_window(&self, window: Window) -> (r: (u16, u16))
        ensures
            r == self.deep_view().window_size(window),
            r.0 <= 100,
            r.1 <= 100,
    {
        match window {
            Window::Log => if self.log_view_mode == LogViewMode::Raw {
                (70, 45)
            } else {
                (80, 60)
            },
            Window::Help => (60, 50),
            Window::SessionHistory => (85, 80),
            Window::Permission => (70, 45),
            Window::Input => match &self.input_mode {
                Some(InputMode::FreePrompt { .. }) => (70, 30),
                Some(InputMode::WorktreeSelection { .. }) => (70, 50),
                Some(InputMode::ToolSelection { .. }) => (70, 60),
                _ => (60, 40),
            },
        }
    }

    /// Returns the help.
    pub fn help_lines(&self) -> (r: Vec<Line>)
        ensures
            r.deep_view() == render::help_text(self.deep_view().product.name),
    {
        help_lines(self.product.name.as_str())
    }

    fn log_modal_data(&self) -> (r: LogModalData)
        ensures
            r.deep_view() == self.deep_view().raw_log(),
    {
        let logs = match self.selected_worker_view() {
            Some(view) => Some(&view.logs),
            None => None,
        };
        prepare_raw_log_data(logs, &self.log_messages, self.log_scroll, self.auto_scroll_logs)
    }

    fn render_header(&self, area: Rect) -> (r: Widget)
        ensures
            r.deep_view() == self.deep_view().header(area),
    {
        let label = match self.status_filter {
            Some(status) => status.label(),
            None => "All",
        };
        render_header(area, self.workers.len(), label, self.current_workflow_name())
    }

    fn render_table(&self, area: Rect) -> (r: Widget)
        ensures
            r.deep_view() == self.deep_view().table(area),
    {
        let visible = self.visible_indices();
        let ghost app = self.deep_view();
        let ghost expected = app.shown_workers();
        let mut workers: Vec<(usize, &WorkerSnapshot)> = Vec::new();
        for i in 0..visible.len()
            invariant
                app == self.deep_view(),
                visible@ == app.visible(),
                forall|j: int|
                    0 <= j < visible.len() ==> (#[trigger] visible@[j]) < self.workers.len(),
                expected == app.shown_workers(),
                workers.len() == i,
                forall|j: int|
                    0 <= j < i ==> (#[trigger] workers@[j]).0 == expected[j].0
                        && workers@[j].1.deep_view() == expected[j].1,
        {
            let place: usize = visible[i];
            assert(self.workers.deep_view()[place as int]
                == self.workers@[place as int].deep_view());
            workers.push((place, &self.workers[place].snapshot));
        }
        assert(workers.deep_view() =~= expected);
        render_table(area, &workers, self.selected, self.animation_frame)
    }

    fn render_footer(&self, area: Rect) -> (r: Widget)
        ensures
            r.deep_view() == self.deep_view().footer(area),
    {
        render_footer(area, self.current_workflow_name())
    }

    fn render_log_window(&self, area: Rect) -> (r: Widget)
        ensures
            r.deep_view() == self.deep_view().log_window(area),
    {
        match self.log_view_mode {
            LogViewMode::Overview => match self.selected_worker_view() {
                Some(view) => overview_in(
                    area,
                    &view.structured_logs,
                    self.selected_step,
                    self.auto_scroll_logs,
                ),
                None => {
                    let data = self.log_modal_data();
                    render_log_modal(area, data.title.as_str(), data.lines)
                },
            },
            LogViewMode::Detail => {
                let missing = match self.selected_worker_view() {
                    Some(view) => {
                        if self.selected_step < view.structured_logs.len() {
                            return detail_in(
                                area,
                                &view.structured_logs[self.selected_step],
                                self.log_scroll,
                                self.auto_scroll_logs,
                            );
                        }
                        "選択されたステップが見つかりません。"
                    },
                    None => "ワーカーが選択されていません。",
                };
                let lines = vec![Line::raw(missing)];
                assert(lines.deep_view() =~= seq![canvas::text_line(missing@)]);
                render_log_modal(area, "Detail", lines)
            },
            LogViewMode::Raw => {
                let data = self.log_modal_data();
                render_modal(area, data.title.as_str(), data.lines)
            },
        }
    }

    fn render_input_window(&self, mode: &InputMode, area: Rect) -> (r: Widget)
        requires
            self.deep_view().input_mode == Some(mode.deep_view()),
            self.deep_view().input_shown(),
        ensures
            r.deep_view() == self.deep_view().input_window(mode.deep_view(), area),
    {
        match mode {
            InputMode::FreePrompt { buffer, cursor, permission_mode, .. } => render_prompt_modal(
                area,
                buffer.as_str(),
                *cursor,
                permission_mode,
                self.product.name.as_str(),
            ),
            InputMode::CreateWorkerSelection { selected } => render_create_selection_modal(
                area,
                *selected,
                self.current_workflow_name(),
            ),
            InputMode::WorktreeSelection { worktrees, selected } => {
                render_worktree_selection_modal(area, worktrees, *selected)
            },
            InputMode::ToolSelection { tools, selected_idx, permission_mode, .. } => {
                render_tool_selection_modal(area, tools, *selected_idx, permission_mode.as_str())
            },
            InputMode::NameInput { buffer, cursor, workflow_name, .. } => render_name_input_modal(
                area,
                buffer.as_str(),
                *cursor,
                workflow_name,
            ),
            InputMode::RenameWorker { buffer, cursor, worker_id } => {
                let name = match find_view(&self.workers, *worker_id) {
                    Some(i) => self.workers[i].snapshot.name.as_str(),
                    None => "",
                };
                render_rename_worker_modal(area, buffer.as_str(), *cursor, name)
            },
        }
    }

    fn render_history_window(&self, area: Rect) -> (r: Widget)
        ensures
            r.deep_view() == self.deep_view().window(Window::SessionHistory, area),
    {
        match self.selected_worker_view() {
            Some(view) => render_session_history_modal(
                area,
                &view.session_histories,
                self.selected_session,
                self.session_history_scroll,
            ),
            None => {
                let none: Vec<SessionHistory> = Vec::new();
                assert(none.deep_view() =~= self.deep_view().selected_histories());
                render_session_history_modal(
                    area,
                    &none,
                    self.selected_session,
                    self.session_history_scroll,
                )
            },
        }
    }

    fn render_window(&self, window: Window, area: Rect) -> (r: Option<Widget>)
        ensures
            self.deep_view().shows(window) ==> r.deep_view() == Some(
                self.deep_view().window(window, area),
            ),
    {
        match window {
            Window::Log => Some(self.render_log_window(area)),
            Window::Help => Some(render_modal(area, "Help", self.help_lines())),
            Window::SessionHistory => Some(self.render_history_window(area)),
            Window::Permission => match &self.permission_prompt {
                Some(prompt) => Some(
                    render_permission_modal(
                        area,
                        prompt.worker_name.as_str(),
                        &prompt.request,
                        &prompt.selection,
                    ),
                ),
                None => None,
            },
            Window::Input => match &self.input_mode {
                Some(mode) => {
                    let shown = match mode {
                        InputMode::RenameWorker { worker_id, .. } => {
                            find_view(&self.workers, *worker_id).is_some()
                        },
                        _ => true,
                    };
                    if shown {
                        Some(self.render_input_window(mode, area))
                    } else {
                        None
                    }
                },
                None => None,
            },
        }
    }

    /// Returns what the dashboard shows, from the back to the front.
    #[verifier::rlimit(40)]
    pub fn render(&self, screen: Rect) -> (r: Vec<Widget>)
        ensures
            exists|panes: Seq<Rect>, areas: Seq<Rect>|
                self.deep_view().laid_out(screen, panes, areas) && r.deep_view()
                    == #[trigger] self.deep_view().drawn(panes, areas),
    {
        let ghost app = self.deep_view();
        let shares = vec![Share::Length(3), Share::Min(8), Share::Length(5)];
        assert(shares@ =~= seq![Share::Length(3), Share::Min(8), Share::Length(5)]);
        let panes = divide(Direction::Vertical, screen, &shares);
        let windows = self.open_windows();
        let mut widgets: Vec<Widget> = Vec::new();
        widgets.push(self.render_header(panes[0]));
        widgets.push(self.render_table(panes[1]));
        widgets.push(self.render_footer(panes[2]));
        let ghost mut areas: Seq<Rect> = seq![];
        for i in 0..windows.len()
            invariant
                app == self.deep_view(),
                windows@ == app.windows(),
                areas.len() == i,
                forall|j: int|
                    0 <= j < i ==> helpers::may_center(
                        app.window_size(app.windows()[j]).0,
                        app.window_size(app.windows()[j]).1,
                        screen,
                        #[trigger] areas[j],
                    ) && areas[j].within(screen),
                widgets.len() == i + 3,
                widgets@[0].deep_view() == app.header(panes@[0]),
                widgets@[1].deep_view() == app.table(panes@[1]),
                widgets@[2].deep_view() == app.footer(panes@[2]),
                forall|j: int|
                    3 <= j < i + 3 ==> (#[trigger] widgets@[j]).deep_view() == app.window(
                        app.windows()[j - 3],
                        areas[j - 3],
                    ),
        {
            proof {
                front_window_takes_keys(app);
            }
            let window = windows[i];
            assert(app.shows(app.windows()[i as int]));
            let size = self.size_of_window(window);
            let area = centered_rect(size.0, size.1, screen);
            if let Some(widget) = self.render_window(window, area) {
                widgets.push(widget);
            }
            proof {
                areas = areas.push(area);
            }
        }
        assert(app.laid_out(screen, panes@, areas));
        assert(widgets.deep_view() =~= app.drawn(panes@, areas));
        widgets
    }
}

} // verus!
