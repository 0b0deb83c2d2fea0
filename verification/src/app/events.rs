//! What events of workers do to the dashboard.
use crate::app::types::{PermissionPromptState, PermissionPromptStateView};
use crate::app::{self, App, AppView};
use crate::model;
use crate::text::{self, cat2, cat3, cat5, cat6, cat7, u64_text, usize_text};
use crate::ui::helpers::{self, permission_mode_label};
use crate::ui::modals::{self, describe_allowed_tools};
use crate::worker::{
    PermissionDecision, PermissionDecisionView, PermissionRequest, PermissionRequestView,
    WorkerEvent, WorkerEventView, WorkerId, WorkerSnapshot,
};
use vstd::prelude::*;

verus! {

impl AppView {
    /// After a permission request has come in: it is shown with a plain permission selected.
    pub open spec fn requested(
        self,
        id: WorkerId,
        request: PermissionRequestView,
        now: i128,
    ) -> AppView {
        let name = self.label_of(id);
        let step = request.step_name;
        let tools = modals::tools_text(request.allowed_tools);
        let mode = helpers::mode_label(request.permission_mode);
        AppView {
            permission_prompt: Some(
                PermissionPromptStateView {
                    worker_id: id,
                    worker_name: name,
                    request,
                    selection: PermissionDecisionView::allow(),
                },
            ),
            ..self
        }.tracking(request.request_id, name, step).worker_logged(
            id,
            "権限確認待ち: ステップ='"@ + step + "', ツール="@ + tools + ", モード="@ + mode,
        ).logged(
            Some(name),
            "ステップ '"@ + step + "' の権限確認を受信しました (ツール: "@ + tools + ", モード: "@ + mode
                + ")"@,
            now,
        )
    }

    /// After the answer to a permission request has gone through.
    pub open spec fn resolved(
        self,
        id: WorkerId,
        request_id: u64,
        decision: PermissionDecisionView,
        now: i128,
    ) -> AppView {
        let shown = self.permission_prompt matches Some(prompt) && prompt.request.request_id
            == request_id;
        let known = self.permission_tracker.contains_key(request_id);
        let entry = self.permission_tracker[request_id];
        let action = if decision is Deny {
            "拒否"@
        } else {
            "許可"@
        };
        let name = if known {
            entry.worker_name
        } else {
            self.label_of(id)
        };
        let message = if known {
            "ステップ '"@ + entry.step_name + "' の権限を"@ + action + "しました"@
        } else {
            "権限リクエスト (#"@ + text::decimal(request_id as nat) + ") を"@ + action + "しました"@
        };
        AppView {
            permission_prompt: if shown {
                None
            } else {
                self.permission_prompt
            },
            permission_tracker: self.permission_tracker.remove(request_id),
            ..self
        }.worker_logged(id, message).logged(Some(name), message, now)
    }

    /// After an event.
    pub open spec fn after_event(self, event: WorkerEventView, now: i128) -> AppView {
        match event {
            WorkerEventView::Created(snapshot) => self.updated(snapshot).logged(
                Some(snapshot.name),
                snapshot.name + " をプロビジョニングしました (workflow: "@ + snapshot.workflow
                    + ", steps: "@ + text::decimal(snapshot.total_steps as nat) + ")"@,
                now,
            ),
            WorkerEventView::Updated(snapshot) => self.updated(snapshot).logged(
                Some(snapshot.name),
                snapshot.name + ": "@ + snapshot.last_event,
                now,
            ),
            WorkerEventView::Log { id, line } => {
                let next = self.worker_logged(id, line);
                if self.auto_scroll_logs && self.show_logs {
                    AppView { log_scroll: next.max_scroll(), ..next }
                } else {
                    next
                }
            },
            WorkerEventView::Deleted { id, message } => self.removed(id).logged(
                self.name_of(id),
                message,
                now,
            ),
            WorkerEventView::Renamed { id, old_name, new_name } => self.logged(
                Some(new_name),
                "Worker renamed: '"@ + old_name + "' → '"@ + new_name + "'"@,
                now,
            ),
            WorkerEventView::Error { id, message } => {
                let said = "エラー: "@ + message;
                match id {
                    Some(worker) => self.worker_logged(worker, said).logged(
                        self.name_of(worker),
                        said,
                        now,
                    ),
                    None => self.noted(said, now),
                }
            },
            WorkerEventView::PermissionRequested { id, request } => self.requested(
                id,
                request,
                now,
            ),
            WorkerEventView::PermissionResolved { id, request_id, decision } => self.resolved(
                id,
                request_id,
                decision,
                now,
            ),
        }
    }

    /// After time has gone on.
    pub open spec fn ticked(self) -> AppView {
        AppView {
            animation_frame: vstd::wrapping::usize_specs::wrapping_add(self.animation_frame, 1),
            ..self.clamped()
        }
    }

    /// After one of several events.
    #[verifier::opaque]
    pub open spec fn after_next(self, event: WorkerEventView, now: i128) -> AppView {
        self.after_event(event, now)
    }

    /// After some events, each at its time.
    pub open spec fn after_events(self, events: Seq<WorkerEventView>, times: Seq<i128>) -> AppView
        decreases events.len(),
    {
        if events.len() == 0 {
            self
        } else {
            self.after_events(events.drop_last(), times).after_next(
                events.last(),
                times[events.len() - 1],
            )
        }
    }
}

/// One event more, after some events.
proof fn lemma_event_step(
    app: AppView,
    events: Seq<WorkerEventView>,
    times: Seq<i128>,
    i: int,
    now: i128,
)
    requires
        0 <= i < events.len(),
        times.len() == i,
    ensures
        app.after_events(events.take(i + 1), times.push(now)) == app.after_events(
            events.take(i),
            times,
        ).after_next(events[i], now),
{
    lemma_event_times(app, events.take(i), times, times.push(now));
    assert(events.take(i + 1).drop_last() =~= events.take(i));
}

/// What events have done depends on their own times only.
proof fn lemma_event_times(
    app: AppView,
    events: Seq<WorkerEventView>,
    times: Seq<i128>,
    more: Seq<i128>,
)
    requires
        events.len() <= times.len() <= more.len(),
        forall|i: int| 0 <= i < times.len() ==> times[i] == more[i],
    ensures
        app.after_events(events, times) == app.after_events(events, more),
    decreases events.len(),
{
    if events.len() > 0 {
        lemma_event_times(app, events.drop_last(), times, more);
    }
}

/// A line in the log of a worker changes no name.
proof fn lemma_logging_keeps_names(app: AppView, id: WorkerId, line: Seq<char>, other: WorkerId)
    ensures
        app.worker_logged(id, line).name_of(other) == app.name_of(other),
{
    let ids = app::view_ids(app.workers);
    model::first_index_is_first(ids, id);
    model::first_index_is_first(ids, other);
    assert(app::view_ids(app.worker_logged(id, line).workers) =~= ids);
}

/// An event keeps everything that is selected on what is there, and adds one worker at most.
pub proof fn events_keep_wf(app: AppView, event: WorkerEventView, now: i128)
    requires
        app.wf(),
        app.workers.len() < usize::MAX,
    ensures
        app.after_event(event, now).wf(),
        app.after_event(event, now).workers.len() <= app.workers.len() + 1,
{
    match event {
        WorkerEventView::Created(snapshot) => {
            app::updates_keep_wf(app, snapshot);
        },
        WorkerEventView::Updated(snapshot) => {
            app::updates_keep_wf(app, snapshot);
        },
        WorkerEventView::Log { id, line } => {
            app::logging_keeps_wf(app, id, line);
        },
        WorkerEventView::Deleted { id, message } => {
            app::removals_keep_wf(app, id);
        },
        WorkerEventView::Renamed { .. } => {},
        WorkerEventView::Error { id, message } => {
            if let Some(worker) = id {
                app::logging_keeps_wf(app, worker, "エラー: "@ + message);
            }
        },
        WorkerEventView::PermissionRequested { id, request } => {
            let name = app.label_of(id);
            let shown = AppView {
                permission_prompt: Some(
                    PermissionPromptStateView {
                        worker_id: id,
                        worker_name: name,
                        request,
                        selection: PermissionDecisionView::allow(),
                    },
                ),
                ..app
            }.tracking(request.request_id, name, request.step_name);
            assert(shown.wf());
            app::logging_keeps_wf(
                shown,
                id,
                "権限確認待ち: ステップ='"@ + request.step_name + "', ツール="@ + modals::tools_text(
                    request.allowed_tools,
                ) + ", モード="@ + helpers::mode_label(request.permission_mode),
            );
        },
        WorkerEventView::PermissionResolved { id, request_id, decision } => {
            let known = app.permission_tracker.contains_key(request_id);
            let entry = app.permission_tracker[request_id];
            let action = if decision is Deny {
                "拒否"@
            } else {
                "許可"@
            };
            let message = if known {
                "ステップ '"@ + entry.step_name + "' の権限を"@ + action + "しました"@
            } else {
                "権限リクエスト (#"@ + text::decimal(request_id as nat) + ") を"@ + action + "しました"@
            };
            let closed = AppView {
                permission_prompt: app.resolved(id, request_id, decision, now).permission_prompt,
                permission_tracker: app.permission_tracker.remove(request_id),
                ..app
            };
            assert(closed.wf());
            app::logging_keeps_wf(closed, id, message);
        },
    }
}

/// One of several events keeps everything that is selected on what is there.
proof fn lemma_next_keeps_wf(app: AppView, event: WorkerEventView, now: i128)
    requires
        app.wf(),
        app.workers.len() < usize::MAX,
    ensures
        app.after_next(event, now).wf(),
        app.after_next(event, now).workers.len() <= app.workers.len() + 1,
{
    reveal(AppView::after_next);
    events_keep_wf(app, event, now);
}

/// Once the answer to a permission request has gone through, it is neither shown nor remembered.
pub proof fn resolved_requests_are_gone(
    app: AppView,
    id: WorkerId,
    request_id: u64,
    decision: PermissionDecisionView,
    now: i128,
)
    ensures
        !app.resolved(id, request_id, decision, now).permission_tracker.contains_key(request_id),
        app.resolved(id, request_id, decision, now).permission_prompt matches Some(p)
            ==> p.request.request_id != request_id,
        forall|other: u64|
            other != request_id ==> (#[trigger] app.resolved(
                id,
                request_id,
                decision,
                now,
            ).permission_tracker.contains_key(other) == app.permission_tracker.contains_key(other)),
{
}

impl App {
    fn handle_permission_requested(&mut self, id: WorkerId, request: PermissionRequest, now: i128)
        ensures
            final(self).deep_view() == old(self).deep_view().requested(
                id,
                request.deep_view(),
                now,
            ),
    {
        let worker_name = self.worker_label(id);
        let tools = describe_allowed_tools(&request.allowed_tools);
        let mode = permission_mode_label(&request.permission_mode).to_owned();
        let step_name = request.step_name.clone();
        let request_id = request.request_id;
        self.permission_prompt = Some(
            PermissionPromptState {
                worker_id: id,
                worker_name: worker_name.clone(),
                request,
                selection: PermissionDecision::Allow {
                    permission_mode: None,
                    allowed_tools: None,
                },
            },
        );
        self.track(request_id, worker_name.clone(), step_name.clone());
        let waiting = cat6(
            "権限確認待ち: ステップ='",
            step_name.as_str(),
            "', ツール=",
            tools.as_str(),
            ", モード=",
            mode.as_str(),
        );
        self.add_worker_log(id, waiting);
        let message = cat7(
            "ステップ '",
            step_name.as_str(),
            "' の権限確認を受信しました (ツール: ",
            tools.as_str(),
            ", モード: ",
            mode.as_str(),
            ")",
        );
        self.push_log_with_worker(Some(worker_name.as_str()), message, now);
    }

    fn handle_permission_resolved(
        &mut self,
        id: WorkerId,
        request_id: u64,
        decision: PermissionDecision,
        now: i128,
    )
        ensures
            final(self).deep_view() == old(self).deep_view().resolved(
                id,
                request_id,
                decision.deep_view(),
                now,
            ),
    {
        broadcast use vstd::std_specs::hash::group_hash_axioms;

        let label = self.worker_label(id);
        let shown = match &self.permission_prompt {
            Some(prompt) => prompt.request.request_id == request_id,
            None => false,
        };
        if shown {
            self.permission_prompt = None;
        }
        let ghost before = self.permission_tracker@;
        let entry = self.permission_tracker.remove(&request_id);
        assert(app::tracker_view(self.permission_tracker@) =~= app::tracker_view(before).remove(
            request_id,
        ));
        let action = match decision {
            PermissionDecision::Allow { .. } => "許可",
            PermissionDecision::Deny => "拒否",
        };
        let (name, message) = match entry {
            Some(entry) => (
                entry.worker_name,
                cat5(
                    "ステップ '",
                    entry.step_name.as_str(),
                    "' の権限を",
                    action,
                    "しました",
                ),
            ),
            None => (
                label,
                cat5(
                    "権限リクエスト (#",
                    u64_text(request_id).as_str(),
                    ") を",
                    action,
                    "しました",
                ),
            ),
        };
        self.add_worker_log(id, message.clone());
        self.push_log_with_worker(Some(name.as_str()), message, now);
    }

    fn event_created(&mut self, snapshot: WorkerSnapshot, now: i128)
        ensures
            final(self).deep_view() == old(self).deep_view().after_event(
                WorkerEventView::Created(snapshot.deep_view()),
                now,
            ),
    {
        let message = cat6(
            snapshot.name.as_str(),
            " をプロビジョニングしました (workflow: ",
            snapshot.workflow.as_str(),
            ", steps: ",
            usize_text(snapshot.total_steps).as_str(),
            ")",
        );
        let name = snapshot.name.clone();
        self.add_or_update_worker(snapshot);
        self.push_log_with_worker(Some(name.as_str()), message, now);
    }

    fn event_updated(&mut self, snapshot: WorkerSnapshot, now: i128)
        ensures
            final(self).deep_view() == old(self).deep_view().after_event(
                WorkerEventView::Updated(snapshot.deep_view()),
                now,
            ),
    {
        let message = cat3(snapshot.name.as_str(), ": ", snapshot.last_event.as_str());
        let name = snapshot.name.clone();
        self.add_or_update_worker(snapshot);
        self.push_log_with_worker(Some(name.as_str()), message, now);
    }

    fn event_log(&mut self, id: WorkerId, line: String, now: i128)
        ensures
            final(self).deep_view() == old(self).deep_view().after_event(
                WorkerEventView::Log { id, line: line@ },
                now,
            ),
    {
        self.add_worker_log(id, line);
        if self.auto_scroll_logs && self.show_logs {
            self.log_scroll = self.get_log_max_scroll();
        }
    }

    fn event_deleted(&mut self, id: WorkerId, message: String, now: i128)
        ensures
            final(self).deep_view() == old(self).deep_view().after_event(
                WorkerEventView::Deleted { id, message: message@ },
                now,
            ),
    {
        let name = self.worker_name_by_id(id);
        self.remove_worker(id);
        match name {
            Some(name) => {
                self.push_log_with_worker(Some(name.as_str()), message, now);
            },
            None => {
                self.push_log(message, now);
            },
        }
    }

    fn event_renamed(&mut self, id: WorkerId, old_name: String, new_name: String, now: i128)
        ensures
            final(self).deep_view() == old(self).deep_view().after_event(
                WorkerEventView::Renamed { id, old_name: old_name@, new_name: new_name@ },
                now,
            ),
    {
        let message = cat5(
            "Worker renamed: '",
            old_name.as_str(),
            "' → '",
            new_name.as_str(),
            "'",
        );
        self.push_log_with_worker(Some(new_name.as_str()), message, now);
    }

    fn event_error(&mut self, id: Option<WorkerId>, message: String, now: i128)
        ensures
            final(self).deep_view() == old(self).deep_view().after_event(
                WorkerEventView::Error { id, message: message@ },
                now,
            ),
    {
        let said = cat2("エラー: ", message.as_str());
        if let Some(worker) = id {
            proof {
                lemma_logging_keeps_names(self.deep_view(), worker, said@, worker);
            }
            self.add_worker_log(worker, said.clone());
            if let Some(name) = self.worker_name_by_id(worker) {
                self.push_log_with_worker(Some(name.as_str()), said, now);
                return ;
            }
        }
        self.push_log(said, now);
    }

    /// Takes in an event.
    pub fn handle_event(&mut self, event: WorkerEvent, now: i128)
        ensures
            final(self).deep_view() == old(self).deep_view().after_event(event.deep_view(), now),
    {
        match event {
            WorkerEvent::Created(snapshot) => self.event_created(snapshot, now),
            WorkerEvent::Updated(snapshot) => self.event_updated(snapshot, now),
            WorkerEvent::Log { id, line } => self.event_log(id, line, now),
            WorkerEvent::Deleted { id, message } => self.event_deleted(id, message, now),
            WorkerEvent::Renamed { id, old_name, new_name } => {
                self.event_renamed(id, old_name, new_name, now)
            },
            WorkerEvent::Error { id, message } => self.event_error(id, message, now),
            WorkerEvent::PermissionRequested { id, request } => {
                self.handle_permission_requested(id, request, now)
            },
            WorkerEvent::PermissionResolved { id, request_id, decision } => {
                self.handle_permission_resolved(id, request_id, decision, now)
            },
        }
    }

    fn handle_next(&mut self, event: WorkerEvent, now: i128)
        ensures
            final(self).deep_view() == old(self).deep_view().after_next(event.deep_view(), now),
    {
        proof {
            reveal(AppView::after_next);
        }
        self.handle_event(event, now);
    }

    /// Takes in the events that have come in; `clock` gives the time at which one is taken in.
    pub fn poll_events<F: Fn() -> i128>(&mut self, events: &Vec<WorkerEvent>, clock: F)
        requires
            clock.requires(()),
        ensures
            exists|times: Seq<i128>|
                times.len() == events.len() && (forall|i: int|
                    0 <= i < times.len() ==> clock.ensures((), #[trigger] times[i]))
                    && final(self).deep_view() == #[trigger] old(self).deep_view().after_events(
                    events.deep_view(),
                    times,
                ),
            old(self).deep_view().wf() && old(self).workers.len() + events.len() <= usize::MAX
                ==> final(self).deep_view().wf(),
    {
        let ghost before = self.deep_view();
        let ghost all = events.deep_view();
        let ghost mut times: Seq<i128> = seq![];
        let ghost fits = before.wf() && self.workers.len() + events.len() <= usize::MAX;
        let count: usize = events.len();
        assert(all.take(0) =~= seq![]);
        for i in 0..count
            invariant
                clock.requires(()),
                count == all.len(),
                count == events.len(),
                all == events.deep_view(),
                times.len() == i,
                forall|j: int| 0 <= j < i ==> clock.ensures((), #[trigger] times[j]),
                self.deep_view() == before.after_events(all.take(i as int), times),
                fits ==> self.deep_view().wf() && self.workers.len() + (count - i) <= usize::MAX,
        {
            let now: i128 = clock();
            proof {
                lemma_event_step(before, all, times, i as int, now);
                times = times.push(now);
                if fits {
                    lemma_next_keeps_wf(self.deep_view(), all[i as int], now);
                }
            }
            self.handle_next(events[i].clone(), now);
        }
        assert(all.take(count as int) =~= all);
        assert(self.deep_view() == before.after_events(all, times));
    }

    /// Takes in the events that have come in, and that time goes on.
    pub fn on_tick<F: Fn() -> i128>(&mut self, events: &Vec<WorkerEvent>, clock: F)
        requires
            clock.requires(()),
        ensures
            exists|times: Seq<i128>|
                times.len() == events.len() && (forall|i: int|
                    0 <= i < times.len() ==> clock.ensures((), #[trigger] times[i]))
                    && final(self).deep_view() == (#[trigger] old(self).deep_view().after_events(
                    events.deep_view(),
                    times,
                )).ticked(),
            old(self).deep_view().wf() && old(self).workers.len() + events.len() <= usize::MAX
                ==> final(self).deep_view().wf(),
    {
        let ghost before = self.deep_view();
        self.poll_events(events, clock);
        let ghost times = choose|times: Seq<i128>|
            times.len() == events.len() && (forall|i: int|
                0 <= i < times.len() ==> clock.ensures((), #[trigger] times[i]))
                && self.deep_view() == #[trigger] before.after_events(events.deep_view(), times);
        let ghost polled = self.deep_view();
        proof {
            if polled.workers.len() <= usize::MAX {
                app::clamping_selects_visible(polled);
            }
        }
        self.clamp_selection();
        self.animation_frame = self.animation_frame.wrapping_add(1);
        assert(polled == before.after_events(events.deep_view(), times));
    }
}

} // verus!
