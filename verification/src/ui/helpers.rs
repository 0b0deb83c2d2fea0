//! Small helpers of the windows.
use crate::state::{ActionLogEntry, ActionLogEntryView};
use crate::text::{cat4, cat6, same};
use crate::ui::canvas::{self, divide, Color, Direction, Rect, Share};
use crate::worker::WorkerStatus;
use vstd::prelude::*;

verus! {

/// Shares that leave a part of the given percentage in the middle.
pub open spec fn middle_shares(percent: u16) -> Seq<Share> {
    let margin = ((100 - percent) / 2) as u16;
    seq![Share::Percentage(margin), Share::Percentage(percent), Share::Percentage(margin)]
}

/// Whether an area may be the middle of another one, of the given percentages.
pub open spec fn may_center(percent_x: u16, percent_y: u16, area: Rect, r: Rect) -> bool {
    exists|rows: Seq<Rect>, columns: Seq<Rect>|
        #![trigger canvas::may_divide(
            Direction::Vertical,
            area,
            middle_shares(percent_y),
            rows,
        ), canvas::may_divide(Direction::Horizontal, rows[1], middle_shares(percent_x), columns)]
        {
            &&& rows.len() == 3
            &&& columns.len() == 3
            &&& canvas::may_divide(Direction::Vertical, area, middle_shares(percent_y), rows)
            &&& canvas::may_divide(
                Direction::Horizontal,
                rows[1],
                middle_shares(percent_x),
                columns,
            )
            &&& r == columns[1]
        }
}

fn shares_of(percent: u16) -> (r: Vec<Share>)
    requires
        percent <= 100,
    ensures
        r@ == middle_shares(percent),
{
    let margin: u16 = (100 - percent) / 2;
    let r = vec![Share::Percentage(margin), Share::Percentage(percent), Share::Percentage(margin)];
    assert(r@ =~= middle_shares(percent));
    r
}

/// Returns the middle of an area: the area is divided from top to bottom, and the middle row
/// from left to right.
pub fn centered_rect(percent_x: u16, percent_y: u16, area: Rect) -> (r: Rect)
    requires
        percent_x <= 100,
        percent_y <= 100,
    ensures
        may_center(percent_x, percent_y, area, r),
        r.within(area),
{
    let vertical = shares_of(percent_y);
    let rows = divide(Direction::Vertical, area, &vertical);
    let horizontal = shares_of(percent_x);
    let columns = divide(Direction::Horizontal, rows[1], &horizontal);
    assert(canvas::may_divide(Direction::Vertical, area, middle_shares(percent_y), rows@));
    assert(canvas::may_divide(
        Direction::Horizontal,
        rows@[1],
        middle_shares(percent_x),
        columns@,
    ));
    columns[1]
}

/// The text of an entry of the action log.
pub open spec fn action_log_text(entry: ActionLogEntryView) -> Seq<char> {
    match entry.worker {
        Some(worker) => "["@ + entry.timestamp + "]["@ + worker + "] "@ + entry.message,
        None => "["@ + entry.timestamp + "] "@ + entry.message,
    }
}

/// Returns the text of an entry of the action log.
pub fn format_action_log(entry: &ActionLogEntry) -> (r: String)
    ensures
        r@ == action_log_text(entry.deep_view()),
{
    match &entry.worker {
        Some(worker) => cat6(
            "[",
            entry.timestamp.as_str(),
            "][",
            worker.as_str(),
            "] ",
            entry.message.as_str(),
        ),
        None => cat4("[", entry.timestamp.as_str(), "] ", entry.message.as_str()),
    }
}

/// The color of a status.
pub open spec fn color_of(status: WorkerStatus) -> Color {
    match status {
        WorkerStatus::Running => Color::Green,
        WorkerStatus::Paused => Color::Yellow,
        WorkerStatus::Failed => Color::Red,
        WorkerStatus::Idle => Color::Gray,
        WorkerStatus::Archived => Color::Blue,
    }
}

/// Returns the color of a status.
pub fn status_color(status: WorkerStatus) -> (r: Color)
    ensures
        r == color_of(status),
{
    match status {
        WorkerStatus::Running => Color::Green,
        WorkerStatus::Paused => Color::Yellow,
        WorkerStatus::Failed => Color::Red,
        WorkerStatus::Idle => Color::Gray,
        WorkerStatus::Archived => Color::Blue,
    }
}

/// The text of a permission mode.
pub open spec fn mode_label(mode: Option<Seq<char>>) -> Seq<char> {
    match mode {
        None => "制限なしモード"@,
        Some(m) => if m == "plan"@ {
            "プランモード"@
        } else if m == "acceptEdits"@ {
            "編集承認モード"@
        } else if m == "bypassPermissions"@ {
            "制限なしモード"@
        } else {
            m
        },
    }
}

/// Returns the text of a permission mode.
pub fn permission_mode_label(permission_mode: &Option<String>) -> (r: &str)
    ensures
        r@ == mode_label(permission_mode.deep_view()),
{
    match permission_mode {
        None => "制限なしモード",
        Some(mode) => {
            if same(mode.as_str(), "plan") {
                "プランモード"
            } else if same(mode.as_str(), "acceptEdits") {
                "編集承認モード"
            } else if same(mode.as_str(), "bypassPermissions") {
                "制限なしモード"
            } else {
                mode.as_str()
            }
        },
    }
}

/// No two statuses share a color.
pub proof fn colors_tell_statuses_apart(a: WorkerStatus, b: WorkerStatus)
    requires
        color_of(a) == color_of(b),
    ensures
        a == b,
{
}

} // verus!
