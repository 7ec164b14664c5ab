//! What the dashboard shows: one row per service, and the window of the
//! focused service's logs that fits its pane.
use vstd::prelude::*;

use crate::log_buffer::LogLine;
use crate::state::{AppState, ServiceState, ServiceStatus};
use crate::text::{decimal, push_decimal};

verus! {

/// The color a service's row is drawn in.
#[derive(Debug, Clone, Copy, PartialEq, Eq)]
pub enum StatusColor {
    Yellow,
    Green,
    Gray,
    Red,
    Magenta,
}

/// One row of the service list.
#[derive(Debug)]
pub struct ServiceRow {
    /// The status symbol, followed by a space.
    pub marker: String,
    /// The padded service name and the status text.
    pub text: String,
    pub color: StatusColor,
    /// Set for the focused service, which is drawn bold and reversed.
    pub highlighted: bool,
}

/// The focused service's log pane.
#[derive(Debug)]
pub struct LogView {
    pub title: String,
    /// The texts of the visible log lines, oldest first.
    pub lines: Vec<String>,
}

/// Which stored log lines a pane shows: those at `start..end`, with `scroll`
/// the scroll offset actually applied.
#[derive(Debug, Clone, Copy, PartialEq, Eq)]
pub struct LogWindow {
    pub start: usize,
    pub end: usize,
    pub scroll: usize,
}

/// Width that service names are padded to in the service list.
pub const NAME_WIDTH: usize = 12;

/// `n` in decimal, with a leading `-` when negative.
pub open spec fn signed_decimal(n: int) -> Seq<char> {
    if n < 0 {
        seq!['-'] + decimal((-n) as nat)
    } else {
        decimal(n as nat)
    }
}

/// The text of an exit code: the code as a bare (signed) number, such as `1`
/// or `-2`, or `None` when the process ended without one (killed by a signal).
pub open spec fn code_text(code: Option<i32>) -> Seq<char> {
    match code {
        Some(c) => signed_decimal(c as int),
        None => "None"@,
    }
}

/// The text describing a status.
pub open spec fn status_text(status: ServiceStatus) -> Seq<char> {
    match status {
        ServiceStatus::Starting => "STARTING"@,
        ServiceStatus::Running { pid } => "RUNNING (pid "@ + decimal(pid as nat) + ")"@,
        ServiceStatus::Exited { code } => "EXITED ("@ + code_text(code) + ")"@,
        ServiceStatus::Crashed { code } => "CRASHED ("@ + code_text(code) + ")"@,
        ServiceStatus::Failed { error } => "FAILED: "@ + error@,
        ServiceStatus::Killed => "KILLED (by user)"@,
    }
}

/// The symbol shown before a service, followed by a space.
pub open spec fn status_marker(status: ServiceStatus) -> Seq<char> {
    match status {
        ServiceStatus::Starting | ServiceStatus::Running { .. } => "\u{25cf} "@,
        ServiceStatus::Exited { .. } => "\u{25cb} "@,
        ServiceStatus::Crashed { .. } | ServiceStatus::Failed { .. } => "\u{2716} "@,
        ServiceStatus::Killed => "\u{25a0} "@,
    }
}

/// The color of a status.
pub open spec fn status_color(status: ServiceStatus) -> StatusColor {
    match status {
        ServiceStatus::Starting => StatusColor::Yellow,
        ServiceStatus::Running { .. } => StatusColor::Green,
        ServiceStatus::Exited { .. } => StatusColor::Gray,
        ServiceStatus::Crashed { .. } | ServiceStatus::Failed { .. } => StatusColor::Red,
        ServiceStatus::Killed => StatusColor::Magenta,
    }
}

/// `s` followed by spaces up to `width` characters; longer text is kept whole.
pub open spec fn padded(s: Seq<char>, width: nat) -> Seq<char> {
    if s.len() >= width {
        s
    } else {
        s + Seq::new((width - s.len()) as nat, |i: int| ' ')
    }
}

/// The row for `service`: its status symbol, its padded name and status text,
/// and the color of its status.
pub open spec fn is_row_of(service: ServiceState, highlighted: bool, row: ServiceRow) -> bool {
    &&& row.marker@ == status_marker(service.status)
    &&& row.text@ == padded(service.config.name@, NAME_WIDTH as nat) + seq![' '] + status_text(
        service.status,
    )
    &&& row.color == status_color(service.status)
    &&& row.highlighted == highlighted
}

/// The window of `total` log lines shown in a pane of `visible` lines, scrolled
/// `scroll` lines up from the latest: the scroll is clamped so the window never
/// runs past the oldest line.
pub open spec fn window_of(total: usize, visible: usize, scroll: usize) -> LogWindow {
    let max_scroll: int = if total > visible {
        total - visible
    } else {
        0
    };
    let s: int = if scroll < max_scroll {
        scroll as int
    } else {
        max_scroll
    };
    let end: int = total - s;
    let start: int = if end > visible {
        end - visible
    } else {
        0
    };
    LogWindow { start: start as usize, end: end as usize, scroll: s as usize }
}

/// The title of the log pane of service `name`, which says when the view is
/// scrolled away from the latest output.
pub open spec fn log_title(name: Seq<char>, scroll: usize) -> Seq<char> {
    if scroll == 0 {
        name + " logs"@
    } else {
        name + " logs (scrolled, "@ + decimal(scroll as nat) + " lines back)"@
    }
}

/// `rows` are the rows of the service list: one per service, in service order,
/// with the focused service highlighted.
pub open spec fn are_rows_of(state: AppState, rows: Seq<ServiceRow>) -> bool {
    &&& rows.len() == state.services@.len()
    &&& forall|i: int|
        0 <= i < rows.len() ==> is_row_of(state.services@[i], i == state.focused, #[trigger] rows[i])
}

/// The number of log lines that fit in a pane `pane_height` rows tall, two of
/// which are its border.
pub open spec fn pane_lines(pane_height: u16) -> usize {
    (if pane_height > 2 {
        pane_height - 2
    } else {
        0
    }) as usize
}

/// `v` is the log pane of the focused service: none when no service is
/// focused, else the title and the texts of the lines in its window.
pub open spec fn is_log_view_of(state: AppState, pane_height: u16, v: Option<LogView>) -> bool {
    if state.focused >= state.services@.len() {
        v is None
    } else {
        v matches Some(view) && {
            let service = state.services@[state.focused as int];
            let w = window_of(service.logs@.len() as usize, pane_lines(pane_height), state.scroll);
            &&& view.title@ == log_title(service.config.name@, w.scroll)
            &&& view.lines@ == service.logs@.subrange(w.start as int, w.end as int).map_values(
                |l: LogLine| l.text,
            )
        }
    }
}

/// Appends `n` in decimal, with a leading `-` when negative.
fn push_signed(s: &mut String, n: i32)
    ensures
        final(s)@ == old(s)@ + signed_decimal(n as int),
{
    if n < 0 {
        proof {
            reveal_strlit("-");
        }
        s.append("-");
        let magnitude = (-(n as i64)) as u64;
        push_decimal(s, magnitude);
        assert(final(s)@ =~= old(s)@ + signed_decimal(n as int));
    } else {
        push_decimal(s, n as u64);
    }
}

/// Appends the text of an exit code.
fn push_code(s: &mut String, code: Option<i32>)
    ensures
        final(s)@ == old(s)@ + code_text(code),
{
    match code {
        Some(c) => push_signed(s, c),
        None => s.append("None"),
    }
}

/// Appends the text describing `status`.
fn push_status_text(s: &mut String, status: &ServiceStatus)
    ensures
        final(s)@ == old(s)@ + status_text(*status),
{
    match status {
        ServiceStatus::Starting => s.append("STARTING"),
        ServiceStatus::Running { pid } => {
            s.append("RUNNING (pid ");
            push_decimal(s, *pid as u64);
            s.append(")");
            assert(final(s)@ =~= old(s)@ + status_text(*status));
        },
        ServiceStatus::Exited { code } => {
            s.append("EXITED (");
            push_code(s, *code);
            s.append(")");
            assert(final(s)@ =~= old(s)@ + status_text(*status));
        },
        ServiceStatus::Crashed { code } => {
            s.append("CRASHED (");
            push_code(s, *code);
            s.append(")");
            assert(final(s)@ =~= old(s)@ + status_text(*status));
        },
        ServiceStatus::Failed { error } => {
            s.append("FAILED: ");
            s.append(error.as_str());
            assert(final(s)@ =~= old(s)@ + status_text(*status));
        },
        ServiceStatus::Killed => s.append("KILLED (by user)"),
    }
}

/// The row that the service list shows for `service`.
pub fn service_row(service: &ServiceState, highlighted: bool) -> (row: ServiceRow)
    ensures
        is_row_of(*service, highlighted, row),
{
    let (marker, color) = match &service.status {
        ServiceStatus::Starting => ("\u{25cf} ", StatusColor::Yellow),
        ServiceStatus::Running { .. } => ("\u{25cf} ", StatusColor::Green),
        ServiceStatus::Exited { .. } => ("\u{25cb} ", StatusColor::Gray),
        ServiceStatus::Crashed { .. } => ("\u{2716} ", StatusColor::Red),
        ServiceStatus::Failed { .. } => ("\u{2716} ", StatusColor::Red),
        ServiceStatus::Killed => ("\u{25a0} ", StatusColor::Magenta),
    };
    let name = service.config.name.as_str();
    let mut text = String::from_str(name);
    let len = name.unicode_len();
    let mut count = len;
    proof {
        reveal_strlit(" ");
        assert(text@ =~= name@ + Seq::new((count - len) as nat, |i: int| ' '));
    }
    while count < NAME_WIDTH
        invariant
            len == name@.len(),
            len <= count,
            count == len || count <= NAME_WIDTH,
            " "@ == seq![' '],
            text@ == name@ + Seq::new((count - len) as nat, |i: int| ' '),
        decreases NAME_WIDTH - count,
    {
        text.append(" ");
        count = count + 1;
        assert(text@ =~= name@ + Seq::new((count - len) as nat, |i: int| ' '));
    }
    proof {
        if len >= NAME_WIDTH {
            assert(text@ =~= name@);
        }
        assert(text@ =~= padded(name@, NAME_WIDTH as nat));
    }
    text.append(" ");
    push_status_text(&mut text, &service.status);
    proof {
        assert(text@ =~= padded(service.config.name@, NAME_WIDTH as nat) + seq![' ']
            + status_text(service.status));
    }
    ServiceRow { marker: String::from_str(marker), text, color, highlighted }
}

/// The rows of the service list, in service order, with the focused service
/// highlighted.
pub fn service_rows(state: &AppState) -> (rows: Vec<ServiceRow>)
    ensures
        are_rows_of(*state, rows@),
{
    let mut rows: Vec<ServiceRow> = Vec::new();
    let mut i: usize = 0;
    while i < state.services.len()
        invariant
            i <= state.services@.len(),
            rows@.len() == i,
            forall|j: int|
                0 <= j < i ==> is_row_of(
                    state.services@[j],
                    j == state.focused,
                    #[trigger] rows@[j],
                ),
        decreases state.services@.len() - i,
    {
        rows.push(service_row(&state.services[i], i == state.focused));
        i = i + 1;
    }
    rows
}

/// Which of `total` stored log lines a pane of `visible` lines shows when the
/// view is scrolled `scroll` lines up from the latest output.
pub fn log_window(total: usize, visible: usize, scroll: usize) -> (w: LogWindow)
    ensures
        w == window_of(total, visible, scroll),
        w.start <= w.end <= total,
        w.end - w.start == if total < visible {
            total
        } else {
            visible
        },
        w.scroll == 0 ==> w.end == total,
        w.scroll <= scroll,
{
    // Prevent scrolling beyond the available log history.
    let max_scroll = total.saturating_sub(visible);
    let scroll = if scroll < max_scroll {
        scroll
    } else {
        max_scroll
    };
    // Calculate which section of the log buffer should be displayed.
    let end = total.saturating_sub(scroll);
    let start = end.saturating_sub(visible);
    LogWindow { start, end, scroll }
}

/// The log pane of the focused service, in a pane `pane_height` rows tall (two
/// of which are its border); none when no service is focused.
pub fn focused_log_view(state: &AppState, pane_height: u16) -> (v: Option<LogView>)
    ensures
        is_log_view_of(*state, pane_height, v),
{
    if state.focused >= state.services.len() {
        return None;
    }
    let service = &state.services[state.focused];
    // Calculate how many log lines can fit inside the pane.
    let visible = pane_height.saturating_sub(2) as usize;
    let total = service.logs.len();
    let w = log_window(total, visible, state.scroll);
    let mut lines: Vec<String> = Vec::new();
    let ghost logs = service.logs@;
    let mut index: usize = 0;
    for line in it: service.logs.iter()
        invariant
            it.seq() == logs.map_values(|l: LogLine| &l),
            index == it.index(),
            index <= logs.len(),
            logs.len() == total,
            w.start <= w.end <= logs.len(),
            lines@ == logs.subrange(
                w.start as int,
                if index < w.start {
                    w.start as int
                } else if index < w.end {
                    index as int
                } else {
                    w.end as int
                },
            ).map_values(|l: LogLine| l.text),
    {
        let ghost before = lines@;
        if w.start <= index && index < w.end {
            lines.push(line.text.clone());
        }
        proof {
            let lo = w.start as int;
            let cut = if index < w.start {
                w.start as int
            } else if index < w.end {
                index as int
            } else {
                w.end as int
            };
            let cut2 = if index + 1 < w.start {
                w.start as int
            } else if index + 1 < w.end {
                index + 1
            } else {
                w.end as int
            };
            if w.start <= index && index < w.end {
                assert(logs.subrange(lo, cut2).map_values(|l: LogLine| l.text) =~= logs.subrange(
                    lo,
                    cut,
                ).map_values(|l: LogLine| l.text).push(logs[index as int].text));
            } else {
                assert(cut2 == cut);
            }
        }
        index = index + 1;
    }
    // Show whether the log view is currently following the latest output.
    let mut title = String::from_str(service.config.name.as_str());
    if w.scroll == 0 {
        title.append(" logs");
    } else {
        title.append(" logs (scrolled, ");
        push_decimal(&mut title, w.scroll as u64);
        title.append(" lines back)");
        assert(title@ =~= log_title(service.config.name@, w.scroll));
    }
    Some(LogView { title, lines })
}

} // verus!
