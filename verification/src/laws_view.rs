//! What the dashboard shows for each status, and how the log window sits in
//! the stored lines.
use vstd::prelude::*;

use crate::log_buffer::LogLine;
use crate::state::{AppState, ServiceState, ServiceStatus};
use crate::text::decimal;
use crate::view::{
    are_rows_of, is_log_view_of, is_row_of, log_title, padded, pane_lines, window_of, LogView,
    ServiceRow, StatusColor, NAME_WIDTH,
};

verus! {

/// Padding keeps the name whole and in front, and adds only spaces, up to
/// `width` characters.
pub proof fn law_padding(s: Seq<char>, width: nat)
    ensures
        padded(s, width).len() == if s.len() >= width {
            s.len()
        } else {
            width
        },
        padded(s, width).take(s.len() as int) == s,
        forall|i: int| s.len() <= i < padded(s, width).len() ==> #[trigger] padded(s, width)[i]
            == ' ',
{
    assert(padded(s, width).take(s.len() as int) =~= s);
}

/// Each status is shown with its own symbol, color and text:
/// - starting: `●`, yellow, `STARTING`;
/// - running: `●`, green, `RUNNING (pid N)`;
/// - exited: `○`, gray, `EXITED (code)`;
/// - crashed: `✖`, red, `CRASHED (code)`;
/// - failed: `✖`, red, `FAILED: error`;
/// - killed: `■`, magenta, `KILLED (by user)`;
/// where a code is its number, or `None` when the process ended without one.
/// The text follows the name, padded to `NAME_WIDTH`, and a space.
pub proof fn law_row_shows_status(service: ServiceState, highlighted: bool, row: ServiceRow)
    requires
        is_row_of(service, highlighted, row),
    ensures
        row.highlighted == highlighted,
        row.text@.take((padded(service.config.name@, NAME_WIDTH as nat).len() + 1) as int)
            == padded(service.config.name@, NAME_WIDTH as nat) + seq![' '],
        ({
            let rest = row.text@.skip((padded(service.config.name@, NAME_WIDTH as nat).len() + 1) as int);
            match service.status {
                ServiceStatus::Starting => row.marker@ == "\u{25cf} "@ && row.color
                    == StatusColor::Yellow && rest == "STARTING"@,
                ServiceStatus::Running { pid } => row.marker@ == "\u{25cf} "@ && row.color
                    == StatusColor::Green && rest == "RUNNING (pid "@ + decimal(pid as nat)
                    + ")"@,
                ServiceStatus::Exited { code } => row.marker@ == "\u{25cb} "@ && row.color
                    == StatusColor::Gray && rest == "EXITED ("@ + code_shown(code) + ")"@,
                ServiceStatus::Crashed { code } => row.marker@ == "\u{2716} "@ && row.color
                    == StatusColor::Red && rest == "CRASHED ("@ + code_shown(code) + ")"@,
                ServiceStatus::Failed { error } => row.marker@ == "\u{2716} "@ && row.color
                    == StatusColor::Red && rest == "FAILED: "@ + error@,
                ServiceStatus::Killed => row.marker@ == "\u{25a0} "@ && row.color
                    == StatusColor::Magenta && rest == "KILLED (by user)"@,
            }
        }),
{
    let p = padded(service.config.name@, NAME_WIDTH as nat) + seq![' '];
    let t = crate::view::status_text(service.status);
    assert((p + t).take(p.len() as int) =~= p);
    assert((p + t).skip(p.len() as int) =~= t);
}

/// An exit code as shown: its number, with a `-` when negative, or `None`.
pub open spec fn code_shown(code: Option<i32>) -> Seq<char> {
    match code {
        Some(c) => if c < 0 {
            seq!['-'] + decimal((-(c as int)) as nat)
        } else {
            decimal(c as nat)
        },
        None => "None"@,
    }
}

/// The four status symbols differ from each other, so a finished, a crashed
/// (or failed), a killed and a live service never look alike.
pub proof fn law_markers_differ()
    ensures
        "\u{25cf} "@ != "\u{25cb} "@,
        "\u{25cf} "@ != "\u{2716} "@,
        "\u{25cf} "@ != "\u{25a0} "@,
        "\u{25cb} "@ != "\u{2716} "@,
        "\u{25cb} "@ != "\u{25a0} "@,
        "\u{2716} "@ != "\u{25a0} "@,
{
    reveal_strlit("\u{25cf} ");
    reveal_strlit("\u{25cb} ");
    reveal_strlit("\u{2716} ");
    reveal_strlit("\u{25a0} ");
    assert("\u{25cf} "@[0] != "\u{25cb} "@[0]);
    assert("\u{25cf} "@[0] != "\u{2716} "@[0]);
    assert("\u{25cf} "@[0] != "\u{25a0} "@[0]);
    assert("\u{25cb} "@[0] != "\u{2716} "@[0]);
    assert("\u{25cb} "@[0] != "\u{25a0} "@[0]);
    assert("\u{2716} "@[0] != "\u{25a0} "@[0]);
}

/// The log window lies within the stored lines and holds as many of them as
/// fit, `min(total, visible)`; it ends at the newest line exactly when the
/// applied scroll is 0, and the applied scroll is the asked one, clamped to
/// how far the history reaches back.
pub proof fn law_log_window(total: usize, visible: usize, scroll: usize)
    ensures
        ({
            let w = window_of(total, visible, scroll);
            let max_back: int = if total > visible {
                total - visible
            } else {
                0
            };
            &&& w.start <= w.end <= total
            &&& w.end - w.start == if total < visible {
                total as int
            } else {
                visible as int
            }
            &&& w.end == total - w.scroll
            &&& w.scroll as int == if (scroll as int) < max_back {
                scroll as int
            } else {
                max_back
            }
        }),
{
}

/// The service list has one row per service, in service order, each showing
/// its own service, and exactly the focused service's row is highlighted.
pub proof fn law_rows(state: AppState, rows: Seq<ServiceRow>)
    requires
        are_rows_of(state, rows),
    ensures
        rows.len() == state.services@.len(),
        forall|i: int|
            0 <= i < rows.len() ==> ((#[trigger] rows[i]).highlighted <==> i == state.focused),
        forall|i: int|
            0 <= i < rows.len() ==> is_row_of(state.services@[i], rows[i].highlighted, #[trigger] rows[i]),
{
}

/// The pane title is the service name and ` logs`, followed, while the view is
/// scrolled back, by ` (scrolled, N lines back)`.
pub proof fn law_log_title(name: Seq<char>, scroll: usize)
    ensures
        scroll == 0 ==> log_title(name, scroll) == name + " logs"@,
        scroll > 0 ==> log_title(name, scroll) == name + " logs (scrolled, "@ + decimal(
            scroll as nat,
        ) + " lines back)"@,
{
}

/// A pane shows two lines less than it is tall (its border), and none when it
/// is 2 rows or less.
pub proof fn law_pane_lines(pane_height: u16)
    ensures
        pane_height >= 2 ==> pane_lines(pane_height) == pane_height - 2,
        pane_height < 2 ==> pane_lines(pane_height) == 0,
{
}

/// Without a focused service there is no log pane. Otherwise it shows, oldest
/// first, the texts of consecutive stored lines of the focused service that
/// fit the pane: the newest ones unless the view is scrolled back, when it
/// ends `scroll` lines (as far as history reaches) before the newest; its
/// title names the service and the scroll applied.
pub proof fn law_log_view(state: AppState, pane_height: u16, v: Option<LogView>)
    requires
        is_log_view_of(state, pane_height, v),
        state.focused < state.services@.len() ==> state.services@[state.focused as int].logs@.len()
            <= usize::MAX,
    ensures
        state.focused >= state.services@.len() ==> v is None,
        state.focused < state.services@.len() ==> (v matches Some(view) && {
            let service = state.services@[state.focused as int];
            let total = service.logs@.len();
            let visible = pane_lines(pane_height) as int;
            let w = window_of(total as usize, pane_lines(pane_height), state.scroll);
            &&& view.lines@.len() == if total < visible {
                total as int
            } else {
                visible
            }
            &&& forall|i: int|
                0 <= i < view.lines@.len() ==> #[trigger] view.lines@[i] == service.logs@[w.start
                    + i].text
            &&& w.end == total - w.scroll
            &&& w.scroll <= state.scroll
            &&& view.title@ == log_title(service.config.name@, w.scroll)
        }),
{
    if state.focused < state.services@.len() {
        let service = state.services@[state.focused as int];
        law_log_window(service.logs@.len() as usize, pane_lines(pane_height), state.scroll);
        let w = window_of(service.logs@.len() as usize, pane_lines(pane_height), state.scroll);
        let view = v->Some_0;
        assert forall|i: int| 0 <= i < view.lines@.len() implies #[trigger] view.lines@[i]
            == service.logs@[w.start + i].text by {
            assert(view.lines@[i] == service.logs@.subrange(w.start as int, w.end as int)[i].text);
        }
    }
}

} // verus!
