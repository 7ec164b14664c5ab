//! Properties that hold across calls: of the log buffer over many pushes, of
//! focus and scrolling, of process events and of parsed Procfiles.
use vstd::prelude::*;

use crate::action::Action;
use crate::config::{classify_line, parse_lines, parse_procfile, LineKind, ServiceConfig, ServiceEntry};
use crate::control::{action_allowed, action_outcome, Effect};
use crate::event::{Event, StreamKind};
use crate::log_buffer::{pushed, LogLine};
use crate::state::{
    applied_at, can_move_focus, focus_in_range, is_initial, next_focus, prev_focus, scrolled_down,
    scrolled_up, status_after, AppState, ServiceStatus,
};
use vstd::arithmetic::div_mod::{lemma_mod_add_multiples_vanish, lemma_mod_self_0, lemma_small_mod};
use crate::text::{is_trimmed, lemma_trim_is_trimmed_slice, lines, span_until, trim};

verus! {

/// The lines held after pushing each of `ps`, in order, onto `lines` in a
/// buffer of capacity `capacity`.
pub open spec fn pushed_all(lines: Seq<LogLine>, capacity: nat, ps: Seq<LogLine>) -> Seq<LogLine>
    decreases ps.len(),
{
    if ps.len() == 0 {
        lines
    } else {
        pushed(pushed_all(lines, capacity, ps.drop_last()), capacity, ps.last())
    }
}

/// The last `capacity` lines of `s` (all of them if there are fewer).
pub open spec fn latest(s: Seq<LogLine>, capacity: nat) -> Seq<LogLine> {
    if s.len() > capacity {
        s.skip(s.len() - capacity)
    } else {
        s
    }
}

/// A log buffer keeps the most recent `capacity` lines, oldest first: after
/// any number of pushes onto a buffer that holds at most `capacity` lines, it
/// holds the last `capacity` of its old lines followed by the pushed ones, and
/// never more than `capacity` lines (so none at capacity 0).
pub proof fn law_log_keeps_latest_lines(lines: Seq<LogLine>, capacity: nat, ps: Seq<LogLine>)
    requires
        lines.len() <= capacity,
    ensures
        pushed_all(lines, capacity, ps) == latest(lines + ps, capacity),
        pushed_all(lines, capacity, ps).len() <= capacity,
    decreases ps.len(),
{
    if ps.len() == 0 {
        assert(lines + ps =~= lines);
    } else {
        let q = ps.drop_last();
        let x = ps.last();
        law_log_keeps_latest_lines(lines, capacity, q);
        let before = lines + q;
        assert(lines + ps =~= before.push(x));
        let l = latest(before, capacity);
        if capacity == 0 {
            assert(latest(before.push(x), capacity) =~= Seq::<LogLine>::empty());
        } else if before.len() >= capacity {
            assert(l.drop_first().push(x) =~= latest(before.push(x), capacity));
        } else {
            assert(l.push(x) =~= latest(before.push(x), capacity));
        }
    }
}

/// The initial state focuses a service whenever there is one.
pub proof fn law_initial_focus_in_range(
    configs: Seq<ServiceConfig>,
    log_capacity: usize,
    state: AppState,
)
    requires
        is_initial(configs, log_capacity, state),
    ensures
        focus_in_range(state),
{
}

/// Moving focus forward or backward keeps it on a service.
pub proof fn law_focus_moves_stay_in_range(s: AppState)
    requires
        focus_in_range(s),
    ensures
        focus_in_range(next_focus(s)),
        focus_in_range(prev_focus(s)),
{
}

/// Moving focus to the previous service undoes moving it to the next one, and
/// the other way round; either move resets the scroll. (For the methods, which
/// exclude `usize` overflow, `law_focus_moves_always_allowed` shows that both
/// orders can be carried out.)
pub proof fn law_prev_undoes_next(s: AppState)
    requires
        focus_in_range(s),
        s.services@.len() > 0,
    ensures
        prev_focus(next_focus(s)) == (AppState { scroll: 0, ..s }),
        next_focus(prev_focus(s)) == (AppState { scroll: 0, ..s }),
{
    let n = s.services@.len() as int;
    let f = s.focused as int;
    assert(s.services.len() == n);
    // Forward, then back.
    if f + 1 < n {
        lemma_small_mod((f + 1) as nat, n as nat);
        lemma_mod_add_multiples_vanish(f, n);
        lemma_small_mod(f as nat, n as nat);
        assert((f + 1 + n - 1) % n == f);
        assert(next_focus(s).focused == f + 1);
    } else {
        lemma_mod_self_0(n);
        lemma_small_mod((n - 1) as nat, n as nat);
        assert((0 + n - 1) % n == f);
        assert(next_focus(s).focused == 0);
    }
    assert(prev_focus(next_focus(s)).focused == f);
    // Back, then forward.
    if f > 0 {
        lemma_mod_add_multiples_vanish(f - 1, n);
        lemma_small_mod((f - 1) as nat, n as nat);
        lemma_small_mod(f as nat, n as nat);
        assert((f + n - 1) % n == f - 1);
        assert((f - 1 + 1) % n == f);
        assert(prev_focus(s).focused == f - 1);
    } else {
        lemma_small_mod((n - 1) as nat, n as nat);
        lemma_mod_self_0(n);
        assert((f + n - 1) % n == n - 1);
        assert((n - 1 + 1) % n == f);
        assert(prev_focus(s).focused == n - 1);
    }
    assert(next_focus(prev_focus(s)).focused == f);
}

/// With at most `usize::MAX / 2` services and the focus on a service, the
/// overflow that `next_service` and `prev_service` exclude cannot happen: both
/// moves are allowed, before and after either move, so `next_service` followed
/// by `prev_service` (or the other way round) can always be called, and by
/// `law_prev_undoes_next` restores the focus.
pub proof fn law_focus_moves_always_allowed(s: AppState)
    requires
        focus_in_range(s),
        s.services@.len() <= usize::MAX / 2,
    ensures
        s.services@.len() > 0 ==> s.focused < usize::MAX,
        can_move_focus(s),
        s.services@.len() > 0 ==> next_focus(s).focused < usize::MAX,
        can_move_focus(next_focus(s)),
        s.services@.len() > 0 ==> prev_focus(s).focused < usize::MAX,
        can_move_focus(prev_focus(s)),
{
    law_focus_moves_stay_in_range(s);
}

/// Scrolling down by the amount just scrolled up returns to the same view,
/// as long as scrolling up did not saturate.
pub proof fn law_scroll_down_undoes_up(s: AppState, amount: usize)
    requires
        s.scroll + amount <= usize::MAX,
    ensures
        scrolled_down(scrolled_up(s, amount), amount) == s,
{
}

/// Scrolling down never goes past the latest output: scrolling down by at
/// least the current scroll shows the live tail.
pub proof fn law_scroll_down_saturates(s: AppState, amount: usize)
    requires
        amount >= s.scroll,
    ensures
        scrolled_down(s, amount).scroll == 0,
{
}

/// A process exit with code 0 marks the service as exited; any other exit,
/// also one without a code, marks it as crashed.
pub proof fn law_exit_code_classifies(status: ServiceStatus, service: String, code: Option<i32>)
    ensures
        status_after(status, Event::ProcessExited { service, code }) == if code == Some(0i32) {
            ServiceStatus::Exited { code }
        } else {
            ServiceStatus::Crashed { code }
        },
{
}

/// An event for a name that no service has changes nothing.
pub proof fn law_unknown_service_ignored(
    before: AppState,
    index: int,
    event: Event,
    after: AppState,
)
    requires
        index == before.services@.len(),
        applied_at(before, index, event, after),
    ensures
        after.services@ == before.services@,
        after.focused == before.focused,
        after.scroll == before.scroll,
        after.should_quit == before.should_quit,
{
    assert(after.services@ =~= before.services@);
}

/// New output does not move the log view: a log line leaves the scroll
/// offset, the focus and every status as they were.
pub proof fn law_output_keeps_view(
    before: AppState,
    index: int,
    service: String,
    stream: StreamKind,
    line: String,
    at: std::time::Instant,
    after: AppState,
)
    requires
        applied_at(before, index, Event::Log { service, stream, line, at }, after),
    ensures
        after.scroll == before.scroll,
        after.focused == before.focused,
        forall|j: int|
            0 <= j < before.services@.len() ==> (#[trigger] after.services@[j]).status
                == before.services@[j].status,
{
    assert forall|j: int| 0 <= j < before.services@.len() implies (#[trigger] after.services@[
        j]).status == before.services@[j].status by {
        if j != index {
            assert(after.services@[j] == before.services@[j]);
        }
    }
}

/// Every user action and every process event keeps the focus on a service.
pub proof fn law_actions_and_events_keep_focus_in_range(
    before: AppState,
    task_count: usize,
    action: Action,
    after: AppState,
    effect: Effect,
)
    requires
        focus_in_range(before),
        action_allowed(before, action),
        action_outcome(before, task_count, action, after, effect),
    ensures
        focus_in_range(after),
{
}

/// Applying a process event keeps the focus on a service.
pub proof fn law_events_keep_focus_in_range(
    before: AppState,
    index: int,
    event: Event,
    after: AppState,
)
    requires
        focus_in_range(before),
        applied_at(before, index, event, after),
    ensures
        focus_in_range(after),
{
}

/// A line that is empty or begins with `#` once trimmed.
pub open spec fn is_ignored_line(line: Seq<char>) -> bool {
    trim(line).len() == 0 || trim(line)[0] == '#'
}

/// The lines that are neither blank nor comments, in order.
pub open spec fn kept_lines(ls: Seq<Seq<char>>) -> Seq<Seq<char>> {
    ls.filter(|l: Seq<char>| !is_ignored_line(l))
}

/// Blank and comment lines are ignored, however many there are and wherever
/// they stand: the lines parse exactly when the other lines alone do, and then
/// define the same services. Only the line numbers in an error message depend
/// on them.
pub proof fn law_only_kept_lines_matter(ls: Seq<Seq<char>>)
    ensures
        parse_lines(ls) is Ok <==> parse_lines(kept_lines(ls)) is Ok,
        parse_lines(ls) is Ok ==> parse_lines(ls) == parse_lines(kept_lines(ls)),
    decreases ls.len(),
{
    reveal(Seq::filter);
    if ls.len() > 0 {
        law_only_kept_lines_matter(ls.drop_last());
        let k = kept_lines(ls.drop_last());
        if !is_ignored_line(ls.last()) {
            assert(kept_lines(ls) == k.push(ls.last()));
            assert(k.push(ls.last()).drop_last() =~= k);
        } else {
            assert(kept_lines(ls) == k);
        }
    }
}

/// Two Procfile texts that differ only in blank and comment lines (any number
/// of them, anywhere) define the same services: when either parses, both give
/// the same result.
pub proof fn law_procfile_ignores_blank_and_comment_lines(a: Seq<char>, b: Seq<char>)
    requires
        kept_lines(lines(a)) == kept_lines(lines(b)),
    ensures
        parse_procfile(a) is Ok ==> parse_procfile(b) == parse_procfile(a),
        parse_procfile(b) is Ok ==> parse_procfile(a) == parse_procfile(b),
{
    law_only_kept_lines_matter(lines(a));
    law_only_kept_lines_matter(lines(b));
}

/// Each service of a parsed Procfile has a non-empty name without `:` and a
/// non-empty command, neither with whitespace at its ends: only the first `:`
/// of a line separates name and command.
pub proof fn law_parsed_services_well_formed(s: Seq<char>, entries: Seq<ServiceEntry>)
    requires
        parse_procfile(s) == Ok::<Seq<ServiceEntry>, Seq<char>>(entries),
    ensures
        entries.len() > 0,
        forall|i: int|
            0 <= i < entries.len() ==> {
                let e = #[trigger] entries[i];
                &&& e.name.len() > 0
                &&& e.command.len() > 0
                &&& !e.name.contains(':')
                &&& is_trimmed(e.name)
                &&& is_trimmed(e.command)
            },
{
    lemma_parsed_lines_well_formed(lines(s), entries);
}

/// The entries that `parse_lines` gives all have the shape that
/// `law_parsed_services_well_formed` states.
proof fn lemma_parsed_lines_well_formed(ls: Seq<Seq<char>>, entries: Seq<ServiceEntry>)
    requires
        parse_lines(ls) == Ok::<Seq<ServiceEntry>, Seq<char>>(entries),
    ensures
        forall|i: int|
            0 <= i < entries.len() ==> {
                let e = #[trigger] entries[i];
                &&& e.name.len() > 0
                &&& e.command.len() > 0
                &&& !e.name.contains(':')
                &&& is_trimmed(e.name)
                &&& is_trimmed(e.command)
            },
    decreases ls.len(),
{
    if ls.len() > 0 {
        let prev = parse_lines(ls.drop_last());
        let acc = prev->Ok_0;
        lemma_parsed_lines_well_formed(ls.drop_last(), acc);
        match classify_line(ls.last()) {
            LineKind::Entry(entry) => {
                lemma_entry_well_formed(ls.last());
                assert(entries == acc.push(entry));
            },
            _ => {},
        }
    }
}

/// A line that defines a service defines one of the stated shape.
proof fn lemma_entry_well_formed(line: Seq<char>)
    requires
        classify_line(line) is Entry,
    ensures
        ({
            let e = classify_line(line)->Entry_0;
            &&& e.name.len() > 0
            &&& e.command.len() > 0
            &&& !e.name.contains(':')
            &&& is_trimmed(e.name)
            &&& is_trimmed(e.command)
        }),
{
    let t = trim(line);
    let k = span_until(t, ':');
    let head = t.take(k as int);
    lemma_span_prefix_free(t, ':');
    lemma_trim_is_trimmed_slice(head);
    lemma_trim_is_trimmed_slice(t.skip(k as int + 1));
    let name = trim(head);
    let (lo, hi) = choose|lo: int, hi: int|
        0 <= lo <= hi <= head.len() && name == head.subrange(lo, hi);
    assert forall|j: int| 0 <= j < name.len() implies name[j] != ':' by {
        assert(name[j] == head[lo + j]);
    }
}

/// No character before `span_until(s, c)` is `c`.
proof fn lemma_span_prefix_free(s: Seq<char>, c: char)
    ensures
        span_until(s, c) <= s.len(),
        forall|j: int| 0 <= j < span_until(s, c) ==> s[j] != c,
    decreases s.len(),
{
    if s.len() > 0 && s[0] != c {
        lemma_span_prefix_free(s.drop_first(), c);
        assert forall|j: int| 0 <= j < span_until(s, c) implies s[j] != c by {
            if j > 0 {
                assert(s[j] == s.drop_first()[j - 1]);
            }
        }
    }
}

} // verus!
