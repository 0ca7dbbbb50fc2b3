//! Properties of the session that hold across requests, proved over the
//! transition `step` that `ShellState::handle_request` is held to.
//!
//! Where a property depends on the engine reading back what it wrote, that
//! read-back is a hypothesis: libphext does not promise it for every
//! document (a scroll written at a coordinate that the document skips over
//! can land elsewhere).

use vstd::prelude::*;
use crate::command::{command_of, CommandKind};
use crate::coordinate::accepted_address;
use crate::engine::{scroll_at, with_scroll};
use crate::shell::{
    expected_argument, request_arg, request_line, request_word, step, step_action, step_lines,
    Action, Session,
};
use crate::text::trimmed;

verus! {

/// A command that needs an argument (`af`, `lp`, `sp`), given none, leaves
/// the document, the cursor and the scroll as they were, prints only the
/// missing-argument notice and leaves no work to the caller.
pub proof fn missing_argument_changes_nothing(s: Session, request: Seq<char>)
    requires
        s.wf(),
        request_arg(request).len() == 0,
        command_of(request_word(request)) == CommandKind::AppendFile || command_of(
            request_word(request),
        ) == CommandKind::LoadPhext || command_of(request_word(request))
            == CommandKind::SavePhext,
    ensures
        step(s, request).document == s.document,
        step(s, request).coordinate == s.coordinate,
        step(s, request).scroll == s.scroll,
        step_lines(s, request) == seq![expected_argument()],
        step_action(s, request) == Action::Nothing,
{
}

/// After `cs <address>` moves the cursor, a bare `cs` prints the canonical
/// text of that address and changes nothing but the log.
pub proof fn change_then_show(s: Session, first: Seq<char>, second: Seq<char>)
    requires
        s.wf(),
        command_of(request_word(first)) == CommandKind::ChangeScroll,
        request_arg(first).len() > 0,
        accepted_address(request_arg(first)) is Some,
        command_of(request_word(second)) == CommandKind::ChangeScroll,
        request_arg(second).len() == 0,
    ensures
        ({
            let u = step(s, first);
            let v = step(u, second);
            &&& u.coordinate == accepted_address(request_arg(first))->Some_0
            &&& step_lines(u, second) == seq!["Location: "@ + u.coordinate.text()]
            &&& v.filename == u.filename
            &&& v.coordinate == u.coordinate
            &&& v.running == u.running
            &&& v.document == u.document
            &&& v.scroll == u.scroll
        }),
{
}

/// `os <text>` followed by `ds` prints exactly `<text>`, wherever the
/// engine reads back the text it wrote at the cursor.
pub proof fn overwrite_then_display(s: Session, first: Seq<char>, second: Seq<char>)
    requires
        s.wf(),
        command_of(request_word(first)) == CommandKind::OverwriteScroll,
        command_of(request_word(second)) == CommandKind::DisplayScroll,
        scroll_at(with_scroll(s.document, s.coordinate, request_arg(first)), s.coordinate)
            == request_arg(first),
    ensures
        step_lines(s, first) == seq![request_arg(first)],
        step_lines(step(s, first), second) == seq![request_arg(first)],
{
}

/// `rs` followed by `ds` prints the empty text, whatever the scroll held,
/// wherever the engine reads back the empty scroll it wrote at the cursor.
pub proof fn reset_then_display(s: Session, first: Seq<char>, second: Seq<char>)
    requires
        s.wf(),
        command_of(request_word(first)) == CommandKind::ResetScroll,
        command_of(request_word(second)) == CommandKind::DisplayScroll,
        scroll_at(with_scroll(s.document, s.coordinate, Seq::empty()), s.coordinate)
            == Seq::<char>::empty(),
    ensures
        step_lines(step(s, first), second) == seq![Seq::<char>::empty()],
{
}

/// The session after each of `requests` in turn.
pub open spec fn run(s: Session, requests: Seq<Seq<char>>) -> Session
    decreases requests.len(),
{
    if requests.len() == 0 {
        s
    } else {
        step(run(s, requests.drop_last()), requests.last())
    }
}

/// The log text that `requests` leave: each trimmed line after a newline.
pub open spec fn log_of(requests: Seq<Seq<char>>) -> Seq<char>
    decreases requests.len(),
{
    if requests.len() == 0 {
        Seq::empty()
    } else {
        log_of(requests.drop_last()) + "\n"@ + trimmed(requests.last())
    }
}

/// The engine reads back the log entry that `request` makes in `u`.
pub open spec fn log_reads_back(u: Session, request: Seq<char>) -> bool {
    let entry = scroll_at(u.history, u.coordinate) + "\n"@ + request_line(request);
    scroll_at(with_scroll(u.history, u.coordinate, entry), u.coordinate) == entry
}

/// Requests issued at one coordinate (none of them `cs`) leave the cursor
/// there, and the log at it holds what it held before followed by each
/// trimmed request line, after a newline, in the order issued; wherever the
/// engine reads back each entry it wrote.
pub proof fn history_keeps_every_line(s: Session, requests: Seq<Seq<char>>)
    requires
        forall|k: int|
            0 <= k < requests.len() ==> command_of(request_word(#[trigger] requests[k]))
                != CommandKind::ChangeScroll,
        forall|k: int|
            0 <= k < requests.len() ==> log_reads_back(
                run(s, requests.take(k)),
                #[trigger] requests[k],
            ),
    ensures
        run(s, requests).coordinate == s.coordinate,
        scroll_at(run(s, requests).history, s.coordinate) == scroll_at(s.history, s.coordinate)
            + log_of(requests),
    decreases requests.len(),
{
    if requests.len() == 0 {
        assert(log_of(requests) =~= Seq::<char>::empty());
    } else {
        let n = requests.len() - 1;
        let prefix = requests.drop_last();
        assert forall|k: int| 0 <= k < prefix.len() implies log_reads_back(
            run(s, prefix.take(k)),
            #[trigger] prefix[k],
        ) by {
            assert(prefix.take(k) =~= requests.take(k));
            assert(prefix[k] == requests[k]);
        }
        assert forall|k: int| 0 <= k < prefix.len() implies command_of(
            request_word(#[trigger] prefix[k]),
        ) != CommandKind::ChangeScroll by {
            assert(prefix[k] == requests[k]);
        }
        history_keeps_every_line(s, prefix);
        assert(requests.take(n) =~= prefix);
        assert(log_reads_back(run(s, requests.take(n)), requests[n]));
        assert(requests[n] == requests.last());
        assert(scroll_at(run(s, requests).history, s.coordinate) =~= scroll_at(
            s.history,
            s.coordinate,
        ) + log_of(requests));
    }
}

} // verus!
