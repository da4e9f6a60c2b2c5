//! The command executor: one dispatched operation's argument grammar, its
//! event discipline, and the classification of the external tool's outcome.
//!
//! The external credential tool runs outside this library; what comes back
//! is handed in as a [`ProcessOutcome`]. Whatever that outcome is — the
//! process could not be spawned, exited nonzero, or succeeded — each
//! conclude step appends exactly one terminal event to the sink, so no
//! operation ends silently and none reports twice.

use vstd::prelude::*;
use crate::errors::{ErrorView, PasswordError};
use crate::events::{ChannelEvent, EventSink, EventView};
use crate::registry::OpKind;

verus! {

/// What running the external tool produced: either it could not be started,
/// or it exited. `status_text` describes the exit status; `stdout` and
/// `stderr` hold the captured streams, empty where they were suppressed.
#[derive(Debug, Clone)]
pub enum ProcessOutcome {
    LaunchFailed(String),
    Exited { success: bool, stdout: String, stderr: String, status_text: String },
}

/// The view of an outcome, over character sequences.
pub enum OutcomeView {
    LaunchFailed(Seq<char>),
    Exited { success: bool, stdout: Seq<char>, stderr: Seq<char>, status_text: Seq<char> },
}

impl View for ProcessOutcome {
    type V = OutcomeView;

    open spec fn view(&self) -> OutcomeView {
        match self {
            ProcessOutcome::LaunchFailed(m) => OutcomeView::LaunchFailed(m@),
            ProcessOutcome::Exited { success, stdout, stderr, status_text } =>
                OutcomeView::Exited {
                    success: *success,
                    stdout: stdout@,
                    stderr: stderr@,
                    status_text: status_text@,
                },
        }
    }
}

/// The outcome counts as success exactly when the process ran and exited
/// successfully.
pub open spec fn outcome_succeeded(out: OutcomeView) -> bool {
    out matches OutcomeView::Exited { success: true, .. }
}

/// The external tool's name.
pub fn command_program() -> (r: &'static str)
    ensures
        r@ == "pass"@,
{
    "pass"
}

/// The fixed argument vector for one operation kind, per the external
/// tool's grammar.
pub open spec fn spec_command_args(kind: OpKind, pass_id: Seq<char>) -> Seq<Seq<char>> {
    match kind {
        OpKind::CopyPassword => seq![pass_id, "--clip"@],
        OpKind::CopyLogin => seq![pass_id, "--clip=2"@],
        OpKind::CopyOtp => seq!["otp"@, "code"@, pass_id, "--clip"@],
        OpKind::FetchOtp => seq!["otp"@, "code"@, pass_id],
        OpKind::FetchEntry => seq![pass_id],
    }
}

/// Builds the argument vector for `kind` on `pass_id`.
pub fn command_args(kind: OpKind, pass_id: &str) -> (r: Vec<String>)
    ensures
        r@.map_values(|s: String| s@) == spec_command_args(kind, pass_id@),
{
    let mut v: Vec<String> = Vec::new();
    match kind {
        OpKind::CopyPassword => {
            v.push(pass_id.to_owned());
            v.push(String::from_str("--clip"));
        },
        OpKind::CopyLogin => {
            v.push(pass_id.to_owned());
            v.push(String::from_str("--clip=2"));
        },
        OpKind::CopyOtp => {
            v.push(String::from_str("otp"));
            v.push(String::from_str("code"));
            v.push(pass_id.to_owned());
            v.push(String::from_str("--clip"));
        },
        OpKind::FetchOtp => {
            v.push(String::from_str("otp"));
            v.push(String::from_str("code"));
            v.push(pass_id.to_owned());
        },
        OpKind::FetchEntry => {
            v.push(pass_id.to_owned());
        },
    }
    proof {
        assert(v@.map_values(|s: String| s@) =~= spec_command_args(kind, pass_id@));
    }
    v
}

/// Whether the operation captures the tool's output (the fetch kinds) or
/// suppresses the inherited standard streams (the copy kinds).
pub open spec fn spec_captures_output(kind: OpKind) -> bool {
    match kind {
        OpKind::FetchOtp => true,
        OpKind::FetchEntry => true,
        _ => false,
    }
}

pub fn captures_output(kind: OpKind) -> (r: bool)
    ensures
        r == spec_captures_output(kind),
{
    match kind {
        OpKind::FetchOtp => true,
        OpKind::FetchEntry => true,
        _ => false,
    }
}

/// The status text announcing that an operation has begun.
pub open spec fn spec_starting_status(kind: OpKind) -> Seq<char> {
    match kind {
        OpKind::CopyPassword => "Copying password to clipboard..."@,
        OpKind::CopyLogin => "Copying login to clipboard..."@,
        OpKind::CopyOtp => "Copying one-time password to clipboard..."@,
        OpKind::FetchOtp => "Fetching one-time password..."@,
        OpKind::FetchEntry => "Fetching password entry..."@,
    }
}

/// The status text reported after a copy operation succeeds.
pub open spec fn spec_success_status(kind: OpKind) -> Seq<char> {
    match kind {
        OpKind::CopyPassword => "Password copied to clipboard, clears after 45 seconds"@,
        OpKind::CopyLogin => "Login copied to clipboard, clears after 45 seconds"@,
        OpKind::CopyOtp => "One-time password copied to clipboard"@,
        _ => ""@,
    }
}

/// The failure payload reported for `kind`: the launch error verbatim, the
/// exit-status description for the copy kinds, or the error output for the
/// fetch kinds.
pub open spec fn spec_failure_text(kind: OpKind, out: OutcomeView) -> Seq<char> {
    match out {
        OutcomeView::LaunchFailed(m) => m,
        OutcomeView::Exited { stderr, status_text, .. } => if spec_captures_output(kind) {
            stderr
        } else {
            status_text
        },
    }
}

/// The events one conclude step appends for `kind` on `pass_id`, given the
/// process outcome.
pub open spec fn conclude_events(kind: OpKind, pass_id: Seq<char>, out: OutcomeView) -> Seq<
    EventView,
> {
    if outcome_succeeded(out) {
        match kind {
            OpKind::FetchOtp => seq![
                EventView::OneTimePassword {
                    pass_id: pass_id,
                    one_time_password: out->Exited_stdout,
                },
                EventView::ResetStatus,
            ],
            OpKind::FetchEntry => seq![
                EventView::PasswordInfo { pass_id: pass_id, file_contents: out->Exited_stdout },
                EventView::ResetStatus,
            ],
            _ => seq![EventView::Status(spec_success_status(kind))],
        }
    } else {
        seq![EventView::Status(spec_failure_text(kind, out))]
    }
}

/// An event that ends an operation: a result payload, or a status text that
/// closes it (a success message or a failure surfaced for display). The
/// transient starting status of `begin_operation` is not appended by any
/// conclude step, and `ResetStatus` only accompanies a payload.
pub open spec fn is_terminal(e: EventView) -> bool {
    match e {
        EventView::Status(_) => true,
        EventView::ResetStatus => false,
        EventView::PasswordInfo { .. } => true,
        EventView::OneTimePassword { .. } => true,
    }
}

/// How many terminal events stand in `es`.
pub open spec fn terminal_count(es: Seq<EventView>) -> nat
    decreases es.len(),
{
    if es.len() == 0 {
        0
    } else {
        (if is_terminal(es[0]) {
            1nat
        } else {
            0nat
        }) + terminal_count(es.drop_first())
    }
}

/// Every conclude step appends exactly one terminal event, whatever the
/// outcome: launch failure, nonzero exit, or success.
pub proof fn lemma_one_terminal_event(kind: OpKind, pass_id: Seq<char>, out: OutcomeView)
    ensures
        terminal_count(conclude_events(kind, pass_id, out)) == 1,
{
    reveal_with_fuel(terminal_count, 4);
    let es = conclude_events(kind, pass_id, out);
    if es.len() == 2 {
        assert(es.drop_first() =~= seq![es[1]]);
        assert(seq![es[1]].drop_first() =~= Seq::<EventView>::empty());
        assert(terminal_count(es) == (if is_terminal(es[0]) {
            1nat
        } else {
            0nat
        }) + terminal_count(seq![es[1]]));
    } else {
        assert(es.drop_first() =~= Seq::<EventView>::empty());
    }
}

/// Announces that an operation has begun: emits the starting status event
/// before any work is done.
pub fn begin_operation(kind: OpKind, sink: &mut EventSink)
    ensures
        final(sink)@ == old(sink)@.push(EventView::Status(spec_starting_status(kind))),
{
    let text = match kind {
        OpKind::CopyPassword => String::from_str("Copying password to clipboard..."),
        OpKind::CopyLogin => String::from_str("Copying login to clipboard..."),
        OpKind::CopyOtp => String::from_str("Copying one-time password to clipboard..."),
        OpKind::FetchOtp => String::from_str("Fetching one-time password..."),
        OpKind::FetchEntry => String::from_str("Fetching password entry..."),
    };
    sink.emit(ChannelEvent::Status(text));
}

} // verus!

verus! {

/// Concludes a `pass <id> --clip` run: reports the success status or the
/// exit-status description, exactly one terminal event either way.
pub fn copy_password(pass_id: String, outcome: ProcessOutcome, sink: &mut EventSink) -> (r:
    Result<(), PasswordError>)
    ensures
        final(sink)@ == old(sink)@ + conclude_events(OpKind::CopyPassword, pass_id@, outcome@),
        outcome_succeeded(outcome@) ==> r is Ok,
        !outcome_succeeded(outcome@) ==> (r matches Err(e) && e@ == ErrorView::PassError(
            spec_failure_text(OpKind::CopyPassword, outcome@),
        )),
{
    let ghost sold = sink@;
    let ghost outv = outcome@;
    match outcome {
        ProcessOutcome::Exited { success: true, .. } => {
            sink.emit(
                ChannelEvent::Status(
                    String::from_str("Password copied to clipboard, clears after 45 seconds"),
                ),
            );
            proof {
                assert(sink@ =~= sold + conclude_events(OpKind::CopyPassword, pass_id@, outv));
            }
            Ok(())
        },
        ProcessOutcome::Exited { success: false, status_text, .. } => {
            sink.emit(ChannelEvent::Status(status_text.clone()));
            proof {
                assert(sink@ =~= sold + conclude_events(OpKind::CopyPassword, pass_id@, outv));
            }
            Err(PasswordError::PassError(status_text))
        },
        ProcessOutcome::LaunchFailed(m) => {
            sink.emit(ChannelEvent::Status(m.clone()));
            proof {
                assert(sink@ =~= sold + conclude_events(OpKind::CopyPassword, pass_id@, outv));
            }
            Err(PasswordError::PassError(m))
        },
    }
}

/// Concludes a `pass <id> --clip=2` run, as `copy_password` does for the
/// second line.
pub fn copy_login(pass_id: String, outcome: ProcessOutcome, sink: &mut EventSink) -> (r: Result<
    (),
    PasswordError,
>)
    ensures
        final(sink)@ == old(sink)@ + conclude_events(OpKind::CopyLogin, pass_id@, outcome@),
        outcome_succeeded(outcome@) ==> r is Ok,
        !outcome_succeeded(outcome@) ==> (r matches Err(e) && e@ == ErrorView::PassError(
            spec_failure_text(OpKind::CopyLogin, outcome@),
        )),
{
    let ghost sold = sink@;
    let ghost outv = outcome@;
    match outcome {
        ProcessOutcome::Exited { success: true, .. } => {
            sink.emit(
                ChannelEvent::Status(
                    String::from_str("Login copied to clipboard, clears after 45 seconds"),
                ),
            );
            proof {
                assert(sink@ =~= sold + conclude_events(OpKind::CopyLogin, pass_id@, outv));
            }
            Ok(())
        },
        ProcessOutcome::Exited { success: false, status_text, .. } => {
            sink.emit(ChannelEvent::Status(status_text.clone()));
            proof {
                assert(sink@ =~= sold + conclude_events(OpKind::CopyLogin, pass_id@, outv));
            }
            Err(PasswordError::PassError(status_text))
        },
        ProcessOutcome::LaunchFailed(m) => {
            sink.emit(ChannelEvent::Status(m.clone()));
            proof {
                assert(sink@ =~= sold + conclude_events(OpKind::CopyLogin, pass_id@, outv));
            }
            Err(PasswordError::PassError(m))
        },
    }
}

/// Concludes a `pass otp code <id> --clip` run.
pub fn copy_otp(pass_id: String, outcome: ProcessOutcome, sink: &mut EventSink) -> (r: Result<
    (),
    PasswordError,
>)
    ensures
        final(sink)@ == old(sink)@ + conclude_events(OpKind::CopyOtp, pass_id@, outcome@),
        outcome_succeeded(outcome@) ==> r is Ok,
        !outcome_succeeded(outcome@) ==> (r matches Err(e) && e@ == ErrorView::PassError(
            spec_failure_text(OpKind::CopyOtp, outcome@),
        )),
{
    let ghost sold = sink@;
    let ghost outv = outcome@;
    match outcome {
        ProcessOutcome::Exited { success: true, .. } => {
            sink.emit(
                ChannelEvent::Status(String::from_str("One-time password copied to clipboard")),
            );
            proof {
                assert(sink@ =~= sold + conclude_events(OpKind::CopyOtp, pass_id@, outv));
            }
            Ok(())
        },
        ProcessOutcome::Exited { success: false, status_text, .. } => {
            sink.emit(ChannelEvent::Status(status_text.clone()));
            proof {
                assert(sink@ =~= sold + conclude_events(OpKind::CopyOtp, pass_id@, outv));
            }
            Err(PasswordError::PassError(status_text))
        },
        ProcessOutcome::LaunchFailed(m) => {
            sink.emit(ChannelEvent::Status(m.clone()));
            proof {
                assert(sink@ =~= sold + conclude_events(OpKind::CopyOtp, pass_id@, outv));
            }
            Err(PasswordError::PassError(m))
        },
    }
}

/// Concludes a `pass otp code <id>` run: on success the captured output is
/// the one-time code, reported as the terminal payload and then a status
/// reset; on failure the error output is reported verbatim.
pub fn fetch_otp(pass_id: String, outcome: ProcessOutcome, sink: &mut EventSink) -> (r: Result<
    ChannelEvent,
    PasswordError,
>)
    ensures
        final(sink)@ == old(sink)@ + conclude_events(OpKind::FetchOtp, pass_id@, outcome@),
        outcome_succeeded(outcome@) ==> (r matches Ok(ev) && ev@ == (EventView::OneTimePassword {
            pass_id: pass_id@,
            one_time_password: outcome@->Exited_stdout,
        })),
        !outcome_succeeded(outcome@) ==> (r matches Err(e) && e@ == ErrorView::PassError(
            spec_failure_text(OpKind::FetchOtp, outcome@),
        )),
{
    let ghost sold = sink@;
    let ghost outv = outcome@;
    match outcome {
        ProcessOutcome::Exited { success: true, stdout, .. } => {
            sink.emit(
                ChannelEvent::OneTimePassword {
                    pass_id: pass_id.clone(),
                    one_time_password: stdout.clone(),
                },
            );
            sink.emit(ChannelEvent::ResetStatus);
            proof {
                assert(sink@ =~= sold + conclude_events(OpKind::FetchOtp, pass_id@, outv));
            }
            Ok(ChannelEvent::OneTimePassword { pass_id, one_time_password: stdout })
        },
        ProcessOutcome::Exited { success: false, stderr, .. } => {
            sink.emit(ChannelEvent::Status(stderr.clone()));
            proof {
                assert(sink@ =~= sold + conclude_events(OpKind::FetchOtp, pass_id@, outv));
            }
            Err(PasswordError::PassError(stderr))
        },
        ProcessOutcome::LaunchFailed(m) => {
            sink.emit(ChannelEvent::Status(m.clone()));
            proof {
                assert(sink@ =~= sold + conclude_events(OpKind::FetchOtp, pass_id@, outv));
            }
            Err(PasswordError::PassError(m))
        },
    }
}

/// Concludes a `pass <id>` run: on success the captured output is the
/// decrypted entry, reported as the terminal payload and then a status
/// reset; on failure the error output is reported verbatim.
pub fn fetch_entry(pass_id: String, outcome: ProcessOutcome, sink: &mut EventSink) -> (r: Result<
    ChannelEvent,
    PasswordError,
>)
    ensures
        final(sink)@ == old(sink)@ + conclude_events(OpKind::FetchEntry, pass_id@, outcome@),
        outcome_succeeded(outcome@) ==> (r matches Ok(ev) && ev@ == (EventView::PasswordInfo {
            pass_id: pass_id@,
            file_contents: outcome@->Exited_stdout,
        })),
        !outcome_succeeded(outcome@) ==> (r matches Err(e) && e@ == ErrorView::PassError(
            spec_failure_text(OpKind::FetchEntry, outcome@),
        )),
{
    let ghost sold = sink@;
    let ghost outv = outcome@;
    match outcome {
        ProcessOutcome::Exited { success: true, stdout, .. } => {
            sink.emit(
                ChannelEvent::PasswordInfo {
                    pass_id: pass_id.clone(),
                    file_contents: stdout.clone(),
                },
            );
            sink.emit(ChannelEvent::ResetStatus);
            proof {
                assert(sink@ =~= sold + conclude_events(OpKind::FetchEntry, pass_id@, outv));
            }
            Ok(ChannelEvent::PasswordInfo { pass_id, file_contents: stdout })
        },
        ProcessOutcome::Exited { success: false, stderr, .. } => {
            sink.emit(ChannelEvent::Status(stderr.clone()));
            proof {
                assert(sink@ =~= sold + conclude_events(OpKind::FetchEntry, pass_id@, outv));
            }
            Err(PasswordError::PassError(stderr))
        },
        ProcessOutcome::LaunchFailed(m) => {
            sink.emit(ChannelEvent::Status(m.clone()));
            proof {
                assert(sink@ =~= sold + conclude_events(OpKind::FetchEntry, pass_id@, outv));
            }
            Err(PasswordError::PassError(m))
        },
    }
}

} // verus!
