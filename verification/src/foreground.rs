//! What a foreground session (`never-sleep on` without the menu) hands over
//! when the menu appears.

use vstd::prelude::*;
use crate::config::{parse_duration_spec, DurationPref};
use crate::engine::{session_elapsed, session_remaining, Engine};
use crate::i18n::Lang;
use crate::protocol::{duration_ipc_text, duration_pref_to_ipc, parse_on_duration_in, IpcRequest};
use crate::status::HostSnapshot;

verus! {

/// The handoff that passes the live session to the menu: the configured
/// duration in its IPC spelling, plus what is left of the session and how long
/// it has run, so the menu continues it instead of starting over.
pub fn handoff_request(engine: &Engine, host: &HostSnapshot) -> (r: IpcRequest)
    ensures
        r matches IpcRequest::On {
            duration: Some(d),
            remaining_secs: rs,
            elapsed_secs: es,
            handoff: true,
            applied_command_ids: ids,
            handoff_id: None,
        } && d@ == duration_ipc_text(engine.model().config.duration) && rs == session_remaining(
            engine.model(),
            *host,
        ) && es == session_elapsed(engine.model(), *host) && ids@.len() == 0,
{
    let status = engine.json_status(host);
    IpcRequest::handoff(
        Some(duration_pref_to_ipc(engine.configured_duration())),
        status.remaining_secs,
        status.elapsed_secs,
    )
}

/// One step of a foreground session's loop. The process performs the step and
/// reports what it saw; `next_step` picks the following one.
#[derive(Debug, Clone, Copy, PartialEq, Eq, Structural)]
pub enum FgStep {
    /// Apply the phone commands the reporter collected (when one runs).
    PollCommands,
    /// Ask whether a menu answers on the socket.
    PingMenu,
    /// Pause the reporter and apply what it still held.
    Quiesce,
    /// Send the handoff request to the menu.
    SendHandoff,
    /// The menu adopted the session: detach the reporter, stop, release power,
    /// report the end.
    Handover,
    /// The handoff was refused or lost: resume the reporter.
    Resume,
    /// Tick the engine and publish the status.
    Tick,
    /// Wait one heartbeat.
    Sleep,
    /// Leave: stop a session still running, release power, flush the
    /// reporter, report the end.
    Finish,
}

/// The step after `done`. `running` is false once Ctrl-C was pressed;
/// `active` is whether standby still runs; `menu_ok` is whether the menu
/// answered the ping (after `PingMenu`) or accepted the handoff (after
/// `SendHandoff`).
pub open spec fn next_step_spec(done: FgStep, running: bool, active: bool, menu_ok: bool) -> FgStep {
    match done {
        FgStep::Sleep => if running && active {
            FgStep::PollCommands
        } else {
            FgStep::Finish
        },
        FgStep::PollCommands => if active {
            FgStep::PingMenu
        } else {
            FgStep::Finish
        },
        FgStep::PingMenu => if menu_ok {
            FgStep::Quiesce
        } else {
            FgStep::Tick
        },
        FgStep::Quiesce => if active {
            FgStep::SendHandoff
        } else {
            FgStep::Finish
        },
        FgStep::SendHandoff => if menu_ok {
            FgStep::Handover
        } else {
            FgStep::Resume
        },
        FgStep::Resume => FgStep::Tick,
        FgStep::Tick => if active {
            FgStep::Sleep
        } else {
            FgStep::Finish
        },
        FgStep::Handover => FgStep::Handover,
        FgStep::Finish => FgStep::Finish,
    }
}

/// The step after `done` (see `next_step_spec`); `Handover` and `Finish` end the loop.
pub fn next_step(done: FgStep, running: bool, active: bool, menu_ok: bool) -> (r: FgStep)
    ensures
        r == next_step_spec(done, running, active, menu_ok),
{
    match done {
        FgStep::Sleep => if running && active {
            FgStep::PollCommands
        } else {
            FgStep::Finish
        },
        FgStep::PollCommands => if active {
            FgStep::PingMenu
        } else {
            FgStep::Finish
        },
        FgStep::PingMenu => if menu_ok {
            FgStep::Quiesce
        } else {
            FgStep::Tick
        },
        FgStep::Quiesce => if active {
            FgStep::SendHandoff
        } else {
            FgStep::Finish
        },
        FgStep::SendHandoff => if menu_ok {
            FgStep::Handover
        } else {
            FgStep::Resume
        },
        FgStep::Resume => FgStep::Tick,
        FgStep::Tick => if active {
            FgStep::Sleep
        } else {
            FgStep::Finish
        },
        FgStep::Handover => FgStep::Handover,
        FgStep::Finish => FgStep::Finish,
    }
}

/// The first step once standby was started: the loop when it runs, `None`
/// (the start failed) otherwise.
pub fn first_step(active: bool) -> (r: Option<FgStep>)
    ensures
        r == (if active {
            Some(FgStep::PollCommands)
        } else {
            None
        }),
{
    if active {
        Some(FgStep::PollCommands)
    } else {
        None
    }
}

/// The session goes to a menu only after the menu accepted a handoff that was
/// sent while standby ran; the loop leaves only through `Handover` or
/// `Finish`, and `Finish` follows whenever standby ended or Ctrl-C was
/// pressed at the end of a heartbeat.
pub proof fn law_foreground_hands_over_only_when_accepted(
    done: FgStep,
    running: bool,
    active: bool,
    menu_ok: bool,
)
    ensures
        next_step_spec(done, running, active, menu_ok) == FgStep::Handover ==> (done
            == FgStep::Handover || (done == FgStep::SendHandoff && menu_ok)),
        next_step_spec(done, running, active, menu_ok) == FgStep::SendHandoff ==> (done
            == FgStep::Quiesce && active),
        (done == FgStep::Sleep && !(running && active)) ==> next_step_spec(
            done,
            running,
            active,
            menu_ok,
        ) == FgStep::Finish,
        (done != FgStep::Handover && done != FgStep::Finish) ==> next_step_spec(
            done,
            running,
            active,
            menu_ok,
        ) != done,
{
}

/// The duration given to `on`, if any (errors in `lang`).
pub fn parse_optional_duration(raw: Option<&str>, lang: Lang) -> (r: Result<Option<DurationPref>, String>)
    ensures
        match raw {
            None => r == Ok::<Option<DurationPref>, String>(None),
            Some(s) => match (r, parse_duration_spec(s@, lang)) {
                (Ok(Some(a)), Ok(b)) => a == b,
                (Err(a), Err(b)) => a@ == b,
                _ => false,
            },
        },
{
    parse_on_duration_in(raw, lang)
}

} // verus!
