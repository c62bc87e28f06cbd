//! Best-effort signalling of the Raifus companion process through a control
//! file: each send overwrites the file with one short command token.
use vstd::prelude::*;

verus! {

/// Available commands for the Raifus application.
#[derive(Debug, Clone, Copy, PartialEq, Eq, Structural)]
pub enum RaifusCommand {
    Next,
    Color,
    Play,
    Stop,
    SwitchIdle,
    SwitchTalking,
    SwitchNormal,
    Quit,
}

/// The token written to the control file for a command.
pub open spec fn command_token(c: RaifusCommand) -> Seq<char> {
    match c {
        RaifusCommand::Next => "next"@,
        RaifusCommand::Color => "color"@,
        RaifusCommand::Play => "play"@,
        RaifusCommand::Stop => "stop"@,
        RaifusCommand::SwitchIdle => "switch_idle"@,
        RaifusCommand::SwitchTalking => "switch_talking"@,
        RaifusCommand::SwitchNormal => "switch_normal"@,
        RaifusCommand::Quit => "quit"@,
    }
}

impl RaifusCommand {
    /// Convert the command to its string representation.
    pub fn as_str(&self) -> (r: &'static str)
        ensures
            r@ == command_token(*self),
    {
        proof {
            reveal_strlit("next");
            reveal_strlit("color");
            reveal_strlit("play");
            reveal_strlit("stop");
            reveal_strlit("switch_idle");
            reveal_strlit("switch_talking");
            reveal_strlit("switch_normal");
            reveal_strlit("quit");
        }
        match self {
            RaifusCommand::Next => "next",
            RaifusCommand::Color => "color",
            RaifusCommand::Play => "play",
            RaifusCommand::Stop => "stop",
            RaifusCommand::SwitchIdle => "switch_idle",
            RaifusCommand::SwitchTalking => "switch_talking",
            RaifusCommand::SwitchNormal => "switch_normal",
            RaifusCommand::Quit => "quit",
        }
    }
}

/// Default path for the Raifus control file.
pub const DEFAULT_CONTROL_PATH: &'static str = "/tmp/raifus_control";

/// The default control path as characters.
pub open spec fn default_control_path() -> Seq<char> {
    "/tmp/raifus_control"@
}

/// One overwrite of the control file: the whole file becomes `contents`.
pub struct ControlWrite {
    pub path: String,
    pub contents: String,
}

/// The write that sends `command` through the control file at `path`.
pub fn send_command_to_path(command: RaifusCommand, path: &str) -> (r: ControlWrite)
    ensures
        r.path@ == path@,
        r.contents@ == command_token(command),
{
    let token = command.as_str();
    ControlWrite { path: String::from_str(path), contents: String::from_str(token) }
}

/// The write that sends `command` through the default control file.
pub fn send_command(command: RaifusCommand) -> (r: ControlWrite)
    ensures
        r.path@ == default_control_path(),
        r.contents@ == command_token(command),
{
    proof {
        reveal_strlit("/tmp/raifus_control");
    }
    send_command_to_path(command, DEFAULT_CONTROL_PATH)
}

/// Signal that talking has started.
pub fn signal_talking() -> (r: ControlWrite)
    ensures
        r.path@ == default_control_path(),
        r.contents@ == command_token(RaifusCommand::SwitchTalking),
{
    send_command(RaifusCommand::SwitchTalking)
}

/// Signal that talking has ended (idle state).
pub fn signal_idle() -> (r: ControlWrite)
    ensures
        r.path@ == default_control_path(),
        r.contents@ == command_token(RaifusCommand::SwitchIdle),
{
    send_command(RaifusCommand::SwitchIdle)
}

/// The diagnostic entry that a send leaves behind.
#[derive(Debug, Clone, PartialEq, Eq)]
pub enum SendLog {
    /// The token reached the control file.
    Sent(RaifusCommand),
    /// The control file could not be written; the reason is kept for the log.
    Failed(String),
}

/// Settles a send once the write of the control file has been attempted.
///
/// Delivery is best effort: a receiver that is absent, or a path that cannot be
/// written, is never an error to the caller. The send always succeeds, and the
/// outcome of the write is only recorded as a log entry.
pub fn settle_send(command: RaifusCommand, write: Result<(), String>) -> (r: Result<SendLog, String>)
    ensures
        r is Ok,
        write is Ok ==> r == Ok::<SendLog, String>(SendLog::Sent(command)),
        write is Err ==> r == Ok::<SendLog, String>(SendLog::Failed(write->Err_0)),
{
    match write {
        Ok(()) => Ok(SendLog::Sent(command)),
        Err(reason) => Ok(SendLog::Failed(reason)),
    }
}

} // verus!
