use raifus::raifus::{
    send_command, send_command_to_path, settle_send, signal_idle, signal_talking, RaifusCommand,
    SendLog, DEFAULT_CONTROL_PATH,
};

#[test]
fn command_tokens() {
    assert_eq!(RaifusCommand::Next.as_str(), "next");
    assert_eq!(RaifusCommand::Color.as_str(), "color");
    assert_eq!(RaifusCommand::Play.as_str(), "play");
    assert_eq!(RaifusCommand::Stop.as_str(), "stop");
    assert_eq!(RaifusCommand::SwitchIdle.as_str(), "switch_idle");
    assert_eq!(RaifusCommand::SwitchTalking.as_str(), "switch_talking");
    assert_eq!(RaifusCommand::SwitchNormal.as_str(), "switch_normal");
    assert_eq!(RaifusCommand::Quit.as_str(), "quit");
}

#[test]
fn send_command_targets_default_path() {
    let w = send_command(RaifusCommand::Play);
    assert_eq!(DEFAULT_CONTROL_PATH, "/tmp/raifus_control");
    assert_eq!(w.path, "/tmp/raifus_control");
    assert_eq!(w.contents, "play");
}

#[test]
fn send_command_to_given_path() {
    let w = send_command_to_path(RaifusCommand::Color, "/run/user/control");
    assert_eq!(w.path, "/run/user/control");
    assert_eq!(w.contents, "color");
}

#[test]
fn signal_talking_and_idle() {
    let t = signal_talking();
    assert_eq!(t.path, DEFAULT_CONTROL_PATH);
    assert_eq!(t.contents, "switch_talking");
    let i = signal_idle();
    assert_eq!(i.path, DEFAULT_CONTROL_PATH);
    assert_eq!(i.contents, "switch_idle");
}

#[test]
fn successful_write_logs_the_command() {
    let r = settle_send(RaifusCommand::Stop, Ok(()));
    assert_eq!(r, Ok(SendLog::Sent(RaifusCommand::Stop)));
}

#[test]
fn quit_without_receiver_still_succeeds_and_logs() {
    let reason = String::from("No such file or directory (os error 2)");
    let r = settle_send(RaifusCommand::Quit, Err(reason.clone()));
    assert!(r.is_ok());
    assert_eq!(r, Ok(SendLog::Failed(reason)));
}
