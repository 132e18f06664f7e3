use procyon::irc::{ChannelStatus, Irc, IrcMessage, Source};

fn fresh(channel: &[u8]) -> Irc {
    Irc::new(channel.to_vec())
}

#[test]
fn short_line_is_ignored() {
    let mut irc = fresh(b"#chan");
    let step = irc.run(IrcMessage::Message(b"HELLO".to_vec()));
    assert_eq!(step.outputs.len(), 0);
    assert!(!step.want_disconnect);
    assert!(!step.reschedule_control);
    assert!(!step.stop);
    assert!(!irc.registered);
    assert_eq!(irc.channel_status, ChannelStatus::NotJoined);
}

#[test]
fn empty_line_is_ignored() {
    let mut irc = fresh(b"#chan");
    let step = irc.run(IrcMessage::Message(Vec::new()));
    assert_eq!(step.outputs.len(), 0);
    assert!(!step.want_disconnect);
    assert!(!irc.registered);
    assert_eq!(irc.channel_status, ChannelStatus::NotJoined);
}

#[test]
fn ping_yields_exactly_one_pong() {
    let mut irc = fresh(b"#chan");
    let step = irc.run(IrcMessage::Message(b"PING :server.example".to_vec()));
    assert_eq!(step.outputs.len(), 1);
    assert_eq!(step.outputs[0], b"PONG :server.example".to_vec());
    assert!(!step.want_disconnect);
    assert!(!irc.registered);
    assert_eq!(irc.channel_status, ChannelStatus::NotJoined);
}

#[test]
fn welcome_sets_registered() {
    let mut irc = fresh(b"#chan");
    let step = irc.run(IrcMessage::Message(b":server.example 001 procyon :Welcome".to_vec()));
    assert_eq!(step.outputs.len(), 0);
    assert!(irc.registered);
    assert_eq!(irc.channel_status, ChannelStatus::NotJoined);
}

#[test]
fn join_by_self_marks_joined_from_attempting() {
    let mut irc = fresh(b"#chan");
    irc.channel_status = ChannelStatus::Attempting;
    let step = irc.run(IrcMessage::Message(b":procyon!u@h JOIN #chan".to_vec()));
    assert_eq!(step.outputs.len(), 0);
    assert_eq!(irc.channel_status, ChannelStatus::Joined);
}

#[test]
fn join_by_self_marks_joined_from_not_joined() {
    let mut irc = fresh(b"#chan");
    let _ = irc.run(IrcMessage::Message(b":procyon!u@h JOIN #chan".to_vec()));
    assert_eq!(irc.channel_status, ChannelStatus::Joined);
}

#[test]
fn join_by_other_changes_nothing() {
    let mut irc = fresh(b"#chan");
    irc.channel_status = ChannelStatus::Attempting;
    let step = irc.run(IrcMessage::Message(b":someone!u@h JOIN #chan".to_vec()));
    assert_eq!(step.outputs.len(), 0);
    assert_eq!(irc.channel_status, ChannelStatus::Attempting);
}

#[test]
fn kick_naming_self_resets_join_state() {
    let mut irc = fresh(b"#chan");
    irc.channel_status = ChannelStatus::Joined;
    let step = irc.run(IrcMessage::Message(b":someone!u@h KICK #chan procyon :bye".to_vec()));
    assert_eq!(step.outputs.len(), 0);
    assert_eq!(irc.channel_status, ChannelStatus::NotJoined);
}

#[test]
fn kick_naming_self_resets_from_attempting_too() {
    let mut irc = fresh(b"#chan");
    irc.channel_status = ChannelStatus::Attempting;
    let _ = irc.run(IrcMessage::Message(b":someone!u@h KICK #chan procyon :bye".to_vec()));
    assert_eq!(irc.channel_status, ChannelStatus::NotJoined);
}

#[test]
fn kick_naming_other_changes_nothing() {
    let mut irc = fresh(b"#chan");
    irc.channel_status = ChannelStatus::Joined;
    let _ = irc.run(IrcMessage::Message(b":someone!u@h KICK #chan other :bye".to_vec()));
    assert_eq!(irc.channel_status, ChannelStatus::Joined);
}

#[test]
fn kick_without_target_changes_nothing() {
    let mut irc = fresh(b"#chan");
    irc.channel_status = ChannelStatus::Joined;
    let _ = irc.run(IrcMessage::Message(b":someone!u@h KICK #chan".to_vec()));
    assert_eq!(irc.channel_status, ChannelStatus::Joined);
}

#[test]
fn control_tick_while_unregistered_does_nothing() {
    let mut irc = fresh(b"#chan");
    let step = irc.run(IrcMessage::Control);
    assert_eq!(step.outputs.len(), 0);
    assert!(step.reschedule_control);
    assert!(!step.stop);
    assert_eq!(irc.channel_status, ChannelStatus::NotJoined);
}

#[test]
fn control_tick_while_registered_attempts_join() {
    let mut irc = fresh(b"#chan");
    irc.registered = true;
    let step = irc.run(IrcMessage::Control);
    assert_eq!(step.outputs.len(), 1);
    assert_eq!(step.outputs[0], b"JOIN :#chan".to_vec());
    assert!(step.reschedule_control);
    assert_eq!(irc.channel_status, ChannelStatus::Attempting);
}

#[test]
fn control_tick_while_attempting_sends_nothing() {
    let mut irc = fresh(b"#chan");
    irc.registered = true;
    irc.channel_status = ChannelStatus::Attempting;
    let step = irc.run(IrcMessage::Control);
    assert_eq!(step.outputs.len(), 0);
    assert!(step.reschedule_control);
    assert_eq!(irc.channel_status, ChannelStatus::Attempting);
}

#[test]
fn register_request_emits_identity_lines() {
    let mut irc = fresh(b"#chan");
    let step = irc.run(IrcMessage::Register);
    assert_eq!(step.outputs.len(), 2);
    assert_eq!(step.outputs[0], b"NICK procyon".to_vec());
    assert_eq!(step.outputs[1], b"USER procyon @ procyon :procyon".to_vec());
    assert!(!step.stop);
}

#[test]
fn shutdown_request_stops_the_engine() {
    let mut irc = fresh(b"#chan");
    let step = irc.run(IrcMessage::Shutdown);
    assert_eq!(step.outputs.len(), 0);
    assert!(step.stop);
}

#[test]
fn privmsg_trigger_requests_disconnect_once() {
    let mut irc = fresh(b"#chan");
    let step = irc.run(IrcMessage::Message(b":x!u@h PRIVMSG #chan :pquit".to_vec()));
    assert!(step.want_disconnect);
    assert_eq!(step.outputs.len(), 0);
    assert!(!irc.registered);
    assert_eq!(irc.channel_status, ChannelStatus::NotJoined);
}

#[test]
fn privmsg_other_text_is_no_trigger() {
    let mut irc = fresh(b"#chan");
    let step = irc.run(IrcMessage::Message(b":x!u@h PRIVMSG #chan :hello".to_vec()));
    assert!(!step.want_disconnect);
}

#[test]
fn privmsg_without_fourth_token_is_no_trigger() {
    let mut irc = fresh(b"#chan");
    let step = irc.run(IrcMessage::Message(b":x!u@h PRIVMSG".to_vec()));
    assert!(!step.want_disconnect);
}

#[test]
fn channel_join_attempted_at_most_once() {
    let mut irc = fresh(b"#chan");
    let line = irc.channel();
    assert_eq!(line, Some(b"JOIN :#chan".to_vec()));
    assert_eq!(irc.channel_status, ChannelStatus::Attempting);
    let again = irc.channel();
    assert_eq!(again, None);
    assert_eq!(irc.channel_status, ChannelStatus::Attempting);
}

#[test]
fn send_registration_lines_in_order() {
    let irc = fresh(b"#chan");
    let lines = irc.send_registration();
    assert_eq!(lines.len(), 2);
    assert_eq!(lines[0], b"NICK procyon".to_vec());
    assert_eq!(lines[1], b"USER procyon @ procyon :procyon".to_vec());
}

#[test]
fn source_with_nick_and_user() {
    let s = Source::new(&b":nick!user@host".to_vec());
    assert_eq!(s.nick, Some(b"nick".to_vec()));
}

#[test]
fn source_without_colon_is_anonymous() {
    let s = Source::new(&b"nick!user@host".to_vec());
    assert_eq!(s.nick, None);
}

#[test]
fn source_without_separator_is_anonymous() {
    let s = Source::new(&b":server.example".to_vec());
    assert_eq!(s.nick, None);
}

#[test]
fn source_with_two_separators_is_anonymous() {
    let s = Source::new(&b":a!b!c".to_vec());
    assert_eq!(s.nick, None);
}

#[test]
fn source_empty_is_anonymous() {
    let s = Source::new(&Vec::new());
    assert_eq!(s.nick, None);
}

#[test]
fn is_me_on_own_prefix() {
    let s = Source::new(&b":procyon!u@h".to_vec());
    assert!(s.is_me());
}

#[test]
fn is_me_false_for_anonymous_sender() {
    let s = Source::new(&b":server.example".to_vec());
    assert!(!s.is_me());
}

#[test]
fn is_me_false_for_other_nick() {
    let s = Source::new(&b":someone!u@h".to_vec());
    assert!(!s.is_me());
}
