use minecli::chat::MessageContent;
use minecli::network::{transmission, NetworkCommand, Transmission};
use minecli::repl::{
    disconnect_reason_name, greeting, handle_moderation, handle_packet, handle_stdin_command,
    handle_stdin_line, moderation_kind, repl_step, send_refused, Flow, ModerationKind, Packet,
    Reaction, ReplEvent, ReplState,
};

type Event = ReplEvent<&'static str>;

fn assert_says(r: Reaction, lines: &[&str], flow: Flow) {
    assert_eq!(r.output, lines);
    assert!(r.command.is_none());
    assert!(!r.shutdown);
    assert_eq!(r.flow, flow);
}

#[test]
fn conversation_begins_with_commonmark_and_unmuted() {
    let state = ReplState::new();
    assert!(!state.use_components);
    assert!(!state.muted);
}

#[test]
fn greeting_lines() {
    assert_eq!(
        greeting(),
        vec![
            "MineChat CLI - Type /help for commands, Ctrl+C to exit",
            "Tip: Use up/down arrows for history",
        ]
    );
}

#[test]
fn moderation_kinds() {
    assert_eq!(moderation_kind(0), ModerationKind::Warn);
    assert_eq!(moderation_kind(1), ModerationKind::Mute);
    assert_eq!(moderation_kind(2), ModerationKind::Kick);
    assert_eq!(moderation_kind(3), ModerationKind::Ban);
    assert_eq!(moderation_kind(4), ModerationKind::Unknown);
    assert_eq!(moderation_kind(-1), ModerationKind::Unknown);
}

#[test]
fn warning_is_shown() {
    assert_says(handle_moderation(0, "be nice", Some(5)), &["[Warning] be nice"], Flow::Continue);
}

#[test]
fn mute_is_shown_with_its_length() {
    assert_says(handle_moderation(1, "spam", None), &["[Muted] spam"], Flow::Continue);
    assert_says(
        handle_moderation(1, "spam", Some(600)),
        &["[Muted] spam", "  Duration: 600 seconds"],
        Flow::Continue,
    );
    assert_says(
        handle_moderation(1, "spam", Some(-1)),
        &["[Muted] spam", "  Duration: -1 seconds"],
        Flow::Continue,
    );
}

#[test]
fn kick_and_ban_end_the_conversation() {
    assert_says(handle_moderation(2, "afk", None), &["[Kicked] afk"], Flow::Leave);
    assert_says(handle_moderation(3, "griefing", None), &["[Banned] griefing"], Flow::Leave);
}

#[test]
fn unknown_moderation_is_passed_over() {
    assert_says(handle_moderation(4, "x", Some(1)), &[], Flow::Continue);
    assert_says(handle_moderation(-1, "x", None), &[], Flow::Continue);
}

#[test]
fn moderation_packet_without_reason() {
    let packet = Packet::Moderation { action: 2, scope: 0, reason: None, duration_seconds: None };
    assert_says(handle_packet(packet), &["[Kicked] (no reason given)"], Flow::Leave);
}

#[test]
fn moderation_packet_with_reason() {
    let packet = Packet::Moderation {
        action: 1,
        scope: 7,
        reason: Some("spam".to_string()),
        duration_seconds: Some(3),
    };
    assert_says(
        handle_packet(packet),
        &["[Muted] spam", "  Duration: 3 seconds"],
        Flow::Continue,
    );
}

#[test]
fn ping_is_answered_with_its_timestamp() {
    let r = handle_packet(Packet::Ping { timestamp_ms: 1_700_000_000_123 });
    assert!(r.output.is_empty());
    assert_eq!(r.flow, Flow::Continue);
    match transmission(r.command.unwrap()) {
        Transmission::Pong { timestamp_ms } => assert_eq!(timestamp_ms, 1_700_000_000_123),
        other => panic!("{:?}", other),
    }
}

#[test]
fn chat_packet_is_shown() {
    let packet = Packet::ChatMessage {
        format: "commonmark".to_string(),
        content: MessageContent {
            commonmark: Some("*hi*".to_string()),
            plain_text: "hi".to_string(),
            ansi: "ansi".to_string(),
        },
    };
    assert_says(handle_packet(packet), &["[Chat] *hi*"], Flow::Continue);
}

#[test]
fn disconnect_reasons() {
    assert_eq!(disconnect_reason_name(0), "Shutdown");
    assert_eq!(disconnect_reason_name(1), "Maintenance");
    assert_eq!(disconnect_reason_name(2), "Internal error");
    assert_eq!(disconnect_reason_name(3), "Overloaded");
    assert_eq!(disconnect_reason_name(4), "Unknown");
    assert_eq!(disconnect_reason_name(-1), "Unknown");
}

#[test]
fn disconnect_packet_ends_the_conversation() {
    let packet = Packet::SystemDisconnect { reason_code: 1, message: "back soon".to_string() };
    assert_says(
        handle_packet(packet),
        &["[Server] Disconnected: Maintenance - back soon"],
        Flow::Leave,
    );
}

#[test]
fn other_packets_are_passed_over() {
    assert_says(handle_packet(Packet::Unhandled), &[], Flow::Continue);
}

#[test]
fn exit_and_quit_leave() {
    for cmd in ["exit", "quit"] {
        let mut state = ReplState::new();
        let r = handle_stdin_command(cmd, &mut state);
        assert_eq!(r.output, vec!["Exiting."]);
        assert!(r.shutdown);
        assert_eq!(r.flow, Flow::Leave);
        assert_eq!(state, ReplState::new());
    }
}

#[test]
fn help_lists_the_commands() {
    let mut state = ReplState::new();
    assert_says(
        handle_stdin_command("help", &mut state),
        &["Available commands: /exit, /quit, /format, /help"],
        Flow::Continue,
    );
}

#[test]
fn unknown_commands_are_named() {
    let mut state = ReplState::new();
    for cmd in ["", "Exit", "exit ", "nope"] {
        let line = format!(
            "Unknown command: /{cmd}. Available commands: /exit, /quit, /format, /help"
        );
        assert_says(handle_stdin_command(cmd, &mut state), &[line.as_str()], Flow::Continue);
        assert_eq!(state, ReplState::new());
    }
}

#[test]
fn format_twice_restores() {
    let mut state = ReplState::new();
    assert_says(
        handle_stdin_line("/format", &mut state),
        &["Chat format switched to: components"],
        Flow::Continue,
    );
    assert!(state.use_components);
    assert_says(
        handle_stdin_line("/format", &mut state),
        &["Chat format switched to: commonmark"],
        Flow::Continue,
    );
    assert_eq!(state, ReplState::new());
}

#[test]
fn format_follows_the_number_of_switches() {
    let mut state = ReplState::new();
    for n in 1..=5 {
        assert!(repl_step(Event::Line("/format".to_string()), &mut state).is_ok());
        assert!(repl_step(Event::Line("/help".to_string()), &mut state).is_ok());
        assert!(repl_step(Event::Idle, &mut state).is_ok());
        assert_eq!(state.use_components, n % 2 == 1);
        assert!(!state.muted);
    }
}

#[test]
fn toggle_format_says_the_new_name() {
    let mut state = ReplState { use_components: true, muted: true };
    assert_eq!(state.toggle_format(), "Chat format switched to: commonmark");
    assert_eq!(state, ReplState { use_components: false, muted: true });
}

#[test]
fn empty_line_leaves_in_silence() {
    let mut state = ReplState::new();
    let r = handle_stdin_line("", &mut state);
    assert!(r.output.is_empty());
    assert!(r.command.is_none());
    assert!(r.shutdown);
    assert_eq!(r.flow, Flow::Leave);
}

#[test]
fn chat_line_goes_out_unchanged() {
    let mut state = ReplState::new();
    for line in ["hello", " /exit", "é世", " "] {
        let r = handle_stdin_line(line, &mut state);
        assert!(r.output.is_empty());
        assert_eq!(r.flow, Flow::Continue);
        match transmission(r.command.unwrap()) {
            Transmission::Chat { format, content } => {
                assert_eq!(format, "commonmark");
                assert_eq!(content, line);
            }
            other => panic!("{:?}", other),
        }
    }
}

#[test]
fn muted_user_sends_no_chat() {
    let mut state = ReplState { use_components: false, muted: true };
    assert_says(
        handle_stdin_line("hello", &mut state),
        &["You are currently muted and cannot send messages."],
        Flow::Continue,
    );
    assert!(handle_stdin_line("/quit", &mut state).shutdown);
}

#[test]
fn command_follows_the_slash() {
    let mut state = ReplState::new();
    assert!(handle_stdin_line("/exit", &mut state).shutdown);
    assert_says(
        handle_stdin_line("/é", &mut state),
        &["Unknown command: /é. Available commands: /exit, /quit, /format, /help"],
        Flow::Continue,
    );
}

#[test]
fn refused_chat_is_reported() {
    let chat = NetworkCommand::SendChat("hi".to_string());
    assert_eq!(send_refused(&chat, "channel closed"), vec!["Error: channel closed"]);
}

#[test]
fn refused_pong_is_not_reported() {
    assert!(send_refused(&NetworkCommand::SendPong(1), "channel closed").is_empty());
}

#[test]
fn events_without_words() {
    let mut state = ReplState::new();
    assert_says(repl_step(Event::Idle, &mut state).unwrap(), &[], Flow::Continue);
    assert_says(repl_step(Event::ServerDisconnected, &mut state).unwrap(), &[], Flow::Leave);
    assert_says(repl_step(Event::NetworkClosed, &mut state).unwrap(), &[], Flow::Leave);
    assert_says(repl_step(Event::EndOfInput, &mut state).unwrap(), &[], Flow::Leave);
    assert_says(repl_step(Event::InputFailed, &mut state).unwrap(), &[], Flow::Leave);
    assert_eq!(state, ReplState::new());
}

#[test]
fn conversation_fails_with_the_error_met() {
    let mut state = ReplState { use_components: true, muted: false };
    for error in ["reset", "malformed packet"] {
        assert_eq!(repl_step(Event::ReceiveFailed(error), &mut state).unwrap_err(), error);
    }
    assert_eq!(state, ReplState { use_components: true, muted: false });
}

#[test]
fn events_with_content() {
    let mut state = ReplState::new();
    assert_says(
        repl_step(Event::Line("/format".to_string()), &mut state).unwrap(),
        &["Chat format switched to: components"],
        Flow::Continue,
    );
    let mute = Packet::Moderation {
        action: 1,
        scope: 0,
        reason: Some("spam".to_string()),
        duration_seconds: None,
    };
    assert_says(
        repl_step(Event::Packet(mute), &mut state).unwrap(),
        &["[Muted] spam"],
        Flow::Continue,
    );
    assert_eq!(state, ReplState { use_components: true, muted: false });
}
