//! The conversation with the user: what is shown of each packet, what each
//! line that the user types does, and when the conversation ends.

use vstd::prelude::*;

use crate::chat;
use crate::chat::MessageContent;
use crate::network;
use crate::network::NetworkCommand;
use crate::text;

verus! {

/// What the user can change while the client runs.
#[derive(Debug, Clone, Copy, PartialEq, Eq, Structural)]
pub struct ReplState {
    pub use_components: bool,
    pub muted: bool,
}

/// A packet from the server.
#[derive(Debug)]
pub enum Packet {
    Ping { timestamp_ms: i64 },
    ChatMessage { format: String, content: MessageContent },
    /// The scope is of interest to logs only.
    Moderation {
        action: i32,
        scope: i32,
        reason: Option<String>,
        duration_seconds: Option<i32>,
    },
    SystemDisconnect { reason_code: i32, message: String },
    /// Any packet that the client does not react to.
    Unhandled,
}

/// The mathematical content of a [`Packet`].
pub enum PacketModel {
    Ping { timestamp_ms: i64 },
    ChatMessage { format: Seq<char>, content: chat::ContentModel },
    Moderation {
        action: i32,
        scope: i32,
        reason: Option<Seq<char>>,
        duration_seconds: Option<i32>,
    },
    SystemDisconnect { reason_code: i32, message: Seq<char> },
    Unhandled,
}

impl View for Packet {
    type V = PacketModel;

    open spec fn view(&self) -> PacketModel {
        match self {
            Packet::Ping { timestamp_ms } => PacketModel::Ping { timestamp_ms: *timestamp_ms },
            Packet::ChatMessage { format, content } => PacketModel::ChatMessage {
                format: format@,
                content: content@,
            },
            Packet::Moderation { action, scope, reason, duration_seconds } => {
                PacketModel::Moderation {
                    action: *action,
                    scope: *scope,
                    reason: text::opt_text(*reason),
                    duration_seconds: *duration_seconds,
                }
            },
            Packet::SystemDisconnect { reason_code, message } => PacketModel::SystemDisconnect {
                reason_code: *reason_code,
                message: message@,
            },
            Packet::Unhandled => PacketModel::Unhandled,
        }
    }
}

/// What happens while the conversation runs. `E` is an error in receiving.
#[derive(Debug)]
pub enum ReplEvent<E> {
    /// A packet came in.
    Packet(Packet),
    /// The server closed the connection.
    ServerDisconnected,
    /// Receiving failed in any other way.
    ReceiveFailed(E),
    /// The network task is gone.
    NetworkClosed,
    /// No packet came in for a while.
    Idle,
    /// The user typed a line.
    Line(String),
    /// There is no more input.
    EndOfInput,
    /// The input cannot be read.
    InputFailed,
}

/// The mathematical content of a [`ReplEvent`].
pub enum ReplEventModel<E> {
    Packet(PacketModel),
    ServerDisconnected,
    ReceiveFailed(E),
    NetworkClosed,
    Idle,
    Line(Seq<char>),
    EndOfInput,
    InputFailed,
}

impl<E> View for ReplEvent<E> {
    type V = ReplEventModel<E>;

    open spec fn view(&self) -> ReplEventModel<E> {
        match self {
            ReplEvent::Packet(packet) => ReplEventModel::Packet(packet@),
            ReplEvent::ServerDisconnected => ReplEventModel::ServerDisconnected,
            ReplEvent::ReceiveFailed(error) => ReplEventModel::ReceiveFailed(*error),
            ReplEvent::NetworkClosed => ReplEventModel::NetworkClosed,
            ReplEvent::Idle => ReplEventModel::Idle,
            ReplEvent::Line(line) => ReplEventModel::Line(line@),
            ReplEvent::EndOfInput => ReplEventModel::EndOfInput,
            ReplEvent::InputFailed => ReplEventModel::InputFailed,
        }
    }
}

/// How the conversation goes on.
#[derive(Debug, Clone, Copy, PartialEq, Eq, Structural)]
pub enum Flow {
    /// It goes on.
    Continue,
    /// It ends.
    Leave,
}

/// What the client does about an event.
#[derive(Debug)]
pub struct Reaction {
    /// What is printed, each on a line of its own.
    pub output: Vec<String>,
    /// What is queued for the network task.
    pub command: Option<NetworkCommand>,
    /// Whether the network task is told to shut down.
    pub shutdown: bool,
    pub flow: Flow,
}

/// The mathematical content of a [`Reaction`].
pub struct ReactionModel {
    pub output: Seq<Seq<char>>,
    pub command: Option<network::CommandModel>,
    pub shutdown: bool,
    pub flow: Flow,
}

impl View for Reaction {
    type V = ReactionModel;

    open spec fn view(&self) -> ReactionModel {
        ReactionModel {
            output: text::texts(self.output@),
            command: match self.command {
                Some(c) => Some(c@),
                None => None,
            },
            shutdown: self.shutdown,
            flow: self.flow,
        }
    }
}

/// Printing these lines, and nothing more.
pub open spec fn says(output: Seq<Seq<char>>, flow: Flow) -> ReactionModel {
    ReactionModel { output, command: None, shutdown: false, flow }
}

/// Doing nothing.
pub open spec fn silent(flow: Flow) -> ReactionModel {
    says(Seq::empty(), flow)
}

/// Queueing a command, and nothing more.
pub open spec fn sends(command: network::CommandModel) -> ReactionModel {
    ReactionModel {
        output: Seq::empty(),
        command: Some(command),
        shutdown: false,
        flow: Flow::Continue,
    }
}

/// The commands that the user can type.
pub const COMMAND_LIST: &'static str = "Available commands: /exit, /quit, /format, /help";

/// Shown in place of a reason that was not given.
pub const NO_REASON: &'static str = "(no reason given)";

/// Said when the user leaves.
pub const EXITING: &'static str = "Exiting.";

/// Said to a user who is muted and tries to chat.
pub const MUTED_NOTICE: &'static str = "You are currently muted and cannot send messages.";

/// What a moderator can do.
#[derive(Debug, Clone, Copy, PartialEq, Eq, Structural)]
pub enum ModerationKind {
    Warn,
    Mute,
    Kick,
    Ban,
    Unknown,
}

/// What an action code of a moderation stands for.
pub open spec fn kind_of(action: i32) -> ModerationKind {
    if action == 0 {
        ModerationKind::Warn
    } else if action == 1 {
        ModerationKind::Mute
    } else if action == 2 {
        ModerationKind::Kick
    } else if action == 3 {
        ModerationKind::Ban
    } else {
        ModerationKind::Unknown
    }
}

/// What follows a moderation: a warning and a mute are shown, with the length
/// of the mute where it is known; a kick and a ban are shown and end the
/// conversation; an action that is not known is passed over.
pub open spec fn moderation_reaction(
    action: i32,
    reason: Seq<char>,
    duration_seconds: Option<i32>,
) -> ReactionModel {
    match kind_of(action) {
        ModerationKind::Warn => says(seq!["[Warning] "@ + reason], Flow::Continue),
        ModerationKind::Mute => match duration_seconds {
            Some(secs) => says(
                seq![
                    "[Muted] "@ + reason,
                    "  Duration: "@ + text::signed_decimal(secs as int) + " seconds"@,
                ],
                Flow::Continue,
            ),
            None => says(seq!["[Muted] "@ + reason], Flow::Continue),
        },
        ModerationKind::Kick => says(seq!["[Kicked] "@ + reason], Flow::Leave),
        ModerationKind::Ban => says(seq!["[Banned] "@ + reason], Flow::Leave),
        ModerationKind::Unknown => silent(Flow::Continue),
    }
}

/// What a reason code of a disconnection stands for.
pub open spec fn disconnect_reason(code: i32) -> Seq<char> {
    if code == 0 {
        "Shutdown"@
    } else if code == 1 {
        "Maintenance"@
    } else if code == 2 {
        "Internal error"@
    } else if code == 3 {
        "Overloaded"@
    } else {
        "Unknown"@
    }
}

/// What follows a packet.
pub open spec fn packet_reaction(packet: PacketModel) -> ReactionModel {
    match packet {
        PacketModel::Ping { timestamp_ms } => sends(network::CommandModel::SendPong(timestamp_ms)),
        PacketModel::ChatMessage { format, content } => says(
            seq!["[Chat] "@ + chat::shown(format, content)],
            Flow::Continue,
        ),
        PacketModel::Moderation { action, reason, duration_seconds, .. } => moderation_reaction(
            action,
            match reason {
                Some(r) => r,
                None => NO_REASON@,
            },
            duration_seconds,
        ),
        PacketModel::SystemDisconnect { reason_code, message } => says(
            seq!["[Server] Disconnected: "@ + disconnect_reason(reason_code) + " - "@ + message],
            Flow::Leave,
        ),
        PacketModel::Unhandled => silent(Flow::Continue),
    }
}

/// The state once the format has been switched.
pub open spec fn toggled(state: ReplState) -> ReplState {
    ReplState { use_components: !state.use_components, ..state }
}

/// What follows a command, given without its slash.
pub open spec fn command_reaction(cmd: Seq<char>, state: ReplState) -> (ReplState, ReactionModel) {
    if cmd == "exit"@ || cmd == "quit"@ {
        (state, ReactionModel { shutdown: true, ..says(seq![EXITING@], Flow::Leave) })
    } else if cmd == "format"@ {
        (
            toggled(state),
            says(
                seq![
                    "Chat format switched to: "@ + chat::name_of_format(
                        toggled(state).use_components,
                    ),
                ],
                Flow::Continue,
            ),
        )
    } else if cmd == "help"@ {
        (state, says(seq![COMMAND_LIST@], Flow::Continue))
    } else {
        (state, says(seq!["Unknown command: /"@ + cmd + ". "@ + COMMAND_LIST@], Flow::Continue))
    }
}

/// What follows a line: an empty one ends the conversation, one that begins
/// with a slash is a command, and any other is chat, which a user who is muted
/// cannot send.
pub open spec fn line_reaction(line: Seq<char>, state: ReplState) -> (ReplState, ReactionModel) {
    if line.len() == 0 {
        (state, ReactionModel { shutdown: true, ..silent(Flow::Leave) })
    } else if line[0] == '/' {
        command_reaction(line.skip(1), state)
    } else if !state.muted {
        (state, sends(network::CommandModel::SendChat(line)))
    } else {
        (state, says(seq![MUTED_NOTICE@], Flow::Continue))
    }
}

/// What follows an event: a reaction, or the error with which the conversation
/// fails.
pub open spec fn event_reaction<E>(event: ReplEventModel<E>, state: ReplState) -> (
    ReplState,
    Result<ReactionModel, E>,
) {
    match event {
        ReplEventModel::Packet(packet) => (state, Ok(packet_reaction(packet))),
        ReplEventModel::Line(line) => {
            let (after, reaction) = line_reaction(line, state);
            (after, Ok(reaction))
        },
        ReplEventModel::Idle => (state, Ok(silent(Flow::Continue))),
        ReplEventModel::ReceiveFailed(error) => (state, Err(error)),
        ReplEventModel::ServerDisconnected
        | ReplEventModel::NetworkClosed
        | ReplEventModel::EndOfInput
        | ReplEventModel::InputFailed => (state, Ok(silent(Flow::Leave))),
    }
}

/// The content of a reaction or an error.
pub open spec fn outcome<E>(r: Result<Reaction, E>) -> Result<ReactionModel, E> {
    match r {
        Ok(reaction) => Ok(reaction@),
        Err(error) => Err(error),
    }
}

/// What is printed when a command could not be queued.
pub open spec fn refusal(command: network::CommandModel, error: Seq<char>) -> Seq<Seq<char>> {
    match command {
        network::CommandModel::SendChat(_) => seq!["Error: "@ + error],
        network::CommandModel::SendPong(_) => Seq::empty(),
    }
}

/// The state after a row of events.
pub open spec fn state_after<E>(events: Seq<ReplEventModel<E>>, state: ReplState) -> ReplState
    decreases events.len(),
{
    if events.len() == 0 {
        state
    } else {
        event_reaction(events.last(), state_after(events.drop_last(), state)).0
    }
}

/// A ping is answered at once, with the timestamp that it carried.
pub proof fn law_ping_is_answered<E>(timestamp_ms: i64, state: ReplState)
    ensures
        ({
            let (after, result) = event_reaction(
                ReplEventModel::<E>::Packet(PacketModel::Ping { timestamp_ms }),
                state,
            );
            let reaction = result->Ok_0;
            &&& after == state
            &&& result is Ok
            &&& reaction.flow == Flow::Continue
            &&& reaction.command is Some
            &&& network::sent_for(reaction.command->0) == (network::TransmissionModel::Pong {
                timestamp_ms,
            })
        }),
{
}

/// A line that is not empty, does not begin with a slash and is typed by a
/// user who is not muted goes out to the server unchanged, as CommonMark.
pub proof fn law_chat_goes_out_unchanged<E>(line: Seq<char>, state: ReplState)
    requires
        line.len() > 0,
        line[0] != '/',
        !state.muted,
    ensures
        ({
            let (after, result) = event_reaction(ReplEventModel::<E>::Line(line), state);
            let reaction = result->Ok_0;
            &&& after == state
            &&& result is Ok
            &&& reaction.flow == Flow::Continue
            &&& reaction.command is Some
            &&& network::sent_for(reaction.command->0) == (network::TransmissionModel::Chat {
                format: chat::COMMONMARK@,
                content: line,
            })
        }),
{
}

/// A user who is muted sends no chat, whatever happens.
pub proof fn law_muted_user_sends_no_chat<E>(event: ReplEventModel<E>, state: ReplState)
    requires
        state.muted,
    ensures
        event_reaction(event, state).1 matches Ok(reaction) ==> (reaction.command matches Some(
            command,
        ) ==> command is SendPong),
{
}

/// Nothing that happens mutes the user, or lets one who is muted speak.
pub proof fn law_mute_is_kept<E>(event: ReplEventModel<E>, state: ReplState)
    ensures
        event_reaction(event, state).0.muted == state.muted,
{
}

/// A conversation that has just begun never mutes its user.
pub proof fn law_user_is_never_muted<E>(events: Seq<ReplEventModel<E>>)
    ensures
        !state_after(events, ReplState { use_components: false, muted: false }).muted,
    decreases events.len(),
{
    if events.len() > 0 {
        law_user_is_never_muted(events.drop_last());
    }
}

/// The command to switch the format is none of those to leave.
proof fn lemma_format_is_not_exit()
    ensures
        "format"@ != "exit"@,
        "format"@ != "quit"@,
{
    reveal_strlit("format");
    reveal_strlit("exit");
    reveal_strlit("quit");
    assert("format"@.len() != "exit"@.len());
    assert("format"@.len() != "quit"@.len());
}

/// Only `/format` changes the state, and it does nothing but switch the format.
pub proof fn law_only_format_changes_state<E>(event: ReplEventModel<E>, state: ReplState)
    ensures
        event == ReplEventModel::<E>::Line("/format"@) ==> event_reaction(event, state).0
            == toggled(state),
        event != ReplEventModel::<E>::Line("/format"@) ==> event_reaction(event, state).0 == state,
{
    reveal_strlit("/format");
    reveal_strlit("format");
    assert("/format"@.skip(1) =~= "format"@);
    lemma_format_is_not_exit();
    if let ReplEventModel::Line(line) = event {
        if line.len() > 0 && line[0] == '/' && line.skip(1) == "format"@ {
            assert forall|i: int| 0 <= i < line.len() implies line[i] == "/format"@[i] by {
                if i > 0 {
                    assert(line[i] == line.skip(1)[i - 1]);
                }
            }
            assert(line =~= "/format"@);
        }
    }
}

/// How often the format was switched in the course of some events.
pub open spec fn times_switched<E>(events: Seq<ReplEventModel<E>>) -> nat
    decreases events.len(),
{
    if events.len() == 0 {
        0
    } else {
        let switched = events.last() == ReplEventModel::<E>::Line("/format"@);
        times_switched(events.drop_last()) + if switched {
            1nat
        } else {
            0
        }
    }
}

/// A conversation that has just begun uses components exactly if the format was
/// switched an odd number of times since.
pub proof fn law_format_follows_switches<E>(events: Seq<ReplEventModel<E>>)
    ensures
        state_after(
            events,
            ReplState { use_components: false, muted: false },
        ).use_components <==> times_switched(events) % 2 == 1,
    decreases events.len(),
{
    if events.len() > 0 {
        let shorter = events.drop_last();
        law_format_follows_switches(shorter);
        law_only_format_changes_state(
            events.last(),
            state_after(shorter, ReplState { use_components: false, muted: false }),
        );
    }
}

/// Switching the format twice restores it, and each time says another name.
pub proof fn law_format_twice_restores(state: ReplState)
    ensures
        ({
            let (once, first) = command_reaction("format"@, state);
            let (twice, second) = command_reaction("format"@, once);
            &&& twice == state
            &&& once != state
            &&& first.output != second.output
            &&& first.flow == Flow::Continue
            &&& second.flow == Flow::Continue
        }),
{
    lemma_format_is_not_exit();
    chat::law_format_names_differ();
    let lead = "Chat format switched to: "@;
    let (once, first) = command_reaction("format"@, state);
    let (_, second) = command_reaction("format"@, once);
    assert(first.output[0] == lead + chat::name_of_format(!state.use_components));
    assert(second.output[0] == lead + chat::name_of_format(state.use_components));
    if first.output[0] == second.output[0] {
        let n = lead.len() as int;
        assert(first.output[0].skip(n) =~= chat::name_of_format(!state.use_components));
        assert(second.output[0].skip(n) =~= chat::name_of_format(state.use_components));
    }
}

/// Whether a line asks to leave.
pub open spec fn asks_to_leave(line: Seq<char>) -> bool {
    line.len() == 0 || line == "/exit"@ || line == "/quit"@
}

/// Whether a packet ends the conversation.
pub open spec fn expels(packet: PacketModel) -> bool {
    match packet {
        PacketModel::Moderation { action, .. } => kind_of(action) == ModerationKind::Kick || kind_of(
            action,
        ) == ModerationKind::Ban,
        PacketModel::SystemDisconnect { .. } => true,
        _ => false,
    }
}

/// Whether an event ends the conversation well.
pub open spec fn ends_well<E>(event: ReplEventModel<E>) -> bool {
    match event {
        ReplEventModel::Line(line) => asks_to_leave(line),
        ReplEventModel::Packet(packet) => expels(packet),
        ReplEventModel::ServerDisconnected
        | ReplEventModel::NetworkClosed
        | ReplEventModel::EndOfInput
        | ReplEventModel::InputFailed => true,
        ReplEventModel::Idle | ReplEventModel::ReceiveFailed(_) => false,
    }
}

/// The conversation ends well exactly when the user asks to leave or the input
/// ends, or when the server kicks, bans or disconnects the client or is gone.
/// The network task is told to shut down exactly when the user asks to leave.
pub proof fn law_when_conversation_ends<E>(event: ReplEventModel<E>, state: ReplState)
    ensures
        event_reaction(event, state).1 matches Ok(reaction) ==> {
            &&& reaction.flow == Flow::Leave <==> ends_well(event)
            &&& reaction.shutdown <==> match event {
                ReplEventModel::Line(line) => asks_to_leave(line),
                _ => false,
            }
        },
        ends_well(event) ==> event_reaction(event, state).1 is Ok,
{
    if let ReplEventModel::Line(line) = event {
        lemma_exit_lines(line);
    }
}

/// The conversation fails exactly when receiving fails other than by the server
/// closing the connection, and then with the error that was met.
pub proof fn law_conversation_fails_with_error_met<E>(
    event: ReplEventModel<E>,
    state: ReplState,
    error: E,
)
    ensures
        event_reaction(event, state).1 == Err::<ReactionModel, E>(error) <==> event
            == ReplEventModel::ReceiveFailed(error),
{
}

/// The lines that ask to leave, told by what follows the slash.
proof fn lemma_exit_lines(line: Seq<char>)
    ensures
        asks_to_leave(line) <==> line.len() == 0 || (line[0] == '/' && (line.skip(1) == "exit"@
            || line.skip(1) == "quit"@)),
{
    reveal_strlit("/exit");
    reveal_strlit("/quit");
    reveal_strlit("exit");
    reveal_strlit("quit");
    assert("/exit"@.skip(1) =~= "exit"@);
    assert("/quit"@.skip(1) =~= "quit"@);
    if line.len() > 0 && line[0] == '/' {
        assert(line =~= seq!['/'] + line.skip(1));
        assert("/exit"@ =~= seq!['/'] + "exit"@);
        assert("/quit"@ =~= seq!['/'] + "quit"@);
    }
}

/// The content of a packet is all that the packet holds.
pub proof fn law_packet_content(
    timestamp_ms: i64,
    text: String,
    content: MessageContent,
    action: i32,
    scope: i32,
    duration_seconds: Option<i32>,
    reason_code: i32,
)
    ensures
        (Packet::Ping { timestamp_ms })@ == (PacketModel::Ping { timestamp_ms }),
        (Packet::ChatMessage { format: text, content })@ == (PacketModel::ChatMessage {
            format: text@,
            content: content@,
        }),
        (Packet::Moderation { action, scope, reason: Some(text), duration_seconds })@ == (
        PacketModel::Moderation { action, scope, reason: Some(text@), duration_seconds }),
        (Packet::Moderation { action, scope, reason: None, duration_seconds })@ == (
        PacketModel::Moderation { action, scope, reason: None, duration_seconds }),
        (Packet::SystemDisconnect { reason_code, message: text })@ == (
        PacketModel::SystemDisconnect { reason_code, message: text@ }),
        Packet::Unhandled@ == PacketModel::Unhandled,
{
}

/// The content of an event is what happened.
pub proof fn law_event_content<E>(packet: Packet, line: String, error: E)
    ensures
        ReplEvent::<E>::Packet(packet)@ == ReplEventModel::<E>::Packet(packet@),
        ReplEvent::<E>::Line(line)@ == ReplEventModel::<E>::Line(line@),
        ReplEvent::<E>::ReceiveFailed(error)@ == ReplEventModel::<E>::ReceiveFailed(error),
        ReplEvent::<E>::ServerDisconnected@ == ReplEventModel::<E>::ServerDisconnected,
        ReplEvent::<E>::NetworkClosed@ == ReplEventModel::<E>::NetworkClosed,
        ReplEvent::<E>::Idle@ == ReplEventModel::<E>::Idle,
        ReplEvent::<E>::EndOfInput@ == ReplEventModel::<E>::EndOfInput,
        ReplEvent::<E>::InputFailed@ == ReplEventModel::<E>::InputFailed,
{
}

/// The content of a reaction is all that is done, and that of an outcome is the
/// content of the reaction, or else the error itself.
pub proof fn law_reaction_content<E>(reaction: Reaction, error: E)
    ensures
        reaction@.output.len() == reaction.output@.len(),
        forall|i: int|
            0 <= i < reaction.output@.len() ==> #[trigger] reaction@.output[i]
                == reaction.output@[i]@,
        match reaction.command {
            Some(command) => reaction@.command == Some(command@),
            None => reaction@.command is None,
        },
        reaction@.shutdown == reaction.shutdown,
        reaction@.flow == reaction.flow,
        outcome(Ok::<Reaction, E>(reaction)) == Ok::<ReactionModel, E>(reaction@),
        outcome(Err::<Reaction, E>(error)) == Err::<ReactionModel, E>(error),
{
}

/// Chat is queued exactly when a user who is not muted types a line that is
/// not empty and does not begin with a slash, and it is that line. A pong is
/// queued exactly when a ping comes in, and carries its timestamp. Nothing else
/// is ever queued.
pub proof fn law_what_is_queued<E>(
    event: ReplEventModel<E>,
    state: ReplState,
    content: Seq<char>,
    timestamp_ms: i64,
)
    ensures
        ({
            let result = event_reaction(event, state).1;
            let queued = result->Ok_0.command;
            &&& (result is Ok && queued == Some(network::CommandModel::SendChat(content))) <==> {
                &&& event == ReplEventModel::<E>::Line(content)
                &&& content.len() > 0
                &&& content[0] != '/'
                &&& !state.muted
            }
            &&& (result is Ok && queued == Some(network::CommandModel::SendPong(timestamp_ms)))
                <==> event == ReplEventModel::<E>::Packet(PacketModel::Ping { timestamp_ms })
        }),
{
}

/// A command queues nothing and prints exactly one line. A line that begins
/// with a slash does what the command behind the slash does, so it queues
/// nothing either.
pub proof fn law_slash_is_never_chat(cmd: Seq<char>, state: ReplState)
    ensures
        command_reaction(cmd, state).1.command is None,
        command_reaction(cmd, state).1.output.len() == 1,
        line_reaction(seq!['/'] + cmd, state) == command_reaction(cmd, state),
{
    assert((seq!['/'] + cmd).skip(1) =~= cmd);
}

/// A command other than `exit`, `quit`, `format` and `help` prints one line
/// that names it in full and lists the commands, and does nothing else.
pub proof fn law_unknown_command_is_named(cmd: Seq<char>, state: ReplState)
    requires
        cmd != "exit"@,
        cmd != "quit"@,
        cmd != "format"@,
        cmd != "help"@,
    ensures
        ({
            let (after, reaction) = command_reaction(cmd, state);
            &&& after == state
            &&& reaction.output == seq![
                "Unknown command: /"@ + cmd + ". "@
                    + "Available commands: /exit, /quit, /format, /help"@,
            ]
            &&& reaction.command is None
            &&& !reaction.shutdown
            &&& reaction.flow == Flow::Continue
        }),
{
}

/// The commands differ from one another.
proof fn lemma_commands_differ()
    ensures
        "help"@ != "exit"@,
        "help"@ != "quit"@,
        "help"@ != "format"@,
{
    reveal_strlit("help");
    reveal_strlit("exit");
    reveal_strlit("quit");
    reveal_strlit("format");
    assert("help"@[0] != "exit"@[0]);
    assert("help"@[0] != "quit"@[0]);
    assert("help"@[0] != "format"@[0]);
}

/// Asking for help lists the commands, whatever the state, and does nothing
/// else.
pub proof fn law_help_lists_commands(state: ReplState)
    ensures
        ({
            let (after, reaction) = command_reaction("help"@, state);
            &&& after == state
            &&& reaction.output == seq!["Available commands: /exit, /quit, /format, /help"@]
            &&& reaction.command is None
            &&& !reaction.shutdown
            &&& reaction.flow == Flow::Continue
        }),
{
    lemma_commands_differ();
}

/// Of all commands exactly `exit` and `quit` end the conversation and shut the
/// network task down, and they say so.
pub proof fn law_only_exit_and_quit_leave(cmd: Seq<char>, state: ReplState)
    ensures
        ({
            let (after, reaction) = command_reaction(cmd, state);
            let leaves = cmd == "exit"@ || cmd == "quit"@;
            &&& reaction.flow == Flow::Leave <==> leaves
            &&& reaction.shutdown <==> leaves
            &&& leaves ==> after == state && reaction.output == seq!["Exiting."@]
        }),
{
}

/// Of all commands exactly `format` changes the state: it switches the format,
/// leaves the rest alone and says which format is used from then on.
pub proof fn law_format_is_switched_and_said(cmd: Seq<char>, state: ReplState)
    ensures
        command_reaction(cmd, state).0 != state <==> cmd == "format"@,
        cmd == "format"@ ==> {
            let (after, reaction) = command_reaction(cmd, state);
            &&& after.use_components == !state.use_components
            &&& after.muted == state.muted
            &&& after.use_components ==> reaction.output == seq![
                "Chat format switched to: "@ + "components"@,
            ]
            &&& !after.use_components ==> reaction.output == seq![
                "Chat format switched to: "@ + "commonmark"@,
            ]
            &&& reaction.command is None
            &&& !reaction.shutdown
            &&& reaction.flow == Flow::Continue
        },
        toggled(state).use_components == !state.use_components,
        toggled(state).muted == state.muted,
{
    lemma_format_is_not_exit();
}

/// An empty line ends the conversation in silence and shuts the network task
/// down.
pub proof fn law_empty_line_leaves(state: ReplState)
    ensures
        ({
            let (after, reaction) = line_reaction(Seq::empty(), state);
            &&& after == state
            &&& reaction.output.len() == 0
            &&& reaction.command is None
            &&& reaction.shutdown
            &&& reaction.flow == Flow::Leave
        }),
{
}

/// A line that is chat is queued as it is and nothing is printed, unless the
/// user is muted: then nothing is queued and the user is told why. Either way
/// the conversation goes on as before.
pub proof fn law_chat_is_queued_or_refused(line: Seq<char>, state: ReplState)
    requires
        line.len() > 0,
        line[0] != '/',
    ensures
        ({
            let (after, reaction) = line_reaction(line, state);
            &&& after == state
            &&& !reaction.shutdown
            &&& reaction.flow == Flow::Continue
            &&& !state.muted ==> {
                &&& reaction.command == Some(network::CommandModel::SendChat(line))
                &&& reaction.output.len() == 0
            }
            &&& state.muted ==> {
                &&& reaction.command is None
                &&& reaction.output == seq!["You are currently muted and cannot send messages."@]
            }
        }),
{
}

/// An event leads to the reaction to its packet or to its line. Every packet
/// leaves the state alone, and so does an event without content, which neither
/// prints nor queues anything: a pause lets the conversation go on, and the end
/// of the connection or of the input ends it.
pub proof fn law_events_lead_to_their_reactions<E>(
    packet: PacketModel,
    line: Seq<char>,
    event: ReplEventModel<E>,
    state: ReplState,
)
    ensures
        event_reaction(ReplEventModel::<E>::Packet(packet), state) == (
            state,
            Ok::<ReactionModel, E>(packet_reaction(packet)),
        ),
        event_reaction(ReplEventModel::<E>::Line(line), state) == (
            line_reaction(line, state).0,
            Ok::<ReactionModel, E>(line_reaction(line, state).1),
        ),
        (event !is Packet && event !is Line && event !is ReceiveFailed) ==> {
            let (after, result) = event_reaction(event, state);
            &&& after == state
            &&& result is Ok
            &&& result->Ok_0.output.len() == 0
            &&& result->Ok_0.command is None
            &&& !result->Ok_0.shutdown
            &&& result->Ok_0.flow == Flow::Continue <==> event is Idle
        },
        event is ReceiveFailed ==> event_reaction(event, state).0 == state,
{
}

/// The codes 0 to 3 stand for a warning, a mute, a kick and a ban, and no other
/// code does.
pub proof fn law_moderation_codes(action: i32)
    ensures
        kind_of(action) == ModerationKind::Warn <==> action == 0,
        kind_of(action) == ModerationKind::Mute <==> action == 1,
        kind_of(action) == ModerationKind::Kick <==> action == 2,
        kind_of(action) == ModerationKind::Ban <==> action == 3,
{
}

/// A moderation is shown with its whole reason on one line that says what was
/// done. Only a mute of known length has a second line, which says how long it
/// lasts. What is not known is not shown.
pub proof fn law_moderation_is_shown(action: i32, reason: Seq<char>, duration_seconds: Option<i32>)
    ensures
        ({
            let output = moderation_reaction(action, reason, duration_seconds).output;
            &&& action == 0 ==> output == seq!["[Warning] "@ + reason]
            &&& action == 1 && duration_seconds is None ==> output == seq!["[Muted] "@ + reason]
            &&& action == 1 && duration_seconds is Some ==> output == seq![
                "[Muted] "@ + reason,
                "  Duration: "@ + text::signed_decimal(duration_seconds->0 as int) + " seconds"@,
            ]
            &&& action == 2 ==> output == seq!["[Kicked] "@ + reason]
            &&& action == 3 ==> output == seq!["[Banned] "@ + reason]
            &&& (action < 0 || action > 3) ==> output.len() == 0
        }),
{
}

/// A moderation queues nothing and leaves the network task alone, and exactly a
/// kick and a ban end the conversation, whatever the reason.
pub proof fn law_kick_and_ban_end_conversation(
    action: i32,
    reason: Seq<char>,
    duration_seconds: Option<i32>,
)
    ensures
        ({
            let reaction = moderation_reaction(action, reason, duration_seconds);
            &&& reaction.command is None
            &&& !reaction.shutdown
            &&& reaction.flow == Flow::Leave <==> action == 2 || action == 3
        }),
{
}

/// A moderation packet leads to the reaction to its action, reason and length,
/// whatever its scope. A reason that was not given is shown as such.
pub proof fn law_moderation_packet(
    action: i32,
    scope: i32,
    reason: Seq<char>,
    duration_seconds: Option<i32>,
)
    ensures
        packet_reaction(
            PacketModel::Moderation { action, scope, reason: Some(reason), duration_seconds },
        ) == moderation_reaction(action, reason, duration_seconds),
        packet_reaction(PacketModel::Moderation { action, scope, reason: None, duration_seconds })
            == moderation_reaction(action, "(no reason given)"@, duration_seconds),
{
}

/// A chat message is shown on one line, in full and behind a mark, and nothing
/// else comes of it.
pub proof fn law_chat_message_is_shown(format: Seq<char>, content: chat::ContentModel)
    ensures
        ({
            let reaction = packet_reaction(PacketModel::ChatMessage { format, content });
            &&& reaction.output == seq!["[Chat] "@ + chat::shown(format, content)]
            &&& reaction.command is None
            &&& !reaction.shutdown
            &&& reaction.flow == Flow::Continue
        }),
{
}

/// A ping is answered in silence with its timestamp, and a packet that the
/// client does not react to has no effect.
pub proof fn law_pings_and_other_packets_show_nothing(timestamp_ms: i64)
    ensures
        ({
            let reaction = packet_reaction(PacketModel::Ping { timestamp_ms });
            &&& reaction.output.len() == 0
            &&& reaction.command == Some(network::CommandModel::SendPong(timestamp_ms))
            &&& !reaction.shutdown
            &&& reaction.flow == Flow::Continue
        }),
        ({
            let reaction = packet_reaction(PacketModel::Unhandled);
            &&& reaction.output.len() == 0
            &&& reaction.command is None
            &&& !reaction.shutdown
            &&& reaction.flow == Flow::Continue
        }),
{
}

/// The codes 0 to 3 of a disconnection have names of their own, and every
/// other code is called unknown.
pub proof fn law_disconnect_codes(code: i32)
    ensures
        code == 0 ==> disconnect_reason(code) == "Shutdown"@,
        code == 1 ==> disconnect_reason(code) == "Maintenance"@,
        code == 2 ==> disconnect_reason(code) == "Internal error"@,
        code == 3 ==> disconnect_reason(code) == "Overloaded"@,
        code < 0 || code > 3 ==> disconnect_reason(code) == "Unknown"@,
{
}

/// A disconnection is shown on one line with the name of its reason and its
/// whole message, and ends the conversation, whatever the reason.
pub proof fn law_disconnection_is_shown(reason_code: i32, message: Seq<char>)
    ensures
        ({
            let reaction = packet_reaction(PacketModel::SystemDisconnect { reason_code, message });
            &&& reaction.output == seq![
                "[Server] Disconnected: "@ + disconnect_reason(reason_code) + " - "@ + message,
            ]
            &&& reaction.command is None
            &&& !reaction.shutdown
            &&& reaction.flow == Flow::Leave
        }),
{
}

/// That chat could not be queued is told with the whole error; that a pong
/// could not is not told.
pub proof fn law_only_refused_chat_is_told(
    content: Seq<char>,
    timestamp_ms: i64,
    error: Seq<char>,
)
    ensures
        refusal(network::CommandModel::SendChat(content), error) == seq!["Error: "@ + error],
        refusal(network::CommandModel::SendPong(timestamp_ms), error).len() == 0,
{
}

/// A string that is two texts in a row.
fn joined(a: &str, b: &str) -> (s: String)
    ensures
        s@ == a@ + b@,
{
    a.to_string().concat(b)
}

impl Reaction {
    /// Does nothing.
    fn silent(flow: Flow) -> (r: Reaction)
        ensures
            r@ == silent(flow),
    {
        let r = Reaction { output: Vec::new(), command: None, shutdown: false, flow };
        assert(r@.output =~= silent(flow).output);
        r
    }

    /// Prints one line.
    fn say(line: String, flow: Flow) -> (r: Reaction)
        ensures
            r@ == says(seq![line@], flow),
    {
        let mut r = Reaction::silent(flow);
        let ghost shown = line@;
        r.output.push(line);
        assert(r@.output =~= seq![shown]);
        r
    }

    /// Queues a command.
    fn send(command: NetworkCommand) -> (r: Reaction)
        ensures
            r@ == sends(command@),
    {
        let mut r = Reaction::silent(Flow::Continue);
        r.command = Some(command);
        r
    }
}

impl ReplState {
    /// The state in which a conversation begins.
    pub fn new() -> (state: ReplState)
        ensures
            state == (ReplState { use_components: false, muted: false }),
    {
        ReplState { use_components: false, muted: false }
    }

    /// Switches to the other chat format, and returns what is said about it.
    pub fn toggle_format(&mut self) -> (line: String)
        ensures
            *final(self) == toggled(*old(self)),
            line@ == "Chat format switched to: "@ + chat::name_of_format(
                final(self).use_components,
            ),
    {
        self.use_components = !self.use_components;
        joined("Chat format switched to: ", chat::format_name(self.use_components))
    }
}

/// What an action code of a moderation stands for.
pub fn moderation_kind(action: i32) -> (kind: ModerationKind)
    ensures
        kind == kind_of(action),
{
    if action == 0 {
        ModerationKind::Warn
    } else if action == 1 {
        ModerationKind::Mute
    } else if action == 2 {
        ModerationKind::Kick
    } else if action == 3 {
        ModerationKind::Ban
    } else {
        ModerationKind::Unknown
    }
}

/// Reacts to a moderation.
pub fn handle_moderation(action: i32, reason: &str, duration_seconds: Option<i32>) -> (r: Reaction)
    ensures
        r@ == moderation_reaction(action, reason@, duration_seconds),
{
    match moderation_kind(action) {
        ModerationKind::Warn => Reaction::say(joined("[Warning] ", reason), Flow::Continue),
        ModerationKind::Mute => {
            let mut r = Reaction::say(joined("[Muted] ", reason), Flow::Continue);
            if let Some(secs) = duration_seconds {
                let line = joined("  Duration: ", text::signed_decimal_text(secs).as_str()).concat(
                    " seconds",
                );
                let ghost first = r@.output;
                let ghost second = line@;
                r.output.push(line);
                assert(r@.output =~= first.push(second));
                assert(r@.output =~= moderation_reaction(action, reason@, duration_seconds).output);
            }
            r
        },
        ModerationKind::Kick => Reaction::say(joined("[Kicked] ", reason), Flow::Leave),
        ModerationKind::Ban => Reaction::say(joined("[Banned] ", reason), Flow::Leave),
        ModerationKind::Unknown => Reaction::silent(Flow::Continue),
    }
}

/// The name of a reason code of a disconnection.
pub fn disconnect_reason_name(code: i32) -> (name: &'static str)
    ensures
        name@ == disconnect_reason(code),
{
    if code == 0 {
        "Shutdown"
    } else if code == 1 {
        "Maintenance"
    } else if code == 2 {
        "Internal error"
    } else if code == 3 {
        "Overloaded"
    } else {
        "Unknown"
    }
}

/// Reacts to a packet.
pub fn handle_packet(packet: Packet) -> (r: Reaction)
    ensures
        r@ == packet_reaction(packet@),
{
    match packet {
        Packet::Ping { timestamp_ms } => Reaction::send(NetworkCommand::SendPong(timestamp_ms)),
        Packet::ChatMessage { format, content } => {
            let shown = chat::format_chat_message(format.as_str(), &content);
            Reaction::say(joined("[Chat] ", shown.as_str()), Flow::Continue)
        },
        Packet::Moderation { action, reason, duration_seconds, .. } => match reason {
            Some(r) => handle_moderation(action, r.as_str(), duration_seconds),
            None => handle_moderation(action, NO_REASON, duration_seconds),
        },
        Packet::SystemDisconnect { reason_code, message } => {
            let line = joined("[Server] Disconnected: ", disconnect_reason_name(reason_code))
                .concat(" - ").concat(message.as_str());
            Reaction::say(line, Flow::Leave)
        },
        Packet::Unhandled => Reaction::silent(Flow::Continue),
    }
}

/// Reacts to a command, given without its slash.
pub fn handle_stdin_command(cmd: &str, state: &mut ReplState) -> (r: Reaction)
    ensures
        (*final(state), r@) == command_reaction(cmd@, *old(state)),
{
    if text::same_text(cmd, "exit") || text::same_text(cmd, "quit") {
        let mut r = Reaction::say(EXITING.to_string(), Flow::Leave);
        r.shutdown = true;
        r
    } else if text::same_text(cmd, "format") {
        Reaction::say(state.toggle_format(), Flow::Continue)
    } else if text::same_text(cmd, "help") {
        Reaction::say(COMMAND_LIST.to_string(), Flow::Continue)
    } else {
        let line = joined("Unknown command: /", cmd).concat(". ").concat(COMMAND_LIST);
        Reaction::say(line, Flow::Continue)
    }
}

/// Reacts to a line that the user typed.
pub fn handle_stdin_line(line: &str, state: &mut ReplState) -> (r: Reaction)
    ensures
        (*final(state), r@) == line_reaction(line@, *old(state)),
{
    if line.is_empty() {
        let mut r = Reaction::silent(Flow::Leave);
        r.shutdown = true;
        return r;
    }
    if line.get_char(0) == '/' {
        let cmd = line.substring_char(1, line.unicode_len());
        assert(cmd@ =~= line@.skip(1));
        handle_stdin_command(cmd, state)
    } else if !state.muted {
        Reaction::send(NetworkCommand::SendChat(line.to_string()))
    } else {
        Reaction::say(MUTED_NOTICE.to_string(), Flow::Continue)
    }
}

/// Decides what the client does about an event, or returns the error with which
/// the conversation fails.
pub fn repl_step<E>(event: ReplEvent<E>, state: &mut ReplState) -> (r: Result<Reaction, E>)
    ensures
        (*final(state), outcome(r)) == event_reaction(event@, *old(state)),
{
    match event {
        ReplEvent::Packet(packet) => Ok(handle_packet(packet)),
        ReplEvent::Line(line) => Ok(handle_stdin_line(line.as_str(), state)),
        ReplEvent::Idle => Ok(Reaction::silent(Flow::Continue)),
        ReplEvent::ReceiveFailed(error) => Err(error),
        ReplEvent::ServerDisconnected => Ok(Reaction::silent(Flow::Leave)),
        ReplEvent::NetworkClosed => Ok(Reaction::silent(Flow::Leave)),
        ReplEvent::EndOfInput => Ok(Reaction::silent(Flow::Leave)),
        ReplEvent::InputFailed => Ok(Reaction::silent(Flow::Leave)),
    }
}

/// What is printed when a command could not be queued.
pub fn send_refused(command: &NetworkCommand, error: &str) -> (output: Vec<String>)
    ensures
        text::texts(output@) == refusal(command@, error@),
{
    let mut output: Vec<String> = Vec::new();
    match command {
        NetworkCommand::SendChat(_) => {
            output.push(joined("Error: ", error));
        },
        NetworkCommand::SendPong(_) => {},
    }
    assert(text::texts(output@) =~= refusal(command@, error@));
    output
}

/// What is printed when the conversation begins.
pub fn greeting() -> (output: Vec<String>)
    ensures
        text::texts(output@) == seq![
            "MineChat CLI - Type /help for commands, Ctrl+C to exit"@,
            "Tip: Use up/down arrows for history"@,
        ],
{
    let mut output: Vec<String> = Vec::new();
    output.push("MineChat CLI - Type /help for commands, Ctrl+C to exit".to_string());
    output.push("Tip: Use up/down arrows for history".to_string());
    assert(text::texts(output@) =~= seq![
        "MineChat CLI - Type /help for commands, Ctrl+C to exit"@,
        "Tip: Use up/down arrows for history"@,
    ]);
    output
}

} // verus!
