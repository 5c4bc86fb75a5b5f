//! The task that owns the connection: it hands received packets on, sends what
//! is queued, and decides when to stop.

use vstd::prelude::*;

use crate::chat::COMMONMARK;

verus! {

/// What the rest of the client asks to have sent.
#[derive(Debug)]
pub enum NetworkCommand {
    /// Send a line of chat.
    SendChat(String),
    /// Answer a ping that carried this timestamp.
    SendPong(i64),
}

/// The mathematical content of a [`NetworkCommand`].
pub enum CommandModel {
    SendChat(Seq<char>),
    SendPong(i64),
}

impl View for NetworkCommand {
    type V = CommandModel;

    open spec fn view(&self) -> CommandModel {
        match self {
            NetworkCommand::SendChat(content) => CommandModel::SendChat(content@),
            NetworkCommand::SendPong(timestamp_ms) => CommandModel::SendPong(*timestamp_ms),
        }
    }
}

/// What goes out to the server.
#[derive(Debug)]
pub enum Transmission {
    Chat { format: String, content: String },
    Pong { timestamp_ms: i64 },
}

/// The mathematical content of a [`Transmission`].
pub enum TransmissionModel {
    Chat { format: Seq<char>, content: Seq<char> },
    Pong { timestamp_ms: i64 },
}

impl View for Transmission {
    type V = TransmissionModel;

    open spec fn view(&self) -> TransmissionModel {
        match self {
            Transmission::Chat { format, content } => TransmissionModel::Chat {
                format: format@,
                content: content@,
            },
            Transmission::Pong { timestamp_ms } => TransmissionModel::Pong {
                timestamp_ms: *timestamp_ms,
            },
        }
    }
}

/// What a command sends: chat goes out unchanged and is always marked as
/// CommonMark, and a pong carries the timestamp that it answers.
pub open spec fn sent_for(command: CommandModel) -> TransmissionModel {
    match command {
        CommandModel::SendChat(content) => TransmissionModel::Chat { format: COMMONMARK@, content },
        CommandModel::SendPong(timestamp_ms) => TransmissionModel::Pong { timestamp_ms },
    }
}

/// What the network task meets. `P` is a packet and `E` an error in receiving.
#[derive(Debug, Clone, Copy, PartialEq, Eq)]
pub enum NetworkEvent<P, E> {
    /// A packet came in.
    Received(P),
    /// Receiving failed.
    ReceiveFailed(E),
    /// The packet that came in was handed on.
    Forwarded,
    /// Nobody takes packets any more.
    ForwardRefused,
    /// Nothing happened for a moment.
    Tick,
    /// The client is shutting down.
    Shutdown,
}

/// What the network task does next.
#[derive(Debug, Clone, Copy, PartialEq, Eq)]
pub enum NetworkAction<P, E> {
    /// Hand the packet on.
    ForwardPacket(P),
    /// Hand the error on, then stop, whether or not anybody takes it.
    ForwardErrorAndStop(E),
    /// Send every queued command, then wait for the next event.
    SendQueued,
    /// Stop, and send nothing more.
    Stop,
}

/// Whether the network task is over once it has done this.
pub open spec fn is_last<P, E>(action: NetworkAction<P, E>) -> bool {
    action is Stop || action is ForwardErrorAndStop
}

/// What follows each event.
pub open spec fn action_after<P, E>(event: NetworkEvent<P, E>) -> NetworkAction<P, E> {
    match event {
        NetworkEvent::Received(packet) => NetworkAction::ForwardPacket(packet),
        NetworkEvent::ReceiveFailed(error) => NetworkAction::ForwardErrorAndStop(error),
        NetworkEvent::Forwarded | NetworkEvent::Tick => NetworkAction::SendQueued,
        NetworkEvent::ForwardRefused | NetworkEvent::Shutdown => NetworkAction::Stop,
    }
}

/// The network task goes on until receiving fails, nobody takes packets any
/// more, or the client shuts down.
pub proof fn law_network_task_stops<P, E>(event: NetworkEvent<P, E>)
    ensures
        is_last(action_after(event)) <==> event is ReceiveFailed || event is ForwardRefused
            || event is Shutdown,
{
}

/// A row of events that the network task lives to see: none but the last may
/// end it.
pub open spec fn lived_through<P, E>(events: Seq<NetworkEvent<P, E>>) -> bool {
    forall|i: int| 0 <= i < events.len() - 1 ==> !is_last(action_after(#[trigger] events[i]))
}

/// What receiving gave in the course of some events, in order.
pub open spec fn received<P, E>(events: Seq<NetworkEvent<P, E>>) -> Seq<Result<P, E>>
    decreases events.len(),
{
    if events.len() == 0 {
        Seq::empty()
    } else {
        let before = received(events.drop_last());
        match events.last() {
            NetworkEvent::Received(packet) => before.push(Ok(packet)),
            NetworkEvent::ReceiveFailed(error) => before.push(Err(error)),
            _ => before,
        }
    }
}

/// What is handed on in the course of some actions, in order.
pub open spec fn handed_on<P, E>(actions: Seq<NetworkAction<P, E>>) -> Seq<Result<P, E>>
    decreases actions.len(),
{
    if actions.len() == 0 {
        Seq::empty()
    } else {
        let before = handed_on(actions.drop_last());
        match actions.last() {
            NetworkAction::ForwardPacket(packet) => before.push(Ok(packet)),
            NetworkAction::ForwardErrorAndStop(error) => before.push(Err(error)),
            _ => before,
        }
    }
}

/// What the network task does in the course of some events.
pub open spec fn actions_after<P, E>(events: Seq<NetworkEvent<P, E>>) -> Seq<
    NetworkAction<P, E>,
> {
    events.map_values(|event: NetworkEvent<P, E>| action_after(event))
}

/// Everything that receiving gave is handed on, unaltered and in order, and
/// nothing else is.
pub proof fn law_received_is_handed_on<P, E>(events: Seq<NetworkEvent<P, E>>)
    ensures
        handed_on(actions_after(events)) == received(events),
    decreases events.len(),
{
    if events.len() > 0 {
        law_received_is_handed_on(events.drop_last());
        assert(actions_after(events).drop_last() =~= actions_after(events.drop_last()));
    }
}

/// Where no event but the last is a failure, no result but the last is an error.
proof fn lemma_error_is_last<P, E>(events: Seq<NetworkEvent<P, E>>)
    requires
        forall|i: int| 0 <= i < events.len() - 1 ==> (#[trigger] events[i]) !is ReceiveFailed,
    ensures
        forall|i: int|
            0 <= i < received(events).len() && (#[trigger] received(events)[i]) is Err ==> i
                == received(events).len() - 1 && events.last() is ReceiveFailed,
    decreases events.len(),
{
    if events.len() > 0 {
        let shorter = events.drop_last();
        assert forall|i: int| 0 <= i < shorter.len() implies (#[trigger] shorter[i])
            !is ReceiveFailed by {
            assert(shorter[i] == events[i]);
        }
        lemma_error_is_last(shorter);
        let before = received(shorter);
        assert forall|i: int| 0 <= i < before.len() implies (#[trigger] before[i]) !is Err by {
            if before[i] is Err {
                assert(shorter.last() is ReceiveFailed);
                assert(shorter.len() > 0);
                assert(shorter[shorter.len() - 1] !is ReceiveFailed);
            }
        }
        assert forall|i: int|
            0 <= i < received(events).len() && (#[trigger] received(events)[i]) is Err implies i
            == received(events).len() - 1 && events.last() is ReceiveFailed by {
            if i < before.len() {
                assert(received(events)[i] == before[i]);
            }
        }
    }
}

/// In a row of events that the network task lives to see, receiving fails at
/// most once, and then it is the last event. So at most one error is handed on,
/// it is the last thing that is handed on, and nothing is sent after it.
pub proof fn law_error_comes_last<P, E>(events: Seq<NetworkEvent<P, E>>)
    requires
        lived_through(events),
    ensures
        forall|i: int|
            0 <= i < events.len() && (#[trigger] events[i]) is ReceiveFailed ==> i
                == events.len() - 1,
        forall|i: int|
            0 <= i < actions_after(events).len() && (#[trigger] actions_after(
                events,
            )[i]) is ForwardErrorAndStop ==> i == actions_after(events).len() - 1,
        forall|i: int|
            0 <= i < handed_on(actions_after(events)).len() && (#[trigger] handed_on(
                actions_after(events),
            )[i]) is Err ==> i == handed_on(actions_after(events)).len() - 1,
{
    assert forall|i: int| 0 <= i < events.len() - 1 implies (#[trigger] events[i])
        !is ReceiveFailed by {
        assert(!is_last(action_after(events[i])));
    }
    lemma_error_is_last(events);
    law_received_is_handed_on(events);
    assert forall|i: int|
        0 <= i < actions_after(events).len() && (#[trigger] actions_after(
            events,
        )[i]) is ForwardErrorAndStop implies i == actions_after(events).len() - 1 by {
        assert(actions_after(events)[i] == action_after(events[i]));
    }
}

/// What is sent from a queue that is asked again and again until it gives
/// nothing.
pub open spec fn sent_from(queue: Seq<CommandModel>) -> Seq<TransmissionModel>
    decreases queue.len(),
{
    if queue.len() == 0 {
        Seq::empty()
    } else {
        seq![sent_for(queue[0])] + sent_from(queue.drop_first())
    }
}

/// Every queued command is sent, once and in the order of the queue.
pub proof fn law_whole_queue_is_sent(queue: Seq<CommandModel>)
    ensures
        sent_from(queue) == queue.map_values(|command: CommandModel| sent_for(command)),
    decreases queue.len(),
{
    let all = |command: CommandModel| sent_for(command);
    if queue.len() > 0 {
        law_whole_queue_is_sent(queue.drop_first());
        assert(queue.map_values(all) =~= seq![sent_for(queue[0])] + queue.drop_first().map_values(
            all,
        ));
    } else {
        assert(queue.map_values(all) =~= Seq::<TransmissionModel>::empty());
    }
}

/// The content of a command is all that the command holds.
pub proof fn law_command_content(content: String, timestamp_ms: i64)
    ensures
        NetworkCommand::SendChat(content)@ == CommandModel::SendChat(content@),
        NetworkCommand::SendPong(timestamp_ms)@ == CommandModel::SendPong(timestamp_ms),
{
}

/// The content of a transmission is all that goes out.
pub proof fn law_transmission_content(format: String, content: String, timestamp_ms: i64)
    ensures
        (Transmission::Chat { format, content })@ == (TransmissionModel::Chat {
            format: format@,
            content: content@,
        }),
        (Transmission::Pong { timestamp_ms })@ == (TransmissionModel::Pong { timestamp_ms }),
{
}

/// Chat goes out exactly for a command to send chat, marked as CommonMark and
/// with its content unaltered.
pub proof fn law_chat_is_sent_unaltered(
    command: CommandModel,
    format: Seq<char>,
    content: Seq<char>,
)
    ensures
        sent_for(command) == (TransmissionModel::Chat { format, content }) <==> command
            == CommandModel::SendChat(content) && format == "commonmark"@,
{
}

/// A pong goes out exactly for a command to send one, with its timestamp
/// unaltered.
pub proof fn law_pong_is_sent_unaltered(command: CommandModel, timestamp_ms: i64)
    ensures
        sent_for(command) == (TransmissionModel::Pong { timestamp_ms }) <==> command
            == CommandModel::SendPong(timestamp_ms),
{
}

/// What is sent of two queues, one behind the other, is what is sent of the
/// first and then what is sent of the second.
pub proof fn law_queues_are_sent_one_by_one(
    first: Seq<CommandModel>,
    second: Seq<CommandModel>,
    command: CommandModel,
)
    ensures
        sent_from(first + second) == sent_from(first) + sent_from(second),
        sent_from(seq![command]) == seq![sent_for(command)],
{
    let all = |command: CommandModel| sent_for(command);
    law_whole_queue_is_sent(first);
    law_whole_queue_is_sent(second);
    law_whole_queue_is_sent(first + second);
    law_whole_queue_is_sent(seq![command]);
    assert((first + second).map_values(all) =~= first.map_values(all) + second.map_values(all));
    assert(seq![command].map_values(all) =~= seq![sent_for(command)]);
}

/// A packet is handed on exactly when it came in, and an error exactly when
/// receiving failed with it. The queue is sent exactly when a packet was handed
/// on or nothing happened. The task stops without a word exactly when nobody
/// takes packets any more or the client shuts down.
pub proof fn law_each_event_has_its_action<P, E>(event: NetworkEvent<P, E>, packet: P, error: E)
    ensures
        action_after(event) == NetworkAction::<P, E>::ForwardPacket(packet) <==> event
            == NetworkEvent::<P, E>::Received(packet),
        action_after(event) == NetworkAction::<P, E>::ForwardErrorAndStop(error) <==> event
            == NetworkEvent::<P, E>::ReceiveFailed(error),
        action_after(event) is SendQueued <==> event is Forwarded || event is Tick,
        action_after(event) is Stop <==> event is ForwardRefused || event is Shutdown,
{
}

/// Different commands never send the same thing.
pub proof fn law_sending_is_faithful(a: CommandModel, b: CommandModel)
    ensures
        sent_for(a) == sent_for(b) <==> a == b,
{
}

/// Decides what the network task does next.
pub fn network_step<P, E>(event: NetworkEvent<P, E>) -> (action: NetworkAction<P, E>)
    ensures
        action == action_after(event),
{
    match event {
        NetworkEvent::Received(packet) => NetworkAction::ForwardPacket(packet),
        NetworkEvent::ReceiveFailed(error) => NetworkAction::ForwardErrorAndStop(error),
        NetworkEvent::Forwarded => NetworkAction::SendQueued,
        NetworkEvent::Tick => NetworkAction::SendQueued,
        NetworkEvent::ForwardRefused => NetworkAction::Stop,
        NetworkEvent::Shutdown => NetworkAction::Stop,
    }
}

/// Turns a queued command into what goes out to the server.
pub fn transmission(command: NetworkCommand) -> (t: Transmission)
    ensures
        t@ == sent_for(command@),
{
    match command {
        NetworkCommand::SendChat(content) => Transmission::Chat {
            format: COMMONMARK.to_string(),
            content,
        },
        NetworkCommand::SendPong(timestamp_ms) => Transmission::Pong { timestamp_ms },
    }
}

/// Decides what is sent next while the queue is being emptied, given what the
/// queue gave. It is asked after every sending, whatever came of that sending,
/// and there is nothing more to send once the queue gave nothing.
pub fn queue_step(next: Option<NetworkCommand>) -> (t: Option<Transmission>)
    ensures
        match next {
            Some(command) => t is Some && t->0@ == sent_for(command@),
            None => t is None,
        },
{
    match next {
        Some(command) => Some(transmission(command)),
        None => None,
    }
}

} // verus!
