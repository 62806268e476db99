//! The server's side of the ping-pong conversation: it reads a message and
//! answers `pong` to `ping` and `?` to anything else, until the channel fails.
use crate::error::CommunicationError;
use crate::handler::{
    is_ping, pong_bytes, pong_message, unknown_bytes, unknown_message, ping_bytes, ActionView,
    EventView, Handler, HandlerAction, HandlerEvent,
};
use vstd::prelude::*;

verus! {

/// The answer to a message: `pong` to exactly `ping`, `?` to anything else.
pub open spec fn reply(message: Seq<u8>) -> Seq<u8> {
    if message == ping_bytes() {
        pong_bytes()
    } else {
        unknown_bytes()
    }
}

/// The server's first action: it waits for a message.
pub open spec fn server_start() -> ActionView {
    ActionView::Read
}

/// The server's action after an event: a message read is answered, a write
/// that went through is followed by the next read, and a failure ends the
/// conversation with that failure.
pub open spec fn server_next(event: EventView) -> ActionView {
    match event {
        EventView::Read(Ok(message)) => ActionView::Write(reply(message)),
        EventView::Read(Err(error)) => ActionView::Finish(Err(error)),
        EventView::Written(Ok(())) => ActionView::Read,
        EventView::Written(Err(error)) => ActionView::Finish(Err(error)),
    }
}

/// Returns the answer to `message`.
pub fn reply_to(message: &[u8]) -> (answer: Vec<u8>)
    ensures
        answer@ == reply(message@),
{
    if is_ping(message) {
        pong_message()
    } else {
        unknown_message()
    }
}

/// The server's handler.
#[derive(Clone, Copy, Debug)]
pub struct PingPongHandler;

impl Handler for PingPongHandler {
    fn start(&mut self) -> (action: HandlerAction)
        ensures
            action@ == server_start(),
    {
        HandlerAction::Read
    }

    fn handle(&mut self, event: HandlerEvent) -> (action: HandlerAction)
        ensures
            action@ == server_next(event@),
    {
        match event {
            HandlerEvent::Read(Ok(message)) => HandlerAction::Write(reply_to(message.as_slice())),
            HandlerEvent::Read(Err(error)) => HandlerAction::Finish(Err(error)),
            HandlerEvent::Written(Ok(())) => HandlerAction::Read,
            HandlerEvent::Written(Err(error)) => HandlerAction::Finish(Err(error)),
        }
    }
}

} // verus!

verus! {

/// The events of a conversation in which the server reads each of `messages`
/// in turn and each of its answers is written successfully.
pub open spec fn served_events(messages: Seq<Seq<u8>>) -> Seq<EventView>
    decreases messages.len(),
{
    if messages.len() == 0 {
        Seq::empty()
    } else {
        served_events(messages.drop_last()) + seq![
            EventView::Read(Ok(messages.last())),
            EventView::Written(Ok(())),
        ]
    }
}

/// The server's actions in such a conversation: a read, then for each message
/// the answer to it and the next read.
pub open spec fn served_actions(messages: Seq<Seq<u8>>) -> Seq<ActionView>
    decreases messages.len(),
{
    if messages.len() == 0 {
        seq![ActionView::Read]
    } else {
        served_actions(messages.drop_last()) + seq![
            ActionView::Write(reply(messages.last())),
            ActionView::Read,
        ]
    }
}

/// Every message the server reads is answered, in order, with `pong` for
/// `ping` and `?` for anything else, and after each answer it reads again:
/// over any run of successful reads and writes the server's actions are
/// exactly `served_actions(messages)`.
pub proof fn lemma_server_answers_every_message(messages: Seq<Seq<u8>>)
    ensures
        crate::handler::conversation(server_start(), |e: EventView| server_next(e), served_events(messages))
            == served_actions(messages),
    decreases messages.len(),
{
    let next = |e: EventView| server_next(e);
    if messages.len() == 0 {
        assert(crate::handler::conversation(server_start(), next, served_events(messages))
            =~= seq![ActionView::Read]);
    } else {
        let rest = messages.drop_last();
        lemma_server_answers_every_message(rest);
        let round = seq![EventView::Read(Ok(messages.last())), EventView::Written(Ok(()))];
        crate::handler::lemma_conversation_extend(server_start(), next, served_events(rest), round);
        assert(round.map_values(next) =~= seq![
            ActionView::Write(reply(messages.last())),
            ActionView::Read,
        ]);
    }
}

/// The server answers `ping` with `pong`, and any other message with `?`.
pub proof fn lemma_server_reply(message: Seq<u8>)
    ensures
        message == ping_bytes() ==> server_next(EventView::Read(Ok(message))) == ActionView::Write(
            pong_bytes(),
        ),
        message != ping_bytes() ==> server_next(EventView::Read(Ok(message))) == ActionView::Write(
            unknown_bytes(),
        ),
{
}

/// The server's conversation ends exactly when a read or a write fails, and it
/// ends with that failure; it never ends successfully.
pub proof fn lemma_server_ends_only_on_failure(event: EventView)
    ensures
        (server_next(event) is Finish) <==> (crate::handler::event_failure(event) is Some),
        crate::handler::event_failure(event) matches Some(error) ==> server_next(event)
            == ActionView::Finish(Err(error)),
        server_next(event) != ActionView::Finish(Ok(())),
        server_start() != ActionView::Finish(Ok(())),
{
}


/// Every step of the server, for every message and every error: it starts
/// by reading; it answers a message read with `pong` when the message is
/// exactly the bytes `ping` and with `?` otherwise; it reads again after a
/// write that went through; and a failed read or write ends the conversation
/// with that very error.
pub proof fn lemma_server_steps(message: Seq<u8>, error: CommunicationError)
    ensures
        server_start() == ActionView::Read,
        message == seq![112u8, 105u8, 110u8, 103u8] ==> server_next(EventView::Read(Ok(message)))
            == ActionView::Write(seq![112u8, 111u8, 110u8, 103u8]),
        message != seq![112u8, 105u8, 110u8, 103u8] ==> server_next(EventView::Read(Ok(message)))
            == ActionView::Write(seq![63u8]),
        server_next(EventView::Written(Ok(()))) == ActionView::Read,
        server_next(EventView::Read(Err(error))) == ActionView::Finish(Err(error)),
        server_next(EventView::Written(Err(error))) == ActionView::Finish(Err(error)),
{
    crate::handler::lemma_protocol_messages();
}

} // verus!
