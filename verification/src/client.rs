//! The client's side of the ping-pong conversation: it writes `ping`, reads
//! the answer, and starts over, until the channel fails.
use crate::error::CommunicationError;
use crate::handler::{
    ping_bytes, ping_message, pong_bytes, ActionView, EventView, Handler, HandlerAction, HandlerEvent,
};
use vstd::prelude::*;

verus! {

/// The client's first action: it sends `ping`.
pub open spec fn client_start() -> ActionView {
    ActionView::Write(ping_bytes())
}

/// The client's action after an event: a write that went through is followed
/// by a read, an answer that was read is followed by the next `ping`, and a
/// failure ends the conversation with that failure.
pub open spec fn client_next(event: EventView) -> ActionView {
    match event {
        EventView::Written(Ok(())) => ActionView::Read,
        EventView::Written(Err(error)) => ActionView::Finish(Err(error)),
        EventView::Read(Ok(_)) => ActionView::Write(ping_bytes()),
        EventView::Read(Err(error)) => ActionView::Finish(Err(error)),
    }
}

/// The client's handler.
#[derive(Clone, Copy, Debug)]
pub struct PingPongHandler;

impl Handler for PingPongHandler {
    fn start(&mut self) -> (action: HandlerAction)
        ensures
            action@ == client_start(),
    {
        HandlerAction::Write(ping_message())
    }

    fn handle(&mut self, event: HandlerEvent) -> (action: HandlerAction)
        ensures
            action@ == client_next(event@),
    {
        match event {
            HandlerEvent::Written(Ok(())) => HandlerAction::Read,
            HandlerEvent::Written(Err(error)) => HandlerAction::Finish(Err(error)),
            HandlerEvent::Read(Ok(_)) => HandlerAction::Write(ping_message()),
            HandlerEvent::Read(Err(error)) => HandlerAction::Finish(Err(error)),
        }
    }
}

} // verus!

verus! {

/// The events of a conversation in which each `ping` is written successfully
/// and then each of `answers` is read in turn.
pub open spec fn pinging_events(answers: Seq<Seq<u8>>) -> Seq<EventView>
    decreases answers.len(),
{
    if answers.len() == 0 {
        Seq::empty()
    } else {
        pinging_events(answers.drop_last()) + seq![
            EventView::Written(Ok(())),
            EventView::Read(Ok(answers.last())),
        ]
    }
}

/// The client's actions in such a conversation: `ping`, then for each answer
/// a read and the next `ping`.
pub open spec fn pinging_actions(rounds: nat) -> Seq<ActionView>
    decreases rounds,
{
    if rounds == 0 {
        seq![ActionView::Write(ping_bytes())]
    } else {
        pinging_actions((rounds - 1) as nat) + seq![
            ActionView::Read,
            ActionView::Write(ping_bytes()),
        ]
    }
}

/// Whatever the server answers, the client reads one answer per `ping` and
/// sends `ping` again: over any run of successful writes and reads its actions
/// are exactly `pinging_actions(answers.len())`.
pub proof fn lemma_client_keeps_pinging(answers: Seq<Seq<u8>>)
    ensures
        crate::handler::conversation(client_start(), |e: EventView| client_next(e), pinging_events(answers))
            == pinging_actions(answers.len()),
    decreases answers.len(),
{
    let next = |e: EventView| client_next(e);
    if answers.len() == 0 {
        assert(crate::handler::conversation(client_start(), next, pinging_events(answers))
            =~= seq![ActionView::Write(ping_bytes())]);
    } else {
        let rest = answers.drop_last();
        lemma_client_keeps_pinging(rest);
        let round = seq![EventView::Written(Ok(())), EventView::Read(Ok(answers.last()))];
        crate::handler::lemma_conversation_extend(client_start(), next, pinging_events(rest), round);
        assert(round.map_values(next) =~= seq![ActionView::Read, ActionView::Write(ping_bytes())]);
    }
}

/// Everything the client ever writes is `ping`.
pub proof fn lemma_client_only_sends_ping(event: EventView)
    ensures
        client_start() == ActionView::Write(ping_bytes()),
        client_next(event) matches ActionView::Write(data) ==> data == ping_bytes(),
{
}

/// The client's conversation ends exactly when a write or a read fails, and
/// it ends with that failure; it never ends successfully.
pub proof fn lemma_client_ends_only_on_failure(event: EventView)
    ensures
        (client_next(event) is Finish) <==> (crate::handler::event_failure(event) is Some),
        crate::handler::event_failure(event) matches Some(error) ==> client_next(event)
            == ActionView::Finish(Err(error)),
        client_next(event) != ActionView::Finish(Ok(())),
        client_start() != ActionView::Finish(Ok(())),
{
}

/// Client and server together: the client's first message is `ping`, and the
/// server answers it with `pong`, which the client follows with `ping` again.
pub proof fn lemma_ping_is_answered_with_pong()
    ensures
        client_start() == ActionView::Write(ping_bytes()),
        crate::server::server_next(EventView::Read(Ok(ping_bytes()))) == ActionView::Write(pong_bytes()),
        client_next(EventView::Read(Ok(pong_bytes()))) == ActionView::Write(ping_bytes()),
{
}


/// Every step of the client, for every answer and every error: it starts by
/// writing the bytes `ping`; it reads after a write that went through; it
/// writes `ping` again after any answer; and a failed write or read ends the
/// conversation with that very error.
pub proof fn lemma_client_steps(answer: Seq<u8>, error: CommunicationError)
    ensures
        client_start() == ActionView::Write(seq![112u8, 105u8, 110u8, 103u8]),
        client_next(EventView::Written(Ok(()))) == ActionView::Read,
        client_next(EventView::Read(Ok(answer))) == ActionView::Write(seq![112u8, 105u8, 110u8, 103u8]),
        client_next(EventView::Written(Err(error))) == ActionView::Finish(Err(error)),
        client_next(EventView::Read(Err(error))) == ActionView::Finish(Err(error)),
{
    crate::handler::lemma_protocol_messages();
}

} // verus!
