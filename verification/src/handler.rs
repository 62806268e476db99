//! The conversation between a handler and its channel, as events and actions.
//!
//! A handler never touches the channel itself. It is asked for its first
//! action, and after that it is told the outcome of each action (an event) and
//! answers with the next action, until it answers `Finish`.
use crate::error::CommunicationError;
use vstd::prelude::*;

verus! {

/// The outcome of the last action, handed to the handler.
pub enum HandlerEvent {
    /// The message that a read produced, or why it failed.
    Read(Result<Vec<u8>, CommunicationError>),
    /// Whether a write went through.
    Written(Result<(), CommunicationError>),
}

/// What the handler asks for next.
pub enum HandlerAction {
    /// Read one message from the channel.
    Read,
    /// Write these bytes to the channel.
    Write(Vec<u8>),
    /// Stop, with this result.
    Finish(Result<(), CommunicationError>),
}

/// The mathematical form of `HandlerEvent`.
pub enum EventView {
    Read(Result<Seq<u8>, CommunicationError>),
    Written(Result<(), CommunicationError>),
}

/// The mathematical form of `HandlerAction`.
pub enum ActionView {
    Read,
    Write(Seq<u8>),
    Finish(Result<(), CommunicationError>),
}

impl View for HandlerEvent {
    type V = EventView;

    open spec fn view(&self) -> EventView {
        match self {
            HandlerEvent::Read(Ok(message)) => EventView::Read(Ok(message@)),
            HandlerEvent::Read(Err(error)) => EventView::Read(Err(*error)),
            HandlerEvent::Written(result) => EventView::Written(*result),
        }
    }
}

impl View for HandlerAction {
    type V = ActionView;

    open spec fn view(&self) -> ActionView {
        match self {
            HandlerAction::Read => ActionView::Read,
            HandlerAction::Write(data) => ActionView::Write(data@),
            HandlerAction::Finish(result) => ActionView::Finish(*result),
        }
    }
}

/// The error an event reports, if it reports one.
pub open spec fn event_failure(event: EventView) -> Option<CommunicationError> {
    match event {
        EventView::Read(Err(error)) => Some(error),
        EventView::Written(Err(error)) => Some(error),
        _ => None,
    }
}

/// The logic of one side of a conversation over a channel.
pub trait Handler {
    /// The first action of a new conversation.
    fn start(&mut self) -> HandlerAction;

    /// The next action, given the outcome of the previous one.
    fn handle(&mut self, event: HandlerEvent) -> HandlerAction;
}

} // verus!

verus! {

/// The bytes `ping`.
pub open spec fn ping_bytes() -> Seq<u8> {
    seq![0x70u8, 0x69u8, 0x6eu8, 0x67u8]
}

/// The bytes `pong`.
pub open spec fn pong_bytes() -> Seq<u8> {
    seq![0x70u8, 0x6fu8, 0x6eu8, 0x67u8]
}

/// The bytes `?`.
pub open spec fn unknown_bytes() -> Seq<u8> {
    seq![0x3fu8]
}

/// A new buffer holding `ping`.
pub fn ping_message() -> (message: Vec<u8>)
    ensures
        message@ == ping_bytes(),
{
    let message: Vec<u8> = vec![0x70u8, 0x69u8, 0x6eu8, 0x67u8];
    assert(message@ =~= ping_bytes());
    message
}

/// A new buffer holding `pong`.
pub fn pong_message() -> (message: Vec<u8>)
    ensures
        message@ == pong_bytes(),
{
    let message: Vec<u8> = vec![0x70u8, 0x6fu8, 0x6eu8, 0x67u8];
    assert(message@ =~= pong_bytes());
    message
}

/// A new buffer holding `?`.
pub fn unknown_message() -> (message: Vec<u8>)
    ensures
        message@ == unknown_bytes(),
{
    let message: Vec<u8> = vec![0x3fu8];
    assert(message@ =~= unknown_bytes());
    message
}

/// Whether `message` is exactly the bytes `ping`.
pub fn is_ping(message: &[u8]) -> (answer: bool)
    ensures
        answer == (message@ == ping_bytes()),
{
    if message.len() == 4 && message[0] == 0x70u8 && message[1] == 0x69u8 && message[2] == 0x6eu8
        && message[3] == 0x67u8 {
        assert(message@ =~= ping_bytes());
        true
    } else {
        proof {
            if message@ == ping_bytes() {
                assert(message@[0] == 0x70u8 && message@[1] == 0x69u8);
                assert(message@[2] == 0x6eu8 && message@[3] == 0x67u8);
            }
        }
        false
    }
}

} // verus!

verus! {

/// The actions a handler takes over a conversation: `first`, then its answer
/// `next(e)` to each event `e` in turn.
pub open spec fn conversation(
    first: ActionView,
    next: spec_fn(EventView) -> ActionView,
    events: Seq<EventView>,
) -> Seq<ActionView> {
    seq![first] + events.map_values(next)
}

/// Extending a conversation by some events extends its actions by the
/// handler's answers to them.
pub proof fn lemma_conversation_extend(
    first: ActionView,
    next: spec_fn(EventView) -> ActionView,
    events: Seq<EventView>,
    more: Seq<EventView>,
)
    ensures
        conversation(first, next, events + more) == conversation(first, next, events)
            + more.map_values(next),
{
    assert(conversation(first, next, events + more) =~= conversation(first, next, events)
        + more.map_values(next));
}


/// The messages of the protocol are the ASCII bytes of `ping`, `pong` and `?`.
pub proof fn lemma_protocol_messages()
    ensures
        ping_bytes() == seq![112u8, 105u8, 110u8, 103u8],
        pong_bytes() == seq![112u8, 111u8, 110u8, 103u8],
        unknown_bytes() == seq![63u8],
        ping_bytes() != pong_bytes(),
        ping_bytes() != unknown_bytes(),
{
    assert(ping_bytes()[1] != pong_bytes()[1]);
    assert(ping_bytes().len() != unknown_bytes().len());
}

} // verus!
