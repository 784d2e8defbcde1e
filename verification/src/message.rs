use vstd::prelude::*;
use crate::clock::seconds_since_epoch;
use crate::event::{EventType, event_from_index, EVENT_KINDS};
use crate::random::draw_usize;

verus! {

/// An event of one game, stamped with the second (from the Unix epoch) at
/// which it was produced.
#[derive(Debug, Clone, Copy, PartialEq, Eq, Structural)]
pub struct Message {
    pub game_id: usize,
    pub event_type: EventType,
    pub timestamp: u64,
}

impl Message {
    /// The message for `game_id` and `event_type`, stamped with `seconds`;
    /// `None` where no time could be read (`seconds` is `None`).
    pub fn stamped(game_id: usize, event_type: EventType, seconds: Option<u64>) -> (m: Option<
        Message,
    >)
        ensures
            m is None <==> seconds is None,
            seconds matches Some(s) ==> m == Some(
                Message { game_id: game_id, event_type: event_type, timestamp: s },
            ),
    {
        match seconds {
            Some(s) => Some(Message { game_id, event_type, timestamp: s }),
            None => None,
        }
    }

    /// A made-up message: a random game, a random event kind, stamped with
    /// the current time; `None` where the clock reads a time before the epoch.
    pub fn fake() -> (m: Option<Message>)
        ensures
            m matches Some(msg) ==> exists|n: int|
                0 <= n < EVENT_KINDS && msg.event_type == #[trigger] event_from_index(n),
    {
        let game_id = draw_usize();
        let event_type = EventType::sample();
        let seconds = seconds_since_epoch();
        Message::stamped(game_id, event_type, seconds)
    }
}

} // verus!
