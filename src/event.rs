use vstd::prelude::*;

verus! {

/// Response type of an Expose event.
pub const EXPOSE: u8 = 12;

/// An event as the connection delivers it: its response type (the top bit
/// marks events sent by another client) and the window it concerns.
#[derive(PartialEq, Eq, Structural, Clone, Copy, Debug)]
pub struct Event {
    pub response_type: u8,
    pub window: u32,
}

impl Event {
    /// The event is an exposure of window `w`.
    pub open spec fn exposes(&self, w: u32) -> bool {
        self.response_type % 128 == EXPOSE && self.window == w
    }

    /// Whether the event is an exposure of window `window`.
    pub fn is_expose_for(&self, window: u32) -> (r: bool)
        ensures
            r == self.exposes(window),
    {
        self.response_type % 128 == EXPOSE && self.window == window
    }
}

/// The position of the first exposure of `window` among `events`; those
/// before it are the ones to discard.
pub fn first_expose(events: &[Event], window: u32) -> (r: Option<usize>)
    ensures
        r matches Some(i) ==> i < events@.len() && events@[i as int].exposes(window),
        r matches Some(i) ==> forall|j: int| 0 <= j < i ==> !(#[trigger] events@[j]).exposes(window),
        r is None ==> forall|j: int| 0 <= j < events@.len() ==> !(#[trigger] events@[j]).exposes(window),
{
    let mut i: usize = 0;
    while i < events.len()
        invariant
            0 <= i <= events@.len(),
            forall|j: int| 0 <= j < i ==> !(#[trigger] events@[j]).exposes(window),
        decreases events@.len() - i,
    {
        if events[i].is_expose_for(window) {
            return Some(i);
        }
        i = i + 1;
    }
    None
}

} // verus!
