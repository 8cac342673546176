//! Input events as the renderer sees them, and the quit decision over them.
use vstd::prelude::*;

verus! {

/// The keys the renderer tells apart.
#[derive(Clone, Copy, Debug, PartialEq, Eq, Structural)]
pub enum Key {
    Escape,
    Other,
}

/// One event drained from the host's event queue.
#[derive(Clone, Copy, Debug, PartialEq, Eq, Structural)]
pub enum InputEvent {
    /// The host asked the program to close.
    Quit,
    /// A key went down; `None` where the host could not name the key.
    KeyDown(Option<Key>),
    /// Anything else.
    Other,
}

/// A quit signal, or the escape key going down.
pub open spec fn requests_quit(e: InputEvent) -> bool {
    match e {
        InputEvent::Quit => true,
        InputEvent::KeyDown(Some(Key::Escape)) => true,
        _ => false,
    }
}

/// Whether some event of `events` asks the program to stop.
pub open spec fn any_requests_quit(events: Seq<InputEvent>) -> bool {
    exists|i: int| 0 <= i < events.len() && requests_quit(#[trigger] events[i])
}

pub fn is_quit_request(e: &InputEvent) -> (r: bool)
    ensures
        r == requests_quit(*e),
{
    match e {
        InputEvent::Quit => true,
        InputEvent::KeyDown(Some(Key::Escape)) => true,
        _ => false,
    }
}

/// Remembers whether a quit was ever requested. Once set, the flag stays set.
pub struct EventHandler {
    pub quit: bool,
}

impl EventHandler {
    pub fn new() -> (h: EventHandler)
        ensures
            !h.quit,
    {
        EventHandler { quit: false }
    }

    /// Takes in one batch of drained events.
    pub fn process(&mut self, events: &Vec<InputEvent>)
        ensures
            final(self).quit == (old(self).quit || any_requests_quit(events@)),
    {
        let mut i: usize = 0;
        while i < events.len()
            invariant
                i <= events@.len(),
                self.quit == (old(self).quit || exists|j: int|
                    0 <= j < i && requests_quit(#[trigger] events@[j])),
            decreases events@.len() - i,
        {
            if is_quit_request(&events[i]) {
                self.quit = true;
            }
            i = i + 1;
        }
    }
}

} // verus!
