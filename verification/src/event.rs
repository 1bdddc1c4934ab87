//! Events, and what became of them.
use vstd::prelude::*;

use crate::keyboard;
use crate::mouse;
use crate::touch;
use crate::window;

verus! {

/// Something that happened and that the user interface may react to.
#[derive(Debug, Clone, Copy, PartialEq, Eq, Structural)]
pub enum Event {
    /// A keyboard event.
    Keyboard(keyboard::Event),
    /// A mouse event.
    Mouse(mouse::Event),
    /// A window event.
    Window(window::Event),
    /// A touch event.
    Touch(touch::Event),
}

impl Event {
    /// Whether the event is the press that a click is made of: the left mouse
    /// button going down, or a finger touching down.
    pub open spec fn is_press_spec(self) -> bool {
        ||| self == Event::Mouse(mouse::Event::ButtonPressed(mouse::Button::Left))
        ||| self matches Event::Touch(touch::Event::FingerPressed { .. })
    }

    /// Whether the event is the press that a click is made of.
    pub fn is_press(&self) -> (press: bool)
        ensures
            press == self.is_press_spec(),
    {
        match self {
            Event::Mouse(mouse::Event::ButtonPressed(mouse::Button::Left)) => true,
            Event::Touch(touch::Event::FingerPressed { .. }) => true,
            _ => false,
        }
    }
}

/// What became of an event that was handed to a widget.
#[derive(Debug, Clone, Copy, PartialEq, Eq, Structural)]
pub enum Status {
    /// No widget reacted to the event.
    Ignored,
    /// A widget reacted to the event, which should go no further.
    Captured,
}

impl Status {
    /// The status of an event that was handed to two widgets: captured where
    /// either captured it.
    pub open spec fn merge_spec(self, other: Status) -> Status {
        if self == Status::Captured || other == Status::Captured {
            Status::Captured
        } else {
            Status::Ignored
        }
    }

    /// Merges the status of two deliveries of one event.
    pub fn merge(self, other: Status) -> (merged: Status)
        ensures
            merged == self.merge_spec(other),
    {
        match self {
            Status::Ignored => other,
            Status::Captured => Status::Captured,
        }
    }
}

/// The status of an event to which widgets reacted with the messages
/// `emitted`: captured exactly when there is a message.
pub open spec fn status_of<Message>(emitted: Seq<Message>) -> Status {
    if emitted.len() > 0 {
        Status::Captured
    } else {
        Status::Ignored
    }
}

/// Whether the queue `after` is the queue `before` with a clone of each of
/// `emitted` appended, in order.
pub open spec fn delivered<Message: Clone>(before: Seq<Message>, after: Seq<Message>, emitted: Seq<Message>) -> bool {
    &&& after.len() == before.len() + emitted.len()
    &&& after.subrange(0, before.len() as int) == before
    &&& forall|k: int| 0 <= k < emitted.len() ==> cloned(emitted[k], #[trigger] after[before.len() + k])
}

/// Deliveries compose: what is delivered first and what is delivered next
/// are delivered together, in that order.
pub proof fn lemma_delivered_twice<Message: Clone>(
    before: Seq<Message>,
    between: Seq<Message>,
    after: Seq<Message>,
    first: Seq<Message>,
    second: Seq<Message>,
)
    requires
        delivered(before, between, first),
        delivered(between, after, second),
    ensures
        delivered(before, after, first + second),
{
    assert(after.subrange(0, before.len() as int) =~= after.subrange(0, between.len() as int).subrange(
        0,
        before.len() as int,
    ));
    assert forall|k: int| 0 <= k < (first + second).len() implies cloned(
        (first + second)[k],
        #[trigger] after[before.len() + k],
    ) by {
        if k < first.len() {
            assert(after.subrange(0, between.len() as int)[before.len() + k] == between[before.len() + k]);
        } else {
            assert(after[between.len() + (k - first.len())] == after[before.len() + k]);
        }
    }
}

} // verus!
