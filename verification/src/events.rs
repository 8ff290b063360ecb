//! Pointer events fed into the tool state machine, and the result a handler
//! reports back to the event source.

use crate::geometry::Vec2;
use crate::num::COORD_LIMIT;
use vstd::prelude::*;

verus! {

/// One raw pointer sample: a position on the document, in milli-units.
#[derive(Clone, Copy, Debug, PartialEq, Eq, Structural)]
pub struct Element {
    pub pos: Vec2,
}

impl Element {
    /// The sample position lies within the accepted input coordinate range.
    pub open spec fn wf(self) -> bool {
        self.pos.in_range(COORD_LIMIT)
    }
}

/// A pointer event delivered to a pen.
#[derive(Clone, Copy, Debug, PartialEq, Eq, Structural)]
pub enum PenEvent {
    /// The pointer is down (pressed, or moving while pressed).
    Down { element: Element },
    /// The pointer was lifted.
    Up { element: Element },
    /// The pointer hovers near the surface.
    Proximity { element: Element },
    /// A key was pressed while the pen was focused.
    KeyPressed,
    /// Text was committed while the pen was focused.
    Text,
    /// The gesture was aborted by the event source.
    Cancel,
}

impl PenEvent {
    /// Any element carried by the event is within the input coordinate range.
    pub open spec fn wf(self) -> bool {
        match self {
            PenEvent::Down { element } => element.wf(),
            PenEvent::Up { element } => element.wf(),
            PenEvent::Proximity { element } => element.wf(),
            _ => true,
        }
    }
}

/// Whether the event source should keep delivering the event to other
/// listeners after this handler saw it.
#[derive(Clone, Copy, Debug, PartialEq, Eq, Structural)]
pub enum EventPropagation {
    /// Hand the event on.
    Proceed,
    /// Swallow the event.
    Stop,
}

/// How far the pen has progressed through a gesture.
#[derive(Clone, Copy, Debug, PartialEq, Eq, Structural)]
pub enum PenProgress {
    /// No gesture in progress.
    Idle,
    /// A gesture is in progress.
    InProgress,
    /// A gesture just finished.
    Finished,
}

/// What an event handler reports back to the event source.
#[derive(Clone, Copy, Debug, PartialEq, Eq, Structural)]
pub struct EventResult {
    /// The event was acted on.
    pub handled: bool,
    /// Whether the event should propagate further.
    pub propagate: EventPropagation,
    /// The gesture progress after the event.
    pub progress: PenProgress,
}

} // verus!
