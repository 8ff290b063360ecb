//! The mutable engine view handed to the tools for the duration of one event:
//! the document, the stroke store, the camera, the animation scheduler, and
//! the pen configuration.

use crate::camera::Camera;
use crate::config::PensConfig;
use crate::document::Document;
use crate::store::StrokeStore;
use vstd::prelude::*;

verus! {

/// The animation scheduler: frames are claimed one at a time; claiming is
/// idempotent and coalesced by the event loop.
#[derive(Clone, Copy, Debug, PartialEq, Eq, Structural)]
pub struct Animation {
    /// A redraw frame was claimed and not yet delivered.
    pub frame_requested: bool,
}

impl Animation {
    /// Claim one more animation frame.
    pub fn claim_frame(&mut self)
        ensures
            final(self).frame_requested,
    {
        self.frame_requested = true;
    }
}

/// Everything the engine lends to a pen while one event is handled. The pen
/// holds the view only for the duration of the call.
#[derive(Clone, Debug)]
pub struct EngineView {
    pub document: Document,
    pub store: StrokeStore,
    pub camera: Camera,
    pub animation: Animation,
    pub pens_config: PensConfig,
}

impl EngineView {
    /// All collaborators are well-formed.
    pub open spec fn wf(self) -> bool {
        self.document.wf() && self.store.wf() && self.camera.wf() && self.store.laser_store.wf()
    }
}

} // verus!
