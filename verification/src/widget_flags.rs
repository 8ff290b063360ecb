//! Aggregated side-effect requests handed back to the caller of an event
//! handler, so the surrounding widget can redraw, resize, or persist as
//! needed without the tool core calling into the user interface itself.

use vstd::prelude::*;

verus! {

/// Boolean side-effect requests accumulated while one event is handled.
#[derive(Clone, Copy, Debug, PartialEq, Eq, Structural)]
pub struct WidgetFlags {
    /// The canvas should be redrawn.
    pub redraw: bool,
    /// The document or canvas size changed.
    pub resize: bool,
    /// The stroke store content changed (unsaved changes exist).
    pub store_modified: bool,
    /// Surrounding widgets should refresh their state (undo stack, titles).
    pub refresh_ui: bool,
    /// The view transform changed (scroll position, adjustments).
    pub update_view: bool,
    /// The camera zoom level changed.
    pub zoomed: bool,
}

impl WidgetFlags {
    /// The flag set with nothing requested.
    pub open spec fn empty_spec() -> WidgetFlags {
        WidgetFlags {
            redraw: false,
            resize: false,
            store_modified: false,
            refresh_ui: false,
            update_view: false,
            zoomed: false,
        }
    }

    /// The union of two flag sets.
    pub open spec fn merged_spec(self, other: WidgetFlags) -> WidgetFlags {
        WidgetFlags {
            redraw: self.redraw || other.redraw,
            resize: self.resize || other.resize,
            store_modified: self.store_modified || other.store_modified,
            refresh_ui: self.refresh_ui || other.refresh_ui,
            update_view: self.update_view || other.update_view,
            zoomed: self.zoomed || other.zoomed,
        }
    }

    /// A flag set with nothing requested.
    pub fn empty() -> (r: WidgetFlags)
        ensures
            r == WidgetFlags::empty_spec(),
    {
        WidgetFlags {
            redraw: false,
            resize: false,
            store_modified: false,
            refresh_ui: false,
            update_view: false,
            zoomed: false,
        }
    }

    /// Fold the requests of `other` into `self`.
    pub fn merge(&mut self, other: WidgetFlags)
        ensures
            *final(self) == old(self).merged_spec(other),
    {
        self.redraw = self.redraw || other.redraw;
        self.resize = self.resize || other.resize;
        self.store_modified = self.store_modified || other.store_modified;
        self.refresh_ui = self.refresh_ui || other.refresh_ui;
        self.update_view = self.update_view || other.update_view;
        self.zoomed = self.zoomed || other.zoomed;
    }
}

impl Default for WidgetFlags {
    /// The flag set with nothing requested.
    fn default() -> (r: WidgetFlags)
        ensures
            r == WidgetFlags::empty_spec(),
    {
        WidgetFlags::empty()
    }
}

} // verus!
