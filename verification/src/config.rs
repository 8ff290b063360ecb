//! The externally owned pen configuration, re-read on every event: which tool
//! style is active, the vertical-space clamp flags, and the configured path
//! builder kind.

use crate::penpath::PenPathBuilderType;
use vstd::prelude::*;

verus! {

/// Which tool the tool pen acts as. The style is not part of the state
/// machine's own state: it is re-read from this configuration on every event.
#[derive(Clone, Copy, Debug, PartialEq, Eq, Structural)]
pub enum ToolStyle {
    /// Insert or remove vertical space by pushing content down or up.
    VerticalSpace,
    /// Pan the camera by dragging.
    OffsetCamera,
    /// Zoom by dragging vertically.
    Zoom,
    /// Draw ephemeral fading strokes.
    Laser,
}

impl Default for ToolStyle {
    /// The default tool style.
    fn default() -> (r: ToolStyle)
        ensures
            r == ToolStyle::VerticalSpace,
    {
        ToolStyle::VerticalSpace
    }
}

/// Configuration of the vertical-space tool: whether content movement is
/// limited at the page borders.
#[derive(Clone, Copy, Debug, PartialEq, Eq, Structural)]
pub struct VerticalSpaceToolConfig {
    /// Limit the captured content at the horizontal page borders (the next
    /// page boundary below).
    pub limit_movement_horizontal_borders: bool,
    /// Limit the captured content at the vertical page borders (the x-range
    /// of the current page).
    pub limit_movement_vertical_borders: bool,
}

/// Configuration of the tool pen.
#[derive(Clone, Copy, Debug, PartialEq, Eq, Structural)]
pub struct ToolsConfig {
    /// The active tool style.
    pub style: ToolStyle,
    /// The vertical-space tool configuration.
    pub verticalspace_tool_config: VerticalSpaceToolConfig,
}

/// Configuration of the brush, as far as the tools consume it: the path
/// builder kind the laser tool constructs on gesture start.
#[derive(Clone, Copy, Debug, PartialEq, Eq, Structural)]
pub struct BrushConfig {
    /// The configured path builder kind.
    pub builder_type: PenPathBuilderType,
}

/// All pen configuration the tools read.
#[derive(Clone, Copy, Debug, PartialEq, Eq, Structural)]
pub struct PensConfig {
    pub tools_config: ToolsConfig,
    pub brush_config: BrushConfig,
}

} // verus!
