//! Shared vocabulary of the widget tree: orientations, layout arguments,
//! fill policies, the identifiers that name widgets and layouts, and the
//! tree of child slots itself.

use vstd::prelude::*;
use crate::border_layout::BorderLayout;
use crate::row_layout::RowLayout;
use crate::scroll_layout::ScrollLayout;
use crate::tab_layout::TabLayout;
use crate::window_base::WindowBase;

verus! {

/// Stacking axis of a row layout or a scroll bar.
#[derive(Clone, Copy, Debug, PartialEq, Eq, Structural)]
pub enum Orientation {
    Horizontal,
    Vertical,
}

/// Indicates a child's location within a BorderLayout.
#[derive(Clone, Copy, Debug, PartialEq, Eq, Structural)]
pub enum BorderLocation {
    TOP,
    BOTTOM,
    LEFT,
    RIGHT,
    CENTER,
}

/// Alignment of a window within a layout.
#[derive(Clone, Copy, Debug, PartialEq, Eq, Structural)]
pub enum Alignment {
    BOTTOM,
    CENTER,
    LEFT,
    RIGHT,
    TOP,
}

/// Specifies how children fill a layout's slack space (not used by all
/// layouts). Exactly one policy is active at a time; setting a new one fully
/// replaces the previous one.
#[derive(Clone, Copy, Debug, PartialEq, Eq, Structural)]
pub enum LayoutFill {
    /// All extra space is given to the child with the given id.
    Single(WidgetId),
    /// Extra space is evenly distributed among all of the children.
    Evenly,
    /// Extra space is left unused (the default).
    Unused,
}

/// Argument passed to a layout when a child is added to that layout.
#[derive(Clone, Copy, Debug, PartialEq, Eq, Structural)]
pub enum LayoutArgs {
    BORDER(BorderLocation),
    XY(i64, i64),
    NONE,
}

/// Type of layout, for searches over the tree.
#[derive(Clone, Copy, Debug, PartialEq, Eq, Structural)]
pub enum LayoutType {
    BorderLayout,
    RowLayout,
    ScrollLayout,
    TabLayout,
    XYLayout,
    Unknown,
}

/// Unique identity of a widget or layout in a tree.
///
/// The 128 bits are drawn from a freshly generated UUID; the core only ever
/// compares them for equality.
#[derive(Clone, Copy, Debug, PartialEq, Eq, Structural)]
pub struct WidgetId {
    pub bits: u128,
}

/// Relies on `uuid::Uuid::new_v4`: a freshly generated random (version 4)
/// UUID, returned as its 128 raw bits. The version field of a v4 UUID is
/// never zero, so the bits are never all zero.
#[verifier::external_body]
pub fn fresh_id_bits() -> (r: u128)
    ensures
        r != 0,
{
    uuid::Uuid::new_v4().as_u128()
}

impl WidgetId {
    /// Draws a fresh, never-zero identity.
    pub fn fresh() -> (r: WidgetId)
        ensures
            r.bits != 0,
    {
        WidgetId { bits: fresh_id_bits() }
    }
}

/// A solid color, as straight (non-premultiplied) 8-bit RGBA.
#[derive(Clone, Copy, Debug, PartialEq, Eq, Structural)]
pub struct Rgba {
    pub r: u8,
    pub g: u8,
    pub b: u8,
    pub a: u8,
}

impl Rgba {
    pub fn white() -> (c: Rgba)
        ensures
            c == (Rgba { r: 255, g: 255, b: 255, a: 255 }),
    {
        Rgba { r: 255, g: 255, b: 255, a: 255 }
    }

    pub fn black() -> (c: Rgba)
        ensures
            c == (Rgba { r: 0, g: 0, b: 0, a: 255 }),
    {
        Rgba { r: 0, g: 0, b: 0, a: 255 }
    }
}

/// A mouse button, as the window controller receives it from the platform.
#[derive(Clone, Copy, Debug, PartialEq, Eq, Structural)]
pub enum MouseButton {
    Left,
    Right,
    Middle,
    Back,
    Forward,
    Other(u16),
}

/// A keyboard event, reduced to the plain values the core routes on: a key
/// code and whether it is a press or a release.
#[derive(Clone, Debug, PartialEq, Eq, Structural)]
pub struct KeyEventData {
    pub key_code: u32,
    pub pressed: bool,
}

/// A mouse wheel step: line counts along each axis. A vertical step of `-1`
/// scrolls one line down.
#[derive(Clone, Copy, Debug, PartialEq, Eq, Structural)]
pub struct WheelDelta {
    pub lines_x: i64,
    pub lines_y: i64,
}

/// An entry of a widget's context menu: a label and the command the
/// application dispatches when the entry is chosen.
#[derive(Debug)]
pub struct ContextMenuItem {
    pub label: String,
    pub command: u64,
}

impl Clone for ContextMenuItem {
    fn clone(&self) -> (r: Self)
        ensures
            r == *self,
    {
        ContextMenuItem { label: self.label.clone(), command: self.command }
    }
}

/// A child slot of a layout: either a leaf widget or a nested layout.
///
/// Children are owned exclusively by exactly one container at a time; every
/// back-reference in the tree is a plain identifier, never an ownership edge.
#[derive(Debug)]
pub enum ChildType {
    Window(WindowBase),
    Layout(Box<LayoutNode>),
}

/// A concrete layout, as a closed set of variants.
#[derive(Debug)]
pub enum LayoutNode {
    Row(RowLayout),
    Border(BorderLayout),
    Scroll(ScrollLayout),
    Tab(TabLayout),
}

impl ChildType {
    /// The identity of the child: its widget's or its layout's id.
    pub open spec fn spec_id(&self) -> WidgetId
        decreases self,
    {
        match self {
            ChildType::Window(w) => w.uuid,
            ChildType::Layout(l) => l.spec_id(),
        }
    }

    /// The child's location within the main window.
    pub open spec fn spec_loc(&self) -> (i64, i64)
        decreases self,
    {
        match self {
            ChildType::Window(w) => (w.main_win_x, w.main_win_y),
            ChildType::Layout(l) => l.spec_loc(),
        }
    }

    pub open spec fn wf(&self) -> bool
        decreases self,
    {
        match self {
            ChildType::Window(w) => w.wf(),
            ChildType::Layout(l) => l.wf(),
        }
    }

    /// The identity of the child.
    pub fn id(&self) -> (r: WidgetId)
        ensures
            r == self.spec_id(),
    {
        match self {
            ChildType::Window(w) => w.uuid,
            ChildType::Layout(l) => l.id(),
        }
    }
}

impl LayoutNode {
    pub open spec fn spec_id(&self) -> WidgetId {
        self.base().uuid
    }

    pub open spec fn spec_loc(&self) -> (i64, i64) {
        (self.base().main_win_x, self.base().main_win_y)
    }

    /// The layout base any concrete layout carries.
    pub open spec fn base(&self) -> crate::layout_base::LayoutBase {
        match self {
            LayoutNode::Row(l) => l.layout_base,
            LayoutNode::Border(l) => l.layout_base,
            LayoutNode::Scroll(l) => l.layout_base,
            LayoutNode::Tab(l) => l.layout_base,
        }
    }

    pub open spec fn wf(&self) -> bool
        decreases self,
    {
        match self {
            LayoutNode::Row(l) => l.wf(),
            LayoutNode::Border(l) => l.wf(),
            LayoutNode::Scroll(l) => l.wf(),
            LayoutNode::Tab(l) => l.wf(),
        }
    }

    /// The type of the layout.
    pub open spec fn spec_layout_type(&self) -> LayoutType {
        match self {
            LayoutNode::Row(_) => LayoutType::RowLayout,
            LayoutNode::Border(_) => LayoutType::BorderLayout,
            LayoutNode::Scroll(_) => LayoutType::ScrollLayout,
            LayoutNode::Tab(_) => LayoutType::TabLayout,
        }
    }

    pub fn id(&self) -> (r: WidgetId)
        ensures
            r == self.spec_id(),
    {
        match self {
            LayoutNode::Row(l) => l.layout_base.uuid,
            LayoutNode::Border(l) => l.layout_base.uuid,
            LayoutNode::Scroll(l) => l.layout_base.uuid,
            LayoutNode::Tab(l) => l.layout_base.uuid,
        }
    }

    /// The type of the layout.
    pub fn get_type(&self) -> (r: LayoutType)
        ensures
            r == self.spec_layout_type(),
    {
        match self {
            LayoutNode::Row(_) => LayoutType::RowLayout,
            LayoutNode::Border(_) => LayoutType::BorderLayout,
            LayoutNode::Scroll(_) => LayoutType::ScrollLayout,
            LayoutNode::Tab(_) => LayoutType::TabLayout,
        }
    }
}

/// Application-level events carried by the event bus.
///
/// Every event names the top-level window it belongs to (the first
/// `WidgetId`); OS-level sub-windows are named by a plain `u64` key. Events
/// are immutable once constructed and are consumed in FIFO order per
/// top-level window. The following events have default processing if the
/// application sets no handler: `CreateWindow`, `Redraw`, `RedrawAll`.
#[derive(Clone, Debug)]
pub enum UserEvent {
    /// The caret of the editor `1` moved to line `2`, character `3`.
    CaretMoved(WidgetId, usize, usize),
    /// The pop-up with OS window key `1` is being closed.
    ClosePopUp(WidgetId, u64),
    /// The tab `3` of the tab layout `2` asks to be closed.
    CloseTab(WidgetId, WidgetId, WidgetId),
    /// Create a decorated window `1` at `(2, 3)` with size `(4, 5)`;
    /// the flag says whether the window is modal.
    CreateWindow(WidgetId, WidgetId, i64, i64, i64, i64, bool),
    /// Delete the selected items within the window `2`.
    DeleteItems(WidgetId, WidgetId),
    /// Hide the context menu.
    HideContextMenu(WidgetId),
    /// The selected items within the window `2` should be processed.
    ProcessSelectedItems(WidgetId, WidgetId),
    /// Draw the given layer over the main window with its upper-left corner
    /// at `(1, 2)`.
    Redraw(WidgetId, i64, i64, tiny_skia::Pixmap),
    /// Redraw the entire main window's contents.
    RedrawAll(WidgetId),
    /// The value of the scroll bar `1` changed to `3`.
    ScrollValueChanged(WidgetId, WidgetId, Orientation, i64),
    /// The selection within the window `2` changed.
    SelectionChanged(WidgetId, WidgetId),
    /// Set the data list of the window `2`.
    SetList(WidgetId, WidgetId, Vec<String>),
    /// Display the context menu for the window `2` at `(3, 4)`.
    ShowContextMenu(WidgetId, WidgetId, i64, i64),
    /// Display a tooltip for the window `2` with the given text.
    ShowToolTip(WidgetId, WidgetId, String),
    /// A slider's value changed, in thousandths.
    SliderValueChange(i64),
    /// The user clicked the title of tab `3` within the tab layout `2`.
    TabSelected(WidgetId, WidgetId, WidgetId),
    /// The scroll layout `2` should refresh its bars from its child.
    UpdateScroller(WidgetId, WidgetId),
    /// An application-defined message with its own number and data.
    UserDefined(WidgetId, u64, Vec<String>),
}

} // verus!
