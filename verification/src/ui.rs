use vstd::prelude::*;

use crate::{SceneItemId, WindowPoint};
use std::time::Duration;

verus! {

/// A user-interface component that can take the focus.
pub enum UiComponent {
    SceneItemMenu,
}

/// A raw user input event, produced by the windowing layer.
#[derive(Clone, Debug, PartialEq)]
pub enum UserEvent {
    CursorMove(WindowPoint),
    Click(WindowPoint),
    RightClick(WindowPoint),
    AreaSelection(WindowPoint, WindowPoint),
    DrawMovePaths,
    BeginDragOrderMarker(SceneItemId),
    MoveDrag,
    ReleaseDrag,
}

/// What the cursor is currently dragging.
pub enum Dragging {
    OrderMarker(SceneItemId),
}

/// An event fired when the cursor has stayed immobile for a duration.
#[derive(Debug, PartialEq)]
pub struct CursorImmobile(pub Duration, pub UserEvent);

/// An order being prepared through the user interface for a scene item.
#[derive(Debug)]
pub enum SceneItemPrepareOrder {
    Move(SceneItemId),
    MoveFast(SceneItemId),
    Hide(SceneItemId),
}

/// An entry of the per-unit order menu.
#[derive(Clone)]
pub enum MenuItem {
    Move,
    MoveFast,
    Hide,
}

} // verus!
