//! Mouse event mapping: select, pan (drag), zoom (scroll).

use vstd::prelude::*;

verus! {

/// A mouse button.
#[derive(Debug, Clone, Copy, PartialEq, Eq, Structural)]
pub enum MouseButtonInput {
    Left,
    Right,
    Middle,
}

/// What the mouse did.
#[derive(Debug, Clone, Copy, PartialEq, Eq, Structural)]
pub enum MouseKind {
    Down(MouseButtonInput),
    Up(MouseButtonInput),
    Drag(MouseButtonInput),
    Moved,
    ScrollDown,
    ScrollUp,
    ScrollLeft,
    ScrollRight,
}

/// A mouse event at a terminal cell.
#[derive(Debug, Clone, Copy, PartialEq, Eq, Structural)]
pub struct MouseInput {
    pub kind: MouseKind,
    pub column: u16,
    pub row: u16,
}

/// Mouse-derived commands.
#[derive(Debug, Clone, Copy, PartialEq, Eq, Structural)]
pub enum MouseCommand {
    SelectAt { col: u16, row: u16 },
    DragTo { col: u16, row: u16 },
    DragEnd,
    ZoomAt { col: u16, row: u16, zoom_in: bool },
}

/// The command a mouse event gives: the left button selects, drags and ends a
/// drag; the wheel zooms at the pointer; anything else gives none.
pub open spec fn mouse_command(event: MouseInput) -> Option<MouseCommand> {
    match event.kind {
        MouseKind::Down(MouseButtonInput::Left) => Some(
            MouseCommand::SelectAt { col: event.column, row: event.row },
        ),
        MouseKind::Drag(MouseButtonInput::Left) => Some(
            MouseCommand::DragTo { col: event.column, row: event.row },
        ),
        MouseKind::Up(MouseButtonInput::Left) => Some(MouseCommand::DragEnd),
        MouseKind::ScrollUp => Some(
            MouseCommand::ZoomAt { col: event.column, row: event.row, zoom_in: true },
        ),
        MouseKind::ScrollDown => Some(
            MouseCommand::ZoomAt { col: event.column, row: event.row, zoom_in: false },
        ),
        _ => None,
    }
}

/// Maps a mouse event to a command.
pub fn map_mouse(event: MouseInput) -> (cmd: Option<MouseCommand>)
    ensures
        cmd == mouse_command(event),
{
    match event.kind {
        MouseKind::Down(MouseButtonInput::Left) => Some(
            MouseCommand::SelectAt { col: event.column, row: event.row },
        ),
        MouseKind::Drag(MouseButtonInput::Left) => Some(
            MouseCommand::DragTo { col: event.column, row: event.row },
        ),
        MouseKind::Up(MouseButtonInput::Left) => Some(MouseCommand::DragEnd),
        MouseKind::ScrollUp => Some(
            MouseCommand::ZoomAt { col: event.column, row: event.row, zoom_in: true },
        ),
        MouseKind::ScrollDown => Some(
            MouseCommand::ZoomAt { col: event.column, row: event.row, zoom_in: false },
        ),
        _ => None,
    }
}

/// Scrolling up zooms in and scrolling down zooms out, at the pointer; a left
/// press selects, a left drag pans and a left release ends the drag, all at
/// the event's cell; every other event is ignored.
pub proof fn lemma_mouse_bindings(e: MouseInput)
    ensures
        mouse_command(e) matches Some(MouseCommand::ZoomAt { col, row, zoom_in }) ==> col == e.column && row == e.row
            && (zoom_in <==> e.kind == MouseKind::ScrollUp) && (e.kind == MouseKind::ScrollUp || e.kind
            == MouseKind::ScrollDown),
        e.kind == MouseKind::ScrollUp ==> mouse_command(e) == Some(
            MouseCommand::ZoomAt { col: e.column, row: e.row, zoom_in: true },
        ),
        e.kind == MouseKind::ScrollDown ==> mouse_command(e) == Some(
            MouseCommand::ZoomAt { col: e.column, row: e.row, zoom_in: false },
        ),
        mouse_command(e) == Some(MouseCommand::SelectAt { col: e.column, row: e.row }) <==> e.kind == MouseKind::Down(
            MouseButtonInput::Left,
        ),
        mouse_command(e) == Some(MouseCommand::DragTo { col: e.column, row: e.row }) <==> e.kind == MouseKind::Drag(
            MouseButtonInput::Left,
        ),
        mouse_command(e) == Some(MouseCommand::DragEnd) <==> e.kind == MouseKind::Up(MouseButtonInput::Left),
        mouse_command(e) is None <==> !(e.kind == MouseKind::Down(MouseButtonInput::Left) || e.kind == MouseKind::Drag(
            MouseButtonInput::Left,
        ) || e.kind == MouseKind::Up(MouseButtonInput::Left) || e.kind == MouseKind::ScrollUp || e.kind
            == MouseKind::ScrollDown),
{
}

} // verus!
