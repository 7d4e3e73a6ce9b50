use crate::folder::FolderView;
use vstd::prelude::*;

verus! {

/// A key of the keyboard, as far as the viewer tells keys apart.
#[derive(Debug, PartialEq, Eq, Structural, Clone, Copy)]
pub enum Key {
    Q,
    Left,
    Right,
    Other,
}

/// An input event of the window.
#[derive(Debug, PartialEq, Eq, Structural, Clone, Copy)]
pub enum InputEvent {
    /// The window was asked to close.
    Quit,
    /// A key was pressed.
    KeyDown(Key),
    /// Anything else.
    Other,
}

/// What the viewer does on an input event.
#[derive(Debug, PartialEq, Eq, Structural, Clone, Copy)]
pub enum Command {
    Quit,
    ShowNext,
    ShowPrev,
    Nothing,
}

/// The command for an event: Q or closing the window quits, the left arrow
/// shows the next image, the right arrow the previous one.
pub open spec fn command_of(event: InputEvent) -> Command {
    match event {
        InputEvent::Quit => Command::Quit,
        InputEvent::KeyDown(Key::Q) => Command::Quit,
        InputEvent::KeyDown(Key::Left) => Command::ShowNext,
        InputEvent::KeyDown(Key::Right) => Command::ShowPrev,
        _ => Command::Nothing,
    }
}

/// Maps an input event to the viewer's command.
pub fn command_for(event: InputEvent) -> (r: Command)
    ensures
        r == command_of(event),
{
    match event {
        InputEvent::Quit => Command::Quit,
        InputEvent::KeyDown(Key::Q) => Command::Quit,
        InputEvent::KeyDown(Key::Left) => Command::ShowNext,
        InputEvent::KeyDown(Key::Right) => Command::ShowPrev,
        _ => Command::Nothing,
    }
}

/// What the event loop does after an event was handled.
#[derive(Debug, PartialEq, Eq, Structural, Clone, Copy)]
pub enum Reaction {
    /// Leave the loop.
    Quit,
    /// Show the view's current image, which has changed.
    Show,
    /// Wait for the next event.
    Wait,
}

/// Handles one input event: moves the view's cursor as the event's command
/// says and tells the event loop what to do next.
pub fn handle_event(view: &mut FolderView, event: InputEvent) -> (r: Reaction)
    requires
        old(view).wf(),
    ensures
        final(view).wf(),
        final(view).entries() == old(view).entries(),
        command_of(event) == Command::ShowNext ==> r == Reaction::Show && final(view).position()
            == (old(view).position() + 1) % old(view).entries().len() as int,
        command_of(event) == Command::ShowPrev ==> r == Reaction::Show && final(view).position()
            == (old(view).position() + old(view).entries().len() - 1) % old(
            view,
        ).entries().len() as int,
        command_of(event) == Command::Quit ==> r == Reaction::Quit && final(view).position()
            == old(view).position(),
        command_of(event) == Command::Nothing ==> r == Reaction::Wait && final(view).position()
            == old(view).position(),
{
    match command_for(event) {
        Command::Quit => Reaction::Quit,
        Command::ShowNext => {
            view.next();
            Reaction::Show
        },
        Command::ShowPrev => {
            view.prev();
            Reaction::Show
        },
        Command::Nothing => Reaction::Wait,
    }
}

} // verus!
