//! What a host asks of every widget.

use vstd::prelude::*;

verus! {

/// A widget in a model, view, update cycle: it is drawn as text, and it
/// takes the host's events one at a time.
///
/// `Message` is the host's type of events and `Command` its type of work to
/// be done after an event. A widget that gives a meaning to neither is a
/// `Model` for all of them.
pub trait Model<Message, Command>: Sized {
    /// The text to draw. Drawing changes nothing, and a widget that has not
    /// changed is drawn the same again.
    fn view(&self) -> String;

    /// Takes one event and gives the widget as it is after the event, with
    /// the command that the host is to run next, if there is one.
    fn update(self, message: Message) -> (Self, Option<Command>);
}

} // verus!
