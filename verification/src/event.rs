//! What one poll cycle reports to its consumer.

use objc2_core_foundation::CGRect;
use vstd::prelude::*;

verus! {

/// The result of one poll cycle.
#[derive(Clone, Debug, PartialEq)]
pub enum Event {
    /// The focused element's selection: its text, empty where none could be
    /// had, and where it could be had the rectangle that bounds it on screen.
    Selection { text: String, bounds: Option<CGRect> },
    /// No focused element could be found; there is no text and no rectangle.
    NoFocusedElement,
}

/// An event with its text as a sequence of characters.
pub enum EventView {
    Selection { text: Seq<char>, bounds: Option<CGRect> },
    NoFocusedElement,
}

impl View for Event {
    type V = EventView;

    open spec fn view(&self) -> EventView {
        match *self {
            Event::Selection { text, bounds } => EventView::Selection { text: text@, bounds },
            Event::NoFocusedElement => EventView::NoFocusedElement,
        }
    }
}

} // verus!
