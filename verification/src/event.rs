//! Events delivered to a view tree, and what handling one reports back.
use vstd::prelude::*;

use crate::focus::FocusAction;
use crate::render::ContentShape;

verus! {

/// An event delivered to a view tree.
#[derive(Clone, Copy, Debug, PartialEq, Eq, Structural)]
pub enum Event {
    /// A focus navigation request.
    Focus(FocusAction),
    /// Any other input (a touch, a key), identified by an application code.
    Other(u32),
}

impl From<FocusAction> for Event {
    fn from(action: FocusAction) -> (r: Self) {
        Event::Focus(action)
    }
}

impl vstd::std_specs::convert::FromSpecImpl<FocusAction> for Event {
    open spec fn obeys_from_spec() -> bool {
        true
    }

    open spec fn from_spec(action: FocusAction) -> Self {
        Event::Focus(action)
    }
}

/// What a view reports after handling an event.
#[derive(Clone, Copy, Debug, PartialEq, Eq, Structural)]
pub enum EventResult {
    /// The view did not handle the event; it passes on to the next view.
    Deferred,
    /// The view handled the event.
    Handled,
    /// The view handled the event and holds the focus, on content of this shape.
    HandledFocused(ContentShape),
}

impl EventResult {
    /// The result of a view that handled the event and holds the focus on
    /// content of `shape`.
    #[must_use]
    pub fn handled_focused(shape: ContentShape) -> (r: Self)
        ensures
            r == EventResult::HandledFocused(shape),
    {
        EventResult::HandledFocused(shape)
    }

    /// Whether the view that handled the event holds the focus.
    #[must_use]
    pub fn has_focus(&self) -> (r: bool)
        ensures
            r == (*self is HandledFocused),
    {
        match self {
            EventResult::HandledFocused(_) => true,
            _ => false,
        }
    }

    /// The shape of the focused content, if the view holds the focus.
    #[must_use]
    pub fn shape(&self) -> (r: Option<ContentShape>)
        ensures
            r == match *self {
                EventResult::HandledFocused(shape) => Some(shape),
                _ => None,
            },
    {
        match self {
            EventResult::HandledFocused(shape) => Some(*shape),
            _ => None,
        }
    }

    /// Whether the event was passed on.
    #[must_use]
    pub fn is_deferred(&self) -> (r: bool)
        ensures
            r == (*self == EventResult::Deferred),
    {
        match self {
            EventResult::Deferred => true,
            _ => false,
        }
    }
}

/// Information shared with every view while an event is handled.
#[derive(Clone, Copy, Debug, PartialEq, Eq, Structural)]
pub struct EventContext {
    /// Set by a view that needs the tree rebuilt after the event.
    pub view_rebuild_requested: bool,
}

impl EventContext {
    /// A context in which no rebuild has been requested.
    #[must_use]
    pub fn new() -> (r: Self)
        ensures
            !r.view_rebuild_requested,
    {
        EventContext { view_rebuild_requested: false }
    }

    /// Asks for the view tree to be rebuilt once the event has been handled.
    pub fn request_view_rebuild(&mut self)
        ensures
            final(self).view_rebuild_requested,
    {
        self.view_rebuild_requested = true;
    }
}

} // verus!
