//! Views: the nodes of a UI tree, and how they keep state, render and handle
//! events.
pub mod modifier;
pub mod paginate;
pub mod rotary;

pub use paginate::Paginate;
pub use rotary::Rotary;

use vstd::prelude::*;

use crate::event::{Event, EventContext, EventResult};
use crate::focus::DefaultFocus;
use crate::layout::{LayoutEnvironment, ProposedDimensions, ResolvedLayout};
use crate::primitives::Point;

verus! {

/// A node of the view tree, driven with application captures of type `C`.
pub trait ViewLayout<C> {
    /// State kept for the view between rebuilds.
    type State;

    /// The view's position in focus navigation.
    type FocusTree: DefaultFocus;

    /// What the view renders to.
    type Renderables;

    /// The layouts of the view's parts.
    type Sublayout;

    /// How the view comes and goes.
    type Transition;

    /// The view can be driven: every closure it holds accepts every
    /// argument, and every view those closures produce can be driven too.
    /// A view that holds no closure can always be driven.
    open spec fn well_formed(&self) -> bool {
        true
    }

    /// How the view comes and goes.
    fn transition(&self) -> Self::Transition;

    /// How eagerly the view takes space from its siblings.
    fn priority(&self) -> (r: i8)
        default_ensures
            r == 0,
    {
        0
    }

    /// Whether the view shows nothing.
    fn is_empty(&self) -> (r: bool)
        default_ensures
            !r,
    {
        false
    }

    /// The view's initial state.
    fn build_state(&self, captures: &mut C) -> Self::State
        requires
            self.well_formed(),
    ;

    /// Lays the view out in the space `offer`.
    fn layout(
        &self,
        offer: &ProposedDimensions,
        env: &LayoutEnvironment,
        captures: &mut C,
        state: &mut Self::State,
    ) -> ResolvedLayout<Self::Sublayout>
        requires
            self.well_formed(),
    ;

    /// Renders the view from its layout and state, at `origin`.
    fn render_tree(
        &self,
        layout: &Self::Sublayout,
        origin: Point,
        env: &LayoutEnvironment,
        captures: &mut C,
        state: &mut Self::State,
    ) -> Self::Renderables
        requires
            self.well_formed(),
    ;

    /// Handles an event, updating the view's state, render tree and focus.
    fn handle_event(
        &self,
        event: &Event,
        context: &mut EventContext,
        render_tree: &mut Self::Renderables,
        captures: &mut C,
        state: &mut Self::State,
        focus: &mut Self::FocusTree,
    ) -> EventResult
        requires
            self.well_formed(),
    ;
}

} // verus!
