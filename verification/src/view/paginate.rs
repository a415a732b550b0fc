//! A view holding a page of content, with a page action for paging.
use vstd::prelude::*;

use crate::event::{Event, EventContext, EventResult};
use crate::focus::DefaultFocus;
use crate::layout::{LayoutEnvironment, ProposedDimensions, ResolvedLayout};
use crate::primitives::Point;

use super::ViewLayout;

verus! {

/// Wraps a page of content; events pass through to the content.
#[derive(Clone, Debug)]
pub struct Paginate<V, Action> {
    view: V,
    action: Action,
}

/// What a paginated view reports to its action.
#[derive(Clone, Copy, Debug, PartialEq, Eq, Structural)]
pub enum PageEvent {
    Focused,
    Next,
    Previous,
    Exit,
}

/// The state of a paginated view.
#[derive(Clone, Copy, Debug, PartialEq, Eq, Structural)]
pub enum PageState {
    UnFocused,
    Focused,
    Captive,
}

impl<V, Action> Paginate<V, Action> {
    /// The wrapped content.
    pub closed spec fn content(&self) -> V {
        self.view
    }

    /// The page action.
    pub closed spec fn action(&self) -> Action {
        self.action
    }

    /// Wraps `view`, with `action` as its page action.
    pub fn new<C>(action: Action, view: V) -> (r: Self)
        where
            V: ViewLayout<C>,
            Action: Fn(&mut C, &PageEvent),
        ensures
            r.action() == action,
            r.content() == view,
    {
        Self { view, action }
    }
}

/// A paginated view's focus: captive or not, and the content's focus.
#[derive(Debug, Clone)]
pub struct PaginateFocusTree<T> {
    is_captive: bool,
    inner: T,
}

impl<T> PaginateFocusTree<T> {
    /// Whether navigation is held captive.
    pub closed spec fn captive(&self) -> bool {
        self.is_captive
    }

    /// The content's focus.
    pub closed spec fn inner(&self) -> T {
        self.inner
    }
}

impl<T: DefaultFocus> DefaultFocus for PaginateFocusTree<T> {
    /// Captive, with the content focused at its first element.
    fn default_first() -> (r: Self)
        ensures
            r.captive(),
            call_ensures(T::default_first, (), r.inner()),
    {
        Self { is_captive: true, inner: T::default_first() }
    }

    /// Captive, with the content focused at its last element.
    fn default_last() -> (r: Self)
        ensures
            r.captive(),
            call_ensures(T::default_last, (), r.inner()),
    {
        Self { is_captive: true, inner: T::default_last() }
    }
}

impl<C, V, Action> ViewLayout<C> for Paginate<V, Action> where
    V: ViewLayout<C>,
 {
    type State = V::State;

    type FocusTree = PaginateFocusTree<V::FocusTree>;

    type Renderables = V::Renderables;

    type Sublayout = V::Sublayout;

    type Transition = V::Transition;

    /// The content can be driven.
    open spec fn well_formed(&self) -> bool {
        self.content().well_formed()
    }

    /// The content's state.
    fn build_state(&self, captures: &mut C) -> (r: Self::State)
        ensures
            exists|c: &mut C|
                *c == *old(captures) && *final(c) == *final(captures) && #[trigger] call_ensures(
                    V::build_state,
                    (&self.content(), c),
                    r,
                ),
    {
        self.view.build_state(captures)
    }

    /// The content's transition.
    fn transition(&self) -> (r: Self::Transition)
        ensures
            call_ensures(V::transition, (&self.content(),), r),
    {
        self.view.transition()
    }

    /// The content's layout.
    fn layout(
        &self,
        offer: &ProposedDimensions,
        env: &LayoutEnvironment,
        captures: &mut C,
        state: &mut Self::State,
    ) -> (r: ResolvedLayout<Self::Sublayout>)
        ensures
            exists|c: &mut C, st: &mut V::State|
                {
                    &&& *c == *old(captures)
                    &&& *final(c) == *final(captures)
                    &&& *st == *old(state)
                    &&& *final(st) == *final(state)
                    &&& #[trigger] call_ensures(V::layout, (&self.content(), offer, env, c, st), r)
                },
    {
        self.view.layout(offer, env, captures, state)
    }

    /// The content's render tree.
    fn render_tree(
        &self,
        layout: &Self::Sublayout,
        origin: Point,
        env: &LayoutEnvironment,
        captures: &mut C,
        state: &mut Self::State,
    ) -> (r: Self::Renderables)
        ensures
            exists|c: &mut C, st: &mut V::State|
                {
                    &&& *c == *old(captures)
                    &&& *final(c) == *final(captures)
                    &&& *st == *old(state)
                    &&& *final(st) == *final(state)
                    &&& #[trigger] call_ensures(
                        V::render_tree,
                        (&self.content(), layout, origin, env, c, st),
                        r,
                    )
                },
    {
        self.view.render_tree(layout, origin, env, captures, state)
    }

    /// Every event goes to the content, with the content's focus.
    fn handle_event(
        &self,
        event: &Event,
        context: &mut EventContext,
        render_tree: &mut Self::Renderables,
        captures: &mut C,
        state: &mut Self::State,
        focus: &mut Self::FocusTree,
    ) -> (r: EventResult)
        ensures
            final(focus).captive() == old(focus).captive(),
            exists|ctx: &mut EventContext, rt: &mut V::Renderables, c: &mut C, st: &mut V::State, f: &mut V::FocusTree|
                *ctx == *old(context) && *final(ctx) == *final(context)
                && *rt == *old(render_tree) && *final(rt) == *final(render_tree)
                && *c == *old(captures) && *final(c) == *final(captures)
                && *st == *old(state) && *final(st) == *final(state)
                && *f == old(focus).inner() && *final(f) == final(focus).inner()
                && #[trigger] call_ensures(V::handle_event, (&self.content(), event, ctx, rt, c, st, f), r),
    {
        self.view.handle_event(event, context, render_tree, captures, state, &mut focus.inner)
    }
}

} // verus!
