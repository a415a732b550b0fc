//! A focusable view that can capture focus navigation, the way a rotary
//! encoder captures turns while it is engaged.
//!
//! Rotary operates in three states:
//! - `UnFocused`: not focused; Next/Previous pass through to the parent
//! - `Focused`: has focus; Select enters captive mode
//! - `Captive`: traps focus; Next/Previous fire events, Blur/Select exit
use core::marker::PhantomData;

use vstd::prelude::*;

use crate::event::{Event, EventContext, EventResult};
use crate::focus::{DefaultFocus, FocusAction};
use crate::layout::{LayoutEnvironment, ProposedDimensions, ResolvedLayout};
use crate::primitives::Point;
use crate::render::{ContentShape, IntrinsicShape, Opacity};

use super::ViewLayout;

verus! {

/// A view built from its rotary state, whose action is fired on rotary events.
#[derive(Debug)]
pub struct Rotary<V, ViewFn, Action> {
    _view: PhantomData<V>,
    view_fn: ViewFn,
    action: Action,
}

/// What a rotary reports to its action.
#[derive(Clone, Copy, Debug, PartialEq, Eq, Structural)]
pub enum RotaryEvent {
    /// Captive mode was entered.
    Focused,
    /// Next, while captive.
    Next,
    /// Previous, while captive.
    Previous,
    /// Captive mode was left.
    Exit,
}

/// The state a rotary builds its view from.
#[derive(Clone, Copy, Debug, PartialEq, Eq, Structural)]
pub enum RotaryState {
    UnFocused,
    Focused,
    Captive,
}

/// A rotary's focus: whether it holds navigation captive.
#[derive(Clone, Copy, Debug, PartialEq, Eq, Structural)]
pub struct RotaryFocus(bool);

impl View for RotaryFocus {
    type V = bool;

    /// Whether focus navigation is held captive.
    closed spec fn view(&self) -> bool {
        self.0
    }
}

impl RotaryFocus {
    fn is_captive(self) -> (r: bool)
        ensures
            r == self@,
    {
        self.0
    }
}

impl DefaultFocus for RotaryFocus {
    fn default_first() -> (r: Self)
        ensures
            !r@,
    {
        Self(false)
    }

    fn default_last() -> (r: Self)
        ensures
            !r@,
    {
        Self(false)
    }
}

/// The outcome of one focus action on a rotary.
pub struct RotaryStep {
    /// Whether the rotary holds navigation captive afterwards.
    pub captive: bool,
    /// The rotary state afterwards.
    pub state: RotaryState,
    /// The event fired to the action, if any.
    pub event: Option<RotaryEvent>,
    /// What the rotary reports.
    pub result: EventResult,
}

/// How a rotary answers a focus action, given whether it is captive, its
/// state, and the shape of its content.
///
/// While captive, Next and Previous fire the matching event and keep the
/// focus (on the content's shape); Focus keeps it captive; Blur and Select fire `Exit` and leave it
/// focused but not captive. While not captive, Next, Previous and Blur unfocus
/// it and pass the action on; Focus focuses it; Select fires `Focused` and
/// makes it captive.
pub open spec fn rotary_step(
    captive: bool,
    state: RotaryState,
    action: FocusAction,
    shape: ContentShape,
) -> RotaryStep {
    if captive {
        match action {
            FocusAction::Next => RotaryStep {
                captive: true,
                state,
                event: Some(RotaryEvent::Next),
                result: EventResult::HandledFocused(shape),
            },
            FocusAction::Previous => RotaryStep {
                captive: true,
                state,
                event: Some(RotaryEvent::Previous),
                result: EventResult::HandledFocused(shape),
            },
            FocusAction::Focus(_) => RotaryStep {
                captive: true,
                state: RotaryState::Captive,
                event: None,
                result: EventResult::HandledFocused(shape),
            },
            _ => RotaryStep {
                captive: false,
                state: RotaryState::Focused,
                event: Some(RotaryEvent::Exit),
                result: EventResult::HandledFocused(shape),
            },
        }
    } else {
        match action {
            FocusAction::Focus(_) => RotaryStep {
                captive: false,
                state: RotaryState::Focused,
                event: None,
                result: EventResult::HandledFocused(shape),
            },
            FocusAction::Select => RotaryStep {
                captive: true,
                state: RotaryState::Captive,
                event: Some(RotaryEvent::Focused),
                result: EventResult::HandledFocused(shape),
            },
            _ => RotaryStep {
                captive: false,
                state: RotaryState::UnFocused,
                event: None,
                result: EventResult::Deferred,
            },
        }
    }
}

/// A rotary holds navigation captive exactly when its state is `Captive`:
/// every focus action keeps this so, and it holds at the start (the default
/// focus is not captive and the built state is `UnFocused`).
pub proof fn lemma_rotary_captive_matches_state(
    captive: bool,
    state: RotaryState,
    action: FocusAction,
    shape: ContentShape,
)
    requires
        captive == (state == RotaryState::Captive),
    ensures
        rotary_step(captive, state, action, shape).captive == (rotary_step(captive, state, action, shape).state
            == RotaryState::Captive),
{
}

/// A rotary that is not captive passes Next, Previous and Blur on to its
/// parent: it defers them, fires nothing, stays not captive and ends up
/// unfocused.
pub proof fn lemma_rotary_unfocuses_when_passing_on(
    state: RotaryState,
    action: FocusAction,
    shape: ContentShape,
)
    requires
        action == FocusAction::Next || action == FocusAction::Previous || action
            == FocusAction::Blur,
    ensures
        rotary_step(false, state, action, shape).result == EventResult::Deferred,
        rotary_step(false, state, action, shape).state == RotaryState::UnFocused,
        rotary_step(false, state, action, shape).event is None,
        !rotary_step(false, state, action, shape).captive,
{
}

/// From any consistent position (captive exactly when in the `Captive`
/// state), a rotary defers a focus action exactly when it ends up unfocused,
/// and otherwise keeps the focus on its content.
pub proof fn lemma_rotary_defers_iff_unfocused(
    captive: bool,
    state: RotaryState,
    action: FocusAction,
    shape: ContentShape,
)
    requires
        captive == (state == RotaryState::Captive),
    ensures
        (rotary_step(captive, state, action, shape).result == EventResult::Deferred) <==> (
        rotary_step(captive, state, action, shape).state == RotaryState::UnFocused),
        rotary_step(captive, state, action, shape).result != EventResult::Deferred ==> rotary_step(
            captive,
            state,
            action,
            shape,
        ).result == EventResult::HandledFocused(shape),
{
}

/// Which event a focus action fires: `Focused` on Select when not captive;
/// `Next`, `Previous` on Next, Previous when captive; `Exit` on Blur or
/// Select when captive; and nothing otherwise, in particular never on a
/// Focus action.
pub proof fn lemma_rotary_fired_events(
    captive: bool,
    state: RotaryState,
    action: FocusAction,
    shape: ContentShape,
)
    ensures
        (rotary_step(captive, state, action, shape).event == Some(RotaryEvent::Focused)) <==> (
        !captive && action == FocusAction::Select),
        (rotary_step(captive, state, action, shape).event == Some(RotaryEvent::Next)) <==> (
        captive && action == FocusAction::Next),
        (rotary_step(captive, state, action, shape).event == Some(RotaryEvent::Previous)) <==> (
        captive && action == FocusAction::Previous),
        (rotary_step(captive, state, action, shape).event == Some(RotaryEvent::Exit)) <==> (
        captive && (action == FocusAction::Blur || action == FocusAction::Select)),
        action is Focus ==> rotary_step(captive, state, action, shape).event is None,
{
}

/// Events fire only while captive, or on the Select that enters captive mode.
pub proof fn lemma_rotary_events_need_captive_or_select(
    captive: bool,
    state: RotaryState,
    action: FocusAction,
    shape: ContentShape,
)
    ensures
        rotary_step(captive, state, action, shape).event is Some ==> captive || action
            == FocusAction::Select,
        rotary_step(captive, state, action, shape).event == Some(RotaryEvent::Focused) ==> !captive
            && rotary_step(captive, state, action, shape).captive,
{
}

/// While captive, a rotary keeps the focus whatever the action.
pub proof fn lemma_rotary_captive_keeps_focus(
    state: RotaryState,
    action: FocusAction,
    shape: ContentShape,
)
    ensures
        rotary_step(true, state, action, shape).result == EventResult::HandledFocused(shape),
{
}

/// Select toggles captive mode, and Blur always leaves it.
pub proof fn lemma_rotary_select_toggles(captive: bool, state: RotaryState, shape: ContentShape)
    ensures
        rotary_step(captive, state, FocusAction::Select, shape).captive == !captive,
        !rotary_step(captive, state, FocusAction::Blur, shape).captive,
{
}

/// While captive, Next then Previous fire `Next` then `Previous` and leave
/// the rotary as it was.
pub proof fn lemma_rotary_next_previous_round_trip(state: RotaryState, shape: ContentShape)
    ensures
        ({
            let first = rotary_step(true, state, FocusAction::Next, shape);
            let second = rotary_step(first.captive, first.state, FocusAction::Previous, shape);
            &&& first.event == Some(RotaryEvent::Next)
            &&& second.event == Some(RotaryEvent::Previous)
            &&& second.captive
            &&& second.state == state
        }),
{
}

impl<V, ViewFn, Action> Rotary<V, ViewFn, Action> {
    /// The function that builds the view from the rotary state.
    pub closed spec fn view_fn(&self) -> ViewFn {
        self.view_fn
    }

    /// The function fired on rotary events.
    pub closed spec fn action(&self) -> Action {
        self.action
    }

    /// A rotary firing `action` and building its view with `view_fn`.
    pub fn new<C>(action: Action, view_fn: ViewFn) -> (r: Self)
        where
            V: ViewLayout<C>,
            ViewFn: Fn(&RotaryState) -> V,
            Action: Fn(&mut C, &RotaryEvent),
        ensures
            r.action() == action,
            r.view_fn() == view_fn,
    {
        Self { _view: PhantomData, view_fn, action }
    }

    /// Builds the view for `rotary_state`.
    fn make_view(&self, rotary_state: &RotaryState) -> (v: V)
        where
            ViewFn: Fn(&RotaryState) -> V,
        requires
            forall|s: &RotaryState| #[trigger] call_requires(self.view_fn(), (s,)),
        ensures
            call_ensures(self.view_fn(), (rotary_state,), v),
    {
        assert(call_requires(self.view_fn(), (rotary_state,)));
        (self.view_fn)(rotary_state)
    }

    /// Calls the action with `event`.
    fn fire<C>(&self, captures: &mut C, event: RotaryEvent)
        where
            Action: Fn(&mut C, &RotaryEvent),
        requires
            forall|c: &mut C, e: &RotaryEvent| #[trigger] call_requires(self.action(), (c, e)),
        ensures
            exists|c: &mut C|
                *c == *old(captures) && *final(c) == *final(captures) && #[trigger] call_ensures(
                    self.action(),
                    (c, &event),
                    (),
                ),
    {
        let e = &event;
        let r = &mut *captures;
        assert(call_requires(self.action(), (r, e)));
        (self.action)(r, e);
    }
}

impl<V, ViewFn: Clone, Action: Clone> Clone for Rotary<V, ViewFn, Action> {
    fn clone(&self) -> (r: Self) {
        Self { _view: PhantomData, view_fn: self.view_fn.clone(), action: self.action.clone() }
    }
}

impl<C, V, ViewFn, Action> ViewLayout<C> for Rotary<V, ViewFn, Action> where
    V: ViewLayout<C>,
    V::Renderables: IntrinsicShape,
    ViewFn: Fn(&RotaryState) -> V,
    Action: Fn(&mut C, &RotaryEvent),
 {
    type State = (RotaryState, V::State);

    type FocusTree = RotaryFocus;

    type Renderables = V::Renderables;

    type Sublayout = V::Sublayout;

    type Transition = Opacity;

    /// The action accepts every event, and the view function accepts every
    /// state and builds views that can be driven.
    open spec fn well_formed(&self) -> bool {
        &&& forall|c: &mut C, e: &RotaryEvent| #[trigger] call_requires(self.action(), (c, e))
        &&& forall|s: &RotaryState| #[trigger] call_requires(self.view_fn(), (s,))
        &&& forall|s: &RotaryState, v: V|
            #[trigger] call_ensures(self.view_fn(), (s,), v) ==> v.well_formed()
    }

    /// Starts unfocused, with the state of the view built for `UnFocused`.
    fn build_state(&self, captures: &mut C) -> (r: Self::State)
        ensures
            r.0 == RotaryState::UnFocused,
            exists|view: V, c: &mut C, s: V::State|
                {
                    &&& call_ensures(self.view_fn(), (&RotaryState::UnFocused,), view)
                    &&& *c == *old(captures)
                    &&& *final(c) == *final(captures)
                    &&& #[trigger] call_ensures(V::build_state, (&view, c), s)
                    &&& r.1 == s
                },
    {
        let s = RotaryState::UnFocused;
        let view = self.make_view(&s);
        (s, view.build_state(captures))
    }

    /// Fades in and out.
    fn transition(&self) -> (r: Self::Transition)
        ensures
            r == Opacity,
    {
        Opacity
    }

    /// The layout of the view built for the current rotary state.
    fn layout(
        &self,
        offer: &ProposedDimensions,
        env: &LayoutEnvironment,
        captures: &mut C,
        state: &mut Self::State,
    ) -> (r: ResolvedLayout<Self::Sublayout>)
        ensures
            final(state).0 == old(state).0,
            exists|view: V, c: &mut C, st: &mut V::State|
                {
                    &&& call_ensures(self.view_fn(), (&old(state).0,), view)
                    &&& *c == *old(captures)
                    &&& *final(c) == *final(captures)
                    &&& *st == old(state).1
                    &&& *final(st) == final(state).1
                    &&& #[trigger] call_ensures(V::layout, (&view, offer, env, c, st), r)
                },
    {
        let view = self.make_view(&state.0);
        view.layout(offer, env, captures, &mut state.1)
    }

    /// Renders the view built for the current rotary state.
    fn render_tree(
        &self,
        layout: &Self::Sublayout,
        origin: Point,
        env: &LayoutEnvironment,
        captures: &mut C,
        state: &mut Self::State,
    ) -> (r: Self::Renderables)
        ensures
            final(state).0 == old(state).0,
            exists|view: V, c: &mut C, st: &mut V::State|
                {
                    &&& call_ensures(self.view_fn(), (&old(state).0,), view)
                    &&& *c == *old(captures)
                    &&& *final(c) == *final(captures)
                    &&& *st == old(state).1
                    &&& *final(st) == final(state).1
                    &&& #[trigger] call_ensures(
                        V::render_tree,
                        (&view, layout, origin, env, c, st),
                        r,
                    )
                },
    {
        let view = self.make_view(&state.0);
        view.render_tree(layout, origin, env, captures, &mut state.1)
    }

    fn handle_event(
        &self,
        event: &Event,
        context: &mut EventContext,
        render_tree: &mut Self::Renderables,
        captures: &mut C,
        state: &mut Self::State,
        focus: &mut Self::FocusTree,
    ) -> (r: EventResult)
        ensures
            final(state).1 == old(state).1,
            *final(render_tree) == *old(render_tree),
            match *event {
                Event::Focus(action) => exists|shape: ContentShape|
                    {
                        &&& #[trigger] call_ensures(
                            <V::Renderables as IntrinsicShape>::content_shape,
                            (&*old(render_tree),),
                            shape,
                        )
                        &&& ({
                            let step = rotary_step(old(focus)@, old(state).0, action, shape);
                            &&& r == step.result
                            &&& final(focus)@ == step.captive
                            &&& final(state).0 == step.state
                            &&& final(context).view_rebuild_requested
                            &&& match step.event {
                                Some(e) => exists|c: &mut C|
                                    *c == *old(captures) && *final(c) == *final(captures)
                                        && #[trigger] call_ensures(self.action(), (c, &e), ()),
                                None => *final(captures) == *old(captures),
                            }
                        })
                    },
                _ => {
                    &&& r == EventResult::Deferred
                    &&& *final(focus) == *old(focus)
                    &&& final(state).0 == old(state).0
                    &&& *final(context) == *old(context)
                    &&& *final(captures) == *old(captures)
                },
            },
    {
        // Handle focus events specially
        if let Event::Focus(focus_event) = event {
            context.request_view_rebuild();
            let focused_shape = render_tree.content_shape();
            return if focus.is_captive() {
                match focus_event {
                    FocusAction::Next => {
                        self.fire(captures, RotaryEvent::Next);
                        EventResult::handled_focused(focused_shape)
                    },
                    FocusAction::Previous => {
                        self.fire(captures, RotaryEvent::Previous);
                        EventResult::handled_focused(focused_shape)
                    },
                    FocusAction::Focus(_) => {
                        state.0 = RotaryState::Captive;
                        EventResult::handled_focused(focused_shape)
                    },
                    FocusAction::Blur | FocusAction::Select => {
                        self.fire(captures, RotaryEvent::Exit);
                        focus.0 = false;
                        state.0 = RotaryState::Focused;
                        context.request_view_rebuild();
                        EventResult::handled_focused(focused_shape)
                    },
                }
            } else {
                match focus_event {
                    FocusAction::Next | FocusAction::Previous | FocusAction::Blur => {
                        state.0 = RotaryState::UnFocused;
                        context.request_view_rebuild();
                        EventResult::Deferred
                    },
                    FocusAction::Focus(_) => {
                        state.0 = RotaryState::Focused;
                        EventResult::handled_focused(focused_shape)
                    },
                    FocusAction::Select => {
                        self.fire(captures, RotaryEvent::Focused);
                        focus.0 = true;
                        state.0 = RotaryState::Captive;
                        context.request_view_rebuild();
                        EventResult::handled_focused(focused_shape)
                    },
                }
            };
        }
        // Non-focus events are deferred.
        EventResult::Deferred
    }
}

} // verus!
