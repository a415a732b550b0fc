//! A modifier that shows an overlay view over its content while a value is
//! present, and routes focus to the overlay while it is shown.
use core::marker::PhantomData;

use vstd::prelude::*;

use crate::event::{Event, EventContext, EventResult};
use crate::focus::{DefaultFocus, FocusAction, FocusDirection};
use crate::layout::{
    exact_offer, resolve_most_flexible_spec, LayoutEnvironment, ProposedDimensions, ResolvedLayout,
};
use crate::primitives::{Point, Size};
use crate::render::{Animate, Animation, Curve, TransitionOption};
use crate::view::ViewLayout;

verus! {

/// Shows the overlay built from `value` over `inner` while `value` is present.
#[derive(Debug)]
pub struct Popover<Inner, ViewFn, Overlay, T> {
    inner: Inner,
    behavior: Behavior,
    view_fn: ViewFn,
    _overlay: PhantomData<Overlay>,
    value: Option<T>,
}

/// What happens when focus movement reaches an end of the overlay.
#[derive(Debug, Clone, Copy, PartialEq, Eq, Structural)]
pub enum Behavior {
    /// Wrap focus around to the other side when reaching the end
    Wrap,
    /// Stop movement at the ends
    Terminate,
}

impl Default for Behavior {
    /// Focus wraps around by default.
    fn default() -> (r: Self)
        ensures
            r == Behavior::Wrap,
    {
        Behavior::Wrap
    }
}

/// The focus of a popover.
#[derive(Debug, Clone, PartialEq, Eq)]
pub struct FocusTree<T, U> {
    /// The inner view's focus state (always preserved)
    pub inner: T,
    /// The overlay's focus state (when overlay is active)
    pub overlay: Option<U>,
}

/// The state of a popover.
#[derive(Debug, Clone, PartialEq, Eq)]
pub struct PopoverState<T, U> {
    pub inner_state: T,
    pub overlay_state: Option<U>,
}

impl<T: DefaultFocus, U: DefaultFocus> DefaultFocus for FocusTree<T, U> {
    /// The inner view focused at its first element, and no overlay focus.
    fn default_first() -> (r: Self)
        ensures
            r.overlay is None,
            call_ensures(T::default_first, (), r.inner),
    {
        Self { inner: T::default_first(), overlay: None }
    }

    /// The inner view focused at its last element, and no overlay focus.
    fn default_last() -> (r: Self)
        ensures
            r.overlay is None,
            call_ensures(T::default_last, (), r.inner),
    {
        Self { inner: T::default_last(), overlay: None }
    }
}

/// Whether a focus action moves towards the end.
pub open spec fn moves_forward(action: FocusAction) -> bool {
    action == FocusAction::Next || action == FocusAction::Focus(FocusDirection::Forward)
}

/// Whether a focus action moves towards the end.
pub fn is_forward(action: FocusAction) -> (r: bool)
    ensures
        r == moves_forward(action),
{
    match action {
        FocusAction::Next => true,
        FocusAction::Focus(FocusDirection::Forward) => true,
        _ => false,
    }
}

/// What a popover does after its overlay passed on a focus action because
/// focus reached an end.
#[derive(Debug, Clone, Copy, PartialEq, Eq, Structural)]
pub enum BoundaryResponse {
    /// Reset the overlay's focus to its first element (`to_first`) or its last,
    /// acquire focus searching in `direction`, and report that outcome.
    Wrap { to_first: bool, direction: FocusDirection },
    /// Acquire focus again searching in `direction`, which leads back to the
    /// element at the end, and report the original outcome.
    Refocus { direction: FocusDirection },
}

/// The response of `behavior` when the overlay passes on `action`.
///
/// Wrapping restarts at the first element when moving forward and at the last
/// when moving backward, acquiring focus in the direction of the move.
/// Terminating re-acquires focus searching against the direction of the move.
pub open spec fn boundary_response(behavior: Behavior, action: FocusAction) -> BoundaryResponse {
    let forward = moves_forward(action);
    match behavior {
        Behavior::Wrap => BoundaryResponse::Wrap {
            to_first: forward,
            direction: if forward {
                FocusDirection::Forward
            } else {
                FocusDirection::Backward
            },
        },
        Behavior::Terminate => BoundaryResponse::Refocus {
            direction: if forward {
                FocusDirection::Backward
            } else {
                FocusDirection::Forward
            },
        },
    }
}

/// Wrapping restarts at the end opposite to the one the move ran past and
/// keeps the move's direction; terminating keeps the element at the end, by
/// searching against the move's direction. So the two always acquire focus in
/// opposite directions.
pub proof fn lemma_boundary_directions(action: FocusAction)
    ensures
        match (boundary_response(Behavior::Wrap, action), boundary_response(Behavior::Terminate, action)) {
            (BoundaryResponse::Wrap { to_first, direction: wrap }, BoundaryResponse::Refocus { direction: stop }) => {
                &&& to_first == moves_forward(action)
                &&& (wrap == FocusDirection::Forward) == moves_forward(action)
                &&& wrap != stop
            },
            _ => false,
        },
{
}

/// What a popover does once its overlay has answered the focus action
/// `action` with `result`: nothing more unless the overlay deferred it, and
/// then the boundary response of `behavior`.
pub open spec fn overlay_follow_up(
    behavior: Behavior,
    action: FocusAction,
    result: EventResult,
) -> Option<BoundaryResponse> {
    if result == EventResult::Deferred {
        Some(boundary_response(behavior, action))
    } else {
        None
    }
}

/// The focus event a popover sends to its overlay after the overlay passed
/// on `action`: acquiring focus in the boundary response's direction.
pub open spec fn boundary_retry(behavior: Behavior, action: FocusAction) -> Event {
    match boundary_response(behavior, action) {
        BoundaryResponse::Wrap { direction, .. } => Event::Focus(FocusAction::Focus(direction)),
        BoundaryResponse::Refocus { direction } => Event::Focus(FocusAction::Focus(direction)),
    }
}

impl Behavior {
    /// What to do once the overlay has answered `action` with `result`.
    pub fn overlay_follow_up(&self, action: FocusAction, result: EventResult) -> (r: Option<
        BoundaryResponse,
    >)
        ensures
            r == overlay_follow_up(*self, action, result),
    {
        if result.is_deferred() {
            Some(self.boundary_response(action))
        } else {
            None
        }
    }

    /// The response of this behavior when the overlay passes on `action`.
    pub fn boundary_response(&self, action: FocusAction) -> (r: BoundaryResponse)
        ensures
            r == boundary_response(*self, action),
    {
        let forward = is_forward(action);
        match self {
            Behavior::Wrap => {
                let direction = if forward {
                    FocusDirection::Forward
                } else {
                    FocusDirection::Backward
                };
                BoundaryResponse::Wrap { to_first: forward, direction }
            },
            Behavior::Terminate => {
                let direction = if forward {
                    FocusDirection::Backward
                } else {
                    FocusDirection::Forward
                };
                BoundaryResponse::Refocus { direction }
            },
        }
    }
}

/// The focus action of a focus event.
pub open spec fn focus_action_of(event: Event) -> FocusAction {
    match event {
        Event::Focus(action) => action,
        Event::Other(_) => FocusAction::Blur,
    }
}

/// The overlay focus used for an event: the overlay's focus if it has one,
/// else the overlay focused at its first element.
pub open spec fn overlay_focus_ready<C, Overlay: ViewLayout<C>>(
    before: Option<Overlay::FocusTree>,
    used: Overlay::FocusTree,
) -> bool {
    match before {
        Some(f) => used == f,
        None => call_ensures(Overlay::FocusTree::default_first, (), used),
    }
}

/// The overlay's animated tree with its shown subtree replaced by `subtree`.
pub open spec fn with_overlay_subtree<T, Tr, V>(
    tree: Animate<TransitionOption<T, Tr>, V>,
    subtree: T,
) -> Animate<TransitionOption<T, Tr>, V> {
    match tree.subtree {
        TransitionOption::Present { size, transition, .. } => Animate {
            subtree: TransitionOption::Present { subtree, size, transition },
            animation: tree.animation,
            frame_time_ms: tree.frame_time_ms,
            value: tree.value,
        },
        TransitionOption::Absent => tree,
    }
}

/// The duration of the overlay's animation, in milliseconds.
pub const OVERLAY_ANIMATION_MS: u64 = 300;

/// Where a popover sends an event.
#[derive(Debug, Clone, Copy, PartialEq, Eq, Structural)]
pub enum PopoverRoute {
    /// To the inner view, with the inner view's focus.
    Inner,
    /// To the overlay, with the overlay's focus.
    Overlay,
    /// Nowhere: the event is deferred.
    Defer,
}

/// Where a popover sends `event`, given whether the overlay is shown, has
/// been rendered, and has state.
///
/// While the overlay is shown, focus events go to it (and are deferred if it
/// has not been rendered yet); other events go to it once it has been rendered
/// and has state. Everything else goes to the inner view.
pub open spec fn popover_route(
    event: Event,
    shown: bool,
    rendered: bool,
    has_overlay_state: bool,
) -> PopoverRoute {
    match event {
        Event::Focus(_) => if !shown {
            PopoverRoute::Inner
        } else if rendered {
            PopoverRoute::Overlay
        } else {
            PopoverRoute::Defer
        },
        _ => if shown && rendered && has_overlay_state {
            PopoverRoute::Overlay
        } else {
            PopoverRoute::Inner
        },
    }
}

/// While the overlay is shown, rendered and has state, every event other than
/// a focus event goes to the overlay and never to the inner view; otherwise
/// such events go to the inner view.
pub proof fn lemma_other_events_go_to_shown_overlay(
    event: Event,
    shown: bool,
    rendered: bool,
    has_overlay_state: bool,
)
    requires
        !(event is Focus),
    ensures
        (popover_route(event, shown, rendered, has_overlay_state) == PopoverRoute::Overlay) <==> (
        shown && rendered && has_overlay_state),
        (popover_route(event, shown, rendered, has_overlay_state) == PopoverRoute::Inner) <==> !(
        shown && rendered && has_overlay_state),
{
}

/// Focus events go to the inner view exactly while the overlay is hidden;
/// while it is shown they go to the overlay once it is rendered, and are
/// deferred before.
pub proof fn lemma_focus_events_follow_the_overlay(
    action: FocusAction,
    shown: bool,
    rendered: bool,
    has_overlay_state: bool,
)
    ensures
        (popover_route(Event::Focus(action), shown, rendered, has_overlay_state)
            == PopoverRoute::Inner) <==> !shown,
        (popover_route(Event::Focus(action), shown, rendered, has_overlay_state)
            == PopoverRoute::Overlay) <==> (shown && rendered),
        (popover_route(Event::Focus(action), shown, rendered, has_overlay_state)
            == PopoverRoute::Defer) <==> (shown && !rendered),
{
}

impl<Inner, ViewFn, Overlay, T> Popover<Inner, ViewFn, Overlay, T> {
    /// The content under the overlay.
    pub closed spec fn inner(&self) -> Inner {
        self.inner
    }

    /// What happens at the ends of the overlay.
    pub closed spec fn behavior(&self) -> Behavior {
        self.behavior
    }

    /// The function that builds the overlay from the value.
    pub closed spec fn view_fn(&self) -> ViewFn {
        self.view_fn
    }

    /// The value the overlay is built from, if it is shown.
    pub closed spec fn value(&self) -> Option<T> {
        self.value
    }

    /// Shows the overlay that `view_fn` builds from `value` over `inner` while
    /// `value` is present; focus wraps around in the overlay.
    #[must_use]
    pub fn new(inner: Inner, value: Option<T>, view_fn: ViewFn) -> (r: Self)
        where
            ViewFn: Fn(&T) -> Overlay,
            T: Clone,
        ensures
            r.inner() == inner,
            r.value() == value,
            r.view_fn() == view_fn,
            r.behavior() == Behavior::Wrap,
    {
        Self { inner, behavior: Behavior::default(), view_fn, _overlay: PhantomData, value }
    }

    /// Builds the overlay for `value`.
    fn make_overlay(&self, value: &T) -> (o: Overlay)
        where
            ViewFn: Fn(&T) -> Overlay,
        requires
            forall|v: &T| #[trigger] call_requires(self.view_fn(), (v,)),
        ensures
            call_ensures(self.view_fn(), (value,), o),
    {
        assert(call_requires(self.view_fn(), (value,)));
        (self.view_fn)(value)
    }

    /// Sends the focus action `action` to the shown overlay `view`; if the
    /// overlay defers it, carries out the behavior's boundary response.
    ///
    /// The overlay first handles `Focus(action)`. If that is not deferred, its
    /// outcome is the popover's. Otherwise, to wrap, the overlay's focus is
    /// reset to its first or last element and the overlay's outcome on
    /// acquiring focus is reported; to terminate, the overlay acquires focus
    /// again and the deferral is reported.
    pub fn focus_overlay<C>(
        &self,
        view: &Overlay,
        action: FocusAction,
        context: &mut EventContext,
        subtree: &mut Overlay::Renderables,
        captures: &mut C,
        overlay_state: &mut Overlay::State,
        subfocus: &mut Overlay::FocusTree,
    ) -> (r: EventResult)
        where
            Overlay: ViewLayout<C>,
        requires
            view.well_formed(),
        ensures
            exists|
                ctx1: &mut EventContext,
                rt1: &mut Overlay::Renderables,
                c1: &mut C,
                st1: &mut Overlay::State,
                f1: &mut Overlay::FocusTree,
                r1: EventResult,
            |
                {
                    &&& *ctx1 == *old(context)
                    &&& *rt1 == *old(subtree)
                    &&& *c1 == *old(captures)
                    &&& *st1 == *old(overlay_state)
                    &&& *f1 == *old(subfocus)
                    &&& #[trigger] call_ensures(
                        Overlay::handle_event,
                        (view, &Event::Focus(action), ctx1, rt1, c1, st1, f1),
                        r1,
                    )
                    &&& r1 != EventResult::Deferred ==> {
                        &&& r == r1
                        &&& *final(context) == *final(ctx1)
                        &&& *final(subtree) == *final(rt1)
                        &&& *final(captures) == *final(c1)
                        &&& *final(overlay_state) == *final(st1)
                        &&& *final(subfocus) == *final(f1)
                    }
                    &&& r1 == EventResult::Deferred ==> exists|
                        ctx2: &mut EventContext,
                        rt2: &mut Overlay::Renderables,
                        c2: &mut C,
                        st2: &mut Overlay::State,
                        f2: &mut Overlay::FocusTree,
                        r2: EventResult,
                    |
                        {
                            &&& *ctx2 == *final(ctx1)
                            &&& *rt2 == *final(rt1)
                            &&& *c2 == *final(c1)
                            &&& *st2 == *final(st1)
                            &&& #[trigger] call_ensures(
                                Overlay::handle_event,
                                (view, &boundary_retry(self.behavior(), action), ctx2, rt2, c2, st2, f2),
                                r2,
                            )
                            &&& *final(context) == *final(ctx2)
                            &&& *final(subtree) == *final(rt2)
                            &&& *final(captures) == *final(c2)
                            &&& *final(overlay_state) == *final(st2)
                            &&& *final(subfocus) == *final(f2)
                            &&& self.behavior() == Behavior::Wrap ==> {
                                &&& r == r2
                                &&& moves_forward(action) ==> call_ensures(
                                    Overlay::FocusTree::default_first,
                                    (),
                                    *f2,
                                )
                                &&& !moves_forward(action) ==> call_ensures(
                                    Overlay::FocusTree::default_last,
                                    (),
                                    *f2,
                                )
                            }
                            &&& self.behavior() == Behavior::Terminate ==> {
                                &&& r == r1
                                &&& *f2 == *final(f1)
                            }
                        }
                },
    {
        let result = view.handle_event(
            &Event::Focus(action),
            context,
            subtree,
            captures,
            overlay_state,
            subfocus,
        );
        match self.behavior.overlay_follow_up(action, result) {
            Some(BoundaryResponse::Wrap { to_first, direction }) => {
                // Restart at the opposite end and acquire focus there
                *subfocus = if to_first {
                    DefaultFocus::default_first()
                } else {
                    DefaultFocus::default_last()
                };
                view.handle_event(
                    &Event::Focus(FocusAction::Focus(direction)),
                    context,
                    subtree,
                    captures,
                    overlay_state,
                    subfocus,
                )
            },
            Some(BoundaryResponse::Refocus { direction }) => {
                // Refocus on the element at the boundary we hit
                view.handle_event(
                    &Event::Focus(FocusAction::Focus(direction)),
                    context,
                    subtree,
                    captures,
                    overlay_state,
                    subfocus,
                );
                result
            },
            None => result,
        }
    }
}

impl<Inner: Clone, ViewFn: Clone, Overlay, T: Clone> Clone for Popover<Inner, ViewFn, Overlay, T> {
    fn clone(&self) -> (r: Self) {
        Self {
            inner: self.inner.clone(),
            behavior: self.behavior,
            view_fn: self.view_fn.clone(),
            _overlay: PhantomData,
            value: self.value.clone(),
        }
    }
}

impl<C, Inner, ViewFn, Overlay, T> ViewLayout<C> for Popover<Inner, ViewFn, Overlay, T> where
    Inner: ViewLayout<C>,
    Overlay: ViewLayout<C>,
    ViewFn: Fn(&T) -> Overlay,
 {
    type State = PopoverState<Inner::State, Overlay::State>;

    type FocusTree = FocusTree<Inner::FocusTree, Overlay::FocusTree>;

    /// The inner view's render tree, and the overlay's, animated as it
    /// comes and goes.
    type Renderables = (
        Inner::Renderables,
        Animate<TransitionOption<Overlay::Renderables, Overlay::Transition>, bool>,
    );

    /// The inner view's layout, and the size the popover takes.
    type Sublayout = ResolvedLayout<Inner::Sublayout>;

    type Transition = Inner::Transition;

    /// The inner view can be driven, and the view function accepts every
    /// value and builds overlays that can be driven.
    open spec fn well_formed(&self) -> bool {
        &&& self.inner().well_formed()
        &&& forall|v: &T| #[trigger] call_requires(self.view_fn(), (v,))
        &&& forall|v: &T, o: Overlay| #[trigger] call_ensures(self.view_fn(), (v,), o) ==> o.well_formed()
    }

    /// The inner view's transition.
    fn transition(&self) -> (r: Self::Transition)
        ensures
            call_ensures(Inner::transition, (&self.inner(),), r),
    {
        self.inner.transition()
    }

    /// The inner view's priority.
    fn priority(&self) -> (r: i8)
        ensures
            call_ensures(Inner::priority, (&self.inner(),), r),
    {
        self.inner.priority()
    }

    /// Whether the inner view is empty.
    fn is_empty(&self) -> (r: bool)
        ensures
            call_ensures(Inner::is_empty, (&self.inner(),), r),
    {
        self.inner.is_empty()
    }

    /// The inner view's state, and the overlay's while it is shown.
    fn build_state(&self, captures: &mut C) -> (r: Self::State)
        ensures
            r.overlay_state is Some <==> self.value() is Some,
            exists|ci: &mut C, si: Inner::State|
                {
                    &&& *ci == *old(captures)
                    &&& #[trigger] call_ensures(Inner::build_state, (&self.inner(), ci), si)
                    &&& r.inner_state == si
                    &&& self.value() is None ==> *final(captures) == *final(ci)
                    &&& self.value() is Some ==> exists|view: Overlay, co: &mut C, so: Overlay::State|
                        {
                            &&& call_ensures(self.view_fn(), (&self.value()->0,), view)
                            &&& *co == *final(ci)
                            &&& *final(co) == *final(captures)
                            &&& #[trigger] call_ensures(Overlay::build_state, (&view, co), so)
                            &&& r.overlay_state == Some(so)
                        }
                },
    {
        let inner_state = self.inner.build_state(captures);
        let overlay_state = match &self.value {
            Some(v) => {
                let overlay_view = self.make_overlay(v);
                Some(overlay_view.build_state(captures))
            },
            None => None,
        };
        PopoverState { inner_state, overlay_state }
    }

    /// Lays the inner view out in `offer`, and takes as much of `offer` as it
    /// can.
    fn layout(
        &self,
        offer: &ProposedDimensions,
        env: &LayoutEnvironment,
        captures: &mut C,
        state: &mut Self::State,
    ) -> (r: ResolvedLayout<Self::Sublayout>)
        ensures
            r.resolved_size == (Size {
                width: resolve_most_flexible_spec(offer.width, 0, 1),
                height: resolve_most_flexible_spec(offer.height, 0, 1),
            }),
            final(state).overlay_state == old(state).overlay_state,
            exists|c: &mut C, st: &mut Inner::State, l: ResolvedLayout<Inner::Sublayout>|
                {
                    &&& *c == *old(captures)
                    &&& *st == old(state).inner_state
                    &&& *final(c) == *final(captures)
                    &&& *final(st) == final(state).inner_state
                    &&& #[trigger] call_ensures(Inner::layout, (&self.inner(), offer, env, c, st), l)
                    &&& r.sublayouts == l
                },
    {
        let inner_layout = self.inner.layout(offer, env, captures, &mut state.inner_state);
        // Take as much space as possible
        let size = offer.resolve_most_flexible(0, 1);
        ResolvedLayout { sublayouts: inner_layout, resolved_size: size }
    }

    /// The inner view's render tree, and the overlay's, animated with a
    /// 300 ms ease-out keyed on whether it is shown. While shown, the overlay
    /// (with its state, built first if it had none) is laid out in exactly the
    /// inner layout's size and rendered at `origin`, and comes and goes with its
    /// own transition.
    fn render_tree(
        &self,
        layout: &Self::Sublayout,
        origin: Point,
        env: &LayoutEnvironment,
        captures: &mut C,
        state: &mut Self::State,
    ) -> (r: Self::Renderables)
        ensures
            r.1.animation == (Animation { duration_ms: OVERLAY_ANIMATION_MS, curve: Curve::EaseOut }),
            r.1.frame_time_ms == env.app_time_ms,
            r.1.value == self.value() is Some,
            r.1.subtree is Present <==> self.value() is Some,
            self.value() is Some ==> final(state).overlay_state is Some,
            self.value() is None ==> final(state).overlay_state == old(state).overlay_state,
            exists|ci: &mut C, sti: &mut Inner::State, ti: Inner::Renderables|
                {
                    &&& *ci == *old(captures)
                    &&& *sti == old(state).inner_state
                    &&& final(state).inner_state == *final(sti)
                    &&& #[trigger] call_ensures(
                        Inner::render_tree,
                        (&self.inner(), &layout.sublayouts, origin, env, ci, sti),
                        ti,
                    )
                    &&& r.0 == ti
                    &&& self.value() is None ==> *final(captures) == *final(ci)
                    &&& self.value() is Some ==> exists|
                        view: Overlay,
                        cl: &mut C,
                        stl: &mut Overlay::State,
                        lo: ResolvedLayout<Overlay::Sublayout>,
                        co: &mut C,
                        sto: &mut Overlay::State,
                        to: Overlay::Renderables,
                        tr: Overlay::Transition,
                    |
                        {
                            &&& call_ensures(self.view_fn(), (&self.value()->0,), view)
                            &&& match old(state).overlay_state {
                                Some(s0) => *stl == s0 && *cl == *final(ci),
                                None => exists|b: &mut C|
                                    *b == *final(ci) && *final(b) == *cl && #[trigger] call_ensures(
                                        Overlay::build_state,
                                        (&view, b),
                                        *stl,
                                    ),
                            }
                            &&& #[trigger] call_ensures(
                                Overlay::layout,
                                (&view, &exact_offer(layout.resolved_size), env, cl, stl),
                                lo,
                            )
                            &&& *co == *final(cl)
                            &&& *sto == *final(stl)
                            &&& #[trigger] call_ensures(
                                Overlay::render_tree,
                                (&view, &lo.sublayouts, origin, env, co, sto),
                                to,
                            )
                            &&& #[trigger] call_ensures(Overlay::transition, (&view,), tr)
                            &&& *final(co) == *final(captures)
                            &&& final(state).overlay_state == Some(*final(sto))
                            &&& r.1.subtree == TransitionOption::Present {
                                subtree: to,
                                size: layout.resolved_size,
                                transition: tr,
                            }
                        }
                },
    {
        let inner_tree = self.inner.render_tree(
            &layout.sublayouts,
            origin,
            env,
            captures,
            &mut state.inner_state,
        );
        let overlay_tree = match &self.value {
            Some(v) => {
                let overlay_view = self.make_overlay(v);
                if state.overlay_state.is_none() {
                    state.overlay_state = Some(overlay_view.build_state(captures));
                }
                match &mut state.overlay_state {
                    Some(overlay_state) => {
                        let overlay_layout = overlay_view.layout(
                            &ProposedDimensions::from(layout.resolved_size),
                            env,
                            captures,
                            overlay_state,
                        ).sublayouts;
                        TransitionOption::new_some(
                            overlay_view.render_tree(
                                &overlay_layout,
                                origin,
                                env,
                                captures,
                                overlay_state,
                            ),
                            layout.resolved_size,
                            overlay_view.transition(),
                        )
                    },
                    None => TransitionOption::Absent,
                }
            },
            None => TransitionOption::Absent,
        };
        (
            inner_tree,
            Animate::new(
                overlay_tree,
                Animation::ease_out(OVERLAY_ANIMATION_MS),
                env.app_time_ms,
                self.value.is_some(),
            ),
        )
    }

    fn handle_event(
        &self,
        event: &Event,
        context: &mut EventContext,
        render_tree: &mut Self::Renderables,
        captures: &mut C,
        state: &mut Self::State,
        focus: &mut Self::FocusTree,
    ) -> (r: EventResult)
        ensures
            match popover_route(
                *event,
                self.value() is Some,
                old(render_tree).1.subtree is Present,
                old(state).overlay_state is Some,
            ) {
                PopoverRoute::Inner => {
                    &&& event is Focus ==> final(focus).overlay is None
                    &&& !(event is Focus) ==> final(focus).overlay == old(focus).overlay
                    &&& final(state).overlay_state == old(state).overlay_state
                    &&& final(render_tree).1 == old(render_tree).1
                },
                PopoverRoute::Overlay => {
                    &&& final(focus).overlay is Some
                    &&& final(state).overlay_state is Some
                    &&& final(focus).inner == old(focus).inner
                    &&& final(state).inner_state == old(state).inner_state
                    &&& final(render_tree).0 == old(render_tree).0
                },
                PopoverRoute::Defer => {
                    &&& r == EventResult::Deferred
                    &&& final(focus).overlay is Some
                    &&& final(state).overlay_state is Some
                    &&& final(focus).inner == old(focus).inner
                    &&& final(state).inner_state == old(state).inner_state
                    &&& *final(render_tree) == *old(render_tree)
                    &&& *final(context) == *old(context)
                },
            },
            popover_route(
                *event,
                self.value() is Some,
                old(render_tree).1.subtree is Present,
                old(state).overlay_state is Some,
            ) == PopoverRoute::Inner ==> exists|
                ctx: &mut EventContext,
                rt: &mut Inner::Renderables,
                c: &mut C,
                st: &mut Inner::State,
                f: &mut Inner::FocusTree,
            |
                {
                    &&& *ctx == *old(context)
                    &&& *rt == old(render_tree).0
                    &&& *c == *old(captures)
                    &&& *st == old(state).inner_state
                    &&& *f == old(focus).inner
                    &&& #[trigger] call_ensures(
                        Inner::handle_event,
                        (&self.inner(), event, ctx, rt, c, st, f),
                        r,
                    )
                    &&& *final(context) == *final(ctx)
                    &&& final(render_tree).0 == *final(rt)
                    &&& *final(captures) == *final(c)
                    &&& final(state).inner_state == *final(st)
                    &&& final(focus).inner == *final(f)
                },
            // A shown and rendered overlay gets focus events through
            // `focus_overlay`, with its focus (the first element if it had
            // none) and its state (built if it had none).
            event is Focus && popover_route(
                *event,
                self.value() is Some,
                old(render_tree).1.subtree is Present,
                old(state).overlay_state is Some,
            ) == PopoverRoute::Overlay ==> exists|
                view: Overlay,
                ctx: &mut EventContext,
                rt: &mut Overlay::Renderables,
                c: &mut C,
                st: &mut Overlay::State,
                f: &mut Overlay::FocusTree,
            |
                {
                    &&& call_ensures(self.view_fn(), (&self.value()->0,), view)
                    &&& overlay_focus_ready::<C, Overlay>(old(focus).overlay, *f)
                    &&& match old(state).overlay_state {
                        Some(s0) => *st == s0 && *c == *old(captures),
                        None => exists|b: &mut C|
                            *b == *old(captures) && *final(b) == *c && #[trigger] call_ensures(
                                Overlay::build_state,
                                (&view, b),
                                *st,
                            ),
                    }
                    &&& *ctx == *old(context)
                    &&& *rt == old(render_tree).1.subtree->subtree
                    &&& #[trigger] call_ensures(
                        Self::focus_overlay::<C>,
                        (self, &view, focus_action_of(*event), ctx, rt, c, st, f),
                        r,
                    )
                    &&& *final(context) == *final(ctx)
                    &&& final(render_tree).1 == with_overlay_subtree(old(render_tree).1, *final(rt))
                    &&& *final(captures) == *final(c)
                    &&& final(state).overlay_state == Some(*final(st))
                    &&& final(focus).overlay == Some(*final(f))
                },
            // A shown, rendered overlay with state gets other events directly,
            // with its focus (the first element if it had none).
            !(event is Focus) && popover_route(
                *event,
                self.value() is Some,
                old(render_tree).1.subtree is Present,
                old(state).overlay_state is Some,
            ) == PopoverRoute::Overlay ==> exists|
                view: Overlay,
                ctx: &mut EventContext,
                rt: &mut Overlay::Renderables,
                c: &mut C,
                st: &mut Overlay::State,
                f: &mut Overlay::FocusTree,
            |
                {
                    &&& call_ensures(self.view_fn(), (&self.value()->0,), view)
                    &&& overlay_focus_ready::<C, Overlay>(old(focus).overlay, *f)
                    &&& *st == old(state).overlay_state->0
                    &&& *c == *old(captures)
                    &&& *ctx == *old(context)
                    &&& *rt == old(render_tree).1.subtree->subtree
                    &&& #[trigger] call_ensures(
                        Overlay::handle_event,
                        (&view, event, ctx, rt, c, st, f),
                        r,
                    )
                    &&& *final(context) == *final(ctx)
                    &&& final(render_tree).1 == with_overlay_subtree(old(render_tree).1, *final(rt))
                    &&& *final(captures) == *final(c)
                    &&& final(state).overlay_state == Some(*final(st))
                    &&& final(focus).overlay == Some(*final(f))
                },
            // A shown overlay that has not been rendered defers focus events,
            // after taking up its focus and state.
            popover_route(
                *event,
                self.value() is Some,
                old(render_tree).1.subtree is Present,
                old(state).overlay_state is Some,
            ) == PopoverRoute::Defer ==> exists|view: Overlay|
                {
                    &&& #[trigger] call_ensures(self.view_fn(), (&self.value()->0,), view)
                    &&& final(focus).overlay is Some
                    &&& overlay_focus_ready::<C, Overlay>(
                        old(focus).overlay,
                        final(focus).overlay->0,
                    )
                    &&& match old(state).overlay_state {
                        Some(s0) => final(state).overlay_state == Some(s0) && *final(captures)
                            == *old(captures),
                        None => exists|b: &mut C, s0: Overlay::State|
                            {
                                &&& *b == *old(captures)
                                &&& *final(b) == *final(captures)
                                &&& final(state).overlay_state == Some(s0)
                                &&& #[trigger] call_ensures(Overlay::build_state, (&view, b), s0)
                            },
                    }
                },
    {
        // Focus events route through the focus tree
        if let Event::Focus(focus_event) = event {
            match &self.value {
                Some(v) => {
                    // Overlay is active - ensure we have overlay focus state
                    if focus.overlay.is_none() {
                        focus.overlay = Some(DefaultFocus::default_first());
                    }
                    let view = self.make_overlay(v);
                    if state.overlay_state.is_none() {
                        state.overlay_state = Some(view.build_state(captures));
                    }
                    if let TransitionOption::Present { subtree, .. } = &mut render_tree.1.subtree {
                        if let Some(subfocus) = &mut focus.overlay {
                            if let Some(overlay_state) = &mut state.overlay_state {
                                return self.focus_overlay(
                                    &view,
                                    *focus_event,
                                    context,
                                    subtree,
                                    captures,
                                    overlay_state,
                                    subfocus,
                                );
                            }
                        }
                    }
                    return EventResult::Deferred;
                },
                None => {
                    // Overlay is not active - clear overlay focus and use inner focus
                    focus.overlay = None;
                    return self.inner.handle_event(
                        &Event::Focus(*focus_event),
                        context,
                        &mut render_tree.0,
                        captures,
                        &mut state.inner_state,
                        &mut focus.inner,
                    );
                },
            }
        }
        // Other events go to the overlay while it is shown and rendered
        if let Some(v) = &self.value {
            if let TransitionOption::Present { subtree, .. } = &mut render_tree.1.subtree {
                if let Some(overlay_state) = &mut state.overlay_state {
                    let overlay_view = self.make_overlay(v);
                    if focus.overlay.is_none() {
                        focus.overlay = Some(DefaultFocus::default_first());
                    }
                    if let Some(subfocus) = &mut focus.overlay {
                        return overlay_view.handle_event(
                            event,
                            context,
                            subtree,
                            captures,
                            overlay_state,
                            subfocus,
                        );
                    }
                    return EventResult::Deferred;
                }
            }
        }
        self.inner.handle_event(
            event,
            context,
            &mut render_tree.0,
            captures,
            &mut state.inner_state,
            &mut focus.inner,
        )
    }
}

} // verus!
