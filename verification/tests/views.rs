use buoyant::event::{Event, EventContext, EventResult};
use buoyant::focus::{DefaultFocus, FocusAction, FocusDirection};
use buoyant::view::modifier::popover::{
    Behavior, BoundaryResponse, FocusTree, Popover,
};
use buoyant::view::paginate::PageEvent;
use buoyant::view::rotary::{Rotary, RotaryEvent, RotaryFocus, RotaryState};
use buoyant::layout::{LayoutEnvironment, ProposedDimension, ProposedDimensions, ResolvedLayout};
use buoyant::primitives::{Point, Rectangle, Size};
use buoyant::render::{Animation, ContentShape, Curve, IntrinsicShape, Opacity, TransitionOption};
use buoyant::view::{Paginate, ViewLayout};

/// Application state that records which element last took the focus and
/// which one was selected.
trait FocusLog {
    fn focused(&mut self, tag: &'static str, index: usize);
    fn selected(&mut self, tag: &'static str, index: usize);
}

/// What the test views render: the origin they were rendered at.
#[derive(Debug, Clone, Copy, PartialEq, Eq)]
struct Rendered {
    origin: Point,
    size: Size,
}

impl IntrinsicShape for Rendered {
    fn content_shape(&self) -> ContentShape {
        ContentShape::Rectangle(Rectangle::new(self.origin, self.size))
    }
}

/// Takes the whole offer, or 10 points along an axis that is not exact.
fn take_offer(offer: &ProposedDimensions) -> Size {
    let take = |d: ProposedDimension| match d {
        ProposedDimension::Exact(n) => n,
        _ => 10,
    };
    Size::new(take(offer.width), take(offer.height))
}

/// A view with no focusable content.
struct Indicator;

impl<S> ViewLayout<S> for Indicator {
    type State = ();
    type FocusTree = ();
    type Renderables = Rendered;
    type Sublayout = Size;
    type Transition = Opacity;

    fn transition(&self) -> Self::Transition {
        Opacity
    }

    fn build_state(&self, _captures: &mut S) -> Self::State {}

    fn layout(
        &self,
        offer: &ProposedDimensions,
        _env: &LayoutEnvironment,
        _captures: &mut S,
        _state: &mut Self::State,
    ) -> ResolvedLayout<Self::Sublayout> {
        let size = take_offer(offer);
        ResolvedLayout { sublayouts: size, resolved_size: size }
    }

    fn render_tree(
        &self,
        layout: &Self::Sublayout,
        origin: Point,
        _env: &LayoutEnvironment,
        _captures: &mut S,
        _state: &mut Self::State,
    ) -> Self::Renderables {
        Rendered { origin, size: *layout }
    }

    fn handle_event(
        &self,
        _event: &Event,
        _context: &mut EventContext,
        _render_tree: &mut Self::Renderables,
        _captures: &mut S,
        _state: &mut Self::State,
        _focus: &mut Self::FocusTree,
    ) -> EventResult {
        EventResult::Deferred
    }
}

/// Where a row of buttons holds the focus.
#[derive(Debug, Clone, Copy, PartialEq, Eq)]
enum ButtonFocus {
    First,
    Last,
    At(usize),
}

impl DefaultFocus for ButtonFocus {
    fn default_first() -> Self {
        ButtonFocus::First
    }

    fn default_last() -> Self {
        ButtonFocus::Last
    }
}

/// A row of `count` focusable buttons, stopping at both ends.
struct Buttons {
    tag: &'static str,
    count: usize,
}

impl<S: FocusLog> ViewLayout<S> for Buttons {
    type State = ();
    type FocusTree = ButtonFocus;
    type Renderables = Rendered;
    type Sublayout = Size;
    type Transition = Opacity;

    fn transition(&self) -> Self::Transition {
        Opacity
    }

    fn build_state(&self, _captures: &mut S) -> Self::State {}

    fn layout(
        &self,
        offer: &ProposedDimensions,
        _env: &LayoutEnvironment,
        _captures: &mut S,
        _state: &mut Self::State,
    ) -> ResolvedLayout<Self::Sublayout> {
        let size = take_offer(offer);
        ResolvedLayout { sublayouts: size, resolved_size: size }
    }

    fn render_tree(
        &self,
        layout: &Self::Sublayout,
        origin: Point,
        _env: &LayoutEnvironment,
        _captures: &mut S,
        _state: &mut Self::State,
    ) -> Self::Renderables {
        Rendered { origin, size: *layout }
    }

    fn handle_event(
        &self,
        event: &Event,
        _context: &mut EventContext,
        render_tree: &mut Self::Renderables,
        captures: &mut S,
        _state: &mut Self::State,
        focus: &mut Self::FocusTree,
    ) -> EventResult {
        let current = match *focus {
            ButtonFocus::First => 0,
            ButtonFocus::Last => self.count - 1,
            ButtonFocus::At(i) => i,
        };
        let target = match event {
            Event::Focus(FocusAction::Focus(_)) => Some(current),
            Event::Focus(FocusAction::Next) => {
                if current + 1 < self.count {
                    Some(current + 1)
                } else {
                    None
                }
            }
            Event::Focus(FocusAction::Previous) => current.checked_sub(1),
            Event::Focus(FocusAction::Select) => {
                captures.selected(self.tag, current);
                return EventResult::handled_focused(render_tree.content_shape());
            }
            _ => None,
        };
        match target {
            Some(i) => {
                *focus = ButtonFocus::At(i);
                captures.focused(self.tag, i);
                EventResult::handled_focused(render_tree.content_shape())
            }
            None => EventResult::Deferred,
        }
    }
}

/// Drives a view the way an application would.
struct Harness<V: ViewLayout<S>, S> {
    state: S,
    view: V,
    view_state: V::State,
    render_tree: V::Renderables,
    focus_tree: V::FocusTree,
    rebuilds: u32,
}

impl<V: ViewLayout<S>, S> Harness<V, S> {
    fn new(view: V, state: S) -> Self {
        let mut state = state;
        let mut view_state = view.build_state(&mut state);
        let env = LayoutEnvironment { app_time_ms: 0 };
        let layout = view.layout(&Size::new(100, 100).into(), &env, &mut state, &mut view_state);
        let render_tree = view.render_tree(
            &layout.sublayouts,
            Point::zero(),
            &env,
            &mut state,
            &mut view_state,
        );
        Self {
            state,
            view,
            view_state,
            render_tree,
            focus_tree: DefaultFocus::default_first(),
            rebuilds: 0,
        }
    }

    fn with_focus_at_end(mut self) -> Self {
        self.focus_tree = DefaultFocus::default_last();
        self
    }

    fn send(&mut self, event: impl Into<Event>) -> EventResult {
        let mut context = EventContext::new();
        let result = self.view.handle_event(
            &event.into(),
            &mut context,
            &mut self.render_tree,
            &mut self.state,
            &mut self.view_state,
            &mut self.focus_tree,
        );
        if context.view_rebuild_requested {
            self.rebuilds += 1;
            self.rebuild();
        }
        result
    }

    fn rebuild(&mut self) {
        let env = LayoutEnvironment { app_time_ms: 0 };
        let layout = self.view.layout(
            &Size::new(100, 100).into(),
            &env,
            &mut self.state,
            &mut self.view_state,
        );
        self.render_tree = self.view.render_tree(
            &layout.sublayouts,
            Point::zero(),
            &env,
            &mut self.state,
            &mut self.view_state,
        );
    }

    fn focus_forward(&mut self) -> EventResult {
        self.send(FocusAction::Focus(FocusDirection::Forward))
    }

    fn focus_backward(&mut self) -> EventResult {
        self.send(FocusAction::Focus(FocusDirection::Backward))
    }

    fn next(&mut self) -> EventResult {
        self.send(FocusAction::Next)
    }

    fn previous(&mut self) -> EventResult {
        self.send(FocusAction::Previous)
    }

    fn select(&mut self) -> EventResult {
        self.send(FocusAction::Select)
    }

    fn blur(&mut self) -> EventResult {
        self.send(FocusAction::Blur)
    }
}

#[derive(Default)]
struct State {
    value: i32,
    focused_count: u32,
    next_count: u32,
    previous_count: u32,
    exit_count: u32,
    focused: Option<(&'static str, usize)>,
    selected: Option<(&'static str, usize)>,
}

impl FocusLog for State {
    fn focused(&mut self, tag: &'static str, index: usize) {
        self.focused = Some((tag, index));
    }

    fn selected(&mut self, tag: &'static str, index: usize) {
        self.selected = Some((tag, index));
    }
}

fn count_rotary_event(state: &mut State, event: &RotaryEvent) {
    match event {
        RotaryEvent::Focused => state.focused_count += 1,
        RotaryEvent::Next => {
            state.next_count += 1;
            state.value += 1;
        }
        RotaryEvent::Previous => {
            state.previous_count += 1;
            state.value -= 1;
        }
        RotaryEvent::Exit => state.exit_count += 1,
    }
}

fn rotary_view() -> impl ViewLayout<State, State = (RotaryState, ()), FocusTree = RotaryFocus> {
    Rotary::new(
        |state: &mut State, event: &RotaryEvent| count_rotary_event(state, event),
        |_rotary_state: &RotaryState| Indicator,
    )
}

/// Tests the complete state lifecycle of Rotary:
/// `UnFocused` -> `Focused` -> `Captive` -> `Focused` (via blur/select) -> `Captive` (re-entry)
#[test]
fn state_lifecycle_and_transitions() {
    let mut harness = Harness::new(rotary_view(), State::default());
    assert_eq!(harness.view_state.0, RotaryState::UnFocused);

    // UnFocused -> Focused: Focus should succeed
    let result = harness.focus_forward();
    assert!(result.has_focus());
    assert_eq!(
        harness.state.focused_count, 0,
        "Focused event only fires on captive entry"
    );

    // Focused -> Captive: Select enters captive mode and fires Focused event
    let result = harness.select();
    assert!(result.has_focus());
    assert_eq!(
        harness.state.focused_count, 1,
        "Should fire Focused event on captive entry"
    );

    // Captive -> Focused: Blur exits captive mode and fires Exit event
    let result = harness.blur();
    assert!(
        result.has_focus(),
        "Should remain focused after blur from captive"
    );
    assert_eq!(harness.state.exit_count, 1, "Should fire Exit event");

    // Focused -> Captive again: Re-enter captive mode
    harness.select();
    assert_eq!(
        harness.state.focused_count, 2,
        "Should fire Focused event again"
    );

    // Make some changes while captive
    harness.next();
    harness.next();
    assert_eq!(harness.state.value, 2);

    // Captive -> Focused: Select also exits captive mode
    let result = harness.select();
    assert!(result.has_focus());
    assert_eq!(
        harness.state.exit_count, 2,
        "Select should also fire Exit event"
    );

    // Re-enter and verify state persists
    harness.select();
    assert_eq!(harness.state.focused_count, 3);
    harness.previous();
    assert_eq!(
        harness.state.value, 1,
        "Value should continue from where we left off"
    );
}

/// Tests that Next/Previous fire events correctly when in captive mode
#[test]
fn captive_mode_navigation_events() {
    let mut harness = Harness::new(rotary_view(), State::default());

    harness.focus_forward();
    harness.select(); // Enter captive

    // Next should fire RotaryEvent::Next and increment value
    let result = harness.next();
    assert!(result.has_focus());
    assert_eq!(harness.state.next_count, 1);
    assert_eq!(harness.state.value, 1);

    // Multiple next events
    harness.next();
    harness.next();
    assert_eq!(harness.state.next_count, 3);
    assert_eq!(harness.state.value, 3);

    // Previous should fire RotaryEvent::Previous and decrement value
    let result = harness.previous();
    assert!(result.has_focus());
    assert_eq!(harness.state.previous_count, 1);
    assert_eq!(harness.state.value, 2);

    // Multiple previous events
    harness.previous();
    harness.previous();
    harness.previous();
    harness.previous();
    assert_eq!(harness.state.previous_count, 5);
    assert_eq!(harness.state.value, -2);
}

/// Tests that Next/Previous/Blur defer when not in captive mode
#[test]
fn non_captive_events_defer() {
    let mut harness = Harness::new(rotary_view(), State::default());

    harness.focus_forward(); // Focused but not captive

    // Next should defer (pass through to parent)
    let result = harness.next();
    assert!(
        matches!(result, EventResult::Deferred),
        "Next when not captive should defer"
    );
    assert_eq!(harness.state.next_count, 0, "Should not fire Next event");

    // Previous should defer (pass through to parent)
    let result = harness.previous();
    assert!(
        matches!(result, EventResult::Deferred),
        "Previous when not captive should defer"
    );
    assert_eq!(
        harness.state.previous_count, 0,
        "Should not fire Previous event"
    );

    // Blur when not captive should defer
    let result = harness.blur();
    assert!(
        matches!(result, EventResult::Deferred),
        "Blur when not captive should defer"
    );
    assert_eq!(harness.state.exit_count, 0, "Should not fire Exit event");
}

#[test]
fn rotary_states_follow_focus() {
    let mut harness = Harness::new(rotary_view(), State::default());
    harness.focus_forward();
    assert_eq!(harness.view_state.0, RotaryState::Focused);
    harness.select();
    assert_eq!(harness.view_state.0, RotaryState::Captive);
    harness.focus_backward();
    assert_eq!(harness.view_state.0, RotaryState::Captive);
    harness.blur();
    assert_eq!(harness.view_state.0, RotaryState::Focused);
    harness.next();
    assert_eq!(harness.view_state.0, RotaryState::UnFocused);
}

#[test]
fn rotary_requests_rebuild_on_focus_events_only() {
    let mut harness = Harness::new(rotary_view(), State::default());
    assert!(matches!(harness.send(Event::Other(7)), EventResult::Deferred));
    assert_eq!(harness.rebuilds, 0);
    harness.focus_forward();
    assert_eq!(harness.rebuilds, 1);
    harness.next();
    assert_eq!(harness.rebuilds, 2);
}

#[test]
fn rotary_default_focus_is_not_captive() {
    let mut harness = Harness::new(rotary_view(), State::default()).with_focus_at_end();
    // Not captive: Next defers instead of firing an event.
    assert!(matches!(harness.next(), EventResult::Deferred));
    assert_eq!(harness.state.next_count, 0);
}

fn paged_buttons() -> Paginate<Buttons, fn(&mut State, &PageEvent)> {
    fn on_page(_state: &mut State, _event: &PageEvent) {}
    Paginate::new(on_page as fn(&mut State, &PageEvent), Buttons { tag: "page", count: 2 })
}

#[test]
fn paginate_passes_events_to_content() {
    let mut harness = Harness::new(paged_buttons(), State::default());
    assert!(harness.focus_forward().has_focus());
    assert_eq!(harness.state.focused, Some(("page", 0)));
    assert!(harness.next().has_focus());
    assert_eq!(harness.state.focused, Some(("page", 1)));
    assert!(matches!(harness.next(), EventResult::Deferred));
    harness.select();
    assert_eq!(harness.state.selected, Some(("page", 1)));
}

fn popover_view(
    shown: bool,
    overlay_buttons: usize,
) -> Popover<Buttons, impl Fn(&()) -> Buttons, Buttons, ()> {
    Popover::new(
        Buttons { tag: "main", count: 1 },
        if shown { Some(()) } else { None },
        move |_: &()| Buttons { tag: "popover", count: overlay_buttons },
    )
}

#[test]
fn popover_shown_receives_focus() {
    let mut harness = Harness::new(popover_view(true, 1), State::default());

    // Popover button should receive focus first
    let result = harness.focus_forward();
    assert!(result.has_focus());
    assert_eq!(
        harness.state.focused,
        Some(("popover", 0)),
        "Popover content should receive focus"
    );
}

#[test]
fn popover_hidden_shows_main_view() {
    let mut harness = Harness::new(popover_view(false, 1), State::default());

    // Without popover, should focus main button
    let result = harness.focus_forward();
    assert!(result.has_focus());
    assert_eq!(
        harness.state.focused,
        Some(("main", 0)),
        "Main button should be focusable when popover is hidden"
    );
}

#[test]
fn popover_wraps_focus_forward() {
    let mut harness = Harness::new(popover_view(true, 2), State::default());

    // Focus first element
    let result = harness.focus_forward();
    assert!(result.has_focus());
    assert_eq!(harness.state.focused, Some(("popover", 0)), "First element");

    // Navigate to second element using next()
    let result = harness.next();
    assert!(result.has_focus());
    assert_eq!(harness.state.focused, Some(("popover", 1)), "Second element");

    // Navigate forward again - should wrap to first element
    let result = harness.next();
    assert!(result.has_focus());
    assert_eq!(
        harness.state.focused,
        Some(("popover", 0)),
        "Should wrap to first element when moving forward past end"
    );
}

#[test]
fn popover_wraps_focus_backward_from_start() {
    let mut harness = Harness::new(popover_view(true, 2), State::default());

    // First acquire focus on the first element
    let result = harness.focus_forward();
    assert!(result.has_focus());
    assert_eq!(harness.state.focused, Some(("popover", 0)), "First element");

    // Navigate backward from first - should wrap to last element
    let result = harness.previous();
    assert!(result.has_focus());
    assert_eq!(
        harness.state.focused,
        Some(("popover", 1)),
        "Should wrap to last element when moving backward from start"
    );
}

#[test]
fn popover_wraps_focus_backward() {
    let mut harness = Harness::new(popover_view(true, 2), State::default());

    let result = harness.focus_forward();
    assert!(result.has_focus());
    assert_eq!(harness.state.focused, Some(("popover", 0)), "First element");

    let result = harness.next();
    assert!(result.has_focus());
    assert_eq!(harness.state.focused, Some(("popover", 1)), "Second element");

    // Navigate backward - should go to the first element
    let result = harness.previous();
    assert!(result.has_focus());
    assert_eq!(harness.state.focused, Some(("popover", 0)), "Previous element");

    // Navigate backward again - should wrap to the last element
    let result = harness.previous();
    assert!(result.has_focus());
    assert_eq!(
        harness.state.focused,
        Some(("popover", 1)),
        "Should wrap to last element when moving backward past beginning"
    );
}

#[test]
fn popover_keeps_inner_focus_while_shown() {
    let mut harness = Harness::new(popover_view(true, 2), State::default());
    harness.focus_forward();
    harness.next();
    assert_eq!(harness.focus_tree.inner, ButtonFocus::First);
    assert_eq!(harness.focus_tree.overlay, Some(ButtonFocus::At(1)));
}

#[test]
fn popover_hidden_clears_overlay_focus() {
    let mut harness = Harness::new(popover_view(false, 2), State::default());
    harness.focus_tree = FocusTree {
        inner: ButtonFocus::First,
        overlay: Some(ButtonFocus::At(1)),
    };
    harness.focus_forward();
    assert_eq!(harness.focus_tree.overlay, None);
    assert_eq!(harness.focus_tree.inner, ButtonFocus::At(0));
}

#[test]
fn popover_select_goes_to_overlay() {
    let mut harness = Harness::new(popover_view(true, 1), State::default());
    harness.focus_forward();
    harness.select();
    assert_eq!(harness.state.selected, Some(("popover", 0)));
}

#[test]
fn popover_other_events_go_to_inner_when_hidden() {
    let mut harness = Harness::new(popover_view(false, 1), State::default());
    assert!(matches!(harness.send(Event::Other(1)), EventResult::Deferred));
    assert_eq!(harness.focus_tree.overlay, None);
}

#[test]
fn popover_state_holds_overlay_only_while_shown() {
    let shown = Harness::new(popover_view(true, 1), State::default());
    assert!(shown.view_state.overlay_state.is_some());
    assert!(matches!(shown.render_tree.1.subtree, TransitionOption::Present { .. }));
    assert!(shown.render_tree.1.value);
    let hidden = Harness::new(popover_view(false, 1), State::default());
    assert!(hidden.view_state.overlay_state.is_none());
    assert!(matches!(hidden.render_tree.1.subtree, TransitionOption::Absent));
    assert!(!hidden.render_tree.1.value);
}

#[test]
fn popover_behavior_default_wraps() {
    assert_eq!(Behavior::default(), Behavior::Wrap);
}

#[test]
fn boundary_responses() {
    assert_eq!(
        Behavior::Wrap.boundary_response(FocusAction::Next),
        BoundaryResponse::Wrap { to_first: true, direction: FocusDirection::Forward }
    );
    assert_eq!(
        Behavior::Wrap.boundary_response(FocusAction::Previous),
        BoundaryResponse::Wrap { to_first: false, direction: FocusDirection::Backward }
    );
    assert_eq!(
        Behavior::Terminate.boundary_response(FocusAction::Focus(FocusDirection::Forward)),
        BoundaryResponse::Refocus { direction: FocusDirection::Backward }
    );
    assert_eq!(
        Behavior::Terminate.boundary_response(FocusAction::Blur),
        BoundaryResponse::Refocus { direction: FocusDirection::Forward }
    );
    assert_eq!(
        Behavior::Wrap.overlay_follow_up(
            FocusAction::Next,
            EventResult::HandledFocused(ContentShape::Empty),
        ),
        None
    );
    assert_eq!(
        Behavior::Terminate.overlay_follow_up(FocusAction::Previous, EventResult::Deferred),
        Some(BoundaryResponse::Refocus { direction: FocusDirection::Forward })
    );
}

#[test]
fn popover_reports_inner_priority_and_emptiness() {
    let popover = popover_view(true, 1);
    assert_eq!(ViewLayout::<State>::priority(&popover), 0);
    assert!(!ViewLayout::<State>::is_empty(&popover));
}

#[test]
fn paginate_focus_defaults_to_content_ends() {
    let first: buoyant::view::paginate::PaginateFocusTree<ButtonFocus> = DefaultFocus::default_first();
    let last: buoyant::view::paginate::PaginateFocusTree<ButtonFocus> = DefaultFocus::default_last();
    let mut harness = Harness::new(paged_buttons(), State::default());
    harness.focus_tree = last;
    assert!(harness.focus_backward().has_focus());
    assert_eq!(harness.state.focused, Some(("page", 1)));
    harness.focus_tree = first;
    assert!(harness.focus_forward().has_focus());
    assert_eq!(harness.state.focused, Some(("page", 0)));
}

#[test]
fn rotary_focus_reports_the_content_shape() {
    let mut harness = Harness::new(rotary_view(), State::default());
    let result = harness.focus_forward();
    assert_eq!(
        result.shape(),
        Some(ContentShape::Rectangle(Rectangle::new(Point::zero(), Size::new(100, 100))))
    );
}

#[test]
fn popover_takes_the_offer_and_renders_the_overlay_in_the_inner_size() {
    let popover = popover_view(true, 1);
    let mut state = State::default();
    let mut view_state = ViewLayout::<State>::build_state(&popover, &mut state);
    let env = LayoutEnvironment { app_time_ms: 42 };
    let offer = ProposedDimensions {
        width: ProposedDimension::Exact(80),
        height: ProposedDimension::Compact,
    };
    let layout = popover.layout(&offer, &env, &mut state, &mut view_state);
    assert_eq!(layout.resolved_size, Size::new(80, 1));
    assert_eq!(layout.sublayouts.resolved_size, Size::new(80, 10));
    let origin = Point::new(3, 4);
    let tree = popover.render_tree(&layout.sublayouts, origin, &env, &mut state, &mut view_state);
    assert_eq!(tree.0, Rendered { origin, size: Size::new(80, 10) });
    assert_eq!(tree.1.animation, Animation { duration_ms: 300, curve: Curve::EaseOut });
    assert_eq!(tree.1.frame_time_ms, 42);
    assert!(tree.1.value);
    match tree.1.subtree {
        TransitionOption::Present { subtree, size, transition } => {
            assert_eq!(subtree, Rendered { origin, size: Size::new(80, 10) });
            assert_eq!(size, Size::new(80, 10));
            assert_eq!(transition, Opacity);
        }
        TransitionOption::Absent => panic!("the overlay is shown"),
    }
}

#[test]
fn popover_infinite_offer_takes_everything() {
    let popover = popover_view(false, 1);
    let mut state = State::default();
    let mut view_state = ViewLayout::<State>::build_state(&popover, &mut state);
    let env = LayoutEnvironment { app_time_ms: 0 };
    let offer = ProposedDimensions {
        width: ProposedDimension::Infinite,
        height: ProposedDimension::Exact(7),
    };
    let layout = popover.layout(&offer, &env, &mut state, &mut view_state);
    assert_eq!(layout.resolved_size, Size::new(u32::MAX, 7));
}
