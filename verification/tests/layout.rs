use buoyant::layout::{ProposedDimension, ProposedDimensions};
use buoyant::primitives::{Point, Rectangle, Size};
use buoyant::render::{Animate, Animation, ContentShape, Curve, TransitionOption};
use buoyant::event::EventResult;

#[test]
fn most_flexible_resolution() {
    assert_eq!(ProposedDimension::Exact(5).resolve_most_flexible(0, 1), 5);
    assert_eq!(ProposedDimension::Exact(5).resolve_most_flexible(9, 1), 9);
    assert_eq!(ProposedDimension::Compact.resolve_most_flexible(0, 1), 1);
    assert_eq!(ProposedDimension::Infinite.resolve_most_flexible(0, 1), u32::MAX);
    let offer = ProposedDimensions {
        width: ProposedDimension::Compact,
        height: ProposedDimension::Exact(30),
    };
    assert_eq!(offer.resolve_most_flexible(0, 1), Size::new(1, 30));
}

#[test]
fn size_offers_exactly() {
    let offer: ProposedDimensions = Size::new(12, 34).into();
    assert_eq!(offer.width, ProposedDimension::Exact(12));
    assert_eq!(offer.height, ProposedDimension::Exact(34));
}

#[test]
fn animation_and_transition_values() {
    let animation = Animation::ease_out(300);
    assert_eq!(animation, Animation { duration_ms: 300, curve: Curve::EaseOut });
    let animated = Animate::new(7u8, animation, 11, true);
    assert_eq!(animated.subtree, 7);
    assert_eq!(animated.frame_time_ms, 11);
    assert!(animated.value);
    let shown: TransitionOption<u8, ()> = TransitionOption::new_some(1, Size::new(2, 3), ());
    assert_eq!(
        shown,
        TransitionOption::Present { subtree: 1, size: Size::new(2, 3), transition: () }
    );
}

#[test]
fn event_result_shapes() {
    let shape = ContentShape::Rectangle(Rectangle::new(Point::new(1, 2), Size::new(3, 4)));
    let result = EventResult::handled_focused(shape);
    assert!(result.has_focus());
    assert_eq!(result.shape(), Some(shape));
    assert_eq!(EventResult::Deferred.shape(), None);
    assert!(!EventResult::Handled.has_focus());
    assert!(EventResult::Deferred.is_deferred());
}
