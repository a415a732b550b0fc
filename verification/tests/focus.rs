use buoyant::focus::{DefaultFocus, FocusAction, FocusDirection, FocusGroup};

#[test]
fn group_indecies() {
    for i in 0..8 {
        let group = FocusGroup::new(i).unwrap();
        let unchecked_group = FocusGroup::new_unchecked(i);
        assert_eq!(group, unchecked_group);
        assert_eq!(group.index(), Some(i));
    }
}

#[test]
fn common_group_equals_all_groups() {
    assert_eq!(FocusGroup::common_group(), FocusGroup::common_group());

    for i in 0..8 {
        let group = FocusGroup::new(i).unwrap();
        assert_eq!(group, FocusGroup::common_group());
    }
}

#[test]
fn group_index_out_of_range_is_none() {
    assert_eq!(FocusGroup::new(8), None);
    assert_eq!(FocusGroup::new(255), None);
}

#[test]
fn distinct_groups_are_not_equal() {
    for i in 0..8 {
        for j in 0..8 {
            let a = FocusGroup::new_unchecked(i);
            let b = FocusGroup::new_unchecked(j);
            assert_eq!(a == b, i == j);
            assert_eq!(b == a, a == b);
        }
    }
}

#[test]
fn common_group_has_no_index() {
    let common = FocusGroup::common_group();
    assert!(common.is_common_group());
    assert_eq!(common.index(), None);
    assert!(!FocusGroup::new_unchecked(3).is_common_group());
    assert_eq!(FocusGroup::new_unchecked(7).index(), Some(7));
}

#[test]
fn default_group_is_common() {
    assert!(FocusGroup::default().is_common_group());
}

#[test]
fn default_direction_is_forward() {
    assert_eq!(FocusDirection::default(), FocusDirection::Forward);
}

#[test]
fn unit_focus_tree_defaults() {
    let () = <() as DefaultFocus>::default_first();
    let () = <() as DefaultFocus>::default_last();
}

#[test]
fn focus_action_becomes_focus_event() {
    let event: buoyant::event::Event = FocusAction::Next.into();
    assert_eq!(event, buoyant::event::Event::Focus(FocusAction::Next));
}
