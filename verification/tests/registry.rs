use bevy_scrollbar::registry::{BindError, EntityId, Link, Registry, Role, Scrollbar};

fn bar(scrollable: u64) -> Scrollbar {
    Scrollbar { scrollable: EntityId(scrollable) }
}

#[test]
fn new_registry_is_empty() {
    let r = Registry::new();
    assert_eq!(r.len(), 0);
    assert_eq!(r.find(EntityId(1)), None);
    assert_eq!(r.scrollable_of(EntityId(1)), None);
    assert_eq!(r.scrollbar_of(EntityId(1)), None);
    assert_eq!(r.thumb_of(EntityId(1)), None);
    assert_eq!(r.track_of(EntityId(1)), None);
}

#[test]
fn bind_links_both_sides() {
    let mut r = Registry::new();
    let mark = r.bind(EntityId(1), bar(2)).unwrap();
    assert_eq!(mark.scrollbar(), EntityId(1));
    assert_eq!(r.len(), 1);
    assert_eq!(r.scrollable_of(EntityId(1)), Some(EntityId(2)));
    assert_eq!(r.scrollbar_of(EntityId(2)), Some(EntityId(1)));
    assert_eq!(r.scrollable_of(EntityId(2)), None);
    assert_eq!(r.scrollbar_of(EntityId(1)), None);
    assert_eq!(r.thumb_of(EntityId(1)), None);
    let link = Link { scrollbar: EntityId(1), scrollable: EntityId(2), thumb: None };
    assert_eq!(r.find(EntityId(1)), Some((link, Role::Scrollbar)));
    assert_eq!(r.find(EntityId(2)), Some((link, Role::Scrollable)));
    assert_eq!(r.find(EntityId(3)), None);
}

#[test]
fn binding_a_bound_pair_again_changes_nothing() {
    let mut r = Registry::new();
    r.bind(EntityId(1), bar(2)).unwrap();
    r.attach_thumb(EntityId(1), EntityId(3)).unwrap();
    let mark = r.bind(EntityId(1), bar(2)).unwrap();
    assert_eq!(mark.scrollbar(), EntityId(1));
    assert_eq!(r.len(), 1);
    assert_eq!(r.thumb_of(EntityId(1)), Some(EntityId(3)));
}

#[test]
fn bind_refuses_a_scrollbar_of_itself() {
    let mut r = Registry::new();
    assert_eq!(r.bind(EntityId(1), bar(1)), Err(BindError::SelfBinding));
    assert_eq!(r.len(), 0);
    r.bind(EntityId(1), bar(2)).unwrap();
    assert_eq!(r.bind(EntityId(1), bar(1)), Err(BindError::SelfBinding));
    assert_eq!(r.len(), 1);
}

#[test]
fn bind_refuses_an_entity_of_another_pair() {
    let mut r = Registry::new();
    r.bind(EntityId(1), bar(2)).unwrap();
    r.attach_thumb(EntityId(1), EntityId(3)).unwrap();
    // a second scrollbar for the region, a second region for the scrollbar
    assert_eq!(r.bind(EntityId(4), bar(2)), Err(BindError::AlreadyBound));
    assert_eq!(r.bind(EntityId(1), bar(4)), Err(BindError::AlreadyBound));
    // the sides the other way round
    assert_eq!(r.bind(EntityId(2), bar(1)), Err(BindError::AlreadyBound));
    // a region as a scrollbar, a scrollbar as a region, the thumb as either
    assert_eq!(r.bind(EntityId(2), bar(4)), Err(BindError::AlreadyBound));
    assert_eq!(r.bind(EntityId(4), bar(1)), Err(BindError::AlreadyBound));
    assert_eq!(r.bind(EntityId(3), bar(4)), Err(BindError::AlreadyBound));
    assert_eq!(r.bind(EntityId(4), bar(3)), Err(BindError::AlreadyBound));
    assert_eq!(r.len(), 1);
    assert_eq!(r.scrollable_of(EntityId(1)), Some(EntityId(2)));
    assert_eq!(r.find(EntityId(4)), None);
    r.bind(EntityId(4), bar(5)).unwrap();
    assert_eq!(r.len(), 2);
    assert_eq!(r.scrollbar_of(EntityId(5)), Some(EntityId(4)));
}

#[test]
fn attach_thumb_links_the_thumb_to_its_track() {
    let mut r = Registry::new();
    r.bind(EntityId(1), bar(2)).unwrap();
    assert_eq!(r.attach_thumb(EntityId(1), EntityId(3)), Ok(()));
    assert_eq!(r.thumb_of(EntityId(1)), Some(EntityId(3)));
    assert_eq!(r.track_of(EntityId(3)), Some(EntityId(1)));
    assert_eq!(r.track_of(EntityId(1)), None);
    assert_eq!(r.thumb_of(EntityId(2)), None);
    let link = Link { scrollbar: EntityId(1), scrollable: EntityId(2), thumb: Some(EntityId(3)) };
    assert_eq!(r.find(EntityId(3)), Some((link, Role::Thumb)));
    assert_eq!(r.attach_thumb(EntityId(1), EntityId(3)), Ok(()));
    assert_eq!(r.len(), 1);
}

#[test]
fn attach_thumb_refuses_what_is_not_a_scrollbar() {
    let mut r = Registry::new();
    assert_eq!(r.attach_thumb(EntityId(1), EntityId(3)), Err(BindError::NotBound));
    r.bind(EntityId(1), bar(2)).unwrap();
    assert_eq!(r.attach_thumb(EntityId(2), EntityId(3)), Err(BindError::NotBound));
    assert_eq!(r.attach_thumb(EntityId(9), EntityId(3)), Err(BindError::NotBound));
    r.attach_thumb(EntityId(1), EntityId(3)).unwrap();
    assert_eq!(r.attach_thumb(EntityId(3), EntityId(4)), Err(BindError::NotBound));
    assert_eq!(r.find(EntityId(4)), None);
}

#[test]
fn attach_thumb_refuses_a_second_thumb_and_a_bound_entity() {
    let mut r = Registry::new();
    r.bind(EntityId(1), bar(2)).unwrap();
    r.bind(EntityId(4), bar(5)).unwrap();
    assert_eq!(r.attach_thumb(EntityId(1), EntityId(1)), Err(BindError::AlreadyBound));
    assert_eq!(r.attach_thumb(EntityId(1), EntityId(2)), Err(BindError::AlreadyBound));
    assert_eq!(r.attach_thumb(EntityId(1), EntityId(5)), Err(BindError::AlreadyBound));
    assert_eq!(r.thumb_of(EntityId(1)), None);
    r.attach_thumb(EntityId(1), EntityId(3)).unwrap();
    assert_eq!(r.attach_thumb(EntityId(1), EntityId(6)), Err(BindError::AlreadyBound));
    assert_eq!(r.attach_thumb(EntityId(4), EntityId(3)), Err(BindError::AlreadyBound));
    assert_eq!(r.thumb_of(EntityId(1)), Some(EntityId(3)));
    assert_eq!(r.thumb_of(EntityId(4)), None);
}

#[test]
fn destroying_either_side_dissolves_the_pair() {
    for gone in [1u64, 2] {
        let mut r = Registry::new();
        r.bind(EntityId(1), bar(2)).unwrap();
        r.attach_thumb(EntityId(1), EntityId(3)).unwrap();
        r.bind(EntityId(4), bar(5)).unwrap();
        let link = r.remove(EntityId(gone));
        assert_eq!(
            link,
            Some(Link { scrollbar: EntityId(1), scrollable: EntityId(2), thumb: Some(EntityId(3)) })
        );
        assert_eq!(r.len(), 1);
        for id in [1u64, 2, 3] {
            assert_eq!(r.find(EntityId(id)), None);
        }
        assert_eq!(r.scrollable_of(EntityId(4)), Some(EntityId(5)));
        // the entities are free to be bound again
        r.bind(EntityId(3), bar(1)).unwrap();
        assert_eq!(r.len(), 2);
    }
}

#[test]
fn removing_what_is_no_side_changes_nothing() {
    let mut r = Registry::new();
    assert_eq!(r.remove(EntityId(1)), None);
    r.bind(EntityId(1), bar(2)).unwrap();
    r.attach_thumb(EntityId(1), EntityId(3)).unwrap();
    assert_eq!(r.remove(EntityId(3)), None);
    assert_eq!(r.remove(EntityId(9)), None);
    assert_eq!(r.len(), 1);
    assert_eq!(r.thumb_of(EntityId(1)), Some(EntityId(3)));
}

#[test]
fn removal_keeps_the_order_of_the_other_pairs() {
    let mut r = Registry::new();
    r.bind(EntityId(1), bar(2)).unwrap();
    r.bind(EntityId(3), bar(4)).unwrap();
    r.bind(EntityId(5), bar(6)).unwrap();
    assert!(r.remove(EntityId(4)).is_some());
    assert_eq!(r.len(), 2);
    assert_eq!(r.scrollable_of(EntityId(1)), Some(EntityId(2)));
    assert_eq!(r.scrollable_of(EntityId(5)), Some(EntityId(6)));
    assert_eq!(r.scrollable_of(EntityId(3)), None);
}

#[test]
fn role_of_each_part_of_a_link() {
    let link = Link { scrollbar: EntityId(1), scrollable: EntityId(2), thumb: Some(EntityId(3)) };
    assert_eq!(link.role_of(EntityId(1)), Some(Role::Scrollbar));
    assert_eq!(link.role_of(EntityId(2)), Some(Role::Scrollable));
    assert_eq!(link.role_of(EntityId(3)), Some(Role::Thumb));
    assert_eq!(link.role_of(EntityId(4)), None);
    let link = Link { scrollbar: EntityId(1), scrollable: EntityId(2), thumb: None };
    assert_eq!(link.role_of(EntityId(3)), None);
}
