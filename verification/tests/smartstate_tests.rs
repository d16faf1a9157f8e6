use kolibri_embedded_gui::smartstate::{Container, Smartstate, SmartstateProvider};

// Container tests
#[test]
fn test_container_empty() {
    let container: Container<i32> = Container::empty();
    assert!(container.clone_inner().is_none());
}

#[test]
fn test_container_new() {
    let mut value = 5;
    let container = Container::new(&mut value);
    assert!(container.clone_inner().is_some());
    assert_eq!(container.clone_inner().unwrap(), 5);
}

#[test]
fn test_container_set() {
    let mut container: Container<i32> = Container::empty();
    let mut value = 10;
    container.set(&mut value);
    assert!(container.clone_inner().is_some());
    assert_eq!(container.clone_inner().unwrap(), 10);
}

#[test]
fn test_container_modify() {
    let mut value = 5;
    let mut container = Container::new(&mut value);
    container.modify(|v| *v = 7);
    assert_eq!(container.clone_inner().unwrap(), 7);
    assert_eq!(value, 7);
}

#[test]
fn test_container_clone_inner() {
    let mut value = 5;
    let container = Container::new(&mut value);
    assert_eq!(container.clone_inner(), Some(5));

    let empty_container: Container<i32> = Container::empty();
    assert_eq!(empty_container.clone_inner(), None);
}

#[test]
fn test_container_eq_inner() {
    let mut value = 5;
    let container = Container::new(&mut value);
    assert!(container.eq_inner(&5));
    assert!(!container.eq_inner(&6));

    let empty_container: Container<i32> = Container::empty();
    assert!(!empty_container.eq_inner(&5));
}

#[test]
fn test_container_eq_option() {
    let mut value = 5;
    let container = Container::new(&mut value);
    assert!(container.eq_option(&Some(5)));
    assert!(!container.eq_option(&Some(6)));
    assert!(!container.eq_option(&None));

    let empty_container: Container<i32> = Container::empty();
    assert!(!empty_container.eq_option(&Some(5)));
    assert!(!empty_container.eq_option(&None));
}

// Smartstate tests
#[test]
fn test_smartstate_empty() {
    let state = Smartstate::empty();
    assert!(state.is_empty());
    assert!(state.is_empty());
}

#[test]
fn test_smartstate_state() {
    let state = Smartstate::state(42);
    assert!(!state.is_empty());
    assert!(state.is_state(42));
    assert!(!state.is_state(43));
}

#[test]
fn test_smartstate_set_state() {
    let mut state = Smartstate::empty();
    state.set_state(42);
    assert!(!state.is_empty());
    assert!(state.is_state(42));
}

#[test]
fn test_smartstate_set_state_hashed() {
    let mut state = Smartstate::empty();
    let value = "test";
    state.set_state_hashed(&value);
    assert!(!state.is_empty());
    assert!(state.is_state_hashed(&value));
    assert!(!state.is_state_hashed(&"other"));
}

#[test]
fn test_smartstate_force_redraw() {
    let mut state = Smartstate::state(42);
    assert!(!state.is_empty());
    state.force_redraw();
    assert!(state.is_empty());
}

#[test]
fn test_smartstate_eq() {
    let state1 = Smartstate::state(42);
    let state2 = Smartstate::state(42);
    let state3 = Smartstate::state(43);
    let empty_state = Smartstate::empty();
    let mut state4 = Smartstate::state(42);
    state4.force_redraw();

    assert_eq!(state1, state2);
    assert_ne!(state1, state3);
    assert_ne!(state1, empty_state);
    assert_ne!(state1, state4);
}

// SmartstateProvider tests
#[test]
fn test_provider_new_and_default() {
    let mut provider_new = SmartstateProvider::<10>::new();
    let mut provider_default = SmartstateProvider::<10>::default();
    assert_eq!(provider_new.size(), 10);
    assert_eq!(provider_new.get_pos(), 0);
    assert_eq!(provider_default.size(), 10);
    assert_eq!(provider_default.get_pos(), 0);
    for i in 0..10 {
        assert!(provider_new.get(i).is_empty());
        assert!(provider_default.get(i).is_empty());
    }
}

#[test]
fn test_provider_restart_counter() {
    let mut provider = SmartstateProvider::<5>::new();
    provider.nxt();
    provider.nxt();
    assert_eq!(provider.get_pos(), 2);
    provider.restart_counter();
    assert_eq!(provider.get_pos(), 0);
}

#[test]
fn test_provider_nxt_and_pos() {
    let mut provider = SmartstateProvider::<3>::new();
    assert_eq!(provider.get_pos(), 0);
    provider.nxt();
    assert_eq!(provider.get_pos(), 1);
    provider.nxt();
    assert_eq!(provider.get_pos(), 2);
    provider.nxt();
    assert_eq!(provider.get_pos(), 3);
}


#[test]
fn test_provider_current() {
    let mut provider = SmartstateProvider::<5>::new();
    provider.nxt().set_state(1);
    assert!(provider.current().is_state(1));
    provider.nxt().set_state(2);
    assert!(provider.current().is_state(2));
}


#[test]
fn test_provider_prev() {
    let mut provider = SmartstateProvider::<5>::new();
    provider.nxt().set_state(1);
    provider.nxt().set_state(2);
    assert!(provider.prev().is_state(1));
    provider.nxt().set_state(3);
    assert!(provider.prev().is_state(2));
}


#[test]
fn test_provider_peek() {
    let mut provider = SmartstateProvider::<5>::new();
    provider.peek().set_state(100);
    assert_eq!(provider.get_pos(), 0);
    assert!(provider.get(0).is_state(100));
    assert!(provider.peek().is_state(100));
}

#[test]
fn test_provider_get_relative() {
    let mut provider = SmartstateProvider::<5>::new();
    provider.nxt(); // pos = 1
    provider.nxt(); // pos = 2
    provider.get_relative(0).set_state(10); // at pos 2
    provider.get_relative(-1).set_state(11); // at pos 1
    provider.get_relative(-2).set_state(12); // at pos 0
    assert!(provider.get(2).is_state(10));
    assert!(provider.get(1).is_state(11));
    assert!(provider.get(0).is_state(12));
}

#[test]
fn test_provider_skip() {
    let mut provider = SmartstateProvider::<5>::new();
    provider.skip(2);
    assert_eq!(provider.get_pos(), 2);
    provider.skip_one();
    assert_eq!(provider.get_pos(), 3);
}

#[test]
fn test_provider_get() {
    let mut provider = SmartstateProvider::<5>::new();
    provider.get(3).set_state(99);
    assert!(provider.get(3).is_state(99));
}


#[test]
fn test_provider_force_redraw_all() {
    let mut provider = SmartstateProvider::<5>::new();
    for i in 0..5 {
        provider.get(i).set_state(i as u32);
    }
    provider.force_redraw_all();
    for i in 0..5 {
        assert!(provider.get(i).is_empty());
    }
}

#[test]
fn test_provider_force_redraw_remaining() {
    let mut provider = SmartstateProvider::<5>::new();
    for i in 0..5 {
        provider.get(i).set_state(i as u32);
    }
    provider.restart_counter();
    provider.skip(2);
    provider.force_redraw_remaining();
    assert!(!provider.get(0).is_empty());
    assert!(!provider.get(1).is_empty());
    assert!(provider.get(2).is_empty());
    assert!(provider.get(3).is_empty());
    assert!(provider.get(4).is_empty());
}

#[test]
fn test_provider_force_redraw_from_offset() {
    let mut provider = SmartstateProvider::<5>::new();
    for i in 0..5 {
        provider.get(i).set_state(i as u32);
    }
    provider.restart_counter();
    provider.skip(1);
    provider.force_redraw_from_offset(2); // from pos 1+2=3
    assert!(!provider.get(0).is_empty());
    assert!(!provider.get(1).is_empty());
    assert!(!provider.get(2).is_empty());
    assert!(provider.get(3).is_empty());
    assert!(provider.get(4).is_empty());
}

#[test]
fn test_provider_force_redraw_from() {
    let mut provider = SmartstateProvider::<5>::new();
    for i in 0..5 {
        provider.get(i).set_state(i as u32);
    }
    provider.force_redraw_from(3);
    assert!(!provider.get(0).is_empty());
    assert!(!provider.get(1).is_empty());
    assert!(!provider.get(2).is_empty());
    assert!(provider.get(3).is_empty());
    assert!(provider.get(4).is_empty());
}

#[test]
fn test_provider_force_redraw_range() {
    let mut provider = SmartstateProvider::<5>::new();
    for i in 0..5 {
        provider.get(i).set_state(i as u32);
    }
    provider.force_redraw_range(1..=3);
    assert!(!provider.get(0).is_empty());
    assert!(provider.get(1).is_empty());
    assert!(provider.get(2).is_empty());
    assert!(provider.get(3).is_empty());
    assert!(!provider.get(4).is_empty());
}

#[test]
fn test_provider_force_redraw_range_relative() {
    let mut provider = SmartstateProvider::<5>::new();
    for i in 0..5 {
        provider.get(i).set_state(i as u32);
    }
    provider.restart_counter();
    provider.skip(1);
    provider.force_redraw_range_relative(1..=2); // pos 2 and 3
    assert!(!provider.get(0).is_empty());
    assert!(!provider.get(1).is_empty());
    assert!(provider.get(2).is_empty());
    assert!(provider.get(3).is_empty());
    assert!(!provider.get(4).is_empty());
}

#[test]
fn force_redraw_from_zero_is_force_redraw_all() {
    let mut p = SmartstateProvider::<5>::new();
    let mut q = SmartstateProvider::<5>::new();
    for i in 0..5 {
        p.get(i).set_state(i as u32 + 1);
        q.get(i).set_state(i as u32 + 1);
    }
    p.nxt();
    q.nxt();
    p.force_redraw_from(0);
    q.force_redraw_all();
    assert_eq!(p.get_pos(), q.get_pos());
    for i in 0..5 {
        assert!(p.get(i).is_empty());
        assert!(q.get(i).is_empty());
    }
}
