use rustrelay::selector::{Interest, Selector};

#[test]
fn register_hands_out_fresh_tokens() {
    let mut selector = Selector::new();
    let a = selector.register(Interest::new(true, false));
    let b = selector.register(Interest::new(false, true));
    assert_ne!(a, b);
    assert_eq!(selector.entries.len(), 2);
    assert_eq!(selector.entries[0].token, a);
    assert_eq!(selector.entries[0].interest, Interest::new(true, false));
    assert_eq!(selector.entries[1].token, b);
}

#[test]
fn update_interest_touches_only_its_token() {
    let mut selector = Selector::new();
    let a = selector.register(Interest::new(true, false));
    let b = selector.register(Interest::new(true, false));
    selector.update_interest(a, Interest::new(true, true));
    assert_eq!(selector.entries[0].token, a);
    assert_eq!(selector.entries[0].interest, Interest::new(true, true));
    assert_eq!(selector.entries[1].token, b);
    assert_eq!(selector.entries[1].interest, Interest::new(true, false));
}

#[test]
fn deregister_removes_one_registration_and_keeps_the_rest() {
    let mut selector = Selector::new();
    let a = selector.register(Interest::new(true, false));
    let b = selector.register(Interest::new(false, true));
    let c = selector.register(Interest::new(true, true));
    selector.deregister(b);
    assert_eq!(selector.entries.len(), 2);
    assert!(selector.entries.iter().all(|e| e.token != b));
    assert!(selector.entries.iter().any(|e| e.token == a));
    assert!(selector.entries.iter().any(|e| e.token == c));

    // Unknown tokens are a no-op.
    selector.deregister(b);
    assert_eq!(selector.entries.len(), 2);

    // A token is never reissued.
    let d = selector.register(Interest::new(true, false));
    assert!(d != a && d != b && d != c);
}
