use input_monitor::object::RefOp::{Decrement, Increment};
use input_monitor::object::{run_lifetime, CallbackObject, HandlerKind, InterfaceId, QueryOutcome, RefOp};

#[test]
fn new_object_starts_with_one_reference() {
    let obj = CallbackObject::create(HandlerKind::FocusChanged);
    assert_eq!(obj.ref_count(), 1);
    assert_eq!(obj.kind(), HandlerKind::FocusChanged);
}

#[test]
fn add_ref_and_release_return_new_count() {
    let mut obj = CallbackObject::create(HandlerKind::PropertyChanged);
    assert_eq!(obj.add_ref(), 2);
    assert_eq!(obj.add_ref(), 3);
    assert_eq!(obj.release(), 2);
    assert_eq!(obj.release(), 1);
    assert_eq!(obj.release(), 0);
}

#[test]
fn query_base_interface_succeeds_and_counts() {
    let mut obj = CallbackObject::create(HandlerKind::AutomationEvent);
    assert_eq!(obj.query_capability(InterfaceId::Unknown), QueryOutcome::Supported(2));
    assert_eq!(obj.ref_count(), 2);
}

#[test]
fn query_own_behaviour_interface_succeeds() {
    let mut f = CallbackObject::create(HandlerKind::FocusChanged);
    assert_eq!(f.query_capability(InterfaceId::FocusChangedHandler), QueryOutcome::Supported(2));
    let mut p = CallbackObject::create(HandlerKind::PropertyChanged);
    assert_eq!(p.query_capability(InterfaceId::PropertyChangedHandler), QueryOutcome::Supported(2));
    let mut a = CallbackObject::create(HandlerKind::AutomationEvent);
    assert_eq!(a.query_capability(InterfaceId::AutomationEventHandler), QueryOutcome::Supported(2));
    assert_eq!(a.query_capability(InterfaceId::AutomationEventHandler), QueryOutcome::Supported(3));
}

#[test]
fn query_foreign_interface_is_refused_without_count_change() {
    let mut f = CallbackObject::create(HandlerKind::FocusChanged);
    assert_eq!(f.query_capability(InterfaceId::PropertyChangedHandler), QueryOutcome::NotSupported);
    assert_eq!(f.query_capability(InterfaceId::AutomationEventHandler), QueryOutcome::NotSupported);
    assert_eq!(f.query_capability(InterfaceId::Other), QueryOutcome::NotSupported);
    assert_eq!(f.ref_count(), 1);
    let mut p = CallbackObject::create(HandlerKind::PropertyChanged);
    assert_eq!(p.query_capability(InterfaceId::FocusChangedHandler), QueryOutcome::NotSupported);
    assert_eq!(p.ref_count(), 1);
}

#[test]
fn lifetime_destroyed_once_when_net_count_reaches_zero() {
    assert_eq!(run_lifetime(HandlerKind::FocusChanged, &vec![Decrement]), 1);
    assert_eq!(run_lifetime(HandlerKind::FocusChanged, &vec![Increment, Increment, Decrement, Decrement, Decrement]), 1);
    assert_eq!(run_lifetime(HandlerKind::PropertyChanged, &vec![Increment, Decrement, Increment, Decrement, Decrement]), 1);
}

#[test]
fn lifetime_not_destroyed_while_references_remain() {
    assert_eq!(run_lifetime(HandlerKind::AutomationEvent, &vec![]), 0);
    assert_eq!(run_lifetime(HandlerKind::AutomationEvent, &vec![Increment, Decrement]), 0);
    assert_eq!(run_lifetime(HandlerKind::AutomationEvent, &vec![Increment, Increment, Decrement]), 0);
}

#[test]
fn lifetime_pseudo_random_sequences() {
    // a small linear congruential generator drives valid sequences
    let mut seed: u64 = 12345;
    for _ in 0..200 {
        let mut ops = Vec::new();
        let mut count: i64 = 1;
        let len = (seed % 20) as usize;
        for _ in 0..len {
            seed = seed.wrapping_mul(6364136223846793005).wrapping_add(1442695040888963407);
            if count == 0 {
                break;
            }
            if (seed >> 33) % 2 == 0 {
                ops.push(RefOp::Increment);
                count += 1;
            } else {
                ops.push(RefOp::Decrement);
                count -= 1;
            }
        }
        let expected = if count == 0 { 1 } else { 0 };
        assert_eq!(run_lifetime(HandlerKind::FocusChanged, &ops), expected);
        seed = seed.wrapping_add(7);
    }
}
