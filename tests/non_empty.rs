use bpmn_model::definitions::StartEvent;
use bpmn_model::non_empty::{NonEmptyVec, ValidationError};

fn start(id: &str) -> StartEvent {
    StartEvent { id: id.to_string(), name: None }
}

#[test]
fn new_holds_one_element() {
    let n = NonEmptyVec::new(3u32);
    assert_eq!(n.len(), 1);
    assert_eq!(*n.first(), 3);
    assert_eq!(n.iter(), vec![&3]);
}

#[test]
fn from_matches_new() {
    let n: NonEmptyVec<u32> = NonEmptyVec::from(9u32);
    assert_eq!(n, NonEmptyVec::new(9u32));
    assert_eq!(n.len(), 1);
}

#[test]
fn length_never_below_one() {
    let mut n = NonEmptyVec::new(0u8);
    assert!(n.len() >= 1);
    for i in 1..10u8 {
        n.push(i);
        assert_eq!(n.len(), 1 + i as usize);
    }
}

#[test]
fn iteration_follows_insertion_order() {
    let mut n = NonEmptyVec::new(10i64);
    n.push(20);
    n.push(30);
    n.push(40);
    let got: Vec<i64> = n.iter().into_iter().copied().collect();
    assert_eq!(got, vec![10, 20, 30, 40]);
}

#[test]
fn iteration_is_repeatable() {
    let mut n = NonEmptyVec::new("a".to_string());
    n.push("b".to_string());
    let first_pass = n.iter();
    let second_pass = n.iter();
    assert_eq!(first_pass, second_pass);
    assert_eq!(first_pass, vec!["a", "b"]);
}

#[test]
fn first_agrees_with_iteration() {
    let mut n = NonEmptyVec::new(7u16);
    n.push(1);
    n.push(2);
    assert_eq!(n.iter()[0], n.first());
    assert_eq!(*n.first(), 7);
}

#[test]
fn push_keeps_first() {
    let mut n = NonEmptyVec::new(1u8);
    n.push(2);
    assert_eq!(*n.first(), 1);
}

#[test]
fn start_events_scenario() {
    let mut n = NonEmptyVec::new(start("s1"));
    n.push(start("s2"));
    assert_eq!(n.len(), 2);
    assert_eq!(n.first().id, "s1");
    let ids: Vec<&str> = n.iter().into_iter().map(|e| e.id.as_str()).collect();
    assert_eq!(ids, vec!["s1", "s2"]);
}

#[test]
fn decode_empty_list_fails() {
    let r = NonEmptyVec::<u32>::try_from_vec(Vec::new());
    assert_eq!(r, Err(ValidationError::Empty));
}

#[test]
fn decode_keeps_order() {
    let n = NonEmptyVec::try_from_vec(vec![4u32, 5, 6]).unwrap();
    assert_eq!(n.len(), 3);
    assert_eq!(*n.first(), 4);
    assert_eq!(n.iter(), vec![&4, &5, &6]);
}

#[test]
fn encode_then_decode_round_trips() {
    let mut n = NonEmptyVec::new(1u32);
    n.push(2);
    n.push(3);
    let v = n.clone().into_vec();
    assert_eq!(v, vec![1, 2, 3]);
    assert_eq!(NonEmptyVec::try_from_vec(v), Ok(n));
}

#[test]
fn decode_then_encode_round_trips() {
    let v = vec![8u8, 6, 7];
    let n = NonEmptyVec::try_from_vec(v.clone()).unwrap();
    assert_eq!(n.into_vec(), v);
}

#[test]
fn elements_equal_is_order_sensitive() {
    let mut a = NonEmptyVec::new(start("s1"));
    a.push(start("s2"));
    a.push(start("s3"));
    let mut b = NonEmptyVec::new(start("s1"));
    b.push(start("s2"));
    b.push(start("s3"));
    assert!(a.elements_equal(&b));
    let mut c = NonEmptyVec::new(start("s1"));
    c.push(start("s3"));
    c.push(start("s2"));
    assert!(!a.elements_equal(&c));
    let d = NonEmptyVec::new(start("s1"));
    assert!(!a.elements_equal(&d));
}

#[test]
fn from_start_event_holds_it_alone() {
    let e = start("s1");
    assert_eq!(NonEmptyVec::from(e.clone()), NonEmptyVec::new(e.clone()));
    let n = NonEmptyVec::from(e);
    assert_eq!(n.len(), 1);
    assert_eq!(n.first().id, "s1");
}

#[test]
fn clone_keeps_elements_in_order() {
    let mut n = NonEmptyVec::new(start("s1"));
    n.push(start("s2"));
    let c = n.clone();
    assert!(c.elements_equal(&n));
    let ids: Vec<&str> = c.iter().into_iter().map(|e| e.id.as_str()).collect();
    assert_eq!(ids, vec!["s1", "s2"]);
}
