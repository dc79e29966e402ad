use tupley::ops::{PushBack, RefView, ToSome};
use tupley::tuple::{Tuple, TupleY, Unit};

#[test]
fn push_changes_len_by_one() {
    let t = Tuple(1, Tuple(2, Unit));

    let p = t.push_back(9);
    assert_eq!(p.len(), t.len() + 1);
    // the appended value is the last element
    assert_eq!(((p.1).1).0, 9);
    assert_eq!(p, Tuple(1, Tuple(2, Tuple(9, Unit))));

    let q = t.push_front(7);
    assert_eq!(q.len(), t.len() + 1);
    // the prepended value is the first element
    assert_eq!(q.0, 7);
    assert_eq!(q, Tuple(7, Tuple(1, Tuple(2, Unit))));
}

#[test]
fn ref_view_round_trip() {
    let t = Tuple(1u64, Tuple(true, Tuple('x', Unit)));
    let r = t.as_ref();
    assert_eq!(r.len(), t.len());
    let back = Tuple(*r.0, Tuple(*(r.1).0, Tuple(*((r.1).1).0, Unit)));
    assert_eq!(back, t);
}

#[test]
fn add_concatenates_in_order() {
    let a = Tuple(1, Tuple(2, Unit));
    let b = Tuple(3, Unit);
    let c = a + b;
    assert_eq!(c.len(), a.len() + b.len());
    assert_eq!(c, Tuple(1, Tuple(2, Tuple(3, Unit))));
}

#[test]
fn unit_is_identity_of_add() {
    let b = Tuple(3.5, Tuple("s", Unit));
    assert_eq!(Unit + b, b);
    assert_eq!(b + Unit, b);
}

#[test]
fn empty_and_non_empty() {
    assert_eq!(Unit.len(), 0);
    assert!(Unit.is_empty());
    assert!(!Tuple(0u8, Unit).is_empty());
    assert!(!Tuple('a', Tuple(0u8, Unit)).is_empty());
}

#[test]
fn three_values_scenario() {
    let t = Tuple(1, Tuple(2.0, Tuple("3", Unit)));
    assert_eq!(t.len(), 3);
    assert_eq!(
        t.to_some(),
        Tuple(Some(1), Tuple(Some(2.0), Tuple(Some("3"), Unit)))
    );
}

#[test]
fn destructure_with_rest_wildcard() {
    let t = Tuple(1, Tuple(2, Tuple(3, Tuple(4, Tuple(5, Unit)))));
    let Tuple(a, Tuple(b, ..)) = t;
    assert_eq!(a, 1);
    assert_eq!(b, 2);
}

#[test]
fn rest_wildcard_may_bind_nothing() {
    // the wildcard is legal even when no elements remain after the named prefix
    let t = Tuple(1, Tuple(2, Unit));
    let Tuple(a, Tuple(b, ..)) = t;
    assert_eq!(a, 1);
    assert_eq!(b, 2);
}
