use tupley::len::{TupleLenEq, TupleLenGe, TupleLenGt, TupleLenRange};
use tupley::ops::{MutView, PushBack, RefView, ToOk, ToSome};
use tupley::tuple::{Tuple, TupleY, Unit};

#[derive(Default, Debug, PartialEq, Eq)]
struct Wrapper<'a> {
    a: Tuple<i32, Tuple<i32, Unit>>,
    b: Tuple<&'a str, Tuple<bool, Unit>>,
}

fn eq_yes<T: TupleLenEq<3>>(_: T) {}

fn gt_yes<T: TupleLenGt<2>>(_: T) {}

fn ge_yes_1<T: TupleLenGe<3>>(_: T) {}

fn ge_yes_2<T: TupleLenGe<2>>(_: T) {}

// The length of the tuple should be >= 3 and < 4
fn range_yes<T: TupleLenRange<3, 4>>(_: T) {}

#[test]
fn tuple_new() {
    let t = Unit;
    assert_eq!(t, Unit);

    let t = Tuple(1, Unit);
    assert_eq!(t, Tuple(1, Unit));

    let t = Tuple(1, Tuple(2.0, Tuple("3", Unit)));
    assert_eq!(t, Tuple(1, Tuple(2.0, Tuple("3", Unit))));
}

#[test]
fn tuple_is_empty() {
    let t = Unit;
    assert!(t.is_empty());

    let t = Tuple(1, Tuple(false, Unit));
    assert!(!t.is_empty());
}

#[test]
fn tuple_type() {
    let t = <Tuple<i32, Tuple<&str, Tuple<bool, Unit>>>>::default();
    assert_eq!(t, Tuple(0, Tuple("", Tuple(false, Unit))));

    let t: Tuple<i32, Tuple<&str, Tuple<bool, Unit>>> = Default::default();
    assert_eq!(t, Tuple(0, Tuple("", Tuple(false, Unit))));

    let t = Wrapper::default();
    assert_eq!(
        t,
        Wrapper {
            a: Tuple(0, Tuple(0, Unit)),
            b: Tuple("", Tuple(false, Unit)),
        }
    )
}

#[test]
fn tuple_pattern() {
    let t = Unit;
    let Unit = t;

    let t = Tuple(1, Unit);
    let a = t;
    assert_eq!(a, Tuple(1, Unit));

    let t = Tuple("", Tuple(2, Tuple(3.0, Unit)));
    let Tuple(a, Tuple(b, c)) = t;
    assert_eq!(a, "");
    assert_eq!(b, 2);
    assert_eq!(c, Tuple(3.0, Unit));

    // don't match anything
    let t = Tuple(1, Tuple(2, Tuple(3, Tuple(4, Tuple(5, Unit)))));
    let Tuple(..) = t;

    let t = Tuple(1, Tuple(2.0, Tuple("", Tuple(vec![1], Tuple(true, Unit)))));
    let Tuple(a, Tuple(b, c)) = t;
    assert_eq!(a, 1);
    assert_eq!(b, 2.0);
    assert_eq!(c, Tuple("", Tuple(vec![1], Tuple(true, Unit)))); // match the rest all
}

#[test]
fn tuple_len() {
    let t = Unit;
    assert_eq!(0, t.len());

    let t = Tuple(1, Tuple(false, Unit));
    assert_eq!(2, t.len());

    let t = Tuple(1, Tuple(2, Tuple(3, Unit)));
    assert_eq!(3, t.len());
}

#[test]
fn tuple_add() {
    let t1 = Tuple(1, Tuple(2, Unit));
    let t2 = Tuple(3.0, Tuple(false, Tuple(Some(1), Unit)));
    let t = t1 + t2;
    assert_eq!(
        t,
        Tuple(1, Tuple(2, Tuple(3.0, Tuple(false, Tuple(Some(1), Unit)))))
    );
}

#[test]
fn tuple_push() {
    let t = Unit;
    let t = t.push_back(1);
    let t = t.push_back("str");
    let t = t.push_back(false);
    assert_eq!(t, Tuple(1, Tuple("str", Tuple(false, Unit))));

    let t = Unit;
    let t = t.push_front(1);
    let t = t.push_front("str");
    let t = t.push_front(false);
    assert_eq!(t, Tuple(false, Tuple("str", Tuple(1, Unit))));
}

#[test]
fn tuple_as_to() {
    let t = Tuple(1, Tuple("str", Tuple(3.0, Tuple(false, Unit))));
    assert_eq!(
        t.as_ref(),
        Tuple(&1, Tuple(&"str", Tuple(&3.0, Tuple(&false, Unit))))
    );

    let mut t = Tuple(1, Tuple("str", Tuple(3.0, Tuple(false, Unit))));
    assert_eq!(
        t.as_mut(),
        Tuple(&mut 1, Tuple(&mut "str", Tuple(&mut 3.0, Tuple(&mut false, Unit))))
    );

    let t = Tuple(1, Tuple("str", Tuple(3.0, Tuple(false, Unit))));
    assert_eq!(
        t.to_some(),
        Tuple(Some(1), Tuple(Some("str"), Tuple(Some(3.0), Tuple(Some(false), Unit))))
    );

    let t = Tuple(1, Tuple("str", Tuple(3.0, Tuple(false, Unit))));
    let o: Tuple<
        Result<i32, ()>,
        Tuple<Result<&str, ()>, Tuple<Result<f64, ()>, Tuple<Result<bool, ()>, Unit>>>,
    > = t.to_ok();
    assert_eq!(
        o,
        Tuple(Ok(1), Tuple(Ok("str"), Tuple(Ok(3.0), Tuple(Ok(false), Unit))))
    );
}

#[test]
fn tuple_len_generic() {
    let t = Tuple(1, Tuple(2, Tuple(3, Unit)));

    eq_yes(t);

    gt_yes(t);

    ge_yes_1(t);

    ge_yes_2(t);

    // length >= 3, length < 4
    range_yes(t);

    // A bound the length does not satisfy, such as a greater-or-equal of
    // four or an equality of two, is rejected when this file is compiled,
    // so no call with such a bound can be written here.
}
