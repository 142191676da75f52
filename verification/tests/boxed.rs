use boxfnonce::slot::{OnceShim, Slot};
use boxfnonce::BoxFnOnce;
use std::cell::Cell;
use std::rc::Rc;

#[derive(PartialEq, Eq, Debug)]
struct Arg1 {}

#[derive(PartialEq, Eq, Debug)]
struct Arg2 {}

#[derive(PartialEq, Eq, Debug)]
struct Arg3 {}

#[derive(PartialEq, Eq, Debug)]
struct Arg4 {}

#[test]
fn test_arg0() {
    let f = {
        let s = String::from("abc");
        move || -> String { s }
    };
    let f = BoxFnOnce::from(f);
    assert_eq!(f.call(), "abc".to_string());
}

#[test]
fn test_arg1() {
    let f = {
        let s = String::from("abc");
        move |a| -> (String, Arg1) { (s, a) }
    };
    let f: BoxFnOnce<(Arg1,), (String, Arg1)> = BoxFnOnce::from(f);
    assert_eq!(f.call(Arg1 {}), ("abc".into(), Arg1 {}));
}

#[test]
fn test_arg2() {
    let f = {
        let s = String::from("abc");
        move |a, b| -> (String, Arg1, Arg2) { (s, a, b) }
    };
    let f = BoxFnOnce::from(f);
    assert_eq!(f.call(Arg1 {}, Arg2 {}), ("abc".into(), Arg1 {}, Arg2 {}));
}

#[test]
fn test_arg3() {
    let f = {
        let s = String::from("abc");
        move |a, b, c| -> (String, Arg1, Arg2, Arg3) { (s, a, b, c) }
    };
    let f = BoxFnOnce::from(f);
    assert_eq!(
        f.call(Arg1 {}, Arg2 {}, Arg3 {}),
        ("abc".into(), Arg1 {}, Arg2 {}, Arg3 {})
    );
}

#[test]
fn test_arg4_void() {
    let f = {
        let s = String::from("abc");
        move |a, b, c, d| {
            drop(a);
            drop(b);
            drop(c);
            drop(d);
            drop(s);
        }
    };
    let f = BoxFnOnce::from(f);
    f.call(Arg1 {}, Arg2 {}, Arg3 {}, Arg4 {});
}

#[test]
#[should_panic(expected = "inner diverging")]
fn test_arg4_diverging() {
    let f = {
        let s = String::from("abc");
        move |a, b, c, d| -> ! {
            drop(a);
            drop(b);
            drop(c);
            drop(d);
            drop(s);
            panic!("inner diverging");
        }
    };
    let f = BoxFnOnce::from(f);
    f.call(Arg1 {}, Arg2 {}, Arg3 {}, Arg4 {});
}

#[test]
fn new_is_from() {
    let s = String::from("abc");
    let f: BoxFnOnce<(u32,), (String, u32)> = BoxFnOnce::new(move |n| (s, n + 1));
    assert_eq!(f.call(41), ("abc".to_string(), 42));
}

#[test]
fn call_tuple_takes_the_arguments_packed() {
    let f: BoxFnOnce<(u32, u32, u32), u32> = BoxFnOnce::from(|a, b, c| a * 100 + b * 10 + c);
    assert_eq!(f.call_tuple((1, 2, 3)), 123);
    let g: BoxFnOnce<(), u8> = BoxFnOnce::from(|| 7u8);
    assert_eq!(g.call_tuple(()), 7);
}

#[test]
fn arguments_keep_their_positions() {
    let f: BoxFnOnce<(u8, u16, u32, u64, i8), (i8, u64, u32, u16, u8)> =
        BoxFnOnce::from(|a, b, c, d, e| (e, d, c, b, a));
    assert_eq!(f.call(1, 2, 3, 4, -5), (-5, 4, 3, 2, 1));
}

#[test]
fn every_arity_returns_what_the_callable_returns() {
    let f0 = BoxFnOnce::from(|| 0u32);
    assert_eq!(f0.call(), 0);
    let f1 = BoxFnOnce::from(|a: u32| a);
    assert_eq!(f1.call(1), 1);
    let f2 = BoxFnOnce::from(|a: u32, b: u32| a * 10 + b);
    assert_eq!(f2.call(1, 2), 12);
    let f3 = BoxFnOnce::from(|a: u32, b: u32, c: u32| (a * 10 + b) * 10 + c);
    assert_eq!(f3.call(1, 2, 3), 123);
    let f4 = BoxFnOnce::from(|a: u32, b: u32, c: u32, d: u32| vec![a, b, c, d]);
    assert_eq!(f4.call(1, 2, 3, 4), vec![1, 2, 3, 4]);
    let f5 = BoxFnOnce::from(|a: u32, b: u32, c: u32, d: u32, e: u32| vec![a, b, c, d, e]);
    assert_eq!(f5.call(1, 2, 3, 4, 5), vec![1, 2, 3, 4, 5]);
    let f6 = BoxFnOnce::from(|a: u32, b: u32, c: u32, d: u32, e: u32, f: u32| {
        vec![a, b, c, d, e, f]
    });
    assert_eq!(f6.call(1, 2, 3, 4, 5, 6), vec![1, 2, 3, 4, 5, 6]);
    let f7 = BoxFnOnce::from(|a: u32, b: u32, c: u32, d: u32, e: u32, f: u32, g: u32| {
        vec![a, b, c, d, e, f, g]
    });
    assert_eq!(f7.call(1, 2, 3, 4, 5, 6, 7), vec![1, 2, 3, 4, 5, 6, 7]);
    let f8 = BoxFnOnce::from(
        |a: u32, b: u32, c: u32, d: u32, e: u32, f: u32, g: u32, h: u32| {
            vec![a, b, c, d, e, f, g, h]
        },
    );
    assert_eq!(f8.call(1, 2, 3, 4, 5, 6, 7, 8), vec![1, 2, 3, 4, 5, 6, 7, 8]);
    let f9 = BoxFnOnce::from(
        |a: u32, b: u32, c: u32, d: u32, e: u32, f: u32, g: u32, h: u32, i: u32| {
            vec![a, b, c, d, e, f, g, h, i]
        },
    );
    assert_eq!(
        f9.call(1, 2, 3, 4, 5, 6, 7, 8, 9),
        vec![1, 2, 3, 4, 5, 6, 7, 8, 9]
    );
    let f10 = BoxFnOnce::from(
        |a: u32, b: u32, c: u32, d: u32, e: u32, f: u32, g: u32, h: u32, i: u32, j: u32| {
            vec![a, b, c, d, e, f, g, h, i, j]
        },
    );
    assert_eq!(
        f10.call(1, 2, 3, 4, 5, 6, 7, 8, 9, 10),
        vec![1, 2, 3, 4, 5, 6, 7, 8, 9, 10]
    );
}

#[test]
fn captured_value_is_moved_not_copied() {
    let held = Rc::new(String::from("abc"));
    let f = {
        let held = Rc::clone(&held);
        BoxFnOnce::from(move || held)
    };
    assert_eq!(Rc::strong_count(&held), 2);
    let back = f.call();
    assert_eq!(Rc::strong_count(&held), 2);
    assert!(Rc::ptr_eq(&held, &back));
    assert_eq!(*back, "abc");
    drop(back);
    assert_eq!(Rc::strong_count(&held), 1);
}

#[test]
fn uncalled_box_releases_captures_without_running() {
    let ran = Rc::new(Cell::new(false));
    let held = Rc::new(String::from("abc"));
    let f: BoxFnOnce<(u8,), usize> = {
        let ran = Rc::clone(&ran);
        let held = Rc::clone(&held);
        BoxFnOnce::from(move |n: u8| {
            ran.set(true);
            held.len() + usize::from(n)
        })
    };
    assert_eq!(Rc::strong_count(&held), 2);
    drop(f);
    assert_eq!(Rc::strong_count(&held), 1);
    assert_eq!(Rc::strong_count(&ran), 1);
    assert!(!ran.get());
}

#[test]
fn called_box_releases_captures() {
    let ran = Rc::new(Cell::new(0u32));
    let f = {
        let ran = Rc::clone(&ran);
        BoxFnOnce::from(move || ran.set(ran.get() + 1))
    };
    f.call();
    assert_eq!(ran.get(), 1);
    assert_eq!(Rc::strong_count(&ran), 1);
}

#[test]
fn boxes_of_one_type_can_be_stored_together() {
    let base = 10u32;
    let mut held: Vec<BoxFnOnce<(u32,), u32>> = Vec::new();
    held.push(BoxFnOnce::from(move |n| n + base));
    held.push(BoxFnOnce::from(|n| n * 2));
    held.push(BoxFnOnce::new(|n: u32| n));
    let mut out = Vec::new();
    for f in held {
        out.push(f.call(4));
    }
    assert_eq!(out, vec![14, 8, 4]);
}

#[test]
fn slot_is_empty_after_firing() {
    let s = String::from("abc");
    let mut slot = Slot::fill(move |n: usize| s.len() + n);
    assert!(slot.inner.is_some());
    assert_eq!(slot.fire((2,)), 5);
    assert!(slot.inner.is_none());
}

#[test]
fn slot_hands_out_what_it_holds() {
    let mut slot = Slot::fill(17u32);
    assert_eq!(slot.draw(), 17);
    assert!(slot.inner.is_none());
}
