use boxfnonce::SendBoxFnOnce;

fn needs_send<T: Send>(value: T) -> T {
    value
}

#[test]
fn send_box_behaves_as_the_plain_box() {
    let s = String::from("abc");
    let f: SendBoxFnOnce<(u8, u16), (String, u8, u16)> = SendBoxFnOnce::from(move |a, b| (s, a, b));
    assert_eq!(f.call(1, 2), ("abc".to_string(), 1, 2));
    let g = SendBoxFnOnce::from(|| 5u64);
    assert_eq!(g.call(), 5);
    let h: SendBoxFnOnce<(u32,), u32> = SendBoxFnOnce::new(|n| n + 1);
    assert_eq!(h.call_tuple((1,)), 2);
}

#[test]
fn send_box_is_transferable() {
    let s = String::from("abc");
    let f = SendBoxFnOnce::from(move |n: usize| s.len() + n);
    let f = needs_send(f);
    assert_eq!(f.call(4), 7);
}

#[test]
fn send_box_of_ten_arguments() {
    let f = SendBoxFnOnce::from(
        |a: u32, b: u32, c: u32, d: u32, e: u32, f: u32, g: u32, h: u32, i: u32, j: u32| {
            vec![a, b, c, d, e, f, g, h, i, j]
        },
    );
    assert_eq!(
        f.call(1, 2, 3, 4, 5, 6, 7, 8, 9, 10),
        vec![1, 2, 3, 4, 5, 6, 7, 8, 9, 10]
    );
}

#[test]
fn send_box_dropped_uncalled_releases_captures() {
    let held = std::sync::Arc::new(String::from("abc"));
    let f: SendBoxFnOnce<(), usize> = {
        let held = std::sync::Arc::clone(&held);
        SendBoxFnOnce::from(move || held.len())
    };
    assert_eq!(std::sync::Arc::strong_count(&held), 2);
    drop(f);
    assert_eq!(std::sync::Arc::strong_count(&held), 1);
}
