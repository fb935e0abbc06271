use std::cell::Cell;

use applicative_functor::short_circuit::{ap_marked, map_marked};

#[test]
fn map_marked_changes_the_value_type() {
    let r: Result<usize, u8> = map_marked(Ok("four".to_string()), |s: String| s.len());
    assert_eq!(r, Ok(4));
}

#[test]
fn map_marked_passes_the_marker_through() {
    let calls = Cell::new(0u32);
    let r: Result<usize, u8> = map_marked(Err(3), |s: String| {
        calls.set(calls.get() + 1);
        s.len()
    });
    assert_eq!(r, Err(3));
    assert_eq!(calls.get(), 0);
}

#[test]
fn ap_marked_applies_held_function() {
    let r: Result<u64, ()> = ap_marked(Ok(|x: u32| u64::from(x) * 10), Ok(7u32));
    assert_eq!(r, Ok(70));
}

#[test]
fn ap_marked_equals_map_marked_on_held_values() {
    for word in ["", "a", "applicative"] {
        let by_ap: Result<usize, u8> = ap_marked(Ok(|s: String| s.len()), Ok(word.to_string()));
        let by_map: Result<usize, u8> = map_marked(Ok(word.to_string()), |s: String| s.len());
        assert_eq!(by_ap, by_map);
        assert_eq!(by_ap, Ok(word.len()));
    }
}

#[test]
fn ap_marked_keeps_the_first_marker() {
    let r: Result<u32, &str> = ap_marked(Err::<fn(u32) -> u32, &str>("first"), Err("second"));
    assert_eq!(r, Err("first"));
}

#[test]
fn ap_marked_keeps_the_value_marker() {
    let calls = Cell::new(0u32);
    let r: Result<u32, &str> = ap_marked(
        Ok(|x: u32| {
            calls.set(calls.get() + 1);
            x
        }),
        Err("value"),
    );
    assert_eq!(r, Err("value"));
    assert_eq!(calls.get(), 0);
}
