use rust_on_rails::state::State;

#[test]
fn empty_state_has_nothing() {
    let s = State::new();
    assert_eq!(s.get(&"a".to_string()), None);
    assert_eq!(State::default().get(&"a".to_string()), None);
}

#[test]
fn get_after_set() {
    let mut s = State::new();
    s.set("count".to_string(), vec![1, 2, 3]);
    assert_eq!(s.get(&"count".to_string()), Some(vec![1, 2, 3]));
}

#[test]
fn set_keeps_other_keys() {
    let mut s = State::new();
    s.set("a".to_string(), vec![1]);
    s.set("b".to_string(), vec![2]);
    assert_eq!(s.get(&"a".to_string()), Some(vec![1]));
    assert_eq!(s.get(&"b".to_string()), Some(vec![2]));
    assert_eq!(s.get(&"c".to_string()), None);
}

#[test]
fn set_twice_keeps_second() {
    let mut s = State::new();
    s.set("a".to_string(), vec![1]);
    s.set("a".to_string(), vec![9, 9]);
    assert_eq!(s.get(&"a".to_string()), Some(vec![9, 9]));
}
