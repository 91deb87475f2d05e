use handle_arena::{Arena, Handle};

#[test]
fn append_non_unique() {
    let mut arena: Arena<f64> = Arena::new();
    let t1 = arena.append(0.0);
    let t2 = arena.append(0.0);
    assert!(t1 != t2);
    assert!(arena[t1] == arena[t2]);
}

#[test]
fn append_unique() {
    let mut arena: Arena<f64> = Arena::new();
    let t1 = arena.append(std::f64::NAN);
    let t2 = arena.append(std::f64::NAN);
    assert!(t1 != t2);
    assert!(arena[t1] != arena[t2]);
}

#[test]
fn fetch_or_append_non_unique() {
    let mut arena: Arena<f64> = Arena::new();
    let t1 = arena.fetch_or_append(0.0);
    let t2 = arena.fetch_or_append(0.0);
    assert!(t1 == t2);
    assert!(arena[t1] == arena[t2])
}

#[test]
fn fetch_or_append_unique() {
    let mut arena: Arena<f64> = Arena::new();
    let t1 = arena.fetch_or_append(std::f64::NAN);
    let t2 = arena.fetch_or_append(std::f64::NAN);
    assert!(t1 != t2);
    assert!(arena[t1] != arena[t2]);
}

#[test]
fn new_arena_is_empty() {
    let arena: Arena<u32> = Arena::new();
    assert_eq!(arena.len(), 0);
    assert!(arena.iter().is_empty());
}

#[test]
fn append_returns_consecutive_positions() {
    let mut arena: Arena<&str> = Arena::new();
    let a = arena.append("a");
    let b = arena.append("b");
    let c = arena.append("a");
    assert_eq!(a.index(), 0);
    assert_eq!(b.index(), 1);
    assert_eq!(c.index(), 2);
    assert_eq!(arena.len(), 3);
}

#[test]
fn append_then_index_gives_the_value_back() {
    let mut arena: Arena<String> = Arena::new();
    let first = arena.append(String::from("first"));
    assert_eq!(arena[first], "first");
    let second = arena.append(String::from("second"));
    assert_eq!(arena[second], "second");
    assert_eq!(arena[first], "first");
}

#[test]
fn every_append_returns_a_fresh_handle() {
    let mut arena: Arena<u8> = Arena::new();
    let mut issued: Vec<Handle<u8>> = Vec::new();
    for value in [5u8, 5, 9, 5, 0, 9] {
        let handle = arena.append(value);
        assert!(issued.iter().all(|earlier| *earlier != handle));
        issued.push(handle);
    }
    assert_eq!(issued.len(), 6);
}

#[test]
fn handles_stay_valid_while_the_arena_grows() {
    let mut arena: Arena<u64> = Arena::new();
    let early = arena.append(11);
    for value in 0..100u64 {
        arena.append(value);
        arena.fetch_or_append(value % 7);
    }
    assert_eq!(arena[early], 11);
    assert_eq!(early.index(), 0);
}

#[test]
fn fetch_or_append_returns_the_first_equal_element() {
    let mut arena: Arena<u32> = Arena::new();
    let a = arena.append(1);
    let b = arena.append(2);
    let c = arena.append(1);
    assert!(a != c);
    let found = arena.fetch_or_append(1);
    assert!(found == a);
    assert_eq!(found.index(), 0);
    let found = arena.fetch_or_append(2);
    assert!(found == b);
    assert_eq!(arena.len(), 3);
}

#[test]
fn fetch_or_append_stores_what_it_does_not_find() {
    let mut arena: Arena<u32> = Arena::new();
    arena.append(1);
    arena.append(2);
    let stored = arena.fetch_or_append(3);
    assert_eq!(stored.index(), 2);
    assert_eq!(arena.len(), 3);
    assert_eq!(arena[stored], 3);
    let again = arena.fetch_or_append(3);
    assert!(again == stored);
    assert_eq!(arena.len(), 3);
}

#[test]
fn fetch_or_append_on_an_empty_arena_appends() {
    let mut arena: Arena<char> = Arena::new();
    let handle = arena.fetch_or_append('x');
    assert_eq!(handle.index(), 0);
    assert_eq!(arena.len(), 1);
    assert_eq!(arena[handle], 'x');
}

#[test]
fn length_counts_appends_and_misses_only() {
    let mut arena: Arena<i32> = Arena::new();
    let mut stored = 0usize;
    let mut hits = 0usize;
    for value in [3, 1, 4, 1, 5, 9, 2, 6, 5, 3, 5] {
        let before = arena.len();
        arena.fetch_or_append(value);
        if arena.len() == before {
            hits += 1;
        } else {
            assert_eq!(arena.len(), before + 1);
            stored += 1;
        }
    }
    arena.append(3);
    arena.append(3);
    stored += 2;
    assert_eq!(stored, 9);
    assert_eq!(hits, 4);
    assert_eq!(arena.len(), 9);
}

#[test]
fn iter_yields_every_element_in_insertion_order() {
    let mut arena: Arena<&str> = Arena::new();
    let values = ["delta", "alpha", "charlie", "alpha", "bravo"];
    for value in values {
        arena.append(value);
    }
    let pairs = arena.iter();
    assert_eq!(pairs.len(), 5);
    for (turn, (handle, element)) in pairs.iter().enumerate() {
        assert_eq!(handle.index(), turn);
        assert_eq!(**element, values[turn]);
        assert_eq!(arena[*handle], values[turn]);
    }
}

#[test]
fn iter_can_be_taken_again() {
    let mut arena: Arena<u16> = Arena::new();
    arena.append(7);
    arena.append(8);
    let once: Vec<(usize, u16)> = arena.iter().into_iter().map(|(h, v)| (h.index(), *v)).collect();
    let twice: Vec<(usize, u16)> = arena.iter().into_iter().map(|(h, v)| (h.index(), *v)).collect();
    assert_eq!(once, vec![(0, 7), (1, 8)]);
    assert_eq!(once, twice);
}

#[test]
fn iter_skips_what_fetch_or_append_found() {
    let mut arena: Arena<u8> = Arena::new();
    for value in [2u8, 2, 3, 2, 3, 4] {
        arena.fetch_or_append(value);
    }
    let seen: Vec<u8> = arena.iter().into_iter().map(|(_, v)| *v).collect();
    assert_eq!(seen, vec![2, 3, 4]);
}

#[test]
fn get_finds_what_was_stored() {
    let mut arena: Arena<u32> = Arena::new();
    let a = arena.append(10);
    let b = arena.append(20);
    assert_eq!(arena.get(a), Some(&10));
    assert_eq!(arena.get(b), Some(&20));
}

#[test]
fn get_finds_nothing_under_a_handle_of_a_larger_arena() {
    let mut large: Arena<u32> = Arena::new();
    large.append(1);
    let beyond = large.append(2);
    let mut small: Arena<u32> = Arena::new();
    small.append(1);
    assert_eq!(small.get(beyond), None);
    assert_eq!(large.get(beyond), Some(&2));
}

#[test]
fn floats_scenario() {
    let mut arena: Arena<f64> = Arena::new();
    let h1 = arena.append(0.0);
    let h2 = arena.append(0.0);
    assert!(h1 != h2);
    assert!(arena[h1] == arena[h2]);
    assert!(arena[h1] == 0.0);
    let h3 = arena.fetch_or_append(f64::NAN);
    let h4 = arena.fetch_or_append(f64::NAN);
    assert!(h3 != h4);
    assert!(arena[h3] != arena[h4]);
    assert_eq!(arena[h3].to_bits(), arena[h4].to_bits());
    assert_eq!(arena.len(), 4);
    assert_eq!(h3.index(), 2);
    assert_eq!(h4.index(), 3);
}

#[test]
fn fetch_or_append_finds_zero_under_either_sign() {
    let mut arena: Arena<f32> = Arena::new();
    let positive = arena.fetch_or_append(0.0);
    let negative = arena.fetch_or_append(-0.0);
    assert!(positive == negative);
    assert_eq!(arena.len(), 1);
    assert!(arena[negative].is_sign_positive());
}

#[derive(Debug, Clone, Copy)]
struct Reading(Option<u32>);

impl PartialEq for Reading {
    fn eq(&self, other: &Self) -> bool {
        match (self.0, other.0) {
            (Some(a), Some(b)) => a == b,
            _ => false,
        }
    }
}

#[test]
fn a_value_that_does_not_equal_itself_is_stored_each_time() {
    let mut arena: Arena<Reading> = Arena::new();
    let known = arena.fetch_or_append(Reading(Some(4)));
    let first = arena.fetch_or_append(Reading(None));
    let second = arena.fetch_or_append(Reading(None));
    let again = arena.fetch_or_append(Reading(Some(4)));
    assert!(first != second);
    assert!(arena[first] != arena[second]);
    assert!(again == known);
    assert_eq!(second.index(), first.index() + 1);
    assert_eq!(arena.len(), 3);
}

#[derive(Debug, Clone, Copy)]
struct Keyed {
    key: u8,
    note: u8,
}

impl PartialEq for Keyed {
    fn eq(&self, other: &Self) -> bool {
        self.key == other.key
    }
}

#[test]
fn fetch_or_append_keeps_the_element_that_was_there() {
    let mut arena: Arena<Keyed> = Arena::new();
    let stored = arena.fetch_or_append(Keyed { key: 1, note: 10 });
    let found = arena.fetch_or_append(Keyed { key: 1, note: 20 });
    assert!(found == stored);
    assert_eq!(arena[found].note, 10);
    assert_eq!(arena.len(), 1);
}

#[test]
fn arena_debug_lists_the_elements() {
    let mut arena: Arena<u8> = Arena::new();
    arena.append(1);
    arena.append(2);
    let text = format!("{:?}", arena);
    assert!(text.contains("[1, 2]"));
}
