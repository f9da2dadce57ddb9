use cac::gen_vec::{GenVec, Handle};

//create a test storage with N elements
fn test_storage<const N: usize>() -> ([Handle<u32>; N], GenVec<u32, String>) {
    let values: Vec<_> = (0..N).map(|i| format!("Value{i}")).collect();

    GenVec::with_values(values.try_into().unwrap())
}

#[test]
fn construct_with_values_test() {
    let values = [
        "Value0".to_owned(),
        "Value1".to_owned(),
        "Value2".to_owned(),
    ];

    let (handles, storage) = GenVec::<i32, _>::with_values(values);

    for (i, h) in handles.iter().enumerate() {
        assert_eq!(storage.get(*h), Some(&format!("Value{i}")));
    }
}

#[test]
fn insertion_test() {
    let mut storage: GenVec<String, String> = GenVec::new();
    let mut handles = Vec::new();

    (0..10).for_each(|i| {
        handles.push(storage.insert(format!("Value{i}")));
    });

    for (i, h) in handles.iter().enumerate() {
        assert_eq!(storage.get(*h), Some(&format!("Value{i}")));
    }
}

#[test]
fn free_cycle_test() {
    let (handles, mut storage) = test_storage::<10>();

    storage.remove(handles[0]);
    storage.remove(handles[5]);
    storage.remove(handles[7]);

    let h0 = storage.insert("4".to_owned());
    let h1 = storage.insert("2".to_owned());
    let h2 = storage.insert("42".to_owned());

    //check for proper insertions
    assert_eq!(storage.get(h0), Some(&"4".to_owned()));
    assert_eq!(storage.get(h1), Some(&"2".to_owned()));
    assert_eq!(storage.get(h2), Some(&"42".to_owned()));
}

#[test]
fn removal_test() {
    let (handles, mut storage) = test_storage::<3>();

    let old_val = storage.remove(handles[2]);
    assert_eq!(old_val, Some(format!("Value{}", 2)));

    handles.iter().enumerate().for_each(|(i, h)| {
        if i == 2 {
            assert_eq!(storage.get(*h), None);
        } else {
            assert_eq!(storage.get(*h), Some(&format!("Value{i}")));
        }
    });
}

#[test]
fn get_mutable_test() {
    let mut storage: GenVec<String, String> = GenVec::new();

    let handle = storage.insert("some_string".to_owned());
    let handle_copy = handle;

    if let Some(s) = storage.get_mut(handle) {
        *s = "ANOTHER STRING".to_owned();
    }

    //value has changed
    assert_eq!(storage.get(handle), Some(&"ANOTHER STRING".to_owned()));

    //both should point to the same value
    assert_eq!(storage.get(handle), storage.get(handle_copy));
}

#[test]
fn insert_over_capacity_test() {
    let mut storage: GenVec<String, String> = GenVec::with_capacity(3);

    for i in 0..100 {
        storage.insert(format!("{i}"));
    }
}

#[test]
fn handles_resolve_until_removed() {
    struct Key;
    let mut storage = GenVec::<Key, _>::new();

    let handle_0 = storage.insert("foo");
    let handle_1 = storage.insert("bar");

    assert_eq!(storage.get(handle_0), Some(&"foo"));
    assert_eq!(storage.get(handle_1), Some(&"bar"));

    let old_value = storage.remove(handle_0);
    assert_eq!(old_value, Some("foo"));
    assert_eq!(storage.get(handle_0), None);
    assert_eq!(storage.get(handle_1), Some(&"bar"));
}

#[test]
fn freed_slots_are_reused_and_old_handles_stay_dead() {
    let (handles, mut storage) = test_storage::<10>();

    assert_eq!(storage.remove(handles[0]), Some("Value0".to_owned()));
    assert_eq!(storage.remove(handles[5]), Some("Value5".to_owned()));
    assert_eq!(storage.remove(handles[7]), Some("Value7".to_owned()));

    let h0 = storage.insert("4".to_owned());
    let h1 = storage.insert("2".to_owned());
    let h2 = storage.insert("42".to_owned());

    assert_eq!(storage.get(h0), Some(&"4".to_owned()));
    assert_eq!(storage.get(h1), Some(&"2".to_owned()));
    assert_eq!(storage.get(h2), Some(&"42".to_owned()));

    // The three slots were handed out again: nothing grew.
    assert_eq!(storage.into_values().len(), 10);
}

#[test]
fn removed_handles_never_resolve_again() {
    let (handles, mut storage) = test_storage::<10>();

    storage.remove(handles[0]);
    storage.remove(handles[5]);
    storage.remove(handles[7]);
    for i in 0..3 {
        storage.insert(format!("New{i}"));
    }

    assert_eq!(storage.get(handles[0]), None);
    assert_eq!(storage.get(handles[5]), None);
    assert_eq!(storage.get(handles[7]), None);
    assert_eq!(storage.get_mut(handles[5]), None);
    assert_eq!(storage.remove(handles[7]), None);
    assert_eq!(storage.get(handles[1]), Some(&"Value1".to_owned()));
}

#[test]
fn the_slot_freed_last_is_reused_first() {
    let (handles, mut storage) = test_storage::<4>();

    storage.remove(handles[1]);
    storage.remove(handles[3]);

    let first = storage.insert("a".to_owned());
    let second = storage.insert("b".to_owned());
    let third = storage.insert("c".to_owned());

    assert_eq!(
        storage.into_values(),
        vec![
            "Value0".to_owned(),
            "b".to_owned(),
            "Value2".to_owned(),
            "a".to_owned(),
            "c".to_owned(),
        ]
    );
    assert!(first != handles[3]);
    assert!(second != handles[1]);
    assert!(third != first);
}

#[test]
fn removing_twice_has_no_effect() {
    let mut storage: GenVec<u8, u32> = GenVec::new();
    let first = storage.insert(1);
    assert_eq!(storage.remove(first), Some(1));
    assert_eq!(storage.remove(first), None);

    // The slot was freed once: two insertions do not share it.
    let second = storage.insert(2);
    let third = storage.insert(3);
    assert_eq!(storage.get(second), Some(&2));
    assert_eq!(storage.get(third), Some(&3));
    assert_eq!(storage.get(first), None);
}

#[test]
fn handles_compare_by_slot_and_generation() {
    let mut storage: GenVec<u8, u32> = GenVec::default();
    let first = storage.insert(1);
    let copy = first.clone();
    assert!(first == copy);
    storage.remove(first);
    let again = storage.insert(1);
    assert!(again != first);
    assert_eq!(storage.get(again), Some(&1));
}

#[test]
fn values_come_out_in_slot_order() {
    let (handles, mut storage) = test_storage::<3>();
    storage.remove(handles[1]);
    assert_eq!(
        storage.into_values(),
        vec!["Value0".to_owned(), "Value2".to_owned()]
    );
}
