use anystore::AnyVec;
use anystore::AsAny;
use anystore::ErasedValue;

#[test]
fn test_indexed_scenario() {
    let mut v = AnyVec::new();
    v.push(1);
    v.push(2.2);
    v.push("xxx");
    v.push(vec![1, 2, 3]);
    assert_eq!(v.len(), 4);

    assert_eq!(v.pop::<Vec<i32>>(), Some(vec![1, 2, 3]));
    assert_eq!(v.pop::<&str>(), Some("xxx"));
    assert_eq!(v.pop::<f64>(), Some(2.2));
    assert_eq!(v.pop::<i32>(), Some(1));
    assert_eq!(v.pop::<i32>(), None);
    assert!(v.is_empty());
}

#[test]
fn test_indexed_lifo() {
    let mut v = AnyVec::new();
    for i in 1..=5 {
        v.push(i);
    }
    for i in (1..=5).rev() {
        assert_eq!(v.pop::<i32>(), Some(i));
    }
    assert_eq!(v.pop::<i32>(), None);
}

#[test]
fn test_indexed_shift() {
    let mut v = AnyVec::new();
    v.push(10);
    v.push(20);
    v.push(30);

    v.insert(1, "mid");
    assert_eq!(v.len(), 4);
    assert_eq!(v.get::<i32>(0), Some(&10));
    assert_eq!(v.get::<&str>(1), Some(&"mid"));
    assert_eq!(v.get::<i32>(2), Some(&20));
    assert_eq!(v.get::<i32>(3), Some(&30));

    // Inserting at the length appends.
    v.insert(4, 40);
    assert_eq!(v.get::<i32>(4), Some(&40));
    assert_eq!(v.len(), 5);
}

#[test]
fn test_indexed_type_mismatch() {
    let mut v = AnyVec::new();
    v.push(5);

    // A mismatched pop reports the empty result and leaves the
    // container exactly as it was.
    assert_eq!(v.pop::<String>(), None);
    assert_eq!(v.len(), 1);
    assert_eq!(v.get::<f64>(0), None);
    assert_eq!(v.get_mut::<f64>(0), None);
    assert_eq!(v.pop::<i32>(), Some(5));
    assert!(v.is_empty());
}

#[test]
fn test_indexed_get_mut_updates() {
    let mut v = AnyVec::new();
    v.push(1);
    if let Some(x) = v.get_mut::<i32>(0) {
        *x += 41;
    } else {
        panic!("slot of the stored type expected");
    }
    assert_eq!(v.get::<i32>(0), Some(&42));
    assert_eq!(v.get_mut::<i32>(1), None);
}

#[test]
fn test_indexed_capacity() {
    let mut v = AnyVec::with_capacity(10);
    assert!(v.capacity() >= 10);
    assert_eq!(v.len(), 0);

    v.push(1);
    v.push(2);
    v.push(3);
    v.reserve(7);
    assert!(v.capacity() >= 10);

    v.reserve_exact(20);
    assert!(v.capacity() >= 23);

    let before = v.capacity();
    v.shrink_to_fit();
    assert!(v.capacity() <= before);
    assert!(v.capacity() >= v.len());
    assert_eq!(v.get::<i32>(2), Some(&3));
}

#[test]
fn test_indexed_emptiness() {
    let mut v = AnyVec::new();
    assert_eq!(v.len(), 0);
    assert!(v.is_empty());
    assert_eq!(v.pop::<i32>(), None);
    assert_eq!(v.get::<i32>(0), None);
    assert_eq!(v.get_mut::<i32>(0), None);

    v.push(1);
    v.push("two");
    assert_eq!(v.len(), 2);
    assert!(!v.is_empty());

    v.clear();
    assert_eq!(v.len(), 0);
    assert!(v.is_empty());
    assert_eq!(v.get::<i32>(0), None);
}

#[test]
fn test_asany_erases() {
    // A handle made by `asany` is itself an ordinary storable value.
    let handle: ErasedValue = 7.asany();
    let mut v = AnyVec::new();
    v.push(handle);
    assert_eq!(v.len(), 1);
    assert!(v.pop::<ErasedValue>().is_some());
    assert!(v.pop::<ErasedValue>().is_none());
}
