use led_star::slotmap::SlotMap;

#[test]
fn test_slotmap_basic() {
    let mut map = SlotMap::<u8, Vec<u8>, 4>::new(vec![0; 4]);

    assert!(map.is_empty());
    assert!(!map.is_full());

    let idx0 = map.insert(10).unwrap();
    assert_eq!(idx0, 0);
    assert!(!map.is_empty());
    assert!(!map.is_full());

    let idx1 = map.insert(20).unwrap();
    assert_eq!(idx1, 1);

    let idx2 = map.insert(30).unwrap();
    assert_eq!(idx2, 2);

    let idx3 = map.insert(40).unwrap();
    assert_eq!(idx3, 3);

    assert!(map.is_full());
    assert!(map.insert(50).is_none());
}

#[test]
fn test_slotmap_full_insert_unchanged() {
    // A failed insertion leaves the occupancy exactly as it was.
    let mut map = SlotMap::<u8, Vec<u8>, 2>::new(vec![0; 2]);
    map.insert(10);
    map.insert(20);
    assert!(map.is_full());
    assert!(map.insert(30).is_none());
    assert!(map.is_full());
    assert_eq!(map.len(), 2);
    assert_eq!(map.iter(), vec![10, 20]);
}

#[test]
fn test_slotmap_remove() {
    let mut map = SlotMap::<u8, Vec<u8>, 4>::new(vec![0; 4]);

    map.insert(10);
    map.insert(20);
    map.insert(30);

    map.remove(1);
    assert!(!map.is_full());

    // Should reuse slot 1
    let idx = map.insert(40).unwrap();
    assert_eq!(idx, 1);
}

#[test]
fn test_slotmap_remove_idempotent() {
    // Removing an already-empty slot is a no-op.
    let mut map = SlotMap::<u8, Vec<u8>, 4>::new(vec![0; 4]);
    map.insert(10);
    map.remove(2);
    map.remove(2);
    assert_eq!(map.len(), 1);
    assert_eq!(map.iter(), vec![10]);
}

#[test]
fn test_slotmap_iter() {
    let mut map = SlotMap::<u8, Vec<u8>, 4>::new(vec![0; 4]);

    map.insert(10);
    map.insert(20);
    map.insert(30);

    let values: Vec<_> = map.iter();
    assert_eq!(values, vec![10, 20, 30]);
}

#[test]
fn test_slotmap_retain() {
    let mut map = SlotMap::<u8, Vec<u8>, 4>::new(vec![0; 4]);

    map.insert(10);
    map.insert(20);
    map.insert(30);
    map.insert(40);

    // Remove values > 25
    map.retain(|v| *v <= 25);

    let values: Vec<_> = map.iter();
    assert_eq!(values, vec![10, 20]);
}

#[test]
fn test_slotmap_retain_extremes() {
    // Retaining everything is a no-op; retaining nothing empties the map.
    let mut map = SlotMap::<u8, Vec<u8>, 4>::new(vec![0; 4]);
    map.insert(10);
    map.insert(20);
    map.insert(30);

    map.retain(|_| true);
    assert_eq!(map.len(), 3);
    assert_eq!(map.iter(), vec![10, 20, 30]);

    map.retain(|_| false);
    assert!(map.is_empty());
    assert_eq!(map.iter(), Vec::<u8>::new());
}
