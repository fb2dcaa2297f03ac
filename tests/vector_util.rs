use laddercast::vector::UpdateOrInsert;

#[test]
fn test_insert_vector() {
    let mut vector: Vec<u8> = vec![];

    vector.update_or_insert(0, 3);

    assert_eq!(*vector.get(0).unwrap(), 3);
}

#[test]
fn test_update_vector() {
    let mut vector: Vec<u8> = vec![];

    vector.update_or_insert(0, 3);

    vector.update_or_insert(0, 4);

    assert_eq!(*vector.get(0).unwrap(), 7);
}

#[test]
fn update_or_insert_on_wide_values() {
    let mut vector: Vec<u64> = vec![1, 2];
    vector.update_or_insert(1, 40);
    vector.update_or_insert(2, 5);
    assert_eq!(vector, vec![1, 42, 5]);
}
