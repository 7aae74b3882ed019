use pedestal_rs::collection::new_vec;

#[test]
fn new_vec_test() {
    let data = new_vec(|| Option::<usize>::None, 4);
    assert_eq!(data, vec![None, None, None, None])
}

#[test]
fn new_vec_of_nothing() {
    let data: Vec<String> = new_vec(|| String::from("x"), 0);
    assert!(data.is_empty());
}

#[test]
fn new_vec_calls_init_for_each_element() {
    struct NoClone(u32);
    let data = new_vec(|| NoClone(7), 3);
    assert_eq!(data.len(), 3);
    assert!(data.iter().all(|item| item.0 == 7));
}
