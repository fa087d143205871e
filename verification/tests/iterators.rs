use primer::Counter;

#[test]
fn iterator_demo() {
    let vec_1 = vec![1, 2, 3];

    let mut vec_iter = vec_1.iter();

    assert_eq!(vec_iter.next(), Some(&1));
    assert_eq!(vec_iter.next(), Some(&2));
    assert_eq!(vec_iter.next(), Some(&3));
    assert_eq!(vec_iter.next(), None)
}

#[test]
fn iterator_sum() {
    let vec_1 = vec![1, 2, 3];
    let vec_iter = vec_1.iter();

    let sum: i32 = vec_iter.sum();

    assert_eq!(sum, 6);
}

#[test]
fn calling_next_directly() {
    let mut counter = Counter::new();

    assert_eq!(counter.next(), Some(1));
    assert_eq!(counter.next(), Some(2));
    assert_eq!(counter.next(), Some(3));
    assert_eq!(counter.next(), Some(4));
    assert_eq!(counter.next(), Some(5));
    assert_eq!(counter.next(), None);
}

#[test]
fn counter_stays_stopped() {
    let mut counter = Counter::new();
    for _ in 0..7 {
        counter.next();
    }
    assert_eq!(counter.next(), None);
}
