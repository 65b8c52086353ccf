use token_bdb::counter::ContadorContract;

#[test]
fn test_increment() {
    let mut client = ContadorContract::new();

    assert_eq!(client.increment(), 1);
    assert_eq!(client.increment(), 2);
    assert_eq!(client.get_count(), 2);
}

#[test]
fn test_decrement() {
    let mut client = ContadorContract::new();

    client.increment();
    client.increment();
    client.increment();

    assert_eq!(client.decrement(), 2);
    assert_eq!(client.get_count(), 2);
}

#[test]
fn test_reset() {
    let mut client = ContadorContract::new();

    client.increment();
    client.increment();
    client.reset();

    assert_eq!(client.get_count(), 0);
}

#[test]
fn new_counter_is_at_zero() {
    assert_eq!(ContadorContract::new().get_count(), 0);
}

#[test]
fn increment_by_adds_the_amount() {
    let mut counter = ContadorContract::new();
    assert_eq!(counter.increment_by(5), 5);
    assert_eq!(counter.increment_by(0), 5);
    assert_eq!(counter.increment_by(u32::MAX - 5), u32::MAX);
    assert_eq!(counter.get_count(), u32::MAX);
    assert_eq!(counter.decrement(), u32::MAX - 1);
    assert_eq!(counter.increment(), u32::MAX);
}

#[test]
fn counter_comes_down_to_zero() {
    let mut counter = ContadorContract { contador: 1 };
    assert_eq!(counter.decrement(), 0);
    assert_eq!(counter.get_count(), 0);
}
