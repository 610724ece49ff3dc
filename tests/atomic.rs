use autoincrement::{AsyncIncrement, AsyncIncremental};

#[test]
fn test_async_u8() {
    let counter = <u8 as AsyncIncremental>::init();

    assert_eq!(counter.pull(), 1);
    assert_eq!(counter.pull(), 2);
    assert_eq!(counter.pull(), 3);
}

#[test]
fn test_async_u16() {
    let counter = <u16 as AsyncIncremental>::init();

    assert_eq!(counter.pull(), 1);
    assert_eq!(counter.pull(), 2);
    assert_eq!(counter.pull(), 3);
}

#[test]
fn test_async_u32() {
    let counter = <u32 as AsyncIncremental>::init();

    assert_eq!(counter.pull(), 1);
    assert_eq!(counter.pull(), 2);
    assert_eq!(counter.pull(), 3);
}

#[test]
fn test_async_u64() {
    let counter = <u64 as AsyncIncremental>::init();

    assert_eq!(counter.pull(), 1);
    assert_eq!(counter.pull(), 2);
    assert_eq!(counter.pull(), 3);
}

#[test]
fn test_async_usize() {
    let counter = <usize as AsyncIncremental>::init();

    assert_eq!(counter.pull(), 1);
    assert_eq!(counter.pull(), 2);
    assert_eq!(counter.pull(), 3);
}

#[test]
fn async_init_with_resumes_sequence() {
    let counter = AsyncIncrement::init_with(1000u64);
    assert_eq!(counter.pull(), 1000);
    assert_eq!(counter.pull(), 1001);
    let other = AsyncIncremental::init_from(5u64);
    assert_eq!(other.pull(), 5);
}

#[test]
fn async_wraps_past_maximum() {
    let counter = AsyncIncrement::init_with(255u8);
    assert_eq!(counter.pull(), 255);
    assert_eq!(counter.pull(), 0);
}

#[test]
fn async_hundred_consecutive_values() {
    let counter = <usize as AsyncIncremental>::init();
    for expected in 1usize..=100 {
        assert_eq!(counter.pull(), expected);
    }
}

#[test]
fn async_three_callers_share_one_counter() {
    let counter = <u64 as AsyncIncremental>::init();
    let callers = [&counter, &counter, &counter];
    let mut got: Vec<u64> = callers.iter().map(|c| c.pull()).collect();
    got.sort();
    assert_eq!(got, vec![1, 2, 3]);
}
