use autoincrement::{AutoIncrement, Incremental};

#[test]
fn test_sync_u8() {
    let mut counter = <u8 as Incremental>::init();

    assert_eq!(counter.pull(), 1);
    assert_eq!(counter.pull(), 2);
    assert_eq!(counter.pull(), 3);
}

#[test]
fn test_sync_u16() {
    let mut counter = <u16 as Incremental>::init();

    assert_eq!(counter.pull(), 1);
    assert_eq!(counter.pull(), 2);
    assert_eq!(counter.pull(), 3);
}

#[test]
fn test_sync_u32() {
    let mut counter = <u32 as Incremental>::init();

    assert_eq!(counter.pull(), 1);
    assert_eq!(counter.pull(), 2);
    assert_eq!(counter.pull(), 3);
}

#[test]
fn test_sync_u64() {
    let mut counter = <u64 as Incremental>::init();

    assert_eq!(counter.pull(), 1);
    assert_eq!(counter.pull(), 2);
    assert_eq!(counter.pull(), 3);
}

#[test]
fn test_sync_usize() {
    let mut counter = <usize as Incremental>::init();

    assert_eq!(counter.pull(), 1);
    assert_eq!(counter.pull(), 2);
    assert_eq!(counter.pull(), 3);
}

#[test]
fn sync_init_with_resumes_sequence() {
    let mut counter = AutoIncrement::init_with(41u16);
    assert_eq!(counter.pull(), 41);
    assert_eq!(counter.pull(), 42);
    assert_eq!(counter.into_inner(), 43);
}

#[test]
fn sync_trait_init_with_and_init_from() {
    let mut a = <u32 as Incremental>::init_with(7);
    assert_eq!(a.pull(), 7);
    let mut b = Incremental::init_from(100u32);
    assert_eq!(b.pull(), 100);
    assert_eq!(*b.peek(), 101);
}

#[test]
fn sync_hundred_consecutive_values() {
    let mut counter = <u64 as Incremental>::init();
    for expected in 1u64..=100 {
        assert_eq!(counter.pull(), expected);
    }
}

#[test]
fn sync_last_step_before_maximum() {
    let mut counter = AutoIncrement::init_with(254u8);
    assert_eq!(counter.pull(), 254);
    assert_eq!(*counter.peek(), 255);
}

#[test]
fn sync_get_next_adds_one() {
    assert_eq!(<u8 as Incremental>::get_next(&9), 10);
    assert_eq!(<usize as Incremental>::initial(), 1);
}
