use vstd::prelude::*;

use crate::atomic::AsyncIncremental;
use crate::sync::{nth_pulled, Incremental};
use crate::DEFAULT_INITIAL_VALUE;

verus! {

impl Incremental for u8 {
    open spec fn spec_initial() -> u8 {
        DEFAULT_INITIAL_VALUE as u8
    }

    open spec fn spec_next(current: u8) -> u8 {
        (current + 1) as u8
    }

    open spec fn can_advance(current: u8) -> bool {
        current < u8::MAX
    }

    fn initial() -> (r: u8) {
        DEFAULT_INITIAL_VALUE as u8
    }

    fn get_next(current: &u8) -> (r: u8) {
        *current + 1
    }
}

impl AsyncIncremental for u8 {
    type Atomic = std::sync::atomic::AtomicU8;

    open spec fn spec_first() -> u8 {
        DEFAULT_INITIAL_VALUE as u8
    }

    fn initial() -> (r: u8) {
        proof {
            assert(<u8 as AsyncIncremental>::spec_first() == DEFAULT_INITIAL_VALUE as u8);
        }
        DEFAULT_INITIAL_VALUE as u8
    }

    fn get_next(atomic: &std::sync::atomic::AtomicU8) -> (r: u8) {
        atomic.fetch_add(1, std::sync::atomic::Ordering::SeqCst)
    }

    fn into_atomic(value: u8) -> (r: std::sync::atomic::AtomicU8) {
        std::sync::atomic::AtomicU8::new(value)
    }
}

impl Incremental for u16 {
    open spec fn spec_initial() -> u16 {
        DEFAULT_INITIAL_VALUE as u16
    }

    open spec fn spec_next(current: u16) -> u16 {
        (current + 1) as u16
    }

    open spec fn can_advance(current: u16) -> bool {
        current < u16::MAX
    }

    fn initial() -> (r: u16) {
        DEFAULT_INITIAL_VALUE as u16
    }

    fn get_next(current: &u16) -> (r: u16) {
        *current + 1
    }
}

impl AsyncIncremental for u16 {
    type Atomic = std::sync::atomic::AtomicU16;

    open spec fn spec_first() -> u16 {
        DEFAULT_INITIAL_VALUE as u16
    }

    fn initial() -> (r: u16) {
        proof {
            assert(<u16 as AsyncIncremental>::spec_first() == DEFAULT_INITIAL_VALUE as u16);
        }
        DEFAULT_INITIAL_VALUE as u16
    }

    fn get_next(atomic: &std::sync::atomic::AtomicU16) -> (r: u16) {
        atomic.fetch_add(1, std::sync::atomic::Ordering::SeqCst)
    }

    fn into_atomic(value: u16) -> (r: std::sync::atomic::AtomicU16) {
        std::sync::atomic::AtomicU16::new(value)
    }
}

impl Incremental for u32 {
    open spec fn spec_initial() -> u32 {
        DEFAULT_INITIAL_VALUE as u32
    }

    open spec fn spec_next(current: u32) -> u32 {
        (current + 1) as u32
    }

    open spec fn can_advance(current: u32) -> bool {
        current < u32::MAX
    }

    fn initial() -> (r: u32) {
        DEFAULT_INITIAL_VALUE as u32
    }

    fn get_next(current: &u32) -> (r: u32) {
        *current + 1
    }
}

impl AsyncIncremental for u32 {
    type Atomic = std::sync::atomic::AtomicU32;

    open spec fn spec_first() -> u32 {
        DEFAULT_INITIAL_VALUE as u32
    }

    fn initial() -> (r: u32) {
        proof {
            assert(<u32 as AsyncIncremental>::spec_first() == DEFAULT_INITIAL_VALUE as u32);
        }
        DEFAULT_INITIAL_VALUE as u32
    }

    fn get_next(atomic: &std::sync::atomic::AtomicU32) -> (r: u32) {
        atomic.fetch_add(1, std::sync::atomic::Ordering::SeqCst)
    }

    fn into_atomic(value: u32) -> (r: std::sync::atomic::AtomicU32) {
        std::sync::atomic::AtomicU32::new(value)
    }
}

impl Incremental for u64 {
    open spec fn spec_initial() -> u64 {
        DEFAULT_INITIAL_VALUE as u64
    }

    open spec fn spec_next(current: u64) -> u64 {
        (current + 1) as u64
    }

    open spec fn can_advance(current: u64) -> bool {
        current < u64::MAX
    }

    fn initial() -> (r: u64) {
        DEFAULT_INITIAL_VALUE as u64
    }

    fn get_next(current: &u64) -> (r: u64) {
        *current + 1
    }
}

impl AsyncIncremental for u64 {
    type Atomic = std::sync::atomic::AtomicU64;

    open spec fn spec_first() -> u64 {
        DEFAULT_INITIAL_VALUE as u64
    }

    fn initial() -> (r: u64) {
        proof {
            assert(<u64 as AsyncIncremental>::spec_first() == DEFAULT_INITIAL_VALUE as u64);
        }
        DEFAULT_INITIAL_VALUE as u64
    }

    fn get_next(atomic: &std::sync::atomic::AtomicU64) -> (r: u64) {
        atomic.fetch_add(1, std::sync::atomic::Ordering::SeqCst)
    }

    fn into_atomic(value: u64) -> (r: std::sync::atomic::AtomicU64) {
        std::sync::atomic::AtomicU64::new(value)
    }
}

impl Incremental for usize {
    open spec fn spec_initial() -> usize {
        DEFAULT_INITIAL_VALUE as usize
    }

    open spec fn spec_next(current: usize) -> usize {
        (current + 1) as usize
    }

    open spec fn can_advance(current: usize) -> bool {
        current < usize::MAX
    }

    fn initial() -> (r: usize) {
        DEFAULT_INITIAL_VALUE as usize
    }

    fn get_next(current: &usize) -> (r: usize) {
        *current + 1
    }
}

impl AsyncIncremental for usize {
    type Atomic = std::sync::atomic::AtomicUsize;

    open spec fn spec_first() -> usize {
        DEFAULT_INITIAL_VALUE as usize
    }

    fn initial() -> (r: usize) {
        proof {
            assert(<usize as AsyncIncremental>::spec_first() == DEFAULT_INITIAL_VALUE as usize);
        }
        DEFAULT_INITIAL_VALUE as usize
    }

    fn get_next(atomic: &std::sync::atomic::AtomicUsize) -> (r: usize) {
        atomic.fetch_add(1, std::sync::atomic::Ordering::SeqCst)
    }

    fn into_atomic(value: usize) -> (r: std::sync::atomic::AtomicUsize) {
        std::sync::atomic::AtomicUsize::new(value)
    }
}

/// For every backing width, the `k`-th pull of a fresh counter hands out
/// the configured initial value plus `k`, as long as no step overflows: the
/// values come out as consecutive integers.
pub proof fn lemma_pulls_are_consecutive(k: nat)
    ensures
        k < u8::MAX ==> nth_pulled::<u8>(k) == DEFAULT_INITIAL_VALUE + k,
        k < u16::MAX ==> nth_pulled::<u16>(k) == DEFAULT_INITIAL_VALUE + k,
        k < u32::MAX ==> nth_pulled::<u32>(k) == DEFAULT_INITIAL_VALUE + k,
        k < u64::MAX ==> nth_pulled::<u64>(k) == DEFAULT_INITIAL_VALUE + k,
        k < usize::MAX ==> nth_pulled::<usize>(k) == DEFAULT_INITIAL_VALUE + k,
    decreases k,
{
    if k > 0 {
        lemma_pulls_are_consecutive((k - 1) as nat);
    }
}

} // verus!
