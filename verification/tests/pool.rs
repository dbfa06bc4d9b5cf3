use evm_indexer::pool::{MemPool, PoolMember};

struct TestObj {
    field: String,
}

#[test]
fn test_mempool() {
    let size = 3;
    let mut mem_pool = MemPool::<TestObj>::new(size, || TestObj { field: "uninitialized".to_string() });
    let r1 = mem_pool.acquire();
    assert_eq!(mem_pool.free_count(), 2);
    assert_eq!(r1.is_some(), true);
    let r2 = mem_pool.acquire();
    assert_eq!(mem_pool.free_count(), 1);
    assert_eq!(r2.is_some(), true);
    let r3 = mem_pool.acquire();
    assert_eq!(mem_pool.free_count(), 0);
    assert_eq!(r2.is_some(), true);
    let r4 = mem_pool.acquire();
    assert_eq!(r4.is_some(), false);
    assert_eq!(mem_pool.free_count().clone(), 0);
    assert_eq!(mem_pool.next_free_index().clone(), size);
    mem_pool.release(r3.unwrap());
    assert_eq!(mem_pool.free_count(), 1);
    assert_eq!(mem_pool.next_free_index(), 2);
    mem_pool.release(r2.unwrap());
    assert_eq!(mem_pool.free_count(), 2);
    assert_eq!(mem_pool.next_free_index(), 1);
    mem_pool.release(r1.unwrap());
    assert_eq!(mem_pool.free_count(), 3);
    assert_eq!(mem_pool.next_free_index(), 0);

    // releasing an already released object
    // must have no effect
    mem_pool.release(r1.unwrap());
    assert_eq!(mem_pool.free_count(), 3);
    assert_eq!(mem_pool.next_free_index(), 0);
}

#[test]
fn pool_hands_out_slots_in_free_list_order() {
    let mut pool = MemPool::new(3, || 7u32);
    assert_eq!(pool.acquire(), Some(0));
    assert_eq!(pool.acquire(), Some(1));
    assert_eq!(pool.acquire(), Some(2));
    assert_eq!(pool.acquire(), None);
}

#[test]
fn pool_acquire_then_release_restores_state() {
    let mut pool = MemPool::new(4, || 0u8);
    let a = pool.acquire().unwrap();
    let before_free = pool.free_count();
    let before_next = pool.next_free_index();
    let b = pool.acquire().unwrap();
    pool.release(b);
    assert_eq!(pool.free_count(), before_free);
    assert_eq!(pool.next_free_index(), before_next);
    // the same slot is handed out again
    assert_eq!(pool.acquire(), Some(b));
    assert_ne!(a, b);
}

#[test]
fn pool_released_slot_is_reused_first() {
    let mut pool = MemPool::new(3, || 0u8);
    let a = pool.acquire().unwrap();
    let _b = pool.acquire().unwrap();
    pool.release(a);
    assert_eq!(pool.acquire(), Some(a));
}

#[test]
fn pool_release_of_free_slot_is_noop() {
    let mut pool = MemPool::new(2, || 0u8);
    pool.release(1);
    assert_eq!(pool.free_count(), 2);
    assert_eq!(pool.next_free_index(), 0);
    assert_eq!(pool.acquire(), Some(0));
}

#[test]
fn pool_of_size_zero_hands_out_nothing() {
    let mut pool = MemPool::new(0, || 0u8);
    assert_eq!(pool.capacity(), 0);
    assert_eq!(pool.acquire(), None);
    assert_eq!(pool.free_count(), 0);
}

#[test]
fn pool_values_are_read_and_replaced() {
    let mut pool = MemPool::new(2, || String::from("init"));
    let h = pool.acquire().unwrap();
    assert_eq!(pool.value(h), "init");
    pool.set_value(h, String::from("used"));
    assert_eq!(pool.value(h), "used");
    assert_eq!(pool.value(1 - h), "init");
}

#[test]
fn pool_member_get_value_gives_mutable_access() {
    let mut m = PoolMember::new(true, 5u32);
    *m.get_value() += 1;
    assert_eq!(*m.get_value(), 6);
    assert!(m.is_free());
}
