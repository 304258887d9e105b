use lfrlock::mutex::{settle, Attempt, Mutex};
use lfrlock::pending::Pending;
use lfrlock::{LfrLock, LfrLockFactory};

#[derive(Debug, Clone, PartialEq)]
struct Data {
    value: i32,
}

#[test]
fn store_then_read_sees_value_on_every_clone() {
    let lock = LfrLock::new(Data { value: 1 });
    let other = lock.clone();
    let third = lock.factory().create();
    lock.store(Data { value: 7 });
    assert_eq!(lock.read().value, 7);
    assert_eq!(other.read().value, 7);
    assert_eq!(third.read().value, 7);
}

#[test]
fn swap_returns_immediately_preceding_value() {
    let lock = LfrLock::new(Data { value: 0 });
    assert_eq!(lock.swap(Data { value: 1 }), Data { value: 0 });
    assert_eq!(lock.swap(Data { value: 2 }), Data { value: 1 });
    assert_eq!(lock.read().value, 2);
}

#[test]
fn try_write_fails_while_write_guard_held() {
    let lock = LfrLock::new(Data { value: 3 });
    let other = lock.clone();
    {
        let mut guard = lock.write();
        guard.value = 4;
        assert!(other.try_write().is_none());
        assert!(lock.try_write().is_none());
        assert_eq!(lock.read().value, 3);
    }
    assert_eq!(lock.read().value, 4);
    let guard = other.try_write();
    assert!(guard.is_some());
    assert_eq!(guard.unwrap().value, 4);
}

#[test]
fn filter_leaves_value_unchanged() {
    let lock = LfrLock::new(Data { value: 9 });
    assert!(lock.filter(|d| d.value == 9).is_some());
    assert_eq!(lock.get(), Data { value: 9 });
    assert!(lock.filter(|d| d.value != 9).is_none());
    assert_eq!(lock.get(), Data { value: 9 });
}

#[test]
fn four_clones_updating_in_turn_lose_no_update() {
    let lock = LfrLock::new(Data { value: 0 });
    let clones = vec![lock.clone(), lock.clone(), lock.factory().create(), lock.clone()];
    for _ in 0..25 {
        for c in clones.iter() {
            c.update(|d| Data { value: d.value + 1 });
        }
    }
    assert_eq!(lock.read().value, 100);
}

#[test]
fn read_guard_keeps_old_version_after_store() {
    let lock = LfrLock::new(Data { value: 5 });
    let before = lock.read();
    lock.store(Data { value: 6 });
    assert_eq!(before.value, 5);
    assert_eq!(lock.read().value, 6);
}

#[test]
fn write_guard_shows_working_copy_before_commit() {
    let lock = LfrLock::new(Data { value: 10 });
    let mut guard = lock.write();
    assert_eq!(guard.value, 10);
    guard.value *= 3;
    assert_eq!(guard.value, 30);
    assert_eq!(lock.read().value, 10);
    drop(guard);
    assert_eq!(lock.read().value, 30);
}

#[test]
fn write_guard_unchanged_commits_same_value() {
    let lock = LfrLock::new(String::from("abc"));
    {
        let _guard = lock.write();
    }
    assert_eq!(lock.get(), "abc");
}

#[test]
fn factory_new_and_create_share_one_slot() {
    let factory = LfrLockFactory::new(Data { value: 11 });
    let a = factory.create();
    let b = factory.clone().create();
    assert_eq!(a.get().value, 11);
    a.update(|d| Data { value: d.value + 1 });
    assert_eq!(b.get().value, 12);
    b.store(Data { value: 20 });
    assert_eq!(factory.create().read().value, 20);
}

#[test]
fn update_and_fetch_and_fetch_and_update_on_strings() {
    let lock = LfrLock::new(String::from("a"));
    let g = lock.update_and_fetch(|s| format!("{}b", s));
    assert_eq!(*g, "ab");
    let g = lock.fetch_and_update(|s| format!("{}c", s));
    assert_eq!(*g, "ab");
    assert_eq!(lock.get(), "abc");
}

#[test]
fn map_returns_closure_result_of_live_value() {
    let lock = LfrLock::new(vec![1, 2, 3]);
    assert_eq!(lock.map(|v| v.len()), 3);
    lock.update(|v| {
        let mut w = v.clone();
        w.push(4);
        w
    });
    assert_eq!(lock.map(|v| v.iter().sum::<i32>()), 10);
}

#[test]
fn mutex_try_lock_fails_only_while_held() {
    let m = Mutex::new(5);
    {
        let mut g = m.lock();
        *g += 1;
        assert!(m.try_lock().is_err());
    }
    let g = m.try_lock();
    assert!(g.is_ok());
    assert_eq!(*g.unwrap(), 6);
}

#[test]
fn settle_fails_exactly_on_would_block() {
    let inner = std::sync::Mutex::new(1);
    let ok = settle(Attempt::Acquired(inner.lock().unwrap()));
    assert!(ok.is_ok());
    drop(ok);
    let blocked: Attempt<std::sync::MutexGuard<'_, i32>> = Attempt::WouldBlock;
    assert!(settle(blocked).is_err());
}

#[test]
fn pending_takes_value_once() {
    let mut p = Pending::new(8);
    assert_eq!(*p.get(), 8);
    *p.get_mut() = 9;
    assert!(p.is_pending_exec());
    assert_eq!(p.take(), Some(9));
    assert!(!p.is_pending_exec());
    assert_eq!(p.take(), None);
}

#[test]
fn debug_string_renders_live_value() {
    let lock = LfrLock::new(Data { value: 42 });
    assert_eq!(lock.debug_string(), "LfrLock { data: Data { value: 42 } }");
    lock.store(Data { value: 1 });
    assert_eq!(lock.debug_string(), "LfrLock { data: Data { value: 1 } }");
}

#[test]
fn spin_mutex_try_lock_fails_only_while_held() {
    let m = lfrlock::spin_mutex::Mutex::new(vec![1]);
    {
        let mut g = m.lock();
        g.push(2);
        assert!(m.try_lock().is_err());
    }
    let g = m.try_lock();
    assert!(g.is_ok());
    assert_eq!(*g.unwrap(), vec![1, 2]);
}
