use lume_architect::{
    cached_query, cached_query_result, Database, Query, QueryError, QueryFlags, QueryId, ResultKey,
};

fn square_db() -> Database<u64> {
    let mut db = Database::new();
    db.ensure_query_exists("square", QueryFlags::empty);
    db
}

#[test]
fn square_scenario() {
    let mut db = square_db();
    assert_eq!(*db.execute_query("square", &4, || 16).unwrap(), 16);
    assert_eq!(
        *db.execute_query("square", &4, || panic!("cached value must be used")).unwrap(),
        16
    );
    assert_eq!(*db.execute_query("square", &5, || 25).unwrap(), 25);
    db.clear("square");
    assert_eq!(*db.execute_query("square", &4, || 100).unwrap(), 100);
}

#[test]
fn memoization_runs_once() {
    let mut db = square_db();
    let mut runs = 0;
    let a = *db.execute_query("square", &3, || { runs += 1; 9 }).unwrap();
    let b = *db.execute_query("square", &3, || { runs += 1; 10 }).unwrap();
    assert_eq!(a, b);
    assert_eq!(runs, 1);
}

#[test]
fn always_recomputes_each_time() {
    let mut db: Database<u64> = Database::new();
    db.ensure_query_exists("now", QueryFlags::always);
    let mut runs = 0;
    assert_eq!(*db.execute_query("now", &1, || { runs += 1; 7 }).unwrap(), 7);
    assert_eq!(*db.execute_query("now", &1, || { runs += 1; 8 }).unwrap(), 8);
    assert_eq!(runs, 2);
}

#[test]
fn keys_are_isolated() {
    let mut db = square_db();
    db.execute_query("square", &2, || 4).unwrap();
    assert!(db.query("square").contains(&2));
    assert!(!db.query("square").contains(&3));
    assert_eq!(*db.execute_query("square", &3, || 9).unwrap(), 9);
    assert_eq!(db.query("square").get(&2), Some(&4));
}

#[test]
fn queries_are_isolated() {
    let mut db = square_db();
    db.ensure_query_exists("cube", QueryFlags::empty);
    assert_eq!(*db.execute_query("square", &2, || 4).unwrap(), 4);
    assert_eq!(*db.execute_query("cube", &2, || 8).unwrap(), 8);
    assert_eq!(db.query("square").get(&2), Some(&4));
    assert_eq!(db.query("cube").get(&2), Some(&8));
}

#[test]
fn clear_keeps_registration() {
    let mut db: Database<u64> = Database::new();
    db.ensure_query_exists("q", QueryFlags::always);
    db.execute_query("q", &1, || 1).unwrap();
    db.clear("q");
    assert!(db.query_exists("q"));
    assert!(!db.query("q").contains(&1));
    assert!(db.query("q").flags().always);
    assert_eq!(db.query("q").name(), "q");
}

#[test]
fn clear_all_forgets_queries() {
    let mut db = square_db();
    db.execute_query("square", &4, || 16).unwrap();
    db.clear_all();
    assert!(!db.query_exists("square"));
    db.ensure_query_exists("square", QueryFlags::empty);
    assert_eq!(*db.execute_query("square", &4, || 17).unwrap(), 17);
}

#[test]
fn failure_is_not_cached() {
    let mut db = square_db();
    let r = db.execute_query_result("square", &6, || Err::<u64, &str>("boom")).unwrap();
    assert_eq!(r, Err("boom"));
    assert!(!db.query("square").contains(&6));
    let mut runs = 0;
    let r = db
        .execute_query_result("square", &6, || { runs += 1; Ok::<u64, &str>(36) })
        .unwrap();
    assert_eq!(r, Ok(&36));
    assert_eq!(runs, 1);
    let r = db
        .execute_query_result("square", &6, || Err::<u64, &str>("not run"))
        .unwrap();
    assert_eq!(r, Ok(&36));
}

#[test]
fn reentry_reports_cycle() {
    let mut db: Database<u64> = Database::new();
    db.ensure_query_exists("f", QueryFlags::empty);
    assert_eq!(db.begin_query("f", &3), Ok(()));
    assert_eq!(db.execute_query("f", &3, || 1), Err(QueryError::Cycle));
    assert_eq!(
        db.execute_query_result("f", &3, || Ok::<u64, ()>(1)),
        Err(QueryError::Cycle)
    );
    assert_eq!(db.begin_query("f", &3), Err(QueryError::Cycle));
    assert_eq!(*db.execute_query("f", &4, || 2).unwrap(), 2);
    db.end_query("f", &3);
    assert!(!db.query("f").contains(&3));
    assert_eq!(*db.execute_query("f", &3, || 5).unwrap(), 5);
}

#[test]
fn cycle_fallback_substitutes_value() {
    let mut db: Database<u64> = Database::new();
    db.ensure_query_exists("f", QueryFlags::empty);
    db.begin_query("f", &3).unwrap();
    let inner = match db.execute_query("f", &3, || 1) {
        Ok(v) => *v,
        Err(QueryError::Cycle) => 42,
    };
    db.end_query("f", &3);
    assert_eq!(inner, 42);
}

#[test]
fn cached_query_registers_then_dispatches() {
    let mut db: Database<String> = Database::new();
    let first = cached_query(&mut db, "get_name", &1, QueryFlags::empty, |_| String::from("Admin"))
        .unwrap()
        .clone();
    let second =
        cached_query(&mut db, "get_name", &1, QueryFlags::empty, |_| String::from("Username"))
            .unwrap()
            .clone();
    assert_eq!(first, "Admin");
    assert_eq!(second, "Admin");
    assert!(!db.query("get_name").flags().always);
}

#[test]
fn cached_query_with_always_flag() {
    let mut db: Database<String> = Database::new();
    let a = cached_query(&mut db, "slow", &10, QueryFlags::always, |_| "A".repeat(10))
        .unwrap()
        .clone();
    let b = cached_query(&mut db, "slow", &10, QueryFlags::always, |_| "A".repeat(10))
        .unwrap()
        .clone();
    assert_eq!(a, b);
    assert_eq!(a, "AAAAAAAAAA");
}

#[test]
fn cached_query_result_failure_registers_only() {
    let mut db: Database<u64> = Database::new();
    let r = cached_query_result(&mut db, "parse", &1, QueryFlags::empty, |_| Err::<u64, u8>(3));
    assert_eq!(r, Ok(Err(3)));
    assert!(db.query_exists("parse"));
    assert!(!db.query("parse").contains(&1));
    let r = cached_query_result(&mut db, "parse", &1, QueryFlags::empty, |_| Ok::<u64, u8>(11));
    assert_eq!(r, Ok(Ok(&11)));
}

#[test]
fn flags_are_computed_lazily() {
    let mut db: Database<u64> = Database::new();
    db.ensure_query_exists("q", QueryFlags::always);
    db.ensure_query_exists("q", || panic!("flags of a registered query are not asked for"));
    assert!(db.query("q").flags().always);
}

#[test]
fn get_or_add_query_returns_bucket() {
    let mut db: Database<u64> = Database::new();
    let q = db.get_or_add_query("q", QueryFlags::empty);
    assert_eq!(q.name(), "q");
    assert!(!q.flags().always);
}

#[test]
fn add_query_registers_fresh_bucket() {
    let mut db: Database<u64> = Database::new();
    db.add_query("fresh", QueryFlags::always());
    assert!(db.query_exists("fresh"));
    assert!(db.query("fresh").flags().always);
}

#[test]
fn query_bucket_operations() {
    let mut q: Query<u64> = Query::new(String::from("bucket"), QueryFlags::empty());
    assert_eq!(q.name(), "bucket");
    assert_eq!(q.get(&1), None);
    q.insert(&1, 10);
    assert_eq!(q.get(&1), Some(&10));
    q.insert(&1, 11);
    assert_eq!(q.get(&1), Some(&11));
    assert_eq!(*q.get_or_insert(&1, || 99), 11);
    assert_eq!(*q.get_or_insert(&2, || 20), 20);
    assert_eq!(q.get_or_insert_result(&3, || Err::<u64, ()>(())), Err(()));
    assert!(!q.contains(&3));
    assert_eq!(q.get_or_insert_result(&3, || Ok::<u64, ()>(30)), Ok(&30));
    q.clear();
    assert!(!q.contains(&1));
}

#[test]
fn always_bucket_overwrites() {
    let mut q: Query<u64> = Query::new(String::from("b"), QueryFlags::always());
    q.insert(&1, 10);
    assert_eq!(*q.get_or_insert(&1, || 12), 12);
    assert_eq!(q.get(&1), Some(&12));
}

#[test]
fn flags_contain_and_insert() {
    let mut f = QueryFlags::empty();
    assert!(f.contains(QueryFlags::empty()));
    assert!(!f.contains(QueryFlags::always()));
    f.insert(QueryFlags::always());
    assert!(f.contains(QueryFlags::always()));
}

#[test]
fn identities_use_fxhash() {
    assert_eq!(QueryId::from_name("square").0, fxhash::hash("square"));
    assert_eq!(QueryId::from_name("square"), QueryId::from_name("square"));
    assert_ne!(QueryId::from_name("square"), QueryId::from_name("cube"));
    assert_eq!(ResultKey::from_hashable(&4).0, fxhash::hash(&4u64));
    assert_ne!(ResultKey::from_hashable(&4).0, 4);
}

#[test]
fn error_message() {
    assert_eq!(QueryError::Cycle.message(), "cycle detected");
}

#[test]
fn query_names_join_owner_and_function() {
    assert_eq!(lume_architect::query_name(Some("Context"), "slow_method"), "Context::slow_method");
    assert_eq!(lume_architect::query_name(None, "square"), "square");
}

#[test]
fn cycle_turns_into_fallback_value() {
    assert_eq!(lume_architect::or_on_cycle(Ok(3u64), || 9), 3);
    assert_eq!(lume_architect::or_on_cycle(Err(QueryError::Cycle), || 9u64), 9);
}

#[test]
fn query_mut_gives_exclusive_access() {
    let mut db: Database<u64> = Database::new();
    db.get_or_add_query("q", QueryFlags::empty).insert(&1, 5);
    assert_eq!(db.query("q").get(&1), Some(&5));
    db.query_mut("q").insert(&1, 6);
    assert_eq!(*db.execute_query("q", &1, || 7).unwrap(), 6);
}

#[test]
fn nested_dispatch_of_same_call_is_cycle() {
    let mut db: Database<u64> = Database::new();
    db.ensure_query_exists("f", QueryFlags::empty);
    let mut inner_runs = 0;
    let r = *db
        .execute_query_with("f", &3, |db| {
            let inner = db.execute_query_with("f", &3, |_| { inner_runs += 1; 0 }).map(|v| *v);
            assert_eq!(inner, Err(QueryError::Cycle));
            1
        })
        .unwrap();
    assert_eq!(r, 1);
    assert_eq!(inner_runs, 0);
    assert_eq!(*db.execute_query_with("f", &3, |_| 2).unwrap(), 1);
}

#[test]
fn nested_cycle_takes_fallback() {
    let mut db: Database<u64> = Database::new();
    let r = *cached_query(&mut db, "f", &3, QueryFlags::empty, |db| {
        lume_architect::or_on_cycle(
            cached_query(db, "f", &3, QueryFlags::empty, |_| 0).map(|v| *v),
            || 7,
        ) + 1
    })
    .unwrap();
    assert_eq!(r, 8);
}

fn fib(db: &mut Database<u64>, n: u64) -> u64 {
    *cached_query(db, "fib", &n, QueryFlags::empty, |db| {
        if n < 2 { n } else { fib(db, n - 1) + fib(db, n - 2) }
    })
    .unwrap()
}

#[test]
fn recursive_queries_with_other_keys_are_memoized() {
    let mut db: Database<u64> = Database::new();
    assert_eq!(fib(&mut db, 20), 6765);
    assert_eq!(db.query("fib").get(&19), Some(&4181));
    assert!(db.query("fib").contains(&0));
}

#[test]
fn nested_fallible_dispatch() {
    let mut db: Database<u64> = Database::new();
    db.ensure_query_exists("g", QueryFlags::empty);
    db.ensure_query_exists("h", QueryFlags::empty);
    let r = db
        .execute_query_result_with("g", &1, |db| {
            match db.execute_query_result_with("h", &1, |_| Err::<u64, &str>("inner")) {
                Ok(Err(e)) => Err(e),
                _ => Ok(0),
            }
        })
        .unwrap();
    assert_eq!(r, Err("inner"));
    assert!(!db.query("g").contains(&1));
    assert!(!db.query("h").contains(&1));
    let r = db.execute_query_result_with("g", &1, |_| Ok::<u64, &str>(5)).unwrap();
    assert_eq!(r, Ok(&5));
}

#[test]
fn result_key_is_fx_word_hash() {
    if usize::BITS == 64 {
        assert_eq!(
            ResultKey::from_hashable(&4).0 as u64,
            4u64.wrapping_mul(0x517cc1b727220a95)
        );
        assert_ne!(ResultKey::from_hashable(&4), ResultKey::from_hashable(&5));
    }
}
