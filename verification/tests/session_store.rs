use denim::auth::postgres_store::{
    after_create_attempt, decoded_record, fetched_row, CreateAttempt, CreateNext, SessionRow,
    SessionStoreError, SessionTable,
};

const DAY: i128 = 24 * 60 * 60 * 1_000_000_000;

fn row(id: i128, data: &[u8], expiry_date: i128) -> SessionRow {
    SessionRow { id, data: data.to_vec(), expiry_date }
}

#[test]
fn session_lives_until_it_expires() {
    let now: i128 = 1_700_000_000 * 1_000_000_000;
    let mut table = SessionTable::new();
    let id = table.create(row(42, b"state", now + 5 * DAY), 8).expect("a free identifier");
    assert_eq!(id, 42);
    let loaded = table.load(id).expect("the session was stored");
    assert_eq!(loaded.id, 42);
    assert_eq!(loaded.data, b"state".to_vec());
    assert_eq!(loaded.expiry_date, now + 5 * DAY);
    table.delete_expired(now);
    assert!(table.load(id).is_some());
    table.save(row(42, b"state", now - 1));
    table.delete_expired(now);
    assert!(table.load(id).is_none());
    assert_eq!(table.len(), 0);
}

#[test]
fn save_then_load_round_trips() {
    let mut table = SessionTable::new();
    table.save(row(1, &[1, 2, 3], 50));
    table.save(row(2, &[], 60));
    let one = table.load(1).unwrap();
    assert_eq!((one.id, one.data.clone(), one.expiry_date), (1, vec![1, 2, 3], 50));
    table.save(row(1, &[9], 70));
    let one = table.load(1).unwrap();
    assert_eq!((one.data.clone(), one.expiry_date), (vec![9], 70));
    let two = table.load(2).unwrap();
    assert_eq!((two.data.clone(), two.expiry_date), (vec![], 60));
    assert_eq!(table.len(), 2);
    table.save(row(1, &[9], 70));
    assert_eq!(table.len(), 2);
    assert!(table.load(3).is_none());
}

#[test]
fn delete_expired_removes_exactly_the_past() {
    let mut table = SessionTable::new();
    table.save(row(1, b"a", 99));
    table.save(row(2, b"b", 100));
    table.save(row(3, b"c", 101));
    table.save(row(4, b"d", -5));
    table.save(row(5, b"e", 1_000));
    table.delete_expired(100);
    assert!(!table.id_exists(1));
    assert!(table.id_exists(2));
    assert!(table.id_exists(3));
    assert!(!table.id_exists(4));
    assert!(table.id_exists(5));
    assert_eq!(table.len(), 3);
    assert_eq!(table.load(2).unwrap().data, b"b".to_vec());
}

#[test]
fn delete_is_idempotent() {
    let mut table = SessionTable::new();
    table.save(row(7, b"x", 1));
    table.delete(7);
    assert!(!table.id_exists(7));
    table.delete(7);
    table.delete(8);
    assert_eq!(table.len(), 0);
}

#[test]
fn created_ids_are_pairwise_distinct() {
    let mut table = SessionTable::new();
    let mut ids = Vec::new();
    for n in 0..50u8 {
        // every caller proposes the same identifier
        let id = table.create(row(5, &[n], 10), 16).expect("a free identifier");
        ids.push(id);
    }
    assert_eq!(ids[0], 5);
    for i in 0..ids.len() {
        for j in (i + 1)..ids.len() {
            assert_ne!(ids[i], ids[j]);
        }
    }
    assert_eq!(table.len(), 50);
    for (n, id) in ids.iter().enumerate() {
        assert_eq!(table.load(*id).unwrap().data, vec![n as u8]);
    }
}

#[test]
fn create_without_retries_gives_up_on_a_taken_id() {
    let mut table = SessionTable::new();
    assert_eq!(table.create(row(5, b"first", 10), 0), Some(5));
    assert_eq!(table.create(row(5, b"second", 10), 0), None);
    assert_eq!(table.load(5).unwrap().data, b"first".to_vec());
    assert_eq!(table.len(), 1);
}

#[test]
fn insert_never_overwrites() {
    let mut table = SessionTable::new();
    assert!(table.insert_if_absent(row(1, b"mine", 10)));
    assert!(!table.insert_if_absent(row(1, b"yours", 20)));
    let kept = table.load(1).unwrap();
    assert_eq!((kept.data.clone(), kept.expiry_date), (b"mine".to_vec(), 10));
}

#[test]
fn create_retries_under_a_fresh_id() {
    match after_create_attempt(row(1, b"d", 9), CreateAttempt::Conflict, 77) {
        CreateNext::Retry(next) => {
            assert_eq!((next.id, next.data.clone(), next.expiry_date), (77, b"d".to_vec(), 9));
        }
        other => panic!("expected a retry, got {:?}", other),
    }
    match after_create_attempt(row(1, b"d", 9), CreateAttempt::Inserted, 77) {
        CreateNext::Done(done) => assert_eq!(done.id, 1),
        other => panic!("expected to be done, got {:?}", other),
    }
    match after_create_attempt(row(1, b"d", 9), CreateAttempt::Failed("down".to_string()), 77) {
        CreateNext::Fail(SessionStoreError::Backend(text)) => assert_eq!(text, "down"),
        other => panic!("expected a backend failure, got {:?}", other),
    }
}

#[test]
fn failures_of_the_store_are_told_apart() {
    match fetched_row(Err("connection refused".to_string())) {
        Err(SessionStoreError::Backend(text)) => assert_eq!(text, "connection refused"),
        other => panic!("expected a backend failure, got {:?}", other),
    }
    assert!(matches!(fetched_row(Ok(None)), Ok(None)));
    assert!(matches!(fetched_row(Ok(Some(row(3, b"", 0)))), Ok(Some(_))));
    match decoded_record::<u8>(3, 4, Err("bad bytes".to_string())) {
        Err(SessionStoreError::Decode(text)) => assert_eq!(text, "bad bytes"),
        other => panic!("expected a decoding failure, got {:?}", other),
    }
    let record = decoded_record(3, 4, Ok(5u8)).unwrap();
    assert_eq!((record.id, record.data, record.expiry_date), (3, 5, 4));
}

#[test]
fn expiry_is_strict() {
    assert!(row(1, b"", 99).is_expired(100));
    assert!(!row(1, b"", 100).is_expired(100));
    assert!(!row(1, b"", 101).is_expired(100));
}

#[test]
fn concurrent_creates_get_distinct_ids() {
    let runtime = tokio::runtime::Builder::new_multi_thread().worker_threads(4).build().unwrap();
    runtime.block_on(async {
        let table = std::sync::Arc::new(std::sync::Mutex::new(SessionTable::new()));
        let mut callers = Vec::new();
        for n in 0..64u8 {
            let table = table.clone();
            callers.push(tokio::spawn(async move {
                // every caller proposes one of four identifiers
                table.lock().unwrap().create(row((n % 4) as i128, &[n], 10), 16)
            }));
        }
        let mut ids = Vec::new();
        for caller in callers {
            ids.push(caller.await.unwrap().expect("a free identifier"));
        }
        let mut distinct = ids.clone();
        distinct.sort();
        distinct.dedup();
        assert_eq!(distinct.len(), 64);
        let table = table.lock().unwrap();
        assert_eq!(table.len(), 64);
        let mut seen = Vec::new();
        for id in ids {
            let stored = table.load(id).unwrap();
            assert_eq!(stored.data.len(), 1);
            seen.push(stored.data[0]);
        }
        seen.sort();
        assert_eq!(seen, (0..64u8).collect::<Vec<_>>());
    });
}
