use async_rusqlite::rusqlite;
use async_rusqlite::{call_slot, close_slot, finalize_slot, Error};
use asyncified::Asyncified;

type Slot = Option<rusqlite::Connection>;

fn runtime() -> tokio::runtime::Runtime {
    tokio::runtime::Builder::new_multi_thread().build().unwrap()
}

async fn open() -> Asyncified<Slot> {
    Asyncified::builder()
        .build(|| rusqlite::Connection::open_in_memory().map(Some))
        .await
        .unwrap()
}

#[test]
fn many_calls_from_cloned_handles() {
    runtime().block_on(async {
        let conn = open().await;
        conn.call(|slot: &mut Slot| {
            call_slot(slot, |c: &mut rusqlite::Connection| {
                c.execute("CREATE TABLE numbers (id INTEGER PRIMARY KEY, num INTEGER NOT NULL)", ())
            })
        })
        .await
        .unwrap();

        let mut tasks = Vec::new();
        for t in 0..10 {
            let conn = conn.clone();
            tasks.push(tokio::spawn(async move {
                for i in 0..1000 {
                    let n = t * 1000 + i;
                    conn.call(move |slot: &mut Slot| {
                        call_slot(slot, move |c: &mut rusqlite::Connection| {
                            c.execute("INSERT INTO numbers (num) VALUES (?1)", (n,))
                        })
                    })
                    .await
                    .unwrap();
                }
            }));
        }
        for task in tasks {
            task.await.unwrap();
        }

        let (count, distinct): (usize, usize) = conn
            .call(|slot: &mut Slot| {
                call_slot(slot, |c: &mut rusqlite::Connection| {
                    c.query_row(
                        "SELECT count(num), count(DISTINCT num) FROM numbers",
                        (),
                        |r| Ok((r.get(0)?, r.get(1)?)),
                    )
                })
            })
            .await
            .unwrap();
        assert_eq!(count, 10000);
        assert_eq!(distinct, 10000);
    });
}

#[test]
fn calls_run_in_submission_order() {
    runtime().block_on(async {
        let conn = open().await;
        conn.call(|slot: &mut Slot| {
            call_slot(slot, |c: &mut rusqlite::Connection| {
                c.execute("CREATE TABLE log (id INTEGER PRIMARY KEY, num INTEGER NOT NULL)", ())
            })
        })
        .await
        .unwrap();
        for n in 0..200 {
            conn.call(move |slot: &mut Slot| {
                call_slot(slot, move |c: &mut rusqlite::Connection| {
                    c.execute("INSERT INTO log (num) VALUES (?1)", (n,))
                })
            })
            .await
            .unwrap();
        }
        let nums: Vec<i64> = conn
            .call(|slot: &mut Slot| {
                call_slot(slot, |c: &mut rusqlite::Connection| {
                    let mut stmt = c.prepare("SELECT num FROM log ORDER BY id")?;
                    let rows = stmt.query_map((), |r| r.get(0))?;
                    rows.collect::<Result<Vec<i64>, rusqlite::Error>>()
                })
            })
            .await
            .unwrap();
        assert_eq!(nums, (0..200).collect::<Vec<i64>>());
    });
}

#[test]
fn finalizer_runs_on_drop_with_connection() {
    runtime().block_on(async {
        let (tx, rx) = tokio::sync::oneshot::channel::<bool>();
        let conn = Asyncified::builder()
            .on_close(move |slot: &mut Slot| {
                finalize_slot(slot, move |db: Slot| {
                    let _ = tx.send(db.is_some());
                })
            })
            .build(|| rusqlite::Connection::open_in_memory().map(Some))
            .await
            .unwrap();

        drop(conn);

        assert!(rx.await.unwrap());
    });
}

#[test]
fn finalizer_after_close_on_drop_gets_none() {
    runtime().block_on(async {
        let (tx, rx) = tokio::sync::oneshot::channel::<bool>();
        let conn = Asyncified::builder()
            .on_close(move |slot: &mut Slot| {
                finalize_slot(slot, move |db: Slot| {
                    let _ = tx.send(db.is_some());
                })
            })
            .build(|| rusqlite::Connection::open_in_memory().map(Some))
            .await
            .unwrap();

        conn.call(|slot: &mut Slot| close_slot(slot)).await.unwrap();
        let again = conn.call(|slot: &mut Slot| close_slot(slot)).await;
        assert_eq!(again, Err(Error::AlreadyClosed));
        drop(conn);

        assert!(!rx.await.unwrap());
    });
}
