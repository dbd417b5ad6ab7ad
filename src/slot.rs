//! The slot that the worker thread owns: `Some` while the connection is
//! open, `None` once it has been closed.
use vstd::prelude::*;
use crate::error::{AlreadyClosed, Error};
use crate::sqlite::close_connection;
use rusqlite::Error as SqliteError;

verus! {

/// What closing does: from an empty slot it reports `AlreadyClosed` and
/// leaves the slot empty; from a full one it either empties the slot and
/// succeeds, or keeps the same connection in the slot and reports SQLite's
/// error.
pub open spec fn close_outcome(
    before: Option<rusqlite::Connection>,
    after: Option<rusqlite::Connection>,
    r: Result<(), Error>,
) -> bool {
    match before {
        None => after is None && r == Err::<(), Error>(Error::AlreadyClosed),
        Some(_) => match r {
            Ok(()) => after is None,
            Err(Error::Rusqlite(_)) => after == before,
            Err(Error::AlreadyClosed) => false,
        },
    }
}

/// How SQLite's answer to a close settles the result: when SQLite closed
/// the connection the result is `Ok` and the slot is left as it was; when it
/// refused, the connection it handed back goes into the slot and the result
/// carries SQLite's own error.
pub open spec fn settle_outcome(
    before: Option<rusqlite::Connection>,
    outcome: Result<(), (rusqlite::Connection, SqliteError)>,
    after: Option<rusqlite::Connection>,
    r: Result<(), Error>,
) -> bool {
    match outcome {
        Ok(()) => r == Ok::<(), Error>(()) && after == before,
        Err((c, e)) => r == Err::<(), Error>(Error::Rusqlite(e)) && after == Some(c),
    }
}

/// Turns SQLite's answer to a close into the result of closing, and puts a
/// connection that SQLite refused to close back into `slot`.
pub fn settle_close(
    slot: &mut Option<rusqlite::Connection>,
    outcome: Result<(), (rusqlite::Connection, SqliteError)>,
) -> (r: Result<(), Error>)
    ensures
        settle_outcome(*old(slot), outcome, *final(slot), r),
{
    match outcome {
        Ok(()) => Ok(()),
        Err((c, e)) => {
            *slot = Some(c);
            Err(Error::Rusqlite(e))
        },
    }
}

/// Closes the connection held in `slot`. An open connection is handed to
/// SQLite, and its answer is settled by `settle_close` on the emptied slot.
pub fn close_slot(slot: &mut Option<rusqlite::Connection>) -> (r: Result<(), Error>)
    ensures
        close_outcome(*old(slot), *final(slot), r),
        (*old(slot)) is Some ==> exists|outcome: Result<(), (rusqlite::Connection, SqliteError)>|
            (outcome matches Err((back, _)) ==> back == (*old(slot))->Some_0)
                && #[trigger] settle_outcome(None, outcome, *final(slot), r),
{
    match slot.take() {
        Some(c) => {
            let outcome = close_connection(c);
            settle_close(slot, outcome)
        },
        None => Err(Error::AlreadyClosed),
    }
}

/// What a call does: from an empty slot it leaves the slot empty and
/// reports `AlreadyClosed` converted into the caller's error type; from a full
/// one it hands `f` the connection by mutable reference, reports what `f`
/// returned, and the slot stays full.
pub open spec fn call_outcome<R, E, F>(
    before: Option<rusqlite::Connection>,
    after: Option<rusqlite::Connection>,
    f: F,
    r: Result<R, E>,
) -> bool where
    E: From<AlreadyClosed>,
    F: FnOnce(&mut rusqlite::Connection) -> Result<R, E>,
 {
    match before {
        None => after is None && r is Err && call_ensures(E::from, (AlreadyClosed,), r->Err_0),
        Some(c) => exists|m: &mut rusqlite::Connection|
            *m == c && after is Some && #[trigger] f.ensures((m,), r),
    }
}

/// Runs `f` on the connection held in `slot`. On an empty slot `f` is not
/// run, and the caller's error type receives `AlreadyClosed`.
pub fn call_slot<R, E, F>(slot: &mut Option<rusqlite::Connection>, f: F) -> (r: Result<R, E>) where
    E: From<AlreadyClosed>,
    F: FnOnce(&mut rusqlite::Connection) -> Result<R, E>,

    requires
        (*old(slot)) is Some ==> forall|m: &mut rusqlite::Connection|
            *m == (*old(slot))->Some_0 ==> #[trigger] f.requires((m,)),
    ensures
        call_outcome(*old(slot), *final(slot), f, r),
        (*old(slot)) is Some ==> exists|m: &mut rusqlite::Connection|
            *m == (*old(slot))->Some_0 && *final(slot) == Some(*final(m)) && #[trigger] f.ensures(
                (m,),
                r,
            ),
{
    match slot {
        Some(conn) => f(conn),
        None => Err(E::from(AlreadyClosed)),
    }
}

/// Empties `slot` and hands what it held to the finalizer `f`: the
/// connection if it is still open, `None` if it was closed.
pub fn finalize_slot<F>(slot: &mut Option<rusqlite::Connection>, f: F) where
    F: FnOnce(Option<rusqlite::Connection>),

    requires
        f.requires((*old(slot),)),
    ensures
        (*final(slot)) is None,
        f.ensures((*old(slot),), ()),
{
    let held = slot.take();
    f(held);
}

/// Closing twice: the first close of an open connection never reports
/// `AlreadyClosed`, and once it has succeeded the slot is empty and the second
/// close reports `AlreadyClosed`, leaving the slot empty.
pub proof fn lemma_close_twice(
    s0: Option<rusqlite::Connection>,
    s1: Option<rusqlite::Connection>,
    s2: Option<rusqlite::Connection>,
    r1: Result<(), Error>,
    r2: Result<(), Error>,
)
    requires
        s0 is Some,
        close_outcome(s0, s1, r1),
        close_outcome(s1, s2, r2),
    ensures
        r1 != Err::<(), Error>(Error::AlreadyClosed),
        r1 is Ok ==> s1 is None && s2 is None && r2 == Err::<(), Error>(Error::AlreadyClosed),
{
}

/// Closing an open connection follows SQLite's answer one to one: the
/// result is `Ok` exactly when SQLite closed it, and the slot is then empty;
/// when SQLite refused, the result carries SQLite's own error and the same
/// connection is back in the slot. `AlreadyClosed` comes exactly from an
/// empty slot.
pub proof fn lemma_close_follows_sqlite(
    s0: Option<rusqlite::Connection>,
    outcome: Result<(), (rusqlite::Connection, SqliteError)>,
    s1: Option<rusqlite::Connection>,
    r: Result<(), Error>,
)
    requires
        s0 is Some,
        outcome matches Err((back, _)) ==> back == s0->Some_0,
        settle_outcome(None, outcome, s1, r),
    ensures
        r is Ok <==> outcome is Ok,
        outcome is Ok ==> s1 is None,
        outcome matches Err((_, e)) ==> r == Err::<(), Error>(Error::Rusqlite(e)) && s1 == s0,
        r != Err::<(), Error>(Error::AlreadyClosed),
        close_outcome(s0, s1, r),
{
}

/// A call after a successful close leaves the slot empty and reports
/// `AlreadyClosed` in the caller's error type, whatever `f` would do.
pub proof fn lemma_call_after_close<R, E, F>(
    s0: Option<rusqlite::Connection>,
    s1: Option<rusqlite::Connection>,
    s2: Option<rusqlite::Connection>,
    f: F,
    r: Result<R, E>,
) where
    E: From<AlreadyClosed>,
    F: FnOnce(&mut rusqlite::Connection) -> Result<R, E>,

    requires
        close_outcome(s0, s1, Ok(())),
        call_outcome(s1, s2, f, r),
    ensures
        s2 is None,
        r is Err,
        call_ensures(E::from, (AlreadyClosed,), r->Err_0),
{
}

/// A close that SQLite refuses keeps the connection open: the slot holds the
/// same connection as before, and a following call runs `f` on it, reports
/// what `f` returned, and leaves the connection open.
pub proof fn lemma_failed_close_keeps_connection<R, E, F>(
    s0: Option<rusqlite::Connection>,
    s1: Option<rusqlite::Connection>,
    s2: Option<rusqlite::Connection>,
    r1: Result<(), Error>,
    f: F,
    r: Result<R, E>,
) where
    E: From<AlreadyClosed>,
    F: FnOnce(&mut rusqlite::Connection) -> Result<R, E>,

    requires
        s0 is Some,
        close_outcome(s0, s1, r1),
        r1 is Err,
        call_outcome(s1, s2, f, r),
    ensures
        s1 == s0,
        s2 is Some,
        exists|m: &mut rusqlite::Connection| *m == s0->Some_0 && #[trigger] f.ensures((m,), r),
{
}

} // verus!
