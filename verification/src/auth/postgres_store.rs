//! The session store: one row for each session, found by its identifier.
//!
//! `SessionTable` states what each statement of the store does to the rows,
//! and keeps them in memory. A store that keeps its rows elsewhere makes the
//! same decisions, which are the functions of this file.

use vstd::prelude::*;

verus! {

/// One session as it is stored: the identifier, the serialised data, and the
/// moment after which the session no longer counts, in nanoseconds since the
/// Unix epoch.
#[derive(Clone, Debug)]
pub struct SessionRow {
    pub id: i128,
    pub data: Vec<u8>,
    pub expiry_date: i128,
}

/// What is stored under one identifier.
pub struct StoredSession {
    pub data: Seq<u8>,
    pub expiry_date: i128,
}

impl SessionRow {
    /// What this row stores under its identifier.
    pub open spec fn stored(self) -> StoredSession {
        StoredSession { data: self.data@, expiry_date: self.expiry_date }
    }

    /// Whether this row had expired at the moment `now`: its expiry lies
    /// strictly before `now`.
    pub open spec fn expired_at(self, now: i128) -> bool {
        self.expiry_date < now
    }

    /// Whether this row had expired at the moment `now`.
    pub fn is_expired(&self, now: i128) -> (expired: bool)
        ensures
            expired == self.expired_at(now),
    {
        self.expiry_date < now
    }
}

/// The rows of a store: what is stored under each identifier in use.
pub type Rows = Map<i128, StoredSession>;

/// The rows after `row` was written: it replaces what was stored under its
/// identifier, if anything was.
pub open spec fn rows_after_save(rows: Rows, row: SessionRow) -> Rows {
    rows.insert(row.id, row.stored())
}

/// The rows after an attempt to add `row`: it is added where its identifier
/// was not in use, and otherwise nothing changes.
pub open spec fn rows_after_insert(rows: Rows, row: SessionRow) -> Rows {
    if rows.contains_key(row.id) {
        rows
    } else {
        rows.insert(row.id, row.stored())
    }
}

/// The rows after the row under `id` was deleted, if there was one.
pub open spec fn rows_after_delete(rows: Rows, id: i128) -> Rows {
    rows.remove(id)
}

/// The rows after every row that had expired at `now` was deleted.
pub open spec fn rows_after_delete_expired(rows: Rows, now: i128) -> Rows {
    Map::new(
        |id: i128| rows.contains_key(id) && !(rows[id].expiry_date < now),
        |id: i128| rows[id],
    )
}

/// The place of the row with identifier `id` among `rows`, or the length of
/// `rows` if there is none.
pub open spec fn place_of(rows: Seq<SessionRow>, id: i128) -> int
    decreases rows.len(),
{
    if rows.len() == 0 {
        0
    } else if rows[0].id == id {
        0
    } else {
        1 + place_of(rows.drop_first(), id)
    }
}

/// What `rows` store under each identifier: the first row of each
/// identifier counts.
pub open spec fn rows_of(rows: Seq<SessionRow>) -> Rows {
    Map::new(
        |id: i128| place_of(rows, id) < rows.len(),
        |id: i128| rows[place_of(rows, id)].stored(),
    )
}

/// No two of `rows` have the same identifier.
pub open spec fn distinct_ids(rows: Seq<SessionRow>) -> bool {
    forall|i: int, j: int|
        0 <= i < j < rows.len() ==> (#[trigger] rows[i]).id != (#[trigger] rows[j]).id
}

/// `place_of` finds the first row with the identifier, and nothing where no
/// row has it.
pub proof fn lemma_place_of(rows: Seq<SessionRow>, id: i128)
    ensures
        0 <= place_of(rows, id) <= rows.len(),
        place_of(rows, id) < rows.len() ==> rows[place_of(rows, id)].id == id,
        forall|i: int| 0 <= i < place_of(rows, id) ==> (#[trigger] rows[i]).id != id,
    decreases rows.len(),
{
    if rows.len() > 0 && rows[0].id != id {
        let rest = rows.drop_first();
        lemma_place_of(rest, id);
        assert forall|i: int| 0 <= i < place_of(rows, id) implies (#[trigger] rows[i]).id
            != id by {
            if i > 0 {
                assert(rest[i - 1] == rows[i]);
            }
        }
    }
}

/// Among rows with distinct identifiers, each row is found at its own place.
pub proof fn lemma_place_of_distinct(rows: Seq<SessionRow>, i: int)
    requires
        distinct_ids(rows),
        0 <= i < rows.len(),
    ensures
        place_of(rows, rows[i].id) == i,
{
    lemma_place_of(rows, rows[i].id);
    let p = place_of(rows, rows[i].id);
    if p < i {
        assert(rows[p].id == rows[i].id);
    }
}

/// What rows with distinct identifiers store: each row under its own
/// identifier, and nothing under an identifier that no row has.
pub proof fn lemma_rows_of(rows: Seq<SessionRow>)
    requires
        distinct_ids(rows),
    ensures
        forall|i: int|
            0 <= i < rows.len() ==> rows_of(rows).contains_key((#[trigger] rows[i]).id) && rows_of(
                rows,
            )[rows[i].id] == rows[i].stored(),
        forall|id: i128| #[trigger]
            rows_of(rows).contains_key(id) ==> 0 <= place_of(rows, id) < rows.len() && rows[place_of(
                rows,
                id,
            )].id == id,
{
    assert forall|i: int| 0 <= i < rows.len() implies rows_of(rows).contains_key(
        (#[trigger] rows[i]).id,
    ) && rows_of(rows)[rows[i].id] == rows[i].stored() by {
        lemma_place_of_distinct(rows, i);
    }
    assert forall|id: i128| #[trigger] rows_of(rows).contains_key(id) implies 0 <= place_of(
        rows,
        id,
    ) < rows.len() && rows[place_of(rows, id)].id == id by {
        lemma_place_of(rows, id);
    }
}

proof fn lemma_rows_after_push(rows: Seq<SessionRow>, row: SessionRow)
    requires
        distinct_ids(rows),
        !rows_of(rows).contains_key(row.id),
    ensures
        distinct_ids(rows.push(row)),
        rows_of(rows.push(row)) == rows_of(rows).insert(row.id, row.stored()),
{
    let next = rows.push(row);
    lemma_rows_of(rows);
    assert forall|i: int, j: int| 0 <= i < j < next.len() implies (#[trigger] next[i]).id != (
    #[trigger] next[j]).id by {
        if j == rows.len() {
            assert(next[i] == rows[i]);
            assert(rows_of(rows).contains_key(rows[i].id));
        } else {
            assert(next[i] == rows[i] && next[j] == rows[j]);
        }
    }
    lemma_rows_of(next);
    assert forall|id: i128| rows_of(next).contains_key(id) <==> rows_of(rows).insert(
        row.id,
        row.stored(),
    ).contains_key(id) by {
        if rows_of(next).contains_key(id) {
            let p = place_of(next, id);
            if p < rows.len() {
                assert(next[p] == rows[p]);
                assert(rows_of(rows).contains_key(rows[p].id));
            }
        }
        if rows_of(rows).contains_key(id) {
            let p = place_of(rows, id);
            assert(next[p] == rows[p]);
            assert(rows_of(next).contains_key(next[p].id));
        }
        if id == row.id {
            assert(next[rows.len() as int] == row);
            assert(rows_of(next).contains_key(next[rows.len() as int].id));
        }
    }
    assert forall|id: i128| rows_of(next).contains_key(id) implies rows_of(next)[id] == rows_of(
        rows,
    ).insert(row.id, row.stored())[id] by {
        let p = place_of(next, id);
        if p < rows.len() {
            assert(next[p] == rows[p]);
            assert(rows_of(rows)[rows[p].id] == rows[p].stored());
            assert(rows_of(next)[next[p].id] == next[p].stored());
        } else {
            assert(next[p] == row);
            assert(rows_of(next)[next[p].id] == next[p].stored());
        }
    }
    assert(rows_of(next) =~= rows_of(rows).insert(row.id, row.stored()));
}

proof fn lemma_rows_after_update(rows: Seq<SessionRow>, at: int, row: SessionRow)
    requires
        distinct_ids(rows),
        0 <= at < rows.len(),
        rows[at].id == row.id,
    ensures
        distinct_ids(rows.update(at, row)),
        rows_of(rows.update(at, row)) == rows_of(rows).insert(row.id, row.stored()),
{
    let next = rows.update(at, row);
    lemma_rows_of(rows);
    assert forall|i: int, j: int| 0 <= i < j < next.len() implies (#[trigger] next[i]).id != (
    #[trigger] next[j]).id by {
        assert(next[i].id == rows[i].id && next[j].id == rows[j].id);
    }
    lemma_rows_of(next);
    assert forall|id: i128| rows_of(next).contains_key(id) <==> rows_of(rows).insert(
        row.id,
        row.stored(),
    ).contains_key(id) by {
        if rows_of(next).contains_key(id) {
            let p = place_of(next, id);
            assert(next[p].id == rows[p].id);
            assert(rows_of(rows).contains_key(rows[p].id));
        }
        if rows_of(rows).contains_key(id) {
            let p = place_of(rows, id);
            assert(next[p].id == rows[p].id);
            assert(rows_of(next).contains_key(next[p].id));
        }
        if id == row.id {
            assert(rows_of(next).contains_key(next[at].id));
        }
    }
    assert forall|id: i128| rows_of(next).contains_key(id) implies rows_of(next)[id] == rows_of(
        rows,
    ).insert(row.id, row.stored())[id] by {
        let p = place_of(next, id);
        assert(rows_of(next)[next[p].id] == next[p].stored());
        if p != at {
            assert(next[p] == rows[p]);
            assert(rows_of(rows)[rows[p].id] == rows[p].stored());
            assert(rows[p].id != rows[at].id);
        }
    }
    assert(rows_of(next) =~= rows_of(rows).insert(row.id, row.stored()));
}

proof fn lemma_rows_after_remove(rows: Seq<SessionRow>, at: int)
    requires
        distinct_ids(rows),
        0 <= at < rows.len(),
    ensures
        distinct_ids(rows.remove(at)),
        rows_of(rows.remove(at)) == rows_of(rows).remove(rows[at].id),
{
    let next = rows.remove(at);
    lemma_rows_of(rows);
    assert forall|i: int, j: int| 0 <= i < j < next.len() implies (#[trigger] next[i]).id != (
    #[trigger] next[j]).id by {
        let oi = if i < at { i } else { i + 1 };
        let oj = if j < at { j } else { j + 1 };
        assert(next[i] == rows[oi] && next[j] == rows[oj]);
    }
    lemma_rows_of(next);
    assert forall|id: i128| rows_of(next).contains_key(id) <==> rows_of(rows).remove(
        rows[at].id,
    ).contains_key(id) by {
        if rows_of(next).contains_key(id) {
            let p = place_of(next, id);
            let op = if p < at { p } else { p + 1 };
            assert(next[p] == rows[op]);
            assert(rows_of(rows).contains_key(rows[op].id));
            assert(rows[op].id != rows[at].id);
        }
        if rows_of(rows).contains_key(id) && id != rows[at].id {
            let p = place_of(rows, id);
            let np = if p < at { p } else { p - 1 };
            assert(next[np] == rows[p]);
            assert(rows_of(next).contains_key(next[np].id));
        }
    }
    assert forall|id: i128| rows_of(next).contains_key(id) implies rows_of(next)[id] == rows_of(
        rows,
    ).remove(rows[at].id)[id] by {
        let p = place_of(next, id);
        let op = if p < at { p } else { p + 1 };
        assert(next[p] == rows[op]);
        assert(rows_of(next)[next[p].id] == next[p].stored());
        assert(rows_of(rows)[rows[op].id] == rows[op].stored());
    }
    assert(rows_of(next) =~= rows_of(rows).remove(rows[at].id));
}

/// A copy of `data`.
fn copy_bytes(data: &Vec<u8>) -> (copy: Vec<u8>)
    ensures
        copy@ == data@,
{
    let mut copy: Vec<u8> = Vec::new();
    let mut i: usize = 0;
    while i < data.len()
        invariant
            i <= data.len(),
            copy@ == data@.take(i as int),
        decreases data.len() - i,
    {
        copy.push(data[i]);
        assert(data@.take(i as int + 1) =~= data@.take(i as int).push(data@[i as int]));
        i = i + 1;
    }
    assert(data@.take(data.len() as int) =~= data@);
    copy
}

/// The rows of a session store, kept in memory. No two rows have the same
/// identifier.
pub struct SessionTable {
    rows: Vec<SessionRow>,
}

impl View for SessionTable {
    type V = Rows;

    closed spec fn view(&self) -> Rows {
        rows_of(self.rows@)
    }
}

impl SessionTable {
    #[verifier::type_invariant]
    spec fn inv(self) -> bool {
        distinct_ids(self.rows@)
    }

    /// A table without rows.
    pub fn new() -> (table: Self)
        ensures
            table@ == Map::<i128, StoredSession>::empty(),
    {
        let table = SessionTable { rows: Vec::new() };
        assert(table@ =~= Map::<i128, StoredSession>::empty());
        table
    }

    /// The place of the row with identifier `id`, or the number of rows if
    /// there is none.
    fn find(&self, id: i128) -> (at: usize)
        ensures
            at == place_of(self.rows@, id),
            at <= self.rows@.len(),
            at < self.rows@.len() <==> self@.contains_key(id),
            at < self.rows@.len() ==> self.rows@[at as int].id == id && self@[id]
                == self.rows@[at as int].stored(),
    {
        let mut at: usize = 0;
        assert(self.rows@.skip(0) =~= self.rows@);
        while at < self.rows.len() && self.rows[at].id != id
            invariant
                at <= self.rows@.len(),
                place_of(self.rows@, id) == at + place_of(self.rows@.skip(at as int), id),
            decreases self.rows@.len() - at,
        {
            assert(self.rows@.skip(at as int).drop_first() =~= self.rows@.skip(at as int + 1));
            at = at + 1;
        }
        proof {
            lemma_place_of(self.rows@, id);
        }
        at
    }

    /// Whether a row is stored under `id`.
    pub fn id_exists(&self, id: i128) -> (exists: bool)
        ensures
            exists == self@.contains_key(id),
    {
        self.find(id) < self.rows.len()
    }

    /// The row that is stored under `id`, if there is one.
    pub fn load(&self, id: i128) -> (found: Option<SessionRow>)
        ensures
            found is Some <==> self@.contains_key(id),
            found matches Some(row) ==> row.id == id && row.stored() == self@[id],
    {
        let at = self.find(id);
        if at < self.rows.len() {
            let row = &self.rows[at];
            Some(SessionRow { id: row.id, data: copy_bytes(&row.data), expiry_date: row.expiry_date })
        } else {
            None
        }
    }

    /// Writes `row`: it replaces the row of its identifier, if there is one,
    /// and is added otherwise. Writing the same row twice is the same as
    /// writing it once.
    pub fn save(&mut self, row: SessionRow)
        ensures
            final(self)@ == rows_after_save(old(self)@, row),
    {
        proof {
            use_type_invariant(&*self);
        }
        let at = self.find(row.id);
        let mut rows: Vec<SessionRow> = Vec::new();
        core::mem::swap(&mut self.rows, &mut rows);
        if at < rows.len() {
            proof {
                lemma_rows_after_update(rows@, at as int, row);
            }
            rows.set(at, row);
        } else {
            proof {
                lemma_rows_after_push(rows@, row);
            }
            rows.push(row);
        }
        core::mem::swap(&mut self.rows, &mut rows);
    }

    /// Adds `row` if no row has its identifier, and says whether it did. A row
    /// that is there already is never changed by this.
    pub fn insert_if_absent(&mut self, row: SessionRow) -> (inserted: bool)
        ensures
            inserted == !old(self)@.contains_key(row.id),
            final(self)@ == rows_after_insert(old(self)@, row),
    {
        proof {
            use_type_invariant(&*self);
        }
        let at = self.find(row.id);
        if at < self.rows.len() {
            false
        } else {
            let mut rows: Vec<SessionRow> = Vec::new();
            core::mem::swap(&mut self.rows, &mut rows);
            proof {
                lemma_rows_after_push(rows@, row);
            }
            rows.push(row);
            core::mem::swap(&mut self.rows, &mut rows);
            true
        }
    }

    /// Deletes the row under `id`. Where there is none, nothing changes.
    pub fn delete(&mut self, id: i128)
        ensures
            final(self)@ == rows_after_delete(old(self)@, id),
    {
        proof {
            use_type_invariant(&*self);
        }
        let at = self.find(id);
        if at < self.rows.len() {
            let mut rows: Vec<SessionRow> = Vec::new();
            core::mem::swap(&mut self.rows, &mut rows);
            proof {
                lemma_rows_after_remove(rows@, at as int);
            }
            let _ = rows.remove(at);
            core::mem::swap(&mut self.rows, &mut rows);
        } else {
            assert(self@.remove(id) =~= self@);
        }
    }

    /// Deletes every row whose expiry lies strictly before `now`, and no
    /// other.
    pub fn delete_expired(&mut self, now: i128)
        ensures
            final(self)@ == rows_after_delete_expired(old(self)@, now),
    {
        proof {
            use_type_invariant(&*self);
        }
        let ghost before = self@;
        let mut rows: Vec<SessionRow> = Vec::new();
        core::mem::swap(&mut self.rows, &mut rows);
        let mut i: usize = 0;
        while i < rows.len()
            invariant
                i <= rows@.len(),
                distinct_ids(rows@),
                forall|id: i128| #[trigger]
                    rows_of(rows@).contains_key(id) ==> before.contains_key(id) && before[id]
                        == rows_of(rows@)[id],
                forall|id: i128|
                    before.contains_key(id) && !(before[id].expiry_date < now) ==> #[trigger] rows_of(
                        rows@,
                    ).contains_key(id),
                forall|j: int| 0 <= j < i ==> !((#[trigger] rows@[j]).expiry_date < now),
            decreases rows@.len() - i,
        {
            proof {
                lemma_rows_of(rows@);
            }
            if rows[i].is_expired(now) {
                proof {
                    lemma_rows_after_remove(rows@, i as int);
                }
                let ghost prev = rows@;
                let _ = rows.remove(i);
                proof {
                    assert forall|j: int| 0 <= j < i implies !((#[trigger] rows@[j]).expiry_date
                        < now) by {
                        assert(rows@[j] == prev[j]);
                    }
                    assert forall|id: i128|
                        before.contains_key(id) && !(before[id].expiry_date
                            < now) implies #[trigger] rows_of(rows@).contains_key(id) by {
                        assert(rows_of(prev).contains_key(id));
                        assert(rows_of(prev)[prev[i as int].id] == prev[i as int].stored());
                    }
                }
            } else {
                i = i + 1;
            }
        }
        proof {
            lemma_rows_of(rows@);
            assert forall|id: i128| rows_of(rows@).contains_key(id) implies !(before[id].expiry_date
                < now) by {
                let p = place_of(rows@, id);
                assert(rows_of(rows@)[rows@[p].id] == rows@[p].stored());
            }
            assert(rows_of(rows@) =~= rows_after_delete_expired(before, now));
        }
        core::mem::swap(&mut self.rows, &mut rows);
    }

    /// How many rows there are.
    pub fn len(&self) -> (n: usize)
        ensures
            n == self@.dom().len(),
            self@.dom().finite(),
    {
        proof {
            use_type_invariant(self);
            lemma_rows_count(self.rows@);
        }
        self.rows.len()
    }
}

/// Rows with distinct identifiers store as many entries as there are rows.
pub proof fn lemma_rows_count(rows: Seq<SessionRow>)
    requires
        distinct_ids(rows),
    ensures
        rows_of(rows).dom().finite(),
        rows_of(rows).dom().len() == rows.len(),
    decreases rows.len(),
{
    if rows.len() == 0 {
        assert(rows_of(rows).dom() =~= Set::<i128>::empty());
    } else {
        let front = rows.drop_last();
        let last = rows.last();
        assert forall|i: int, j: int| 0 <= i < j < front.len() implies (#[trigger] front[i]).id != (
        #[trigger] front[j]).id by {
            assert(front[i] == rows[i] && front[j] == rows[j]);
        }
        lemma_rows_count(front);
        lemma_rows_of(front);
        if rows_of(front).contains_key(last.id) {
            let p = place_of(front, last.id);
            assert(front[p] == rows[p]);
            assert(rows[p].id != rows[rows.len() - 1].id);
        }
        lemma_rows_after_push(front, last);
        assert(front.push(last) =~= rows);
        assert(rows_of(rows).dom() =~= rows_of(front).dom().insert(last.id));
    }
}

/// Why the store could not do what was asked.
#[derive(Debug)]
pub enum SessionStoreError {
    /// The data of a session could not be serialised.
    Encode(String),
    /// The stored data of a session could not be read back: the session is
    /// unusable, which is not the same as absent.
    Decode(String),
    /// The store itself could not be reached or failed.
    Backend(String),
}

/// A session with its data read back from the stored bytes.
#[derive(Debug)]
pub struct SessionRecord<D> {
    pub id: i128,
    pub data: D,
    pub expiry_date: i128,
}

/// What a store answers when asked for the row of one identifier: the row,
/// nothing, or the text of its failure.
pub type Fetched = Result<Option<SessionRow>, String>;

/// What loading makes of the store's answer: a failure of the store is a
/// backend failure, and no row is no failure at all.
pub fn fetched_row(fetched: Fetched) -> (row: Result<Option<SessionRow>, SessionStoreError>)
    ensures
        row == match fetched {
            Ok(found) => Ok::<Option<SessionRow>, SessionStoreError>(found),
            Err(failure) => Err(SessionStoreError::Backend(failure)),
        },
{
    match fetched {
        Ok(found) => Ok(found),
        Err(failure) => Err(SessionStoreError::Backend(failure)),
    }
}

/// What loading makes of a stored row once the decoder has spoken: the
/// session with the identifier and expiry of the row, or a decoding failure.
pub fn decoded_record<D>(id: i128, expiry_date: i128, decoded: Result<D, String>) -> (record: Result<
    SessionRecord<D>,
    SessionStoreError,
>)
    ensures
        record == match decoded {
            Ok(data) => Ok::<SessionRecord<D>, SessionStoreError>(
                SessionRecord { id, data, expiry_date },
            ),
            Err(failure) => Err(SessionStoreError::Decode(failure)),
        },
{
    match decoded {
        Ok(data) => Ok(SessionRecord { id, data, expiry_date }),
        Err(failure) => Err(SessionStoreError::Decode(failure)),
    }
}

/// How an attempt to add the row of a new session ended.
#[derive(Debug)]
pub enum CreateAttempt {
    /// The row was added.
    Inserted,
    /// A row with this identifier was there already; nothing was written.
    Conflict,
    /// The store failed, with this text.
    Failed(String),
}

/// What to do after an attempt to add the row of a new session.
#[derive(Debug)]
pub enum CreateNext {
    /// The session is stored under the identifier of this row.
    Done(SessionRow),
    /// Try again to add this row, which has a fresh identifier.
    Retry(SessionRow),
    /// Give up with this failure.
    Fail(SessionStoreError),
}

/// Decides how creating a session goes on after an attempt to add `row`.
/// After a conflict the same data and expiry are tried under `fresh_id`; a
/// row is never written over another session's row.
pub fn after_create_attempt(row: SessionRow, attempt: CreateAttempt, fresh_id: i128) -> (next:
    CreateNext)
    ensures
        next == match attempt {
            CreateAttempt::Inserted => CreateNext::Done(row),
            CreateAttempt::Conflict => CreateNext::Retry(
                SessionRow { id: fresh_id, data: row.data, expiry_date: row.expiry_date },
            ),
            CreateAttempt::Failed(failure) => CreateNext::Fail(SessionStoreError::Backend(failure)),
        },
{
    match attempt {
        CreateAttempt::Inserted => CreateNext::Done(row),
        CreateAttempt::Conflict => CreateNext::Retry(
            SessionRow { id: fresh_id, data: row.data, expiry_date: row.expiry_date },
        ),
        CreateAttempt::Failed(failure) => CreateNext::Fail(SessionStoreError::Backend(failure)),
    }
}

/// `Default::default` of `tower_sessions::session::Id`, which draws a random
/// 128-bit identifier. Trusted, and nothing is promised of the number.
#[verifier::external_body]
pub(crate) fn fresh_session_id() -> (id: i128) {
    axum_login::tower_sessions::session::Id::default().0
}

/// Whether `after` are the rows after a session with the data and expiry of
/// `row` was created under `id` among the rows `before`: `id` was unused,
/// the session is stored under it, and every other row is as it was.
pub open spec fn rows_after_create(before: Rows, row: SessionRow, id: i128, after: Rows) -> bool {
    !before.contains_key(id) && after == before.insert(id, row.stored())
}

/// Whether `ids` are the identifiers under which sessions with the data and
/// expiry of `rows` were created, one after the other, where `tables` holds
/// the rows before the first create, between two creates, and after the
/// last. Creates that run at the same time reach the store in some order,
/// since each is one step of the store; this is any such order.
pub open spec fn created_in_turn(tables: Seq<Rows>, rows: Seq<SessionRow>, ids: Seq<i128>) -> bool {
    &&& tables.len() == rows.len() + 1
    &&& ids.len() == rows.len()
    &&& forall|i: int|
        0 <= i < rows.len() ==> #[trigger] rows_after_create(
            tables[i],
            rows[i],
            ids[i],
            tables[i + 1],
        )
}

proof fn lemma_creates_keep_rows(tables: Seq<Rows>, rows: Seq<SessionRow>, ids: Seq<i128>, k: int)
    requires
        created_in_turn(tables, rows, ids),
        0 <= k <= rows.len(),
    ensures
        forall|i: int|
            0 <= i < k ==> tables[k].contains_key(#[trigger] ids[i]) && tables[k][ids[i]]
                == rows[i].stored(),
        forall|id: i128| #[trigger]
            tables[0].contains_key(id) ==> tables[k].contains_key(id) && tables[k][id]
                == tables[0][id],
        forall|id: i128| #[trigger]
            tables[k].contains_key(id) ==> tables[0].contains_key(id) || exists|i: int|
                0 <= i < k && ids[i] == id,
    decreases k,
{
    if k > 0 {
        lemma_creates_keep_rows(tables, rows, ids, k - 1);
        let last = k - 1;
        assert(rows_after_create(tables[last], rows[last], ids[last], tables[last + 1]));
        assert forall|i: int| 0 <= i < k implies tables[k].contains_key(#[trigger] ids[i])
            && tables[k][ids[i]] == rows[i].stored() by {
            if i < k - 1 {
                assert(tables[k - 1].contains_key(ids[i]));
            }
        }
        assert forall|id: i128| #[trigger] tables[k].contains_key(id) implies tables[0].contains_key(
            id,
        ) || exists|i: int| 0 <= i < k && ids[i] == id by {
            if id == ids[k - 1] {
                assert(0 <= k - 1 < k && ids[k - 1] == id);
            } else {
                assert(tables[k - 1].contains_key(id));
                if !tables[0].contains_key(id) {
                    let i = choose|i: int| 0 <= i < k - 1 && ids[i] == id;
                    assert(0 <= i < k && ids[i] == id);
                }
            }
        }
    }
}

/// However many sessions are created, and in whatever order their creates
/// reach the store, no two of them get the same identifier, none gets one
/// that was in use, each is stored with its own data and expiry, and the
/// rows in the end are those that were there, unchanged, and the new ones.
pub proof fn creates_get_distinct_ids(tables: Seq<Rows>, rows: Seq<SessionRow>, ids: Seq<i128>)
    requires
        created_in_turn(tables, rows, ids),
    ensures
        forall|i: int, j: int| 0 <= i < j < ids.len() ==> #[trigger] ids[i] != #[trigger] ids[j],
        forall|i: int| 0 <= i < ids.len() ==> !tables[0].contains_key(#[trigger] ids[i]),
        forall|i: int|
            0 <= i < ids.len() ==> tables.last().contains_key(#[trigger] ids[i])
                && tables.last()[ids[i]] == rows[i].stored(),
        forall|id: i128| #[trigger]
            tables[0].contains_key(id) ==> tables.last().contains_key(id) && tables.last()[id]
                == tables[0][id],
        forall|id: i128| #[trigger]
            tables.last().contains_key(id) ==> tables[0].contains_key(id) || exists|i: int|
                0 <= i < ids.len() && ids[i] == id,
{
    let n = rows.len() as int;
    lemma_creates_keep_rows(tables, rows, ids, n);
    assert forall|i: int, j: int| 0 <= i < j < ids.len() implies #[trigger] ids[i]
        != #[trigger] ids[j] by {
        lemma_creates_keep_rows(tables, rows, ids, j);
        assert(rows_after_create(tables[j], rows[j], ids[j], tables[j + 1]));
        assert(tables[j].contains_key(ids[i]));
    }
    assert forall|i: int| 0 <= i < ids.len() implies !tables[0].contains_key(
        #[trigger] ids[i],
    ) by {
        lemma_creates_keep_rows(tables, rows, ids, i);
        assert(rows_after_create(tables[i], rows[i], ids[i], tables[i + 1]));
    }
}

impl SessionTable {
    /// Stores a new session under an identifier that no row has: the one of
    /// `row` if it is unused, and otherwise one of up to `retries` random
    /// identifiers, drawn one after the other until one is unused. Returns
    /// the identifier under which the session is stored, or nothing if every
    /// identifier that was tried is in use; no row is changed or removed
    /// either way.
    pub fn create(&mut self, row: SessionRow, retries: usize) -> (created: Option<i128>)
        ensures
            match created {
                Some(id) => rows_after_create(old(self)@, row, id, final(self)@),
                None => final(self)@ == old(self)@ && old(self)@.contains_key(row.id),
            },
            !old(self)@.contains_key(row.id) ==> created == Some(row.id),
    {
        let mut candidate = row;
        let mut left = retries;
        loop
            invariant
                *self == *old(self),
                candidate.data == row.data,
                candidate.expiry_date == row.expiry_date,
                candidate.id == row.id || old(self)@.contains_key(row.id),
            decreases left,
        {
            if !self.id_exists(candidate.id) {
                let id = candidate.id;
                let inserted = self.insert_if_absent(candidate);
                return Some(id);
            }
            if left == 0 {
                return None;
            }
            left = left - 1;
            candidate.id = fresh_session_id();
        }
    }
}

/// The rows after attempts to add each of `added`, one after the other.
pub open spec fn rows_after_inserts(rows: Rows, added: Seq<SessionRow>) -> Rows
    decreases added.len(),
{
    if added.len() == 0 {
        rows
    } else {
        rows_after_insert(rows_after_inserts(rows, added.drop_last()), added.last())
    }
}

/// Whether attempt `i` of `added` added its row: its identifier was unused
/// when its turn came.
pub open spec fn inserted_at(rows: Rows, added: Seq<SessionRow>, i: int) -> bool {
    !rows_after_inserts(rows, added.take(i)).contains_key(added[i].id)
}

/// Attempts to add rows never change or remove a row that is there.
pub proof fn inserts_keep_rows(rows: Rows, added: Seq<SessionRow>, k: int, id: i128)
    requires
        0 <= k <= added.len(),
        rows_after_inserts(rows, added.take(k)).contains_key(id),
    ensures
        rows_after_inserts(rows, added).contains_key(id),
        rows_after_inserts(rows, added)[id] == rows_after_inserts(rows, added.take(k))[id],
    decreases added.len() - k,
{
    if k < added.len() {
        assert(added.take(k + 1).drop_last() =~= added.take(k));
        assert(added.take(k + 1).last() == added[k]);
        inserts_keep_rows(rows, added, k + 1, id);
    } else {
        assert(added.take(k) =~= added);
    }
}

/// However many sessions are created, and in whatever order their attempts
/// reach the store, no two of them end up under the same identifier: of two
/// attempts that both added their row, the identifiers differ, and the row
/// of the earlier one is still what it wrote after all the others.
pub proof fn created_ids_are_distinct(rows: Rows, added: Seq<SessionRow>, i: int, j: int)
    requires
        0 <= i < j < added.len(),
        inserted_at(rows, added, i),
        inserted_at(rows, added, j),
    ensures
        added[i].id != added[j].id,
        rows_after_inserts(rows, added).contains_key(added[i].id),
        rows_after_inserts(rows, added)[added[i].id] == added[i].stored(),
        rows_after_inserts(rows, added).contains_key(added[j].id),
        rows_after_inserts(rows, added)[added[j].id] == added[j].stored(),
{
    lemma_inserted_row_is_stored(rows, added, i);
    lemma_inserted_row_is_stored(rows, added, j);
    assert(added.take(j).take(i + 1) =~= added.take(i + 1));
    inserts_keep_rows(rows, added.take(j), i + 1, added[i].id);
    inserts_keep_rows(rows, added, i + 1, added[i].id);
    inserts_keep_rows(rows, added, j + 1, added[j].id);
}

proof fn lemma_inserted_row_is_stored(rows: Rows, added: Seq<SessionRow>, i: int)
    requires
        0 <= i < added.len(),
        inserted_at(rows, added, i),
    ensures
        rows_after_inserts(rows, added.take(i + 1)).contains_key(added[i].id),
        rows_after_inserts(rows, added.take(i + 1))[added[i].id] == added[i].stored(),
{
    assert(added.take(i + 1).drop_last() =~= added.take(i));
    assert(added.take(i + 1).last() == added[i]);
}

/// A row that was written is what loading its identifier gives back, data
/// and expiry alike; every other row is as it was; and writing it again
/// changes nothing.
pub proof fn saved_row_is_loaded(rows: Rows, row: SessionRow)
    ensures
        rows_after_save(rows, row).contains_key(row.id),
        rows_after_save(rows, row)[row.id] == row.stored(),
        forall|other: i128|
            other != row.id ==> rows_after_save(rows, row).contains_key(other)
                == rows.contains_key(other) && (rows.contains_key(other) ==> rows_after_save(
                rows,
                row,
            )[other] == rows[other]),
        rows_after_save(rows_after_save(rows, row), row) == rows_after_save(rows, row),
{
    assert(rows_after_save(rows_after_save(rows, row), row) =~= rows_after_save(rows, row));
}

/// Deleting is idempotent, and deleting an identifier that no row has is no
/// failure: it leaves the rows as they are.
pub proof fn delete_is_idempotent(rows: Rows, id: i128)
    ensures
        !rows_after_delete(rows, id).contains_key(id),
        rows_after_delete(rows_after_delete(rows, id), id) == rows_after_delete(rows, id),
        !rows.contains_key(id) ==> rows_after_delete(rows, id) == rows,
{
    assert(rows_after_delete(rows_after_delete(rows, id), id) =~= rows_after_delete(rows, id));
    if !rows.contains_key(id) {
        assert(rows_after_delete(rows, id) =~= rows);
    }
}

/// Deleting the expired rows removes exactly the rows whose expiry lies
/// before `now`: every row that expires at `now` or later stays, unchanged.
pub proof fn delete_expired_is_exact(rows: Rows, now: i128)
    ensures
        forall|id: i128|
            rows_after_delete_expired(rows, now).contains_key(id) <==> rows.contains_key(id)
                && rows[id].expiry_date >= now,
        forall|id: i128|
            rows_after_delete_expired(rows, now).contains_key(id) ==> rows_after_delete_expired(
                rows,
                now,
            )[id] == rows[id],
{
}

} // verus!
