use vstd::prelude::*;

use crate::text::{contains_nul, has_nul};

verus! {

/// Declares the embedded store's connection handle so that it can stand
/// in signatures; the handle is opaque here, its contents are reached
/// only through `stored_pairs`.
#[verifier::external_type_specification]
#[verifier::external_body]
pub struct ExConnection(sqlite::Connection);

/// The key/value pairs held by the `key_value_pairs` table of the
/// connection's database; an absent table holds none.
pub uninterp spec fn stored_pairs(conn: sqlite::Connection) -> Map<Seq<char>, Seq<char>>;

/// Failure signal of the persistence gateway: the store reported an
/// error. Best effort — the caller logs and continues.
#[derive(PartialEq, Eq, Structural, Clone, Copy, Debug)]
pub struct StoreError;

/// The stored mapping of a fresh database: no pairs at all.
pub open spec fn no_pairs() -> Map<Seq<char>, Seq<char>> {
    Map::empty()
}

/// Relies on sqlite::open: a fresh in-memory database holds no pairs.
#[verifier::external_body]
fn open_memory_connection() -> (r: Result<sqlite::Connection, StoreError>)
    ensures
        r is Ok ==> stored_pairs(r->Ok_0) == no_pairs(),
{
    match sqlite::open(":memory:") {
        Ok(conn) => Ok(conn),
        Err(_) => Err(StoreError),
    }
}

/// Relies on sqlite::Connection::{execute, prepare} and
/// sqlite::Statement::{bind, next}: ensures the `key_value_pairs` table
/// exists, then UPSERTs one row, so on success the stored mapping gains
/// `key -> value`; a failed single-row statement leaves the table as it
/// was. NUL characters are kept out because the store reads text back
/// through a C string, which would truncate them.
#[verifier::external_body]
fn upsert_pair(conn: &mut sqlite::Connection, key: &str, value: &str) -> (r: Result<
    (),
    StoreError,
>)
    requires
        !has_nul(key@),
        !has_nul(value@),
    ensures
        r is Ok ==> stored_pairs(*final(conn)) == stored_pairs(*old(conn)).insert(key@, value@),
        r is Err ==> stored_pairs(*final(conn)) == stored_pairs(*old(conn)),
{
    let create = "CREATE TABLE IF NOT EXISTS key_value_pairs (key TEXT PRIMARY KEY, value TEXT NOT NULL);";
    let upsert = "INSERT INTO key_value_pairs (key, value) VALUES (?, ?) ON CONFLICT(key) DO UPDATE SET value = excluded.value;";
    if conn.execute(create).is_err() {
        return Err(StoreError);
    }
    let mut statement = match conn.prepare(upsert) {
        Ok(s) => s,
        Err(_) => return Err(StoreError),
    };
    if statement.bind((1, key)).is_err() || statement.bind((2, value)).is_err() {
        return Err(StoreError);
    }
    statement.next().map(|_| ()).map_err(|_| StoreError)
}

/// Relies on sqlite::Connection::prepare and sqlite::Statement::{bind,
/// next, read}: selects the row for `key` from `key_value_pairs`; a
/// returned row carries the stored value, no row means the mapping holds
/// none. Assumes the table was filled through this gateway, which keeps
/// NUL characters out, so the C-string read returns values whole.
#[verifier::external_body]
fn select_pair(conn: &sqlite::Connection, key: &str) -> (r: Result<Option<String>, StoreError>)
    requires
        !has_nul(key@),
    ensures
        r is Ok ==> match r->Ok_0 {
            Some(value) => stored_pairs(*conn).contains_key(key@) && stored_pairs(*conn)[key@]
                == value@,
            None => !stored_pairs(*conn).contains_key(key@),
        },
{
    let mut statement = match conn.prepare("SELECT value FROM key_value_pairs WHERE key = ? LIMIT 1;") {
        Ok(s) => s,
        Err(_) => return Err(StoreError),
    };
    if statement.bind((1, key)).is_err() {
        return Err(StoreError);
    }
    match statement.next() {
        Ok(sqlite::State::Row) => statement.read::<String, usize>(0).map(Some).map_err(|_| StoreError),
        Ok(sqlite::State::Done) => Ok(None),
        Err(_) => Err(StoreError),
    }
}

/// Open the store the host persists into: an in-memory database, empty at
/// startup.
pub fn new_memory_store() -> (r: Result<sqlite::Connection, StoreError>)
    ensures
        r is Ok ==> stored_pairs(r->Ok_0) == no_pairs(),
{
    open_memory_connection()
}

/// Read the persisted value for `key`: exactly the value of the last
/// successful persist of that key, or nothing when the key was never
/// persisted. A key carrying a NUL character cannot be stored, so
/// reading it is a store error.
pub fn read_value(conn: &sqlite::Connection, key: &str) -> (r: Result<Option<String>, StoreError>)
    ensures
        r matches Ok(v) ==> match v {
            Some(value) => stored_pairs(*conn).contains_key(key@) && stored_pairs(*conn)[key@]
                == value@,
            None => !stored_pairs(*conn).contains_key(key@),
        },
{
    if contains_nul(key) {
        return Err(StoreError);
    }
    select_pair(conn, key)
}

/// A key/value record emitted by a runner module, persisted with UPSERT
/// semantics: the key is primary, reinsertion updates the value.
pub struct KeyValuePair {
    pub key: String,
    pub value: String,
}

/// The `Save` capability of the persistence gateway: a saveable entity
/// writes itself into the store as one key/value pair.
pub trait Save {
    /// The pair this entity persists as.
    spec fn record_view(&self) -> (Seq<char>, Seq<char>);

    /// UPSERT the entity. On success the stored mapping gains the pair;
    /// on failure it is unchanged, and the caller logs and continues. A
    /// record carrying a NUL character is refused: the store could not
    /// hand it back whole.
    fn persist(&self, conn: &mut sqlite::Connection) -> (r: Result<(), StoreError>)
        ensures
            r matches Ok(_) ==> stored_pairs(*final(conn)) == stored_pairs(*old(conn)).insert(
                self.record_view().0,
                self.record_view().1,
            ),
            r matches Err(_) ==> stored_pairs(*final(conn)) == stored_pairs(*old(conn)),
    ;
}

impl Save for KeyValuePair {
    open spec fn record_view(&self) -> (Seq<char>, Seq<char>) {
        (self.key@, self.value@)
    }

    fn persist(&self, conn: &mut sqlite::Connection) -> (r: Result<(), StoreError>) {
        if contains_nul(self.key.as_str()) || contains_nul(self.value.as_str()) {
            return Err(StoreError);
        }
        upsert_pair(conn, self.key.as_str(), self.value.as_str())
    }
}

/// The stored mapping after persisting `records` in order, all
/// successfully.
pub open spec fn apply_records(
    m: Map<Seq<char>, Seq<char>>,
    records: Seq<(Seq<char>, Seq<char>)>,
) -> Map<Seq<char>, Seq<char>>
    decreases records.len(),
{
    if records.len() == 0 {
        m
    } else {
        apply_records(m, records.drop_last()).insert(records.last().0, records.last().1)
    }
}

/// The stored mapping after a best-effort run over `records`: `flags[i]`
/// says whether the `i`-th UPSERT succeeded; failed ones change nothing.
pub open spec fn apply_selected(
    m: Map<Seq<char>, Seq<char>>,
    records: Seq<(Seq<char>, Seq<char>)>,
    flags: Seq<bool>,
) -> Map<Seq<char>, Seq<char>>
    decreases records.len(),
{
    if records.len() == 0 {
        m
    } else {
        let prev = apply_selected(m, records.drop_last(), flags.drop_last());
        if flags.len() == records.len() && flags.last() {
            prev.insert(records.last().0, records.last().1)
        } else {
            prev
        }
    }
}

/// Law: last write wins. After persisting records in order, a key maps
/// to the value of its last record: a later read returns that value.
pub proof fn lemma_last_write_wins(
    m: Map<Seq<char>, Seq<char>>,
    records: Seq<(Seq<char>, Seq<char>)>,
    k: Seq<char>,
    i: int,
)
    requires
        0 <= i < records.len(),
        records[i].0 == k,
        forall|j: int| i < j < records.len() ==> (#[trigger] records[j]).0 != k,
    ensures
        apply_records(m, records).contains_key(k),
        apply_records(m, records)[k] == records[i].1,
    decreases records.len(),
{
    if i == records.len() - 1 {
    } else {
        lemma_last_write_wins(m, records.drop_last(), k, i);
    }
}

/// Law: persisting the same record twice is equivalent to persisting it
/// once.
pub proof fn lemma_persist_idempotent(m: Map<Seq<char>, Seq<char>>, k: Seq<char>, v: Seq<char>)
    ensures
        m.insert(k, v).insert(k, v) == m.insert(k, v),
{
    assert(m.insert(k, v).insert(k, v) =~= m.insert(k, v));
}

/// When every UPSERT of a run succeeds, the best-effort outcome is the
/// full one: the old mapping overwritten by the run's records in order.
pub proof fn lemma_apply_selected_all_ok(
    m: Map<Seq<char>, Seq<char>>,
    records: Seq<(Seq<char>, Seq<char>)>,
    flags: Seq<bool>,
)
    requires
        flags.len() == records.len(),
        forall|i: int| 0 <= i < flags.len() ==> flags[i],
    ensures
        apply_selected(m, records, flags) == apply_records(m, records),
    decreases records.len(),
{
    if records.len() > 0 {
        lemma_apply_selected_all_ok(m, records.drop_last(), flags.drop_last());
    }
}

} // verus!
