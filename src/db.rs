use vstd::prelude::*;
use std::collections::HashMap;
use crate::hash::hash;
use crate::stmt::{is_finished, result_of, Phase, Statement, StatementView, SQLITE_OK};
use crate::types::{DbError, Row};
use crate::value::ValueView;

verus! {

broadcast use vstd::std_specs::hash::group_hash_axioms;

/// Native open flags.
pub const SQLITE_OPEN_READONLY: i32 = 0x1;
pub const SQLITE_OPEN_READWRITE: i32 = 0x2;
pub const SQLITE_OPEN_CREATE: i32 = 0x4;

/// The reserved name of a transient database that lives in memory.
pub open spec fn in_memory_path() -> Seq<char> {
    seq![':', 'm', 'e', 'm', 'o', 'r', 'y', ':']
}

/// A native open call: the database name and the open flags.
pub struct OpenRequest {
    pub path: String,
    pub flags: i32,
}

/// What `create` asks for: whether to delete an earlier database file at the
/// path first, and the open call that follows.
pub struct CreatePlan {
    pub remove_file: bool,
    pub open: OpenRequest,
}

/// How deleting an earlier database file went.
#[derive(PartialEq, Eq, Structural, Copy, Clone, Debug)]
pub enum Removal {
    Removed,
    NotFound,
    Failed,
}

/// Where the statement for a query comes from.
#[derive(PartialEq, Eq, Structural, Copy, Clone, Debug)]
pub enum Lookup {
    /// A statement compiled earlier for the same text, by its handle.
    Cached(usize),
    /// Compile the text; keep the handle under the key, if one is given.
    Prepare(Option<u32>),
}

/// What closing asks for.
#[derive(PartialEq, Eq, Debug)]
pub enum CloseStep {
    /// Nothing is open: closing succeeds at once.
    Nothing,
    /// Finalize these cached statement handles, then close the connection.
    Close(Vec<usize>),
}

/// The model of a connection: its database name, whether it is open, whether
/// compiled statements are kept for reuse, and those kept, by the hash of
/// their text and in the order they were kept.
pub struct ConnectionView {
    pub path: Seq<char>,
    pub open: bool,
    pub use_prepared: bool,
    pub prepared: Map<u32, usize>,
    pub handles: Seq<usize>,
}

/// The decisions of one database connection. The native handle is held by
/// the caller, which performs the calls this type asks for.
pub struct SQLite {
    fpath: String,
    open: bool,
    use_prepared: bool,
    prepared: HashMap<u32, usize>,
    handles: Vec<usize>,
}

impl View for SQLite {
    type V = ConnectionView;

    closed spec fn view(&self) -> ConnectionView {
        ConnectionView {
            path: self.fpath@,
            open: self.open,
            use_prepared: self.use_prepared,
            prepared: self.prepared@,
            handles: self.handles@,
        }
    }
}

/// What `select` returns for a statement's outcome: the rows when there are
/// any; `None` for no rows and for failure alike.
pub open spec fn select_view(r: Result<Seq<Map<Seq<char>, Option<ValueView>>>, DbError>) -> Option<
    Seq<Map<Seq<char>, Option<ValueView>>>,
> {
    match r {
        Ok(rows) => if rows.len() > 0 {
            Some(rows)
        } else {
            None
        },
        Err(_) => None,
    }
}

/// The models of a sequence of rows.
pub open spec fn rows_view(rows: Seq<Row>) -> Seq<Map<Seq<char>, Option<ValueView>>> {
    rows.map_values(|r: Row| r@)
}

/// The model of a statement's outcome.
pub open spec fn outcome_view(result: Result<Vec<Row>, DbError>) -> Result<
    Seq<Map<Seq<char>, Option<ValueView>>>,
    DbError,
> {
    match result {
        Ok(rows) => Ok(rows_view(rows@)),
        Err(e) => Err(e),
    }
}

impl SQLite {
    /// A connection that is not open, with no database name yet.
    pub fn new() -> (r: SQLite)
        ensures
            r@ == (ConnectionView {
                path: Seq::empty(),
                open: false,
                use_prepared: false,
                prepared: Map::empty(),
                handles: Seq::empty(),
            }),
    {
        SQLite {
            fpath: String::new(),
            open: false,
            use_prepared: false,
            prepared: HashMap::new(),
            handles: Vec::new(),
        }
    }

    /// Keeps each compiled statement for reuse by later calls with the same
    /// text.
    pub fn reuse_prepared(self) -> (r: SQLite)
        ensures
            r@ == (ConnectionView { use_prepared: true, ..self@ }),
    {
        let SQLite { fpath, open, prepared, handles, .. } = self;
        SQLite { fpath, open, use_prepared: true, prepared, handles }
    }

    /// Names the database file.
    pub fn file(self, fpath: &str) -> (r: SQLite)
        ensures
            r@ == (ConnectionView { path: fpath@, ..self@ }),
    {
        let SQLite { open, use_prepared, prepared, handles, .. } = self;
        SQLite { fpath: fpath.to_owned(), open, use_prepared, prepared, handles }
    }

    /// Selects a transient database in memory.
    pub fn in_memory(self) -> (r: SQLite)
        ensures
            r@ == (ConnectionView { path: in_memory_path(), ..self@ }),
    {
        let SQLite { open, use_prepared, prepared, handles, .. } = self;
        let path = ":memory:";
        proof {
            reveal_strlit(":memory:");
            assert(path@ =~= in_memory_path());
        }
        SQLite { fpath: path.to_owned(), open, use_prepared, prepared, handles }
    }

    pub fn path(&self) -> (r: &String)
        ensures
            r@ == self@.path,
    {
        &self.fpath
    }

    pub fn is_open(&self) -> (r: bool)
        ensures
            r == self@.open,
    {
        self.open
    }

    /// The open call for an existing database: read-only, or for reading and
    /// writing. It never asks to create the database.
    pub fn open(&self, read_only: bool) -> (r: Result<OpenRequest, DbError>)
        ensures
            self@.open ==> r == Err::<OpenRequest, DbError>(DbError::AlreadyOpen),
            !self@.open ==> (r matches Ok(req) && req.path@ == self@.path && req.flags == if read_only {
                SQLITE_OPEN_READONLY
            } else {
                SQLITE_OPEN_READWRITE
            }),
    {
        if self.open {
            return Err(DbError::AlreadyOpen);
        }
        let flags = if read_only {
            SQLITE_OPEN_READONLY
        } else {
            SQLITE_OPEN_READWRITE
        };
        Ok(OpenRequest { path: self.fpath.clone(), flags })
    }

    /// The plan for creating a fresh database: a file-backed one is deleted
    /// first, then the database is opened for reading and writing, created if
    /// missing.
    pub fn create(&self) -> (r: Result<CreatePlan, DbError>)
        ensures
            self@.open ==> r == Err::<CreatePlan, DbError>(DbError::AlreadyOpen),
            !self@.open ==> (r matches Ok(plan) && plan.remove_file == (self@.path != in_memory_path())
                && plan.open.path@ == self@.path && plan.open.flags == SQLITE_OPEN_READWRITE
                | SQLITE_OPEN_CREATE),
    {
        if self.open {
            return Err(DbError::AlreadyOpen);
        }
        let memory = ":memory:".to_owned();
        proof {
            reveal_strlit(":memory:");
            assert(memory@ =~= in_memory_path());
        }
        let remove_file = !(self.fpath == memory);
        Ok(CreatePlan {
            remove_file,
            open: OpenRequest { path: self.fpath.clone(), flags: SQLITE_OPEN_READWRITE | SQLITE_OPEN_CREATE },
        })
    }

    /// A missing file is no error; any other failure to delete one is.
    pub fn removal_result(outcome: Removal) -> (r: Result<(), DbError>)
        ensures
            r == if outcome == Removal::Failed {
                Err::<(), DbError>(DbError::Filesystem)
            } else {
                Ok::<(), DbError>(())
            },
    {
        match outcome {
            Removal::Failed => Err(DbError::Filesystem),
            _ => Ok(()),
        }
    }

    /// Records the status of the native open call.
    pub fn opened(&mut self, code: i32) -> (r: Result<(), DbError>)
        ensures
            code == SQLITE_OK ==> r == Ok::<(), DbError>(()) && final(self)@ == (ConnectionView {
                open: true,
                ..old(self)@
            }),
            code != SQLITE_OK ==> r == Err::<(), DbError>(DbError::Open(code)) && final(self)@
                == old(self)@,
    {
        if code == SQLITE_OK {
            self.open = true;
            Ok(())
        } else {
            Err(DbError::Open(code))
        }
    }

    /// Whether a statement may run on this connection.
    pub fn check_open(&self) -> (r: Result<(), DbError>)
        ensures
            r == if self@.open {
                Ok::<(), DbError>(())
            } else {
                Err::<(), DbError>(DbError::NotOpen)
            },
    {
        if self.open {
            Ok(())
        } else {
            Err(DbError::NotOpen)
        }
    }

    /// The outcome of running a statement without parameters.
    pub fn exec(code: i32) -> (r: Result<(), DbError>)
        ensures
            r == if code == SQLITE_OK {
                Ok::<(), DbError>(())
            } else {
                Err::<(), DbError>(DbError::Exec(code))
            },
    {
        if code == SQLITE_OK {
            Ok(())
        } else {
            Err(DbError::Exec(code))
        }
    }

    /// Where the statement for a query whose text hashes to `key` comes from:
    /// with reuse on, the statement kept under `key`, else a new one to keep
    /// under it; with reuse off, always a new one.
    pub fn lookup(&self, key: u32) -> (r: Result<Lookup, DbError>)
        ensures
            !self@.open ==> r == Err::<Lookup, DbError>(DbError::NotOpen),
            self@.open && !self@.use_prepared ==> r == Ok::<Lookup, DbError>(Lookup::Prepare(None)),
            self@.open && self@.use_prepared ==> r == Ok::<Lookup, DbError>(
                if self@.prepared.contains_key(key) {
                    Lookup::Cached(self@.prepared[key])
                } else {
                    Lookup::Prepare(Some(key))
                },
            ),
    {
        if !self.open {
            return Err(DbError::NotOpen);
        }
        if !self.use_prepared {
            return Ok(Lookup::Prepare(None));
        }
        match self.prepared.get(&key) {
            Some(handle) => Ok(Lookup::Cached(*handle)),
            None => Ok(Lookup::Prepare(Some(key))),
        }
    }

    /// Where the statement for `query` comes from, keyed by the hash of its
    /// text: a kept statement is one kept under some key, and a new one is to
    /// be kept under a key that holds none yet.
    pub fn stmt_for_query(&self, query: &str) -> (r: Result<Lookup, DbError>)
        ensures
            !self@.open ==> r == Err::<Lookup, DbError>(DbError::NotOpen),
            self@.open && !self@.use_prepared ==> r == Ok::<Lookup, DbError>(Lookup::Prepare(None)),
            self@.open && self@.use_prepared ==> match r {
                Ok(Lookup::Cached(h)) => exists|k: u32|
                    #[trigger] self@.prepared.contains_key(k) && self@.prepared[k] == h,
                Ok(Lookup::Prepare(Some(k))) => !self@.prepared.contains_key(k),
                _ => false,
            },
    {
        if !self.open || !self.use_prepared {
            return self.lookup(0);
        }
        let key = hash(query);
        self.lookup(key)
    }

    /// Keeps a newly compiled statement's handle under `key`.
    pub fn remember(&mut self, key: u32, handle: usize)
        ensures
            final(self)@ == (ConnectionView {
                prepared: old(self)@.prepared.insert(key, handle),
                handles: old(self)@.handles.push(handle),
                ..old(self)@
            }),
    {
        self.prepared.insert(key, handle);
        self.handles.push(handle);
    }

    /// `exec_query` and `update` succeed when every parameter was bound and
    /// the single step reported completion.
    pub fn exec_query(stmt: &Statement) -> (r: bool)
        ensures
            r == (stmt@.phase == Phase::Exhausted),
    {
        stmt.phase() == Phase::Exhausted
    }

    /// `update` succeeds exactly as `exec_query` does.
    pub fn update(stmt: &Statement) -> (r: bool)
        ensures
            r == (stmt@.phase == Phase::Exhausted),
    {
        SQLite::exec_query(stmt)
    }

    /// `insert` gives the id of the inserted row when the statement
    /// succeeded, and `None` when it failed.
    pub fn insert(succeeded: bool, rowid: i64) -> (r: Option<i64>)
        ensures
            r == if succeeded {
                Some(rowid)
            } else {
                None
            },
    {
        if succeeded {
            Some(rowid)
        } else {
            None
        }
    }

    /// `select` gives the rows when there are any, and `None` both when no row
    /// matched and when the statement failed.
    pub fn select(result: Result<Vec<Row>, DbError>) -> (r: Option<Vec<Row>>)
        ensures
            match result {
                Ok(rows) => r == if rows@.len() > 0 {
                    Some(rows)
                } else {
                    None
                },
                Err(_) => r.is_none(),
            },
            match r {
                Some(rows) => select_view(outcome_view(result)) == Some(rows_view(rows@)),
                None => select_view(outcome_view(result)).is_none(),
            },
    {
        match result {
            Ok(rows) => if rows.len() > 0 {
                Some(rows)
            } else {
                None
            },
            Err(_) => None,
        }
    }

    /// Closing: nothing to do when not open; else the kept statements are
    /// finalized before the connection is closed.
    pub fn close(&self) -> (r: CloseStep)
        ensures
            !self@.open ==> r == CloseStep::Nothing,
            self@.open ==> (r matches CloseStep::Close(hs) && hs@ == self@.handles),
    {
        if !self.open {
            return CloseStep::Nothing;
        }
        let hs = self.handles.clone();
        assert(hs@ =~= self.handles@);
        CloseStep::Close(hs)
    }

    /// Records the status of the native close call; on success the connection
    /// is closed and no statement is kept.
    pub fn closed(&mut self, code: i32) -> (r: bool)
        ensures
            r == (code == SQLITE_OK),
            r ==> final(self)@ == (ConnectionView {
                open: false,
                prepared: Map::empty(),
                handles: Seq::empty(),
                ..old(self)@
            }),
            !r ==> final(self)@ == old(self)@,
    {
        if code == SQLITE_OK {
            self.open = false;
            self.prepared = HashMap::new();
            self.handles = Vec::new();
            true
        } else {
            false
        }
    }
}

/// The model of a run of setup statements: the statements, how many ran
/// successfully, and the failure that stopped the run, if any.
pub struct SetupView {
    pub cmds: Seq<Seq<char>>,
    pub done: nat,
    pub failed: Option<DbError>,
}

/// The statement to run next: none after a failure or after the last one.
pub open spec fn setup_next(v: SetupView) -> Option<Seq<char>> {
    if v.failed.is_none() && v.done < v.cmds.len() {
        Some(v.cmds[v.done as int])
    } else {
        None
    }
}

/// The engine answered the statement run last with `code`.
pub open spec fn setup_record(v: SetupView, code: i32) -> SetupView {
    if setup_next(v).is_none() {
        v
    } else if code == SQLITE_OK {
        SetupView { done: v.done + 1, ..v }
    } else {
        SetupView { failed: Some(DbError::Exec(code)), ..v }
    }
}

/// The run's outcome: the first failure, success once every statement ran,
/// and `None` while statements remain.
pub open spec fn setup_outcome(v: SetupView) -> Option<Result<(), DbError>> {
    match v.failed {
        Some(e) => Some(Err(e)),
        None => if v.done == v.cmds.len() {
            Some(Ok(()))
        } else {
            None
        },
    }
}

/// Runs setup statements in order and stops at the first that fails.
pub struct Setup {
    cmds: Vec<String>,
    done: usize,
    failed: Option<DbError>,
}

impl View for Setup {
    type V = SetupView;

    closed spec fn view(&self) -> SetupView {
        SetupView { cmds: self.cmds@.map_values(|c: String| c@), done: self.done as nat, failed: self.failed }
    }
}

impl Setup {
    #[verifier::type_invariant]
    spec fn wf(&self) -> bool {
        self.done <= self.cmds@.len()
    }

    pub fn new(cmds: Vec<String>) -> (r: Setup)
        ensures
            r@ == (SetupView { cmds: cmds@.map_values(|c: String| c@), done: 0, failed: None }),
    {
        Setup { cmds, done: 0, failed: None }
    }

    /// The statement to run next.
    pub fn next(&self) -> (r: Option<String>)
        ensures
            match setup_next(self@) {
                Some(c) => r matches Some(q) && q@ == c,
                None => r.is_none(),
            },
    {
        proof {
            use_type_invariant(self);
        }
        if self.failed.is_none() && self.done < self.cmds.len() {
            Some(self.cmds[self.done].clone())
        } else {
            None
        }
    }

    /// Records the engine's status for the statement run last.
    pub fn record(&mut self, code: i32)
        ensures
            final(self)@ == setup_record(old(self)@, code),
    {
        proof {
            use_type_invariant(&*self);
        }
        if self.failed.is_none() && self.done < self.cmds.len() {
            let mut taken = Setup::new(Vec::new());
            std::mem::swap(self, &mut taken);
            let Setup { cmds, done, failed } = taken;
            if code == SQLITE_OK {
                *self = Setup { cmds, done: done + 1, failed };
            } else {
                *self = Setup { cmds, done, failed: Some(DbError::Exec(code)) };
            }
        }
    }

    pub fn outcome(&self) -> (r: Option<Result<(), DbError>>)
        ensures
            r == setup_outcome(self@),
    {
        proof {
            use_type_invariant(self);
        }
        match self.failed {
            Some(e) => Some(Err(e)),
            None => if self.done == self.cmds.len() {
                Some(Ok(()))
            } else {
                None
            },
        }
    }
}

/// For a statement that ran to completion, zero matching rows give the
/// absent result, and one or more give exactly the rows decoded, as many as
/// matched; a failed statement gives the absent result too.
pub proof fn lemma_select_empty_is_absent(s: StatementView)
    requires
        is_finished(s),
    ensures
        s.phase == Phase::Exhausted && s.rows.len() == 0 ==> select_view(result_of(s)).is_none(),
        s.phase == Phase::Exhausted && s.rows.len() > 0 ==> select_view(result_of(s)) == Some(s.rows),
        s.phase == Phase::Exhausted && s.rows.len() > 0 ==> select_view(result_of(s)).unwrap().len()
            == s.rows.len(),
        s.phase is Failed ==> select_view(result_of(s)).is_none(),
{
}

} // verus!
