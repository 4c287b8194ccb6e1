use vstd::prelude::*;
use crate::store::Store;
use crate::types::{entry_view, DbError, Row, Type};
use crate::value::{kind_of, Value, ValueView};

verus! {

/// Native status codes.
pub const SQLITE_OK: i32 = 0;
pub const SQLITE_ROW: i32 = 100;
pub const SQLITE_DONE: i32 = 101;

/// The largest placeholder index the engine's interface can carry.
pub const MAX_PARAMETER_INDEX: usize = 0x7fff_ffff;

/// What one step of a statement reported.
#[derive(PartialEq, Eq, Structural, Copy, Clone, Debug)]
pub enum StepSignal {
    Row,
    Done,
    Error(i32),
}

pub open spec fn step_signal_of(code: i32) -> StepSignal {
    if code == SQLITE_ROW {
        StepSignal::Row
    } else if code == SQLITE_DONE {
        StepSignal::Done
    } else {
        StepSignal::Error(code)
    }
}

/// Maps a native step status to the tri-state signal; busy and locked
/// statuses are errors like any other.
pub fn step_signal(code: i32) -> (r: StepSignal)
    ensures
        r == step_signal_of(code),
{
    if code == SQLITE_ROW {
        StepSignal::Row
    } else if code == SQLITE_DONE {
        StepSignal::Done
    } else {
        StepSignal::Error(code)
    }
}

/// One native bind call: the binder for the value's variant, the 1-based
/// placeholder index, and the value, which the engine copies.
#[derive(PartialEq, Debug)]
pub enum BindCall {
    Null { index: i32 },
    Int64 { index: i32, value: i64 },
    Double { index: i32, bits: u64 },
    Text { index: i32, text: String },
    Blob { index: i32, data: Vec<u8> },
}

/// The placeholder index and the value of a bind call.
pub open spec fn bind_call_view(c: BindCall) -> (int, ValueView) {
    match c {
        BindCall::Null { index } => (index as int, ValueView::Null),
        BindCall::Int64 { index, value } => (index as int, ValueView::Int(value)),
        BindCall::Double { index, bits } => (index as int, ValueView::Float(bits)),
        BindCall::Text { index, text } => (index as int, ValueView::Text(text@)),
        BindCall::Blob { index, data } => (index as int, ValueView::Blob(data@)),
    }
}

/// The bind call that puts `v` at placeholder `index`.
pub fn bind_at_index(index: usize, v: &Value) -> (r: BindCall)
    requires
        1 <= index <= MAX_PARAMETER_INDEX,
    ensures
        bind_call_view(r) == (index as int, v@),
{
    let i = index as i32;
    match v {
        Value::Null => BindCall::Null { index: i },
        Value::Int(x) => BindCall::Int64 { index: i, value: *x },
        Value::Float(b) => BindCall::Double { index: i, bits: *b },
        Value::Text(s) => BindCall::Text { index: i, text: s.clone() },
        Value::Blob(b) => {
            let data = b.clone();
            assert(data@ =~= b@);
            BindCall::Blob { index: i, data }
        },
    }
}

/// One column of the current row as read from the engine: its name, its
/// native type, and the value read with the getter for that type.
pub struct Column {
    pub name: String,
    pub kind: Type,
    pub value: Value,
}

/// A column's value was read with the getter for its native type: the value
/// has that type's variant, or the type is NULL.
pub open spec fn column_agrees(c: Column) -> bool {
    c.kind == Type::Null || c.kind == kind_of(c.value@)
}

/// Whether every column's value agrees with its native type.
pub open spec fn columns_agree(cols: Seq<Column>) -> bool {
    forall|i: int| 0 <= i < cols.len() ==> column_agrees(#[trigger] cols[i])
}

/// Whether `cols` is a full row of a result with `n` columns, each value
/// read with the getter for its type.
pub fn is_full_row(cols: &Vec<Column>, n: usize) -> (r: bool)
    ensures
        r == (cols@.len() == n && columns_agree(cols@)),
{
    if cols.len() != n {
        return false;
    }
    let mut i: usize = 0;
    while i < cols.len()
        invariant
            i <= cols@.len(),
            forall|j: int| 0 <= j < i ==> column_agrees(#[trigger] cols@[j]),
        decreases cols@.len() - i,
    {
        let c = &cols[i];
        if !(c.kind == Type::Null || c.kind == c.value.kind()) {
            return false;
        }
        i = i + 1;
    }
    true
}

/// A column whose native type is NULL is absent; any other is present.
pub open spec fn column_entry(c: Column) -> Option<ValueView> {
    if c.kind == Type::Null {
        None
    } else {
        Some(c.value@)
    }
}

/// The row that the columns decode to; a later column replaces an earlier
/// one of the same name.
pub open spec fn row_of(cols: Seq<Column>) -> Map<Seq<char>, Option<ValueView>>
    decreases cols.len(),
{
    if cols.len() == 0 {
        Map::empty()
    } else {
        row_of(cols.drop_last()).insert(cols.last().name@, column_entry(cols.last()))
    }
}

/// The lifecycle of a prepared statement.
#[derive(PartialEq, Eq, Structural, Copy, Clone, Debug)]
pub enum Phase {
    /// Compiled, with no parameters bound.
    Prepared,
    /// Parameters are being bound in order.
    Binding,
    /// Every parameter of the store is bound.
    Bound,
    /// At least one row has been reported.
    Stepping,
    /// Stepping reported completion.
    Exhausted,
    /// A bind or a step failed.
    Failed(DbError),
    /// The native handle was released.
    Finalized,
}

/// The model of a statement: its phase, the store being bound, how many of
/// its values are bound, the result's column count, and the rows decoded.
pub struct StatementView {
    pub phase: Phase,
    pub params: Seq<ValueView>,
    pub bound: nat,
    pub columns: nat,
    pub rows: Seq<Map<Seq<char>, Option<ValueView>>>,
}

/// A freshly prepared statement.
pub open spec fn prepared_view(columns: nat) -> StatementView {
    StatementView {
        phase: Phase::Prepared,
        params: Seq::empty(),
        bound: 0,
        columns,
        rows: Seq::empty(),
    }
}

/// The values bound so far: entry `i` sits at placeholder `i + 1`.
pub open spec fn bindings(s: StatementView) -> Seq<ValueView> {
    s.params.take(s.bound as int)
}

/// The bind call the statement waits on, as (placeholder index, value).
pub open spec fn pending_call(s: StatementView) -> Option<(int, ValueView)> {
    if s.phase == Phase::Binding && s.bound < s.params.len() {
        Some(((s.bound + 1) as int, s.params[s.bound as int]))
    } else {
        None
    }
}

/// Starting to bind `args`; rows of an earlier run are dropped.
pub open spec fn begin_bind(s: StatementView, args: Seq<ValueView>) -> StatementView {
    if s.phase == Phase::Finalized {
        s
    } else if args.len() > MAX_PARAMETER_INDEX {
        StatementView {
            phase: Phase::Failed(DbError::TooManyParameters),
            params: args,
            bound: 0,
            rows: Seq::empty(),
            ..s
        }
    } else if args.len() == 0 {
        StatementView { phase: Phase::Bound, params: args, bound: 0, rows: Seq::empty(), ..s }
    } else {
        StatementView { phase: Phase::Binding, params: args, bound: 0, rows: Seq::empty(), ..s }
    }
}

/// The engine answered the pending bind call with `code`.
pub open spec fn record_bind(s: StatementView, code: i32) -> StatementView {
    if s.phase != Phase::Binding {
        s
    } else if code == SQLITE_OK {
        if s.bound + 1 == s.params.len() {
            StatementView { phase: Phase::Bound, bound: s.bound + 1, ..s }
        } else {
            StatementView { bound: s.bound + 1, ..s }
        }
    } else {
        StatementView {
            phase: Phase::Failed(DbError::Bind { index: (s.bound + 1) as usize, code }),
            ..s
        }
    }
}

/// `n` bind calls in a row that the engine accepted.
pub open spec fn record_binds_ok(s: StatementView, n: nat) -> StatementView
    decreases n,
{
    if n == 0 {
        s
    } else {
        record_bind(record_binds_ok(s, (n - 1) as nat), SQLITE_OK)
    }
}

/// Binding all of `args`, each accepted by the engine.
pub open spec fn bind_all_ok(s: StatementView, args: Seq<ValueView>) -> StatementView {
    record_binds_ok(begin_bind(s, args), args.len())
}

/// Whether the statement may be stepped.
pub open spec fn can_step(s: StatementView) -> bool {
    s.phase == Phase::Prepared || s.phase == Phase::Bound || s.phase == Phase::Stepping
}

/// A step that reported `code`.
pub open spec fn record_step(s: StatementView, code: i32) -> StatementView {
    match step_signal_of(code) {
        StepSignal::Row => StatementView { phase: Phase::Stepping, ..s },
        StepSignal::Done => StatementView { phase: Phase::Exhausted, ..s },
        StepSignal::Error(c) => StatementView { phase: Phase::Failed(DbError::Step(c)), ..s },
    }
}

/// Reset: bindings cleared, cursor rewound, the compiled query kept.
pub open spec fn reset_view(s: StatementView) -> StatementView {
    if s.phase == Phase::Finalized {
        s
    } else {
        prepared_view(s.columns)
    }
}

/// Whether stepping has ended, in completion or in failure.
pub open spec fn is_finished(s: StatementView) -> bool {
    s.phase == Phase::Exhausted || s.phase is Failed
}

/// The statement's outcome once stepping has ended.
pub open spec fn result_of(s: StatementView) -> Result<Seq<Map<Seq<char>, Option<ValueView>>>, DbError> {
    match s.phase {
        Phase::Failed(e) => Err(e),
        _ => Ok(s.rows),
    }
}

/// The decisions of one prepared statement. The engine's handle is held by
/// the caller, which performs each call this type asks for and reports the
/// engine's answer back.
pub struct Statement {
    phase: Phase,
    params: Vec<Value>,
    bound: usize,
    columns: usize,
    rows: Vec<Row>,
}

impl View for Statement {
    type V = StatementView;

    closed spec fn view(&self) -> StatementView {
        StatementView {
            phase: self.phase,
            params: self.params@.map_values(|v: Value| v@),
            bound: self.bound as nat,
            columns: self.columns as nat,
            rows: self.rows@.map_values(|r: Row| r@),
        }
    }
}

impl Statement {
    #[verifier::type_invariant]
    spec fn wf(&self) -> bool {
        &&& self.bound <= self.params@.len()
        &&& self.phase == Phase::Binding ==> self.bound < self.params@.len() <= MAX_PARAMETER_INDEX
    }

    /// The statement for a query that the engine compiled with status `code`
    /// into a result of `columns` columns.
    pub fn for_query(code: i32, columns: usize) -> (r: Result<Statement, DbError>)
        ensures
            code == SQLITE_OK ==> (r matches Ok(s) && s@ == prepared_view(columns as nat)),
            code != SQLITE_OK ==> r == Err::<Statement, DbError>(DbError::Prepare(code)),
    {
        if code == SQLITE_OK {
            Ok(Statement::for_stmt(columns))
        } else {
            Err(DbError::Prepare(code))
        }
    }

    /// The statement for a handle that was compiled earlier.
    pub fn for_stmt(columns: usize) -> (r: Statement)
        ensures
            r@ == prepared_view(columns as nat),
    {
        let r = Statement {
            phase: Phase::Prepared,
            params: Vec::new(),
            bound: 0,
            columns,
            rows: Vec::new(),
        };
        assert(r@.params =~= Seq::<ValueView>::empty());
        assert(r@.rows =~= Seq::<Map<Seq<char>, Option<ValueView>>>::empty());
        r
    }

    pub fn phase(&self) -> (r: Phase)
        ensures
            r == self@.phase,
    {
        self.phase
    }

    pub fn column_count(&self) -> (r: usize)
        ensures
            r == self@.columns,
    {
        self.columns
    }

    /// The bind call to perform next, if binding is under way.
    pub fn next_bind(&self) -> (r: Option<BindCall>)
        ensures
            match pending_call(self@) {
                Some(c) => r matches Some(call) && bind_call_view(call) == c,
                None => r.is_none(),
            },
    {
        proof {
            use_type_invariant(self);
        }
        if self.phase == Phase::Binding && self.bound < self.params.len() {
            Some(bind_at_index(self.bound + 1, &self.params[self.bound]))
        } else {
            None
        }
    }

    /// Starts binding `args` in order, the value at index `i` to placeholder
    /// `i + 1`; returns the first bind call.
    pub fn bind(&mut self, args: Store) -> (r: Option<BindCall>)
        ensures
            final(self)@ == begin_bind(old(self)@, args@),
            match pending_call(final(self)@) {
                Some(c) => r matches Some(call) && bind_call_view(call) == c,
                None => r.is_none(),
            },
    {
        proof {
            use_type_invariant(&*self);
        }
        if self.phase == Phase::Finalized {
            return None;
        }
        let n = args.len();
        let mut params: Vec<Value> = Vec::new();
        let mut i: usize = 0;
        while i < n
            invariant
                n == args@.len(),
                i <= n,
                params@.len() == i,
                forall|j: int| 0 <= j < i ==> (#[trigger] params@[j])@ == args@[j],
            decreases n - i,
        {
            params.push(args.get(i).duplicate());
            i = i + 1;
        }
        assert(params@.map_values(|v: Value| v@) =~= args@);
        let phase = if n > MAX_PARAMETER_INDEX {
            Phase::Failed(DbError::TooManyParameters)
        } else if n == 0 {
            Phase::Bound
        } else {
            Phase::Binding
        };
        let columns = self.columns;
        *self = Statement { phase, params, bound: 0, columns, rows: Vec::new() };
        assert(self@.rows =~= Seq::<Map<Seq<char>, Option<ValueView>>>::empty());
        self.next_bind()
    }

    /// Records the engine's status for the pending bind call; returns the next
    /// call, if any.
    pub fn bind_result(&mut self, code: i32) -> (r: Option<BindCall>)
        ensures
            final(self)@ == record_bind(old(self)@, code),
            match pending_call(final(self)@) {
                Some(c) => r matches Some(call) && bind_call_view(call) == c,
                None => r.is_none(),
            },
    {
        proof {
            use_type_invariant(&*self);
        }
        if self.phase != Phase::Binding {
            return None;
        }
        if code == SQLITE_OK {
            let b = self.bound + 1;
            let phase = if b == self.params.len() {
                Phase::Bound
            } else {
                Phase::Binding
            };
            self.set_progress(phase, b);
        } else {
            let phase = Phase::Failed(DbError::Bind { index: self.bound + 1, code });
            let b = self.bound;
            self.set_progress(phase, b);
        }
        self.next_bind()
    }

    fn set_progress(&mut self, phase: Phase, bound: usize)
        requires
            bound <= old(self).params@.len(),
            phase == Phase::Binding ==> bound < old(self).params@.len() <= MAX_PARAMETER_INDEX,
        ensures
            final(self)@ == (StatementView { phase, bound: bound as nat, ..old(self)@ }),
    {
        let mut taken = Statement::for_stmt(0);
        std::mem::swap(self, &mut taken);
        let Statement { params, columns, rows, .. } = taken;
        *self = Statement { phase, params, bound, columns, rows };
    }

    /// Whether the engine may be asked for the next step.
    pub fn ready_to_step(&self) -> (r: bool)
        ensures
            r == can_step(self@),
    {
        self.phase == Phase::Prepared || self.phase == Phase::Bound || self.phase == Phase::Stepping
    }

    /// Records the status of one native step.
    pub fn step(&mut self, code: i32) -> (r: StepSignal)
        requires
            can_step(old(self)@),
        ensures
            r == step_signal_of(code),
            final(self)@ == record_step(old(self)@, code),
    {
        proof {
            use_type_invariant(&*self);
        }
        let signal = step_signal(code);
        let phase = match signal {
            StepSignal::Row => Phase::Stepping,
            StepSignal::Done => Phase::Exhausted,
            StepSignal::Error(c) => Phase::Failed(DbError::Step(c)),
        };
        let b = self.bound;
        self.set_progress(phase, b);
        signal
    }

    /// Decodes the current row from its columns, in column order, and keeps it.
    pub fn fetch_row(&mut self, cols: Vec<Column>)
        requires
            old(self)@.phase == Phase::Stepping,
            cols@.len() == old(self)@.columns,
            columns_agree(cols@),
        ensures
            final(self)@ == (StatementView { rows: old(self)@.rows.push(row_of(cols@)), ..old(self)@ }),
    {
        proof {
            use_type_invariant(&*self);
        }
        let row = decode_row(&cols);
        let mut taken = Statement::for_stmt(0);
        std::mem::swap(self, &mut taken);
        let Statement { phase, params, bound, columns, rows } = taken;
        let mut rows = rows;
        let ghost before = rows@;
        rows.push(row);
        assert(rows@.map_values(|r: Row| r@) =~= before.map_values(|r: Row| r@).push(row_of(cols@)));
        *self = Statement { phase, params, bound, columns, rows };
    }

    /// Whether stepping has ended.
    pub fn finished(&self) -> (r: bool)
        ensures
            r == is_finished(self@),
    {
        match self.phase {
            Phase::Exhausted => true,
            Phase::Failed(_) => true,
            _ => false,
        }
    }

    /// The rows collected, possibly none, once stepping reported completion;
    /// the failure otherwise.
    pub fn fetch_result(self) -> (r: Result<Vec<Row>, DbError>)
        requires
            is_finished(self@),
        ensures
            match r {
                Ok(rows) => result_of(self@) == Ok::<Seq<Map<Seq<char>, Option<ValueView>>>, DbError>(
                    rows@.map_values(|r: Row| r@),
                ),
                Err(e) => result_of(self@) == Err::<Seq<Map<Seq<char>, Option<ValueView>>>, DbError>(e),
            },
    {
        match self.phase {
            Phase::Failed(e) => Err(e),
            _ => Ok(self.rows),
        }
    }

    /// Clears the bindings and rewinds the statement for reuse, given the
    /// engine's statuses for the rewind and for clearing the bindings; the
    /// result says whether both succeeded.
    pub fn reset(&mut self, reset_code: i32, clear_code: i32) -> (r: bool)
        ensures
            final(self)@ == reset_view(old(self)@),
            r == (reset_code == SQLITE_OK && clear_code == SQLITE_OK),
    {
        if self.phase != Phase::Finalized {
            let columns = self.columns;
            *self = Statement::for_stmt(columns);
        }
        reset_code == SQLITE_OK && clear_code == SQLITE_OK
    }

    /// Marks the native handle as released; no further call is asked for.
    pub fn finalize(&mut self)
        ensures
            final(self)@ == (StatementView { phase: Phase::Finalized, ..old(self)@ }),
    {
        proof {
            use_type_invariant(&*self);
        }
        let b = self.bound;
        self.set_progress(Phase::Finalized, b);
    }
}

/// The row that `cols` decode to.
pub fn decode_row(cols: &Vec<Column>) -> (r: Row)
    requires
        columns_agree(cols@),
    ensures
        r@ == row_of(cols@),
{
    let mut row = Row::new();
    let mut i: usize = 0;
    while i < cols.len()
        invariant
            i <= cols@.len(),
            row@ == row_of(cols@.take(i as int)),
        decreases cols@.len() - i,
    {
        let c = &cols[i];
        let entry = if c.kind == Type::Null {
            None
        } else {
            Some(c.value.duplicate())
        };
        row.insert(c.name.clone(), entry);
        assert(cols@.take(i + 1).drop_last() =~= cols@.take(i as int));
        i = i + 1;
    }
    assert(cols@.take(cols@.len() as int) =~= cols@);
    row
}

/// Binding `k` values of `args`, all accepted, leaves the first `k` bound and
/// the statement waiting on the next one.
pub proof fn lemma_binds_in_progress(s: StatementView, args: Seq<ValueView>, k: nat)
    requires
        s.phase != Phase::Finalized,
        0 < args.len() <= MAX_PARAMETER_INDEX,
        k <= args.len(),
    ensures
        record_binds_ok(begin_bind(s, args), k) == (StatementView {
            phase: if k < args.len() { Phase::Binding } else { Phase::Bound },
            params: args,
            bound: k,
            rows: Seq::empty(),
            ..s
        }),
    decreases k,
{
    if k > 0 {
        lemma_binds_in_progress(s, args, (k - 1) as nat);
    }
}

/// Order is kept: while a store is bound, the value at index `k` goes to
/// placeholder `k + 1`, whatever the variants of the values.
pub proof fn lemma_bind_order(s: StatementView, args: Seq<ValueView>, k: nat)
    requires
        s.phase != Phase::Finalized,
        args.len() <= MAX_PARAMETER_INDEX,
        k < args.len(),
    ensures
        pending_call(record_binds_ok(begin_bind(s, args), k)) == Some(((k + 1) as int, args[k as int])),
{
    lemma_binds_in_progress(s, args, k);
}

/// Binding a whole store that the engine accepts leaves the statement bound,
/// with exactly the store's values at placeholders 1, 2, ... in order.
pub proof fn lemma_bind_all(s: StatementView, args: Seq<ValueView>)
    requires
        s.phase != Phase::Finalized,
        args.len() <= MAX_PARAMETER_INDEX,
    ensures
        bind_all_ok(s, args).phase == Phase::Bound,
        bindings(bind_all_ok(s, args)) == args,
        pending_call(bind_all_ok(s, args)).is_none(),
{
    if args.len() > 0 {
        lemma_binds_in_progress(s, args, args.len());
    }
    assert(args.take(args.len() as int) =~= args);
}

/// A store built from `a`, then `b`, then `c` binds `a` to placeholder 1, `b`
/// to 2 and `c` to 3.
pub proof fn lemma_three_values_in_order(s: StatementView, a: ValueView, b: ValueView, c: ValueView)
    requires
        s.phase != Phase::Finalized,
    ensures
        ({
            let args = Seq::<ValueView>::empty().push(a).push(b).push(c);
            &&& pending_call(record_binds_ok(begin_bind(s, args), 0)) == Some((1int, a))
            &&& pending_call(record_binds_ok(begin_bind(s, args), 1)) == Some((2int, b))
            &&& pending_call(record_binds_ok(begin_bind(s, args), 2)) == Some((3int, c))
            &&& bindings(bind_all_ok(s, args)) == args
        }),
{
    let args = Seq::<ValueView>::empty().push(a).push(b).push(c);
    lemma_bind_order(s, args, 0);
    lemma_bind_order(s, args, 1);
    lemma_bind_order(s, args, 2);
    lemma_bind_all(s, args);
}

/// Reset clears every binding and every collected row, and keeps the
/// statement usable.
pub proof fn lemma_reset_clears(s: StatementView)
    requires
        s.phase != Phase::Finalized,
    ensures
        reset_view(s).phase == Phase::Prepared,
        bindings(reset_view(s)) == Seq::<ValueView>::empty(),
        reset_view(s).rows.len() == 0,
        reset_view(s).columns == s.columns,
{
    assert(bindings(reset_view(s)) =~= Seq::<ValueView>::empty());
}

/// Prepare, bind `a`, step to completion, reset, then bind `b`: the statement
/// ends bound to exactly `b`, with nothing left of `a`.
pub proof fn lemma_rebind_after_reset(columns: nat, a: Seq<ValueView>, b: Seq<ValueView>)
    requires
        a.len() <= MAX_PARAMETER_INDEX,
        b.len() <= MAX_PARAMETER_INDEX,
    ensures
        ({
            let first = record_step(bind_all_ok(prepared_view(columns), a), SQLITE_DONE);
            let again = bind_all_ok(reset_view(first), b);
            &&& bindings(bind_all_ok(prepared_view(columns), a)) == a
            &&& first.phase == Phase::Exhausted
            &&& bindings(reset_view(first)) == Seq::<ValueView>::empty()
            &&& again.phase == Phase::Bound
            &&& bindings(again) == b
            &&& again.rows.len() == 0
        }),
{
    let s0 = prepared_view(columns);
    lemma_bind_all(s0, a);
    let first = record_step(bind_all_ok(s0, a), SQLITE_DONE);
    lemma_reset_clears(first);
    lemma_bind_all(reset_view(first), b);
    if b.len() > 0 {
        lemma_binds_in_progress(reset_view(first), b, b.len());
    }
}

/// Each column that no later column shares a name with decodes to its own
/// entry: absent when its native type is NULL, its value otherwise (never a
/// present `Value::Null` for a NULL column).
pub proof fn lemma_null_column_is_absent(cols: Seq<Column>, i: int)
    requires
        0 <= i < cols.len(),
        forall|j: int| i < j < cols.len() ==> #[trigger] cols[j].name@ != cols[i].name@,
    ensures
        row_of(cols).contains_key(cols[i].name@),
        row_of(cols)[cols[i].name@] == column_entry(cols[i]),
        cols[i].kind == Type::Null ==> row_of(cols)[cols[i].name@] == None::<ValueView>,
        cols[i].kind != Type::Null ==> row_of(cols)[cols[i].name@] == Some(cols[i].value@),
    decreases cols.len(),
{
    if i < cols.len() - 1 {
        let prefix = cols.drop_last();
        assert forall|j: int| i < j < prefix.len() implies #[trigger] prefix[j].name@ != prefix[i].name@ by {
            assert(prefix[j] == cols[j]);
        }
        lemma_null_column_is_absent(prefix, i);
        assert(cols[cols.len() - 1].name@ != cols[i].name@);
    }
}

/// A row whose column names are distinct holds one entry per column.
pub proof fn lemma_row_has_every_column(cols: Seq<Column>)
    requires
        forall|a: int, b: int| 0 <= a < b < cols.len() ==> #[trigger] cols[a].name@ != #[trigger] cols[b].name@,
    ensures
        row_of(cols).dom() == Set::new(|k: Seq<char>| exists|i: int| 0 <= i < cols.len() && cols[i].name@ == k),
        row_of(cols).dom().finite(),
        row_of(cols).len() == cols.len(),
    decreases cols.len(),
{
    let names = Set::new(|k: Seq<char>| exists|i: int| 0 <= i < cols.len() && cols[i].name@ == k);
    if cols.len() == 0 {
        assert(row_of(cols).dom() =~= names);
    } else {
        let prefix = cols.drop_last();
        assert forall|a: int, b: int| 0 <= a < b < prefix.len() implies #[trigger] prefix[a].name@
            != #[trigger] prefix[b].name@ by {
            assert(prefix[a] == cols[a] && prefix[b] == cols[b]);
        }
        lemma_row_has_every_column(prefix);
        let last = cols.last().name@;
        assert(!row_of(prefix).dom().contains(last)) by {
            if row_of(prefix).dom().contains(last) {
                let i = choose|i: int| 0 <= i < prefix.len() && prefix[i].name@ == last;
                assert(cols[i].name@ != cols[cols.len() - 1].name@);
            }
        }
        assert forall|k: Seq<char>| row_of(cols).dom().contains(k) <==> names.contains(k) by {
            if names.contains(k) {
                let i = choose|i: int| 0 <= i < cols.len() && cols[i].name@ == k;
                if i < cols.len() - 1 {
                    assert(prefix[i] == cols[i]);
                }
            }
            if row_of(prefix).dom().contains(k) {
                let i = choose|i: int| 0 <= i < prefix.len() && prefix[i].name@ == k;
                assert(prefix[i] == cols[i]);
            }
        }
        assert(row_of(cols).dom() =~= names);
    }
}

} // verus!
