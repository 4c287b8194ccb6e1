use vstd::prelude::*;
use crate::value::{Value, ValueView};

verus! {

/// Why an engine operation failed, with the engine's status code where it
/// gave one.
#[derive(PartialEq, Eq, Structural, Copy, Clone, Debug)]
pub enum DbError {
    /// `open` or `create` on a connection that is already open.
    AlreadyOpen,
    /// An operation that needs an open connection on one that is not open.
    NotOpen,
    /// The engine could not open the database.
    Open(i32),
    /// The engine could not compile the query text.
    Prepare(i32),
    /// The engine refused the value for placeholder `index`.
    Bind { index: usize, code: i32 },
    /// The store holds more values than a placeholder index can address.
    TooManyParameters,
    /// Stepping reported neither a row nor completion.
    Step(i32),
    /// A statement run without parameters failed.
    Exec(i32),
    /// The engine could not close the connection.
    Close(i32),
    /// Removing an earlier database file failed for a reason other than its
    /// absence.
    Filesystem,
}

/// Native column type codes as the engine reports them.
pub const SQLITE_INTEGER: usize = 1;
pub const SQLITE_FLOAT: usize = 2;
pub const SQLITE_TEXT: usize = 3;
pub const SQLITE_BLOB: usize = 4;
pub const SQLITE_NULL: usize = 5;

/// Classification of a decoded column, mirroring the engine's type codes.
#[derive(PartialEq, Eq, Structural, Copy, Clone, Debug)]
pub enum Type {
    Int64,
    Float64,
    Text,
    Blob,
    Null,
}

/// The engine's code for each column type.
pub open spec fn type_code(t: Type) -> usize {
    match t {
        Type::Int64 => SQLITE_INTEGER,
        Type::Float64 => SQLITE_FLOAT,
        Type::Text => SQLITE_TEXT,
        Type::Blob => SQLITE_BLOB,
        Type::Null => SQLITE_NULL,
    }
}

/// Whether `v` is one of the engine's five column type codes.
pub open spec fn is_type_code(v: usize) -> bool {
    SQLITE_INTEGER <= v <= SQLITE_NULL
}

/// Whether `v` is a native column type code.
pub fn is_type_code_value(v: usize) -> (r: bool)
    ensures
        r == is_type_code(v),
{
    SQLITE_INTEGER <= v && v <= SQLITE_NULL
}

impl Type {
    /// The column type for a native type code.
    pub fn vtype(v: usize) -> (r: Type)
        requires
            is_type_code(v),
        ensures
            type_code(r) == v,
    {
        if v == SQLITE_INTEGER {
            Type::Int64
        } else if v == SQLITE_FLOAT {
            Type::Float64
        } else if v == SQLITE_TEXT {
            Type::Text
        } else if v == SQLITE_BLOB {
            Type::Blob
        } else {
            Type::Null
        }
    }

    /// The native type code of this column type.
    pub fn code(&self) -> (r: usize)
        ensures
            r == type_code(*self),
            is_type_code(r),
    {
        match self {
            Type::Int64 => SQLITE_INTEGER,
            Type::Float64 => SQLITE_FLOAT,
            Type::Text => SQLITE_TEXT,
            Type::Blob => SQLITE_BLOB,
            Type::Null => SQLITE_NULL,
        }
    }
}

/// Seconds since the Unix epoch, stored as an integer column.
#[derive(PartialEq, Eq, Structural, Copy, Clone, Debug)]
pub struct Timestamp(pub i64);

impl Timestamp {
    /// Relies on chrono's `Local::now` and `NaiveDateTime::timestamp`: the
    /// current UTC time in whole seconds. It depends on the clock, so nothing
    /// is stated of it.
    #[verifier::external_body]
    pub fn now() -> Timestamp {
        Timestamp(chrono::Local::now().naive_utc().and_utc().timestamp())
    }

    pub fn tm(v: i64) -> (r: Timestamp)
        ensures
            r.0 == v,
    {
        Timestamp(v)
    }

    pub fn value(&self) -> (r: i64)
        ensures
            r == self.0,
    {
        self.0
    }
}

impl From<i64> for Timestamp {
    fn from(v: i64) -> (r: Timestamp) {
        Timestamp(v)
    }
}

impl vstd::std_specs::convert::FromSpecImpl<i64> for Timestamp {
    open spec fn obeys_from_spec() -> bool {
        true
    }

    open spec fn from_spec(v: i64) -> Timestamp {
        Timestamp(v)
    }
}

/// The text form of a date-time: `%Y-%m-%d %H:%M:%S` in chrono's notation.
pub open spec fn datetime_format() -> Seq<char> {
    seq!['%', 'Y', '-', '%', 'm', '-', '%', 'd', ' ', '%', 'H', ':', '%', 'M', ':', '%', 'S']
}

pub open spec fn is_leap_year(y: int) -> bool {
    (y % 4 == 0 && y % 100 != 0) || y % 400 == 0
}

pub open spec fn days_in_month(y: int, m: int) -> int {
    if m == 2 {
        if is_leap_year(y) { 29 } else { 28 }
    } else if m == 4 || m == 6 || m == 9 || m == 11 {
        30
    } else {
        31
    }
}

/// A calendar date and time of day, with a four-digit year.
pub open spec fn valid_datetime(
    year: int,
    month: int,
    day: int,
    hour: int,
    minute: int,
    second: int,
) -> bool {
    &&& 0 <= year <= 9999
    &&& 1 <= month <= 12
    &&& 1 <= day <= days_in_month(year, month)
    &&& 0 <= hour < 24
    &&& 0 <= minute < 60
    &&& 0 <= second < 60
}

/// The decimal digits of `n`, zero-padded on the left to `width` places.
pub open spec fn padded_digits(n: nat, width: nat) -> Seq<char>
    decreases width,
{
    if width == 0 {
        Seq::empty()
    } else {
        padded_digits(n / 10, (width - 1) as nat).push(
            seq!['0', '1', '2', '3', '4', '5', '6', '7', '8', '9'][(n % 10) as int],
        )
    }
}

/// `YYYY-MM-DD HH:MM:SS` for the given fields.
pub open spec fn datetime_text(
    year: nat,
    month: nat,
    day: nat,
    hour: nat,
    minute: nat,
    second: nat,
) -> Seq<char> {
    padded_digits(year, 4) + seq!['-'] + padded_digits(month, 2) + seq!['-'] + padded_digits(day, 2)
        + seq![' '] + padded_digits(hour, 2) + seq![':'] + padded_digits(minute, 2) + seq![':']
        + padded_digits(second, 2)
}

/// What chrono's `NaiveDateTime::parse_from_str(s, "%Y-%m-%d %H:%M:%S")`
/// yields, as (year, month, day, hour, minute, second, nanosecond), or `None`
/// when it fails.
pub uninterp spec fn parsed_datetime(s: Seq<char>) -> Option<(i32, u32, u32, u32, u32, u32, u32)>;

/// Whether parsed fields name a date-time of this type: a valid one with a
/// four-digit year and no fraction of a second (chrono reports a leap second
/// `:60` as second 59 with a nanosecond count of a second or more).
pub open spec fn parsed_fields_ok(t: (i32, u32, u32, u32, u32, u32, u32)) -> bool {
    t.6 == 0 && valid_datetime(t.0 as int, t.1 as int, t.2 as int, t.3 as int, t.4 as int, t.5 as int)
}

/// The whole-second fields of a parse result.
pub open spec fn parsed_fields(t: (i32, u32, u32, u32, u32, u32, u32)) -> (int, int, int, int, int, int) {
    (t.0 as int, t.1 as int, t.2 as int, t.3 as int, t.4 as int, t.5 as int)
}

/// Relies on chrono's `NaiveDate::from_ymd_opt`, `NaiveDate::and_hms_opt` and
/// `NaiveDateTime::format`: a valid date and time exist, and under
/// `%Y-%m-%d %H:%M:%S` each field is written zero-padded (the year to four
/// digits, as chrono does for years 0 to 9999).
#[verifier::external_body]
fn format_datetime(
    fmt: &str,
    year: i32,
    month: u32,
    day: u32,
    hour: u32,
    minute: u32,
    second: u32,
) -> (r: String)
    requires
        fmt@ == datetime_format(),
        valid_datetime(year as int, month as int, day as int, hour as int, minute as int, second as int),
    ensures
        r@ == datetime_text(year as nat, month as nat, day as nat, hour as nat, minute as nat, second as nat),
{
    let date = chrono::NaiveDate::from_ymd_opt(year, month, day).unwrap();
    date.and_hms_opt(hour, minute, second).unwrap().format(fmt).to_string()
}

/// Relies on chrono's `NaiveDateTime::parse_from_str` under the format
/// `%Y-%m-%d %H:%M:%S`, reading back the fields of the parsed date-time; a
/// parse error becomes `None`.
#[verifier::external_body]
fn parse_datetime(s: &str, fmt: &str) -> (r: Option<(i32, u32, u32, u32, u32, u32, u32)>)
    requires
        fmt@ == datetime_format(),
    ensures
        r == parsed_datetime(s@),
{
    match chrono::NaiveDateTime::parse_from_str(s, fmt) {
        Ok(t) => Some((
            chrono::Datelike::year(&t),
            chrono::Datelike::month(&t),
            chrono::Datelike::day(&t),
            chrono::Timelike::hour(&t),
            chrono::Timelike::minute(&t),
            chrono::Timelike::second(&t),
            chrono::Timelike::nanosecond(&t),
        )),
        Err(_) => None,
    }
}

/// A date and time of day without a time zone, stored as text.
#[derive(PartialEq, Eq, Structural, Copy, Clone, Debug)]
pub struct DateTime {
    year: i32,
    month: u32,
    day: u32,
    hour: u32,
    minute: u32,
    second: u32,
}

impl DateTime {
    #[verifier::type_invariant]
    spec fn wf(&self) -> bool {
        valid_datetime(
            self.year as int,
            self.month as int,
            self.day as int,
            self.hour as int,
            self.minute as int,
            self.second as int,
        )
    }

    pub closed spec fn fields(&self) -> (int, int, int, int, int, int) {
        (
            self.year as int,
            self.month as int,
            self.day as int,
            self.hour as int,
            self.minute as int,
            self.second as int,
        )
    }

    /// The date-time with these fields, or `None` when they name no valid
    /// calendar date and time with a four-digit year.
    pub fn new(year: i32, month: u32, day: u32, hour: u32, minute: u32, second: u32) -> (r: Option<
        DateTime,
    >)
        ensures
            valid_datetime(year as int, month as int, day as int, hour as int, minute as int, second as int)
                <==> r.is_some(),
            r matches Some(d) ==> d.fields() == (
                year as int,
                month as int,
                day as int,
                hour as int,
                minute as int,
                second as int,
            ),
    {
        if year < 0 || year > 9999 || month < 1 || month > 12 || hour >= 24 || minute >= 60 || second
            >= 60 || day < 1 {
            return None;
        }
        let leap = (year % 4 == 0 && year % 100 != 0) || year % 400 == 0;
        let days: u32 = if month == 2 {
            if leap { 29 } else { 28 }
        } else if month == 4 || month == 6 || month == 9 || month == 11 {
            30
        } else {
            31
        };
        if day > days {
            return None;
        }
        Some(DateTime { year, month, day, hour, minute, second })
    }

    pub fn year(&self) -> (r: i32)
        ensures r as int == self.fields().0,
    {
        self.year
    }

    pub fn month(&self) -> (r: u32)
        ensures r as int == self.fields().1,
    {
        self.month
    }

    pub fn day(&self) -> (r: u32)
        ensures r as int == self.fields().2,
    {
        self.day
    }

    pub fn hour(&self) -> (r: u32)
        ensures r as int == self.fields().3,
    {
        self.hour
    }

    pub fn minute(&self) -> (r: u32)
        ensures r as int == self.fields().4,
    {
        self.minute
    }

    pub fn second(&self) -> (r: u32)
        ensures r as int == self.fields().5,
    {
        self.second
    }

    /// The `YYYY-MM-DD HH:MM:SS` text of this date-time.
    pub fn to_text(&self) -> (r: String)
        ensures
            r@ == self.text(),
    {
        proof {
            use_type_invariant(self);
        }
        let fmt = "%Y-%m-%d %H:%M:%S";
        proof {
            reveal_strlit("%Y-%m-%d %H:%M:%S");
            assert(fmt@ =~= datetime_format());
        }
        format_datetime(fmt, self.year, self.month, self.day, self.hour, self.minute, self.second)
    }

    pub closed spec fn text(&self) -> Seq<char> {
        datetime_text(
            self.year as nat,
            self.month as nat,
            self.day as nat,
            self.hour as nat,
            self.minute as nat,
            self.second as nat,
        )
    }

    /// Reads a date-time back from its text form; text that chrono does not
    /// parse, or parses to a leap second or a year outside 0 to 9999, gives
    /// `None`.
    pub fn parse(s: &str) -> (r: Option<DateTime>)
        ensures
            match parsed_datetime(s@) {
                Some(t) => if parsed_fields_ok(t) {
                    r matches Some(d) && d.fields() == parsed_fields(t)
                } else {
                    r.is_none()
                },
                None => r.is_none(),
            },
    {
        let fmt = "%Y-%m-%d %H:%M:%S";
        proof {
            reveal_strlit("%Y-%m-%d %H:%M:%S");
            assert(fmt@ =~= datetime_format());
        }
        match parse_datetime(s, fmt) {
            Some(t) => if t.6 == 0 {
                DateTime::new(t.0, t.1, t.2, t.3, t.4, t.5)
            } else {
                None
            },
            None => None,
        }
    }
}

/// The model of an optional column value.
pub open spec fn entry_view(e: Option<Value>) -> Option<ValueView> {
    match e {
        Some(v) => Some(v@),
        None => None,
    }
}

/// One decoded result row: each column name, unique within the row, maps to
/// its value, or to `None` where the column held SQL NULL.
pub struct Row {
    entries: Vec<(String, Option<Value>)>,
    model: Ghost<Map<Seq<char>, Option<ValueView>>>,
}

impl View for Row {
    type V = Map<Seq<char>, Option<ValueView>>;

    closed spec fn view(&self) -> Map<Seq<char>, Option<ValueView>> {
        self.model@
    }
}

impl Row {
    #[verifier::type_invariant]
    spec fn wf(&self) -> bool {
        &&& forall|i: int, j: int|
            0 <= i < j < self.entries@.len() ==> #[trigger] self.entries@[i].0@
                != #[trigger] self.entries@[j].0@
        &&& forall|i: int|
            0 <= i < self.entries@.len() ==> #[trigger] self.model@.contains_key(
                self.entries@[i].0@,
            ) && self.model@[self.entries@[i].0@] == entry_view(self.entries@[i].1)
        &&& forall|k: Seq<char>|
            #[trigger] self.model@.contains_key(k) ==> exists|i: int|
                0 <= i < self.entries@.len() && #[trigger] self.entries@[i].0@ == k
    }

    pub fn new() -> (r: Row)
        ensures
            r@ == Map::<Seq<char>, Option<ValueView>>::empty(),
    {
        Row { entries: Vec::new(), model: Ghost(Map::empty()) }
    }

    /// The number of columns in the row.
    pub fn len(&self) -> (r: usize)
        ensures
            r == self@.len(),
    {
        proof {
            use_type_invariant(self);
            self.lemma_len();
        }
        self.entries.len()
    }

    pub fn is_empty(&self) -> (r: bool)
        ensures
            r == (self@.len() == 0),
    {
        self.len() == 0
    }

    proof fn lemma_len(&self)
        requires
            self.wf(),
        ensures
            self.model@.dom().finite(),
            self.model@.len() == self.entries@.len(),
    {
        let names = Seq::new(self.entries@.len(), |i: int| self.entries@[i].0@);
        assert(names.no_duplicates());
        names.unique_seq_to_set();
        assert(names.to_set() =~= self.model@.dom()) by {
            assert forall|k: Seq<char>| names.to_set().contains(k) implies self.model@.dom().contains(k) by {
                let i = choose|i: int| 0 <= i < names.len() && names[i] == k;
                assert(self.model@.contains_key(self.entries@[i].0@));
            }
            assert forall|k: Seq<char>| self.model@.dom().contains(k) implies names.to_set().contains(k) by {
                let i = choose|i: int| 0 <= i < self.entries@.len() && #[trigger] self.entries@[i].0@ == k;
                assert(names[i] == k);
            }
        }
    }

    /// Index of the entry named `key`, if any.
    fn position(&self, key: &String) -> (r: Option<usize>)
        ensures
            match r {
                Some(i) => i < self.entries@.len() && self.entries@[i as int].0@ == key@,
                None => !self@.contains_key(key@),
            },
    {
        proof {
            use_type_invariant(self);
        }
        let mut i: usize = 0;
        while i < self.entries.len()
            invariant
                self.wf(),
                i <= self.entries@.len(),
                forall|j: int| 0 <= j < i ==> self.entries@[j].0@ != key@,
            decreases self.entries@.len() - i,
        {
            if self.entries[i].0 == *key {
                return Some(i);
            }
            i = i + 1;
        }
        None
    }

    /// Sets the entry for column `name`, replacing an earlier one of that name.
    pub fn insert(&mut self, name: String, value: Option<Value>)
        ensures
            final(self)@ == old(self)@.insert(name@, entry_view(value)),
    {
        proof {
            use_type_invariant(&*self);
        }
        let ghost m = self.model@.insert(name@, entry_view(value));
        let mut row = Row::new();
        std::mem::swap(self, &mut row);
        proof {
            use_type_invariant(&row);
        }
        let pos = row.position(&name);
        let mut entries = row.entries;
        let ghost old_entries = entries@;
        match pos {
            Some(i) => {
                entries.set(i, (name, value));
                assert forall|j: int| 0 <= j < entries@.len() implies #[trigger] m.contains_key(
                    entries@[j].0@,
                ) && m[entries@[j].0@] == entry_view(entries@[j].1) by {
                    if j != i {
                        assert(old_entries[j] == entries@[j]);
                        if j < i {
                            assert(old_entries[j].0@ != old_entries[i as int].0@);
                        } else {
                            assert(old_entries[i as int].0@ != old_entries[j].0@);
                        }
                    }
                }
                assert forall|k: Seq<char>| #[trigger] m.contains_key(k) implies exists|j: int|
                    0 <= j < entries@.len() && #[trigger] entries@[j].0@ == k by {
                    if k != entries@[i as int].0@ {
                        let j = choose|j: int| 0 <= j < old_entries.len() && #[trigger] old_entries[j].0@ == k;
                        assert(entries@[j] == old_entries[j]);
                    }
                }
                assert forall|a: int, b: int| 0 <= a < b < entries@.len() implies #[trigger] entries@[a].0@
                    != #[trigger] entries@[b].0@ by {
                    assert(old_entries[a].0@ != old_entries[b].0@);
                }
            },
            None => {
                entries.push((name, value));
                assert forall|k: Seq<char>| #[trigger] m.contains_key(k) implies exists|j: int|
                    0 <= j < entries@.len() && #[trigger] entries@[j].0@ == k by {
                    if k != entries@.last().0@ {
                        let j = choose|j: int| 0 <= j < old_entries.len() && #[trigger] old_entries[j].0@ == k;
                        assert(entries@[j] == old_entries[j]);
                    } else {
                        assert(entries@[entries@.len() - 1].0@ == k);
                    }
                }
                assert forall|j: int| 0 <= j < entries@.len() implies #[trigger] m.contains_key(
                    entries@[j].0@,
                ) && m[entries@[j].0@] == entry_view(entries@[j].1) by {
                    if j < old_entries.len() {
                        assert(entries@[j] == old_entries[j]);
                    }
                }
                assert forall|a: int, b: int| 0 <= a < b < entries@.len() implies #[trigger] entries@[a].0@
                    != #[trigger] entries@[b].0@ by {
                    if b < old_entries.len() {
                        assert(old_entries[a].0@ != old_entries[b].0@);
                    } else {
                        assert(entries@[a] == old_entries[a]);
                    }
                }
            },
        }
        *self = Row { entries, model: Ghost(m) };
    }

    /// The entry of column `name`: `None` when the row has no such column,
    /// `Some(None)` when the column held SQL NULL.
    pub fn get(&self, name: &str) -> (r: Option<&Option<Value>>)
        ensures
            match r {
                Some(e) => self@.contains_key(name@) && self@[name@] == entry_view(*e),
                None => !self@.contains_key(name@),
            },
    {
        proof {
            use_type_invariant(self);
        }
        let key = name.to_owned();
        match self.position(&key) {
            Some(i) => Some(&self.entries[i].1),
            None => None,
        }
    }
}

} // verus!
