use vstd::prelude::*;
use crate::value::{Value, ValueConvertible, ValueView};

verus! {

/// The ordered parameters of one query: the value at index `i` is bound to
/// placeholder `i + 1`. Values are only ever appended.
#[derive(Debug)]
pub struct Store(Vec<Value>);

impl View for Store {
    type V = Seq<ValueView>;

    closed spec fn view(&self) -> Seq<ValueView> {
        self.0@.map_values(|v: Value| v@)
    }
}

impl Store {
    pub fn new() -> (r: Store)
        ensures
            r@ == Seq::<ValueView>::empty(),
    {
        let r = Store(Vec::new());
        assert(r@ =~= Seq::<ValueView>::empty());
        r
    }

    pub fn with_capacity(capacity: usize) -> (r: Store)
        ensures
            r@ == Seq::<ValueView>::empty(),
    {
        let r = Store(Vec::with_capacity(capacity));
        assert(r@ =~= Seq::<ValueView>::empty());
        r
    }

    /// Appends the value form of `data`, for chained construction.
    pub fn add<T: ValueConvertible>(self, data: T) -> (r: Store)
        ensures
            r@ == self@.push(data.value_spec()),
    {
        let mut s = self;
        let v = data.to_value();
        s.0.push(v);
        assert(s@ =~= self@.push(data.value_spec()));
        s
    }

    /// Appends a value that is already built.
    pub fn add_value(self, v: Value) -> (r: Store)
        ensures
            r@ == self@.push(v@),
    {
        let mut s = self;
        let ghost w = v@;
        s.0.push(v);
        assert(s@ =~= self@.push(w));
        s
    }

    pub fn is_empty(&self) -> (r: bool)
        ensures
            r == (self@.len() == 0),
    {
        self.0.len() == 0
    }

    pub fn len(&self) -> (r: usize)
        ensures
            r == self@.len(),
    {
        self.0.len()
    }

    /// The value bound to placeholder `i + 1`.
    pub fn get(&self, i: usize) -> (r: &Value)
        requires
            i < self@.len(),
        ensures
            r@ == self@[i as int],
    {
        &self.0[i]
    }

    /// The values in binding order.
    pub fn values(&self) -> (r: &[Value])
        ensures
            r@.map_values(|v: Value| v@) == self@,
    {
        self.0.as_slice()
    }
}

} // verus!
