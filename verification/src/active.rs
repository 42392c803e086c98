//! A column value on its way to the datastore.

use vstd::prelude::*;

verus! {

/// What a write does to one column.
#[derive(Clone, Debug, PartialEq, Eq)]
pub enum ActiveValue<V> {
    /// The column is written with this value.
    Assign(V),
    /// The column holds this value and is not written.
    Keep(V),
    /// The column is left to the datastore.
    Omit,
}

impl<V> ActiveValue<V> {
    /// The value of the column after the write, where it held `stored`
    /// before (for a new row: what the datastore fills in).
    pub open spec fn over(self, stored: V) -> V {
        match self {
            ActiveValue::Assign(v) => v,
            ActiveValue::Keep(v) => v,
            ActiveValue::Omit => stored,
        }
    }

    /// Carries out the write on a column that holds `stored`.
    pub fn write_over(self, stored: V) -> (r: V)
        ensures
            r == self.over(stored),
    {
        match self {
            ActiveValue::Assign(v) => v,
            ActiveValue::Keep(v) => v,
            ActiveValue::Omit => stored,
        }
    }
}

} // verus!
