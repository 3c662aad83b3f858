use std::marker::PhantomData;
use vstd::prelude::*;

verus! {

/// A repository of views of type `V` on aggregates of type `A`, with the
/// statements that insert, update and select a serialized view.
pub struct IndexDbViewRepository<V, A> {
    insert_sql: String,
    update_sql: String,
    select_sql: String,
    _phantom: PhantomData<(V, A)>,
}

} // verus!
