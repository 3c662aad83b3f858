use vstd::prelude::*;

verus! {

/// How the object store of events is laid out: an event is identified by its
/// aggregate type, aggregate id and sequence number, so that a second event
/// with the same three is refused, and events are indexed by aggregate id.
/// Keys come from the events themselves: IndexedDB generates none for a key
/// path of several fields.
pub struct StoreSchema {
    pub store_name: String,
    pub key_path: Vec<String>,
    pub index_name: String,
    pub index_key: String,
}

/// The store of events that an upgrade of the database creates.
pub fn events_store_schema() -> (schema: StoreSchema)
    ensures
        schema.store_name@ == "events"@,
        schema.key_path@.len() == 3,
        schema.key_path@[0]@ == "aggregate_type"@,
        schema.key_path@[1]@ == "aggregate_id"@,
        schema.key_path@[2]@ == "sequence"@,
        schema.index_name@ == "aggregate_id"@,
        schema.index_key@ == "aggregate_id"@,
{
    let mut key_path: Vec<String> = Vec::new();
    key_path.push("aggregate_type".to_owned());
    key_path.push("aggregate_id".to_owned());
    key_path.push("sequence".to_owned());
    StoreSchema {
        store_name: "events".to_owned(),
        key_path,
        index_name: "aggregate_id".to_owned(),
        index_key: "aggregate_id".to_owned(),
    }
}

} // verus!
