//! The record definitions that are exported.

use vstd::prelude::*;
use crate::record::{RecordDefinition, RecordView, distinct_names, record_views};
use crate::user::{User, user_record};

verus! {

/// The known record definitions, in the order in which they are exported.
pub open spec fn known_record_views() -> Seq<RecordView> {
    seq![user_record()]
}

/// The known record definitions, in the order in which they are exported.
pub fn known_records() -> (records: Vec<RecordDefinition>)
    ensures
        record_views(records@) == known_record_views(),
{
    let mut records: Vec<RecordDefinition> = Vec::new();
    records.push(User::definition());
    assert(record_views(records@) =~= known_record_views());
    records
}

/// No two of the known record definitions share a name.
pub proof fn lemma_known_records_distinct()
    ensures
        distinct_names(known_record_views()),
{
}

} // verus!
