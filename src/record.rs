//! The client's local record of what it uploaded and where it now lives.
use crate::timestamp::{local_now, CalendarTime};
use vstd::prelude::*;

verus! {

/// One uploaded file: when, under what name, and its public URL.
#[derive(Clone, Debug)]
pub struct Record {
    pub time: String,
    pub original_file_name: String,
    pub url_location: String,
}

/// The text of a record, field by field.
pub open spec fn record_view(r: Record) -> (Seq<char>, Seq<char>, Seq<char>) {
    (r.time@, r.original_file_name@, r.url_location@)
}

pub open spec fn record_views(rs: Seq<Record>) -> Seq<(Seq<char>, Seq<char>, Seq<char>)> {
    rs.map_values(|r: Record| record_view(r))
}

/// Every record kept, oldest first.
#[derive(Clone, Debug)]
pub struct Records {
    pub records: Vec<Record>,
}

/// The store after appending `rs` one by one to `store`.
pub open spec fn append_all(store: Seq<Record>, rs: Seq<Record>) -> Seq<Record>
    decreases rs.len(),
{
    if rs.len() == 0 {
        store
    } else {
        append_all(store, rs.drop_last()).push(rs.last())
    }
}

impl Records {
    /// A store with no records.
    pub fn new() -> (r: Records)
        ensures
            r.records@.len() == 0,
    {
        Records { records: Vec::new() }
    }
}

/// Appends one record at the end of the store; earlier records are untouched.
pub fn create_record(store: &mut Records, record: Record)
    ensures
        final(store).records@ == old(store).records@.push(record),
{
    store.records.push(record);
}

/// The record of a file named `name` that now lives at `url`, stamped `when`.
pub fn record_for(when: &CalendarTime, name: &str, url: &str) -> (r: Record)
    ensures
        r.time@ == when.stamp_spec(),
        r.original_file_name@ == name@,
        r.url_location@ == url@,
{
    Record { time: when.stamp(), original_file_name: name.to_owned(), url_location: url.to_owned() }
}

/// The record of a file named `name` that now lives at `url`, stamped with
/// the local time now.
pub fn record_now(name: &str, url: &str) -> (r: Record)
    ensures
        exists|t: CalendarTime| t.wf() && r.time@ == #[trigger] t.stamp_spec(),
        r.original_file_name@ == name@,
        r.url_location@ == url@,
{
    let now = local_now();
    record_for(&now, name, url)
}

/// Appending records one by one to an empty store gives back exactly those
/// records, in the order they were appended, each unchanged.
pub proof fn lemma_append_round_trip(rs: Seq<Record>)
    ensures
        append_all(Seq::empty(), rs) == rs,
        append_all(Seq::empty(), rs).len() == rs.len(),
        forall|i: int|
            0 <= i < rs.len() ==> record_view(#[trigger] append_all(Seq::empty(), rs)[i])
                == record_view(rs[i]),
    decreases rs.len(),
{
    if rs.len() > 0 {
        lemma_append_round_trip(rs.drop_last());
        assert(rs.drop_last().push(rs.last()) =~= rs);
    }
}

} // verus!
