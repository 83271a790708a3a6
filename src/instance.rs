use vstd::prelude::*;
use crate::text::{contains_str, has_substring, lower_of, lowercase};

verus! {

/// One compute instance as listed in the catalog.
#[derive(Debug)]
pub struct Data {
    pub name: String,
    pub instance_id: String,
    pub ami_id: String,
    pub key_group: String,
    pub public_ipv4: String,
    pub private_ipv4: String,
    pub status: String,
}

/// The text fields of an instance record.
pub struct RecordView {
    pub name: Seq<char>,
    pub instance_id: Seq<char>,
    pub ami_id: Seq<char>,
    pub key_group: Seq<char>,
    pub public_ipv4: Seq<char>,
    pub private_ipv4: Seq<char>,
    pub status: Seq<char>,
}

impl View for Data {
    type V = RecordView;

    open spec fn view(&self) -> RecordView {
        RecordView {
            name: self.name@,
            instance_id: self.instance_id@,
            ami_id: self.ami_id@,
            key_group: self.key_group@,
            public_ipv4: self.public_ipv4@,
            private_ipv4: self.private_ipv4@,
            status: self.status@,
        }
    }
}

/// The records of a list of instances.
pub open spec fn records_view(v: Seq<Data>) -> Seq<RecordView> {
    v.map_values(|d: Data| d@)
}

/// `field`, lower-cased, holds the lower-cased query `lq`.
pub open spec fn field_matches(field: Seq<char>, lq: Seq<char>) -> bool {
    has_substring(lower_of(field), lq)
}

/// Some text field of the record holds the lower-cased query `lq`.
pub open spec fn record_matches(r: RecordView, lq: Seq<char>) -> bool {
    ||| field_matches(r.name, lq)
    ||| field_matches(r.instance_id, lq)
    ||| field_matches(r.ami_id, lq)
    ||| field_matches(r.key_group, lq)
    ||| field_matches(r.public_ipv4, lq)
    ||| field_matches(r.private_ipv4, lq)
    ||| field_matches(r.status, lq)
}

/// The records of `full` shown for `query`: all of them for an empty query,
/// otherwise those that match it without regard to case, in their order.
pub open spec fn filter_records(full: Seq<RecordView>, query: Seq<char>) -> Seq<RecordView> {
    if query.len() == 0 {
        full
    } else {
        full.filter(|r: RecordView| record_matches(r, lower_of(query)))
    }
}

/// Applying a query never shows more records than the catalog holds, and
/// clearing the query shows the whole catalog in its order again, whatever
/// query was shown before: the records shown depend on the catalog and the
/// current query alone.
pub proof fn lemma_clear_filter_restores(full: Seq<RecordView>, query: Seq<char>)
    ensures
        filter_records(full, query).len() <= full.len(),
        filter_records(full, Seq::<char>::empty()) == full,
{
    if query.len() > 0 {
        full.lemma_filter_len(|r: RecordView| record_matches(r, lower_of(query)));
    }
}

impl Data {
    /// The fields in the order of the instance table's columns: name, status,
    /// private address, key group, image, public address, instance id.
    pub fn ref_array(&self) -> (r: [&String; 7])
        ensures
            r[0]@ == self.name@,
            r[1]@ == self.status@,
            r[2]@ == self.private_ipv4@,
            r[3]@ == self.key_group@,
            r[4]@ == self.ami_id@,
            r[5]@ == self.public_ipv4@,
            r[6]@ == self.instance_id@,
    {
        [
            &self.name,
            &self.status,
            &self.private_ipv4,
            &self.key_group,
            &self.ami_id,
            &self.public_ipv4,
            &self.instance_id,
        ]
    }

    /// A copy of the record with the same fields.
    pub fn duplicate(&self) -> (r: Data)
        ensures
            r@ == self@,
    {
        Data {
            name: self.name.clone(),
            instance_id: self.instance_id.clone(),
            ami_id: self.ami_id.clone(),
            key_group: self.key_group.clone(),
            public_ipv4: self.public_ipv4.clone(),
            private_ipv4: self.private_ipv4.clone(),
            status: self.status.clone(),
        }
    }

    /// Whether some field of the record, lower-cased, holds `lowered_query`,
    /// a query that was already lower-cased.
    pub fn matches_lowered(&self, lowered_query: &str) -> (r: bool)
        ensures
            r == record_matches(self@, lowered_query@),
    {
        let mut fields: Vec<String> = Vec::new();
        fields.push(lowercase(&self.name));
        fields.push(lowercase(&self.instance_id));
        fields.push(lowercase(&self.ami_id));
        fields.push(lowercase(&self.key_group));
        fields.push(lowercase(&self.public_ipv4));
        fields.push(lowercase(&self.private_ipv4));
        fields.push(lowercase(&self.status));
        let r = any_field_holds(&fields, lowered_query);
        proof {
            let lq = lowered_query@;
            if record_matches(self@, lq) {
                if field_matches(self@.name, lq) {
                    assert(has_substring(fields@[0]@, lq));
                } else if field_matches(self@.instance_id, lq) {
                    assert(has_substring(fields@[1]@, lq));
                } else if field_matches(self@.ami_id, lq) {
                    assert(has_substring(fields@[2]@, lq));
                } else if field_matches(self@.key_group, lq) {
                    assert(has_substring(fields@[3]@, lq));
                } else if field_matches(self@.public_ipv4, lq) {
                    assert(has_substring(fields@[4]@, lq));
                } else if field_matches(self@.private_ipv4, lq) {
                    assert(has_substring(fields@[5]@, lq));
                } else {
                    assert(has_substring(fields@[6]@, lq));
                }
            }
        }
        r
    }
}

/// Whether some string of `fields` holds `query` as a substring.
pub fn any_field_holds(fields: &Vec<String>, query: &str) -> (r: bool)
    ensures
        r == exists|i: int| 0 <= i < fields@.len() && has_substring(#[trigger] fields@[i]@, query@),
{
    let mut i: usize = 0;
    while i < fields.len()
        invariant
            i <= fields@.len(),
            forall|j: int| 0 <= j < i ==> !has_substring(#[trigger] fields@[j]@, query@),
        decreases fields@.len() - i,
    {
        if contains_str(fields[i].as_str(), query) {
            return true;
        }
        i = i + 1;
    }
    false
}

/// Copies of the records of `items` that match `lowered_query`, an already
/// lower-cased query, in their order.
pub fn filter_lowered(items: &Vec<Data>, lowered_query: &str) -> (r: Vec<Data>)
    ensures
        records_view(r@) == records_view(items@).filter(
            |rec: RecordView| record_matches(rec, lowered_query@),
        ),
{
    let ghost pred = |rec: RecordView| record_matches(rec, lowered_query@);
    let ghost full = records_view(items@);
    let mut out: Vec<Data> = Vec::new();
    let mut i: usize = 0;
    while i < items.len()
        invariant
            i <= items@.len(),
            full == records_view(items@),
            pred == (|rec: RecordView| record_matches(rec, lowered_query@)),
            records_view(out@) == full.subrange(0, i as int).filter(pred),
        decreases items@.len() - i,
    {
        let ghost before = out@;
        let ghost prefix = full.subrange(0, i as int + 1);
        proof {
            reveal(Seq::filter);
            assert(prefix.drop_last() =~= full.subrange(0, i as int));
            assert(prefix.last() == items@[i as int]@);
        }
        if items[i].matches_lowered(lowered_query) {
            out.push(items[i].duplicate());
            proof {
                assert(records_view(out@) =~= records_view(before).push(items@[i as int]@));
            }
        } else {
            proof {
                assert(records_view(out@) =~= records_view(before));
            }
        }
        i = i + 1;
    }
    proof {
        assert(full.subrange(0, items@.len() as int) =~= full);
    }
    out
}

/// Copies of all records of `items`, in their order.
pub fn copy_all(items: &Vec<Data>) -> (r: Vec<Data>)
    ensures
        records_view(r@) == records_view(items@),
{
    let mut out: Vec<Data> = Vec::new();
    let mut i: usize = 0;
    while i < items.len()
        invariant
            i <= items@.len(),
            records_view(out@) =~= records_view(items@).subrange(0, i as int),
        decreases items@.len() - i,
    {
        let ghost before = out@;
        out.push(items[i].duplicate());
        proof {
            assert(records_view(out@) =~= records_view(before).push(items@[i as int]@));
        }
        i = i + 1;
    }
    out
}

/// The records shown for `query`: every record when the query is empty,
/// otherwise those with a field that holds the query, without regard to case.
pub fn filter_items(items: &Vec<Data>, query: &str) -> (r: Vec<Data>)
    ensures
        records_view(r@) == filter_records(records_view(items@), query@),
{
    if query.is_empty() {
        copy_all(items)
    } else {
        let lowered = lowercase(query);
        filter_lowered(items, lowered.as_str())
    }
}

} // verus!
