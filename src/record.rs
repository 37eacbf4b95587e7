use vstd::prelude::*;
use vstd::string::StringExecFns;

use crate::measurement::canonical_name;
use crate::payload::{DataPoint, Measurement, Response};
use crate::time::UtcInstant;

verus! {

/// A numeric field of a write: its name and the IEEE-754 bit pattern of its
/// value.
#[derive(Clone, Debug)]
pub struct Field {
    pub name: String,
    pub value: u64,
}

/// A tag of a write.
#[derive(Clone, Debug)]
pub struct Tag {
    pub key: String,
    pub value: String,
}

/// One point to write to the time-series database.
#[derive(Clone, Debug)]
pub struct WriteRecord {
    pub measurement: String,
    pub timestamp: UtcInstant,
    pub tags: Vec<Tag>,
    pub fields: Vec<Field>,
}

pub open spec fn measurement_name() -> Seq<char> {
    seq!['a', 'w', 'a', 'i', 'r']
}

pub open spec fn score_name() -> Seq<char> {
    seq!['s', 'c', 'o', 'r', 'e']
}

pub open spec fn device_id_key() -> Seq<char> {
    seq!['d', 'e', 'v', 'i', 'c', 'e', '_', 'i', 'd']
}

pub open spec fn sensor_suffix() -> Seq<char> {
    seq!['.', 's', 'e', 'n', 's', 'o', 'r']
}

pub open spec fn index_suffix() -> Seq<char> {
    seq!['.', 'i', 'n', 'd', 'e', 'x']
}

pub open spec fn field_entry(m: Measurement, suffix: Seq<char>) -> (Seq<char>, u64) {
    (canonical_name(m.kind) + suffix, m.value)
}

pub open spec fn bucket_entries(ms: Seq<Measurement>, suffix: Seq<char>) -> Seq<(Seq<char>, u64)> {
    ms.map_values(|m: Measurement| field_entry(m, suffix))
}

/// The fields of the record for `d`: the score, then each sensor reading,
/// then each index reading, in order.
pub open spec fn expected_fields(d: DataPoint) -> Seq<(Seq<char>, u64)> {
    seq![(score_name(), d.score)] + bucket_entries(d.sensors@, sensor_suffix()) + bucket_entries(
        d.indices@,
        index_suffix(),
    )
}

pub open spec fn fields_view(fs: Seq<Field>) -> Seq<(Seq<char>, u64)> {
    fs.map_values(|f: Field| (f.name@, f.value))
}

pub open spec fn tags_view(ts: Seq<Tag>) -> Seq<(Seq<char>, Seq<char>)> {
    ts.map_values(|t: Tag| (t.key@, t.value@))
}

/// Whether `r` is the record that `d` becomes for the device `device_id`.
pub open spec fn is_record_for(r: WriteRecord, d: DataPoint, device_id: Seq<char>) -> bool {
    &&& r.measurement@ == measurement_name()
    &&& r.timestamp == d.timestamp
    &&& tags_view(r.tags@) == seq![(device_id_key(), device_id)]
    &&& fields_view(r.fields@) == expected_fields(d)
}

fn push_bucket(out: &mut Vec<Field>, ms: &Vec<Measurement>, suffix: &str)
    ensures
        fields_view(final(out)@) == fields_view(old(out)@) + bucket_entries(ms@, suffix@),
{
    let ghost start = fields_view(out@);
    let mut i: usize = 0;
    while i < ms.len()
        invariant
            0 <= i <= ms@.len(),
            fields_view(out@) == start + bucket_entries(ms@.subrange(0, i as int), suffix@),
        decreases ms@.len() - i,
    {
        let m = ms[i];
        let name = String::from_str(m.kind.field_name()).concat(suffix);
        let ghost before = out@;
        out.push(Field { name, value: m.value });
        assert(out@ == before.push(Field { name, value: m.value }));
        assert(fields_view(out@) =~= fields_view(before).push((name@, m.value)));
        assert(ms@.subrange(0, i + 1) =~= ms@.subrange(0, i as int).push(m));
        assert(bucket_entries(ms@.subrange(0, i + 1), suffix@) =~= bucket_entries(
            ms@.subrange(0, i as int),
            suffix@,
        ).push(field_entry(m, suffix@)));
        i = i + 1;
    }
    assert(ms@.subrange(0, ms@.len() as int) =~= ms@);
}

/// Turns a data point into the record written for it: measurement `awair`,
/// the point's instant, the tag `device_id`, and one field for the score and
/// for each reading, named `<field name>.sensor` or `<field name>.index`.
pub fn transform(d: &DataPoint, device_id: &str) -> (r: WriteRecord)
    ensures
        is_record_for(r, *d, device_id@),
{
    proof {
        reveal_strlit("awair");
        reveal_strlit("score");
        reveal_strlit("device_id");
        reveal_strlit(".sensor");
        reveal_strlit(".index");
    }
    let measurement = String::from_str("awair");
    assert(measurement@ =~= measurement_name());
    let mut fields: Vec<Field> = Vec::new();
    let score = String::from_str("score");
    assert(score@ =~= score_name());
    fields.push(Field { name: score, value: d.score });
    assert(fields_view(fields@) =~= seq![(score_name(), d.score)]);
    assert(".sensor"@ =~= sensor_suffix());
    assert(".index"@ =~= index_suffix());
    push_bucket(&mut fields, &d.sensors, ".sensor");
    push_bucket(&mut fields, &d.indices, ".index");
    let key = String::from_str("device_id");
    assert(key@ =~= device_id_key());
    let mut tags: Vec<Tag> = Vec::new();
    tags.push(Tag { key, value: String::from_str(device_id) });
    assert(tags_view(tags@) =~= seq![(device_id_key(), device_id@)]);
    WriteRecord { measurement, timestamp: d.timestamp, tags, fields }
}

/// One record per data point, in the payload's order.
pub fn transform_all(resp: &Response, device_id: &str) -> (r: Vec<WriteRecord>)
    ensures
        r@.len() == resp.data@.len(),
        forall|i: int|
            0 <= i < r@.len() ==> is_record_for(#[trigger] r@[i], resp.data@[i], device_id@),
{
    let mut out: Vec<WriteRecord> = Vec::new();
    let mut i: usize = 0;
    while i < resp.data.len()
        invariant
            0 <= i <= resp.data@.len(),
            out@.len() == i,
            forall|j: int|
                0 <= j < i ==> is_record_for(#[trigger] out@[j], resp.data@[j], device_id@),
        decreases resp.data@.len() - i,
    {
        out.push(transform(&resp.data[i], device_id));
        i = i + 1;
    }
    out
}

/// A record has one field for the score and one per reading: `1 + N + M`
/// fields for `N` sensor and `M` index readings, the first being the score.
pub proof fn lemma_field_count(r: WriteRecord, d: DataPoint, device_id: Seq<char>)
    requires
        is_record_for(r, d, device_id),
    ensures
        r.fields@.len() == 1 + d.sensors@.len() + d.indices@.len(),
        r.fields@[0].name@ == score_name(),
        r.fields@[0].value == d.score,
{
    assert(fields_view(r.fields@).len() == r.fields@.len());
    assert(fields_view(r.fields@)[0] == (r.fields@[0].name@, r.fields@[0].value));
}

} // verus!
