use vstd::prelude::*;

use crate::measurement::{kind_of_wire, MeasurementType};
use crate::time::{parse_utc, utc_instant_of, UtcInstant};

verus! {

/// One reading as the payload delivers it: the quantity's wire name and the
/// IEEE-754 bit pattern of its value.
#[derive(Clone, Debug)]
pub struct RawMeasurement {
    pub comp: String,
    pub value: u64,
}

/// One data point as the payload delivers it, before its names and its
/// timestamp are checked. Numbers are IEEE-754 bit patterns.
#[derive(Clone, Debug)]
pub struct RawDataPoint {
    pub timestamp: String,
    pub score: u64,
    pub sensors: Vec<RawMeasurement>,
    pub indices: Vec<RawMeasurement>,
}

/// The payload's `data` array, in the order of the source.
#[derive(Clone, Debug)]
pub struct RawResponse {
    pub data: Vec<RawDataPoint>,
}

/// A reading of a known quantity; `value` is an IEEE-754 bit pattern and is
/// passed on unchanged.
#[derive(Clone, Copy, Debug, PartialEq, Eq, Structural)]
pub struct Measurement {
    pub kind: MeasurementType,
    pub value: u64,
}

/// A decoded data point: its instant, its score (IEEE-754 bit pattern) and
/// its two buckets of readings, each in the order of the source.
#[derive(Clone, Debug)]
pub struct DataPoint {
    pub timestamp: UtcInstant,
    pub score: u64,
    pub sensors: Vec<Measurement>,
    pub indices: Vec<Measurement>,
}

/// The decoded payload.
#[derive(Clone, Debug)]
pub struct Response {
    pub data: Vec<DataPoint>,
}

/// Why a payload could not be decoded.
#[derive(Clone, Debug, PartialEq, Eq)]
pub enum DecodeError {
    /// A reading names a quantity that is not one of the known ones.
    UnknownKind { comp: String },
    /// A data point's timestamp is not a valid instant.
    InvalidTimestamp { text: String },
    /// The body is not the expected JSON structure.
    Malformed { message: String },
}

pub open spec fn measurement_decodes(m: RawMeasurement) -> bool {
    kind_of_wire(m.comp@) is Some
}

pub open spec fn decoded_measurement(m: RawMeasurement) -> Measurement {
    Measurement { kind: kind_of_wire(m.comp@).unwrap(), value: m.value }
}

pub open spec fn all_decode(ms: Seq<RawMeasurement>) -> bool {
    forall|i: int| 0 <= i < ms.len() ==> measurement_decodes(#[trigger] ms[i])
}

pub open spec fn decoded_measurements(ms: Seq<RawMeasurement>) -> Seq<Measurement> {
    ms.map_values(|m: RawMeasurement| decoded_measurement(m))
}

/// Whether some reading in `ms` carries the unknown wire name `comp`.
pub open spec fn has_unknown(ms: Seq<RawMeasurement>, comp: Seq<char>) -> bool {
    exists|j: int| 0 <= j < ms.len() && #[trigger] ms[j].comp@ == comp && kind_of_wire(comp) is None
}

pub open spec fn point_decodes(p: RawDataPoint) -> bool {
    &&& utc_instant_of(p.timestamp@) is Some
    &&& all_decode(p.sensors@)
    &&& all_decode(p.indices@)
}

pub open spec fn decoded_point(p: RawDataPoint, d: DataPoint) -> bool {
    &&& utc_instant_of(p.timestamp@) == Some((d.timestamp.seconds, d.timestamp.nanos))
    &&& d.score == p.score
    &&& d.sensors@ == decoded_measurements(p.sensors@)
    &&& d.indices@ == decoded_measurements(p.indices@)
}

/// Whether `e` is a faithful account of something wrong with the point `p`.
pub open spec fn point_error(p: RawDataPoint, e: DecodeError) -> bool {
    match e {
        DecodeError::UnknownKind { comp } => has_unknown(p.sensors@, comp@) || has_unknown(
            p.indices@,
            comp@,
        ),
        DecodeError::InvalidTimestamp { text } => text@ == p.timestamp@ && utc_instant_of(
            text@,
        ) is None,
        DecodeError::Malformed { .. } => false,
    }
}

pub open spec fn response_decodes(raw: Seq<RawDataPoint>) -> bool {
    forall|i: int| 0 <= i < raw.len() ==> point_decodes(#[trigger] raw[i])
}

/// Decodes one bucket of readings; fails on the first unknown wire name.
pub fn decode_measurements(ms: &Vec<RawMeasurement>) -> (r: Result<Vec<Measurement>, DecodeError>)
    ensures
        r is Ok <==> all_decode(ms@),
        r matches Ok(v) ==> v@ == decoded_measurements(ms@),
        r matches Err(e) ==> e matches DecodeError::UnknownKind { comp } && has_unknown(
            ms@,
            comp@,
        ),
{
    let mut out: Vec<Measurement> = Vec::new();
    let mut i: usize = 0;
    while i < ms.len()
        invariant
            0 <= i <= ms@.len(),
            all_decode(ms@.subrange(0, i as int)),
            out@ == decoded_measurements(ms@.subrange(0, i as int)),
        decreases ms@.len() - i,
    {
        let m = &ms[i];
        match MeasurementType::from_wire(m.comp.as_str()) {
            Some(kind) => {
                out.push(Measurement { kind, value: m.value });
                assert(ms@.subrange(0, i + 1) =~= ms@.subrange(0, i as int).push(ms@[i as int]));
            },
            None => {
                let comp = m.comp.clone();
                assert(ms@[i as int].comp@ == comp@);
                assert(!all_decode(ms@));
                return Err(DecodeError::UnknownKind { comp });
            },
        }
        i = i + 1;
    }
    assert(ms@.subrange(0, ms@.len() as int) =~= ms@);
    Ok(out)
}

/// Decodes one data point: its timestamp, then its sensors, then its
/// indices.
pub fn decode_point(p: &RawDataPoint) -> (r: Result<DataPoint, DecodeError>)
    ensures
        r is Ok <==> point_decodes(*p),
        r matches Ok(d) ==> decoded_point(*p, d),
        r matches Err(e) ==> point_error(*p, e),
{
    let timestamp = match parse_utc(p.timestamp.as_str()) {
        Some((seconds, nanos)) => UtcInstant { seconds, nanos },
        None => {
            return Err(DecodeError::InvalidTimestamp { text: p.timestamp.clone() });
        },
    };
    let sensors = match decode_measurements(&p.sensors) {
        Ok(v) => v,
        Err(e) => {
            return Err(e);
        },
    };
    let indices = match decode_measurements(&p.indices) {
        Ok(v) => v,
        Err(e) => {
            return Err(e);
        },
    };
    Ok(DataPoint { timestamp, score: p.score, sensors, indices })
}

/// Decodes the whole payload, in order. Any unknown wire name or invalid
/// timestamp fails the whole decode: nothing is dropped.
pub fn decode_response(raw: &RawResponse) -> (r: Result<Response, DecodeError>)
    ensures
        r is Ok <==> response_decodes(raw.data@),
        r matches Ok(resp) ==> {
            &&& resp.data@.len() == raw.data@.len()
            &&& forall|i: int|
                0 <= i < raw.data@.len() ==> decoded_point(#[trigger] raw.data@[i], resp.data@[i])
        },
        r matches Err(e) ==> exists|i: int|
            0 <= i < raw.data@.len() && point_error(#[trigger] raw.data@[i], e),
{
    let mut out: Vec<DataPoint> = Vec::new();
    let mut i: usize = 0;
    while i < raw.data.len()
        invariant
            0 <= i <= raw.data@.len(),
            out@.len() == i,
            forall|j: int| 0 <= j < i ==> point_decodes(#[trigger] raw.data@[j]),
            forall|j: int| 0 <= j < i ==> decoded_point(#[trigger] raw.data@[j], out@[j]),
        decreases raw.data@.len() - i,
    {
        match decode_point(&raw.data[i]) {
            Ok(d) => {
                out.push(d);
            },
            Err(e) => {
                assert(point_error(raw.data@[i as int], e));
                return Err(e);
            },
        }
        i = i + 1;
    }
    Ok(Response { data: out })
}

} // verus!
