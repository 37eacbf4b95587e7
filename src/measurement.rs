use vstd::prelude::*;
use vstd::string::StringExecFns;

verus! {

/// The closed set of quantities that the sensor reports.
#[derive(Clone, Copy, Debug, PartialEq, Eq, Hash, Structural)]
pub enum MeasurementType {
    /// `temp`: degrees Celsius.
    Temperature,
    /// `humid`: relative humidity in percent.
    Humidity,
    /// `co2`: carbon dioxide in parts per million.
    CO2,
    /// `voc`: total volatile organic compounds in parts per billion.
    VOC,
    /// `dust`: aggregate particulate matter in micrograms per cubic metre.
    Dust,
    /// `pm25`: fine particulate matter in micrograms per cubic metre.
    PM25,
}

/// The name under which the source payload reports a quantity.
pub open spec fn wire_name(k: MeasurementType) -> Seq<char> {
    match k {
        MeasurementType::Temperature => seq!['t', 'e', 'm', 'p'],
        MeasurementType::Humidity => seq!['h', 'u', 'm', 'i', 'd'],
        MeasurementType::CO2 => seq!['c', 'o', '2'],
        MeasurementType::VOC => seq!['v', 'o', 'c'],
        MeasurementType::Dust => seq!['d', 'u', 's', 't'],
        MeasurementType::PM25 => seq!['p', 'm', '2', '5'],
    }
}

/// The name under which a quantity is written to the database.
pub open spec fn canonical_name(k: MeasurementType) -> Seq<char> {
    match k {
        MeasurementType::Temperature => seq!['t', 'e', 'm', 'p', 'e', 'r', 'a', 't', 'u', 'r', 'e'],
        MeasurementType::Humidity => seq!['h', 'u', 'm', 'i', 'd', 'i', 't', 'y'],
        MeasurementType::CO2 => seq!['C', 'O', '2'],
        MeasurementType::VOC => seq!['V', 'O', 'C'],
        MeasurementType::Dust => seq!['d', 'u', 's', 't'],
        MeasurementType::PM25 => seq!['P', 'M', '2', '5'],
    }
}

/// The quantity whose wire name is `s`, if any.
pub open spec fn kind_of_wire(s: Seq<char>) -> Option<MeasurementType> {
    if s == wire_name(MeasurementType::Temperature) {
        Some(MeasurementType::Temperature)
    } else if s == wire_name(MeasurementType::Humidity) {
        Some(MeasurementType::Humidity)
    } else if s == wire_name(MeasurementType::CO2) {
        Some(MeasurementType::CO2)
    } else if s == wire_name(MeasurementType::VOC) {
        Some(MeasurementType::VOC)
    } else if s == wire_name(MeasurementType::Dust) {
        Some(MeasurementType::Dust)
    } else if s == wire_name(MeasurementType::PM25) {
        Some(MeasurementType::PM25)
    } else {
        None
    }
}

fn same_text(a: &str, b: &str) -> (r: bool)
    ensures
        r == (a@ == b@),
{
    String::from_str(a) == String::from_str(b)
}

impl MeasurementType {
    /// The name under which this quantity is written to the database.
    pub fn field_name(&self) -> (r: &'static str)
        ensures
            r@ == canonical_name(*self),
    {
        match self {
            MeasurementType::Temperature => {
                proof { reveal_strlit("temperature"); }
                let r = "temperature";
                assert(r@ =~= canonical_name(*self));
                r
            },
            MeasurementType::Humidity => {
                proof { reveal_strlit("humidity"); }
                let r = "humidity";
                assert(r@ =~= canonical_name(*self));
                r
            },
            MeasurementType::CO2 => {
                proof { reveal_strlit("CO2"); }
                let r = "CO2";
                assert(r@ =~= canonical_name(*self));
                r
            },
            MeasurementType::VOC => {
                proof { reveal_strlit("VOC"); }
                let r = "VOC";
                assert(r@ =~= canonical_name(*self));
                r
            },
            MeasurementType::Dust => {
                proof { reveal_strlit("dust"); }
                let r = "dust";
                assert(r@ =~= canonical_name(*self));
                r
            },
            MeasurementType::PM25 => {
                proof { reveal_strlit("PM25"); }
                let r = "PM25";
                assert(r@ =~= canonical_name(*self));
                r
            },
        }
    }

    /// The name under which the source payload reports this quantity.
    pub fn wire_name(&self) -> (r: &'static str)
        ensures
            r@ == wire_name(*self),
    {
        match self {
            MeasurementType::Temperature => {
                proof { reveal_strlit("temp"); }
                let r = "temp";
                assert(r@ =~= wire_name(*self));
                r
            },
            MeasurementType::Humidity => {
                proof { reveal_strlit("humid"); }
                let r = "humid";
                assert(r@ =~= wire_name(*self));
                r
            },
            MeasurementType::CO2 => {
                proof { reveal_strlit("co2"); }
                let r = "co2";
                assert(r@ =~= wire_name(*self));
                r
            },
            MeasurementType::VOC => {
                proof { reveal_strlit("voc"); }
                let r = "voc";
                assert(r@ =~= wire_name(*self));
                r
            },
            MeasurementType::Dust => {
                proof { reveal_strlit("dust"); }
                let r = "dust";
                assert(r@ =~= wire_name(*self));
                r
            },
            MeasurementType::PM25 => {
                proof { reveal_strlit("pm25"); }
                let r = "pm25";
                assert(r@ =~= wire_name(*self));
                r
            },
        }
    }

    /// The quantity that the payload names `comp`, or `None` for a name that
    /// is not one of the six.
    pub fn from_wire(comp: &str) -> (r: Option<MeasurementType>)
        ensures
            r == kind_of_wire(comp@),
    {
        let all = [
            MeasurementType::Temperature,
            MeasurementType::Humidity,
            MeasurementType::CO2,
            MeasurementType::VOC,
            MeasurementType::Dust,
            MeasurementType::PM25,
        ];
        let mut i: usize = 0;
        while i < 6
            invariant
                0 <= i <= 6,
                all@ == seq![
                    MeasurementType::Temperature,
                    MeasurementType::Humidity,
                    MeasurementType::CO2,
                    MeasurementType::VOC,
                    MeasurementType::Dust,
                    MeasurementType::PM25,
                ],
                forall|j: int| 0 <= j < i ==> comp@ != wire_name(#[trigger] all@[j]),
            decreases 6 - i,
        {
            let k = all[i];
            if same_text(comp, k.wire_name()) {
                return Some(k);
            }
            i = i + 1;
        }
        None
    }
}

/// Every wire name decodes to its own quantity and to no other: decoding is
/// total on the six names and injective.
pub proof fn lemma_wire_round_trip(k: MeasurementType, s: Seq<char>)
    ensures
        kind_of_wire(wire_name(k)) == Some(k),
        kind_of_wire(s) == Some(k) ==> s == wire_name(k),
{
    lemma_wire_names_distinct_all();
}

proof fn lemma_wire_names_distinct_all()
    ensures
        forall|a: MeasurementType, b: MeasurementType|
            a != b ==> #[trigger] wire_name(a) != #[trigger] wire_name(b),
{
    assert forall|a: MeasurementType, b: MeasurementType| a != b implies #[trigger] wire_name(a)
        != #[trigger] wire_name(b) by {
        assert(wire_name(a)[0] != wire_name(b)[0]);
    }
}

/// No two quantities share a database field name.
pub proof fn lemma_field_names_distinct(a: MeasurementType, b: MeasurementType)
    requires
        a != b,
    ensures
        canonical_name(a) != canonical_name(b),
{
    assert(canonical_name(a)[0] != canonical_name(b)[0]);
}

} // verus!
