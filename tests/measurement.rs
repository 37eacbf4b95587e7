use awair_influx::MeasurementType;

const ALL: [MeasurementType; 6] = [
    MeasurementType::Temperature,
    MeasurementType::Humidity,
    MeasurementType::CO2,
    MeasurementType::VOC,
    MeasurementType::Dust,
    MeasurementType::PM25,
];

#[test]
fn wire_names_decode() {
    assert_eq!(MeasurementType::from_wire("temp"), Some(MeasurementType::Temperature));
    assert_eq!(MeasurementType::from_wire("humid"), Some(MeasurementType::Humidity));
    assert_eq!(MeasurementType::from_wire("co2"), Some(MeasurementType::CO2));
    assert_eq!(MeasurementType::from_wire("voc"), Some(MeasurementType::VOC));
    assert_eq!(MeasurementType::from_wire("dust"), Some(MeasurementType::Dust));
    assert_eq!(MeasurementType::from_wire("pm25"), Some(MeasurementType::PM25));
}

#[test]
fn unknown_wire_names_do_not_decode() {
    assert_eq!(MeasurementType::from_wire("lux"), None);
    assert_eq!(MeasurementType::from_wire(""), None);
    assert_eq!(MeasurementType::from_wire("CO2"), None);
    assert_eq!(MeasurementType::from_wire("temperature"), None);
    assert_eq!(MeasurementType::from_wire("pm10"), None);
}

#[test]
fn field_names() {
    assert_eq!(MeasurementType::Temperature.field_name(), "temperature");
    assert_eq!(MeasurementType::Humidity.field_name(), "humidity");
    assert_eq!(MeasurementType::CO2.field_name(), "CO2");
    assert_eq!(MeasurementType::VOC.field_name(), "VOC");
    assert_eq!(MeasurementType::Dust.field_name(), "dust");
    assert_eq!(MeasurementType::PM25.field_name(), "PM25");
}

#[test]
fn wire_round_trip_and_distinct_names() {
    for (i, a) in ALL.iter().enumerate() {
        assert_eq!(MeasurementType::from_wire(a.wire_name()), Some(*a));
        for (j, b) in ALL.iter().enumerate() {
            if i != j {
                assert_ne!(a.field_name(), b.field_name());
                assert_ne!(a.wire_name(), b.wire_name());
            }
        }
    }
}
