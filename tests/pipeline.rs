use awair_influx::{
    build_fetch_request, check_status, decode_response, transform, transform_all, Config, DecodeError,
    MeasurementType, PipelineError, RawDataPoint, RawMeasurement, RawResponse, UtcInstant, Window,
};

fn raw(comp: &str, value: f64) -> RawMeasurement {
    RawMeasurement { comp: comp.to_string(), value: value.to_bits() }
}

fn example_payload() -> RawResponse {
    RawResponse {
        data: vec![RawDataPoint {
            timestamp: "2024-01-01T00:00:00Z".to_string(),
            score: 80.0f64.to_bits(),
            sensors: vec![raw("temp", 21.5)],
            indices: vec![raw("co2", 450.0)],
        }],
    }
}

fn config(username: Option<&str>) -> Config {
    Config {
        api_key: "SECRET-REDACTED".to_string(),
        device_type: "awair-element".to_string(),
        device_id: "1234".to_string(),
        influx_db_url: "http://localhost:8086".to_string(),
        influx_db_username: username.map(|u| u.to_string()),
        influx_db_password: "pw".to_string(),
        influx_db_database: "air".to_string(),
    }
}

fn fields_of(r: &awair_influx::WriteRecord) -> Vec<(String, f64)> {
    r.fields.iter().map(|f| (f.name.clone(), f64::from_bits(f.value))).collect()
}

#[test]
fn example_payload_transforms_to_record() {
    let resp = decode_response(&example_payload()).unwrap();
    assert_eq!(resp.data.len(), 1);
    let d = &resp.data[0];
    assert_eq!(d.timestamp, UtcInstant { seconds: 1704067200, nanos: 0 });
    assert_eq!(d.sensors[0].kind, MeasurementType::Temperature);
    assert_eq!(d.indices[0].kind, MeasurementType::CO2);
    let r = transform(d, "1234");
    assert_eq!(r.measurement, "awair");
    assert_eq!(r.timestamp, d.timestamp);
    assert_eq!(r.tags.len(), 1);
    assert_eq!(r.tags[0].key, "device_id");
    assert_eq!(r.tags[0].value, "1234");
    assert_eq!(
        fields_of(&r),
        vec![
            ("score".to_string(), 80.0),
            ("temperature.sensor".to_string(), 21.5),
            ("CO2.index".to_string(), 450.0),
        ]
    );
}

#[test]
fn field_count_is_one_plus_readings() {
    let payload = RawResponse {
        data: vec![RawDataPoint {
            timestamp: "2024-01-01T00:05:00Z".to_string(),
            score: 91.0f64.to_bits(),
            sensors: vec![raw("temp", 20.0), raw("humid", 45.0), raw("co2", 600.0), raw("voc", 100.0), raw("pm25", 3.0)],
            indices: vec![raw("dust", 1.0), raw("pm25", 0.0)],
        }],
    };
    let resp = decode_response(&payload).unwrap();
    let r = transform(&resp.data[0], "dev");
    assert_eq!(r.fields.len(), 1 + 5 + 2);
    let names: Vec<String> = r.fields.iter().map(|f| f.name.clone()).collect();
    assert_eq!(
        names,
        vec!["score", "temperature.sensor", "humidity.sensor", "CO2.sensor", "VOC.sensor", "PM25.sensor", "dust.index", "PM25.index"]
    );
}

#[test]
fn empty_point_has_only_score() {
    let payload = RawResponse {
        data: vec![RawDataPoint {
            timestamp: "2024-01-01T00:00:00.250Z".to_string(),
            score: 0u64,
            sensors: vec![],
            indices: vec![],
        }],
    };
    let resp = decode_response(&payload).unwrap();
    assert_eq!(resp.data[0].timestamp, UtcInstant { seconds: 1704067200, nanos: 250_000_000 });
    let r = transform(&resp.data[0], "dev");
    assert_eq!(fields_of(&r), vec![("score".to_string(), 0.0)]);
}

#[test]
fn out_of_range_values_pass_through() {
    let payload = RawResponse {
        data: vec![RawDataPoint {
            timestamp: "2024-01-01T00:00:00+01:00".to_string(),
            score: 80.0f64.to_bits(),
            sensors: vec![raw("humid", -5.0)],
            indices: vec![],
        }],
    };
    let resp = decode_response(&payload).unwrap();
    assert_eq!(resp.data[0].timestamp.seconds, 1704063600);
    let r = transform(&resp.data[0], "dev");
    assert_eq!(fields_of(&r)[1], ("humidity.sensor".to_string(), -5.0));
}

#[test]
fn unknown_comp_fails_decoding() {
    let mut payload = example_payload();
    payload.data.push(RawDataPoint {
        timestamp: "2024-01-01T00:00:10Z".to_string(),
        score: 1u64,
        sensors: vec![raw("temp", 1.0)],
        indices: vec![raw("lux", 3.0)],
    });
    assert_eq!(decode_response(&payload).unwrap_err(), DecodeError::UnknownKind { comp: "lux".to_string() });
}

#[test]
fn invalid_timestamp_fails_decoding() {
    let mut payload = example_payload();
    payload.data[0].timestamp = "yesterday".to_string();
    assert_eq!(
        decode_response(&payload).unwrap_err(),
        DecodeError::InvalidTimestamp { text: "yesterday".to_string() }
    );
}

#[test]
fn empty_payload_decodes_to_nothing() {
    let resp = decode_response(&RawResponse { data: vec![] }).unwrap();
    assert!(resp.data.is_empty());
    assert!(transform_all(&resp, "dev").is_empty());
}

#[test]
fn transform_all_keeps_order() {
    let mut payload = example_payload();
    payload.data.push(RawDataPoint {
        timestamp: "2024-01-01T00:00:10Z".to_string(),
        score: 70.0f64.to_bits(),
        sensors: vec![],
        indices: vec![],
    });
    let resp = decode_response(&payload).unwrap();
    let records = transform_all(&resp, "1234");
    assert_eq!(records.len(), 2);
    assert_eq!(records[0].timestamp.seconds, 1704067200);
    assert_eq!(records[1].timestamp.seconds, 1704067210);
    assert_eq!(fields_of(&records[1]), vec![("score".to_string(), 70.0)]);
}

#[test]
fn fetch_request_for_window() {
    let c = config(None);
    let req = build_fetch_request(&c, &Window { lower: 1704067200, upper: 1704067500 }).unwrap();
    assert_eq!(
        req.url,
        "https://developer-apis.awair.is/v1/users/self/devices/awair-element/1234/air-data/raw"
    );
    assert_eq!(req.query.len(), 2);
    assert_eq!(req.query[0].name, "from");
    assert_eq!(req.query[0].value, "2024-01-01T00:00:00Z");
    assert_eq!(req.query[1].name, "to");
    assert_eq!(req.query[1].value, "2024-01-01T00:05:00Z");
    assert_eq!(req.bearer_token, "SECRET-REDACTED");
}

#[test]
fn fetch_request_out_of_range_window() {
    let c = config(None);
    assert!(build_fetch_request(&c, &Window { lower: i64::MIN, upper: i64::MIN + 300 }).is_none());
}

#[test]
fn non_ok_status_is_invalid_response() {
    match check_status(401) {
        Err(PipelineError::InvalidResponse { status }) => assert_eq!(status, 401),
        other => panic!("unexpected {:?}", other),
    }
    assert!(matches!(check_status(500), Err(PipelineError::InvalidResponse { status: 500 })));
    assert!(matches!(check_status(204), Err(PipelineError::InvalidResponse { status: 204 })));
    assert!(check_status(200).is_ok());
}

#[test]
fn credentials_only_with_username() {
    assert_eq!(config(None).influx_credentials(), None);
    assert_eq!(
        config(Some("admin")).influx_credentials(),
        Some(("admin".to_string(), "pw".to_string()))
    );
}
