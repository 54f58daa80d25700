use backend::json::JsonValue;
use backend::node_edge_point::NodeEdgePoint;
use backend::Error;

fn entry(nep_uuid: &str, node_uuid: &str) -> JsonValue {
    JsonValue::Object(vec![
        (
            "node-edge-point-uuid".to_string(),
            JsonValue::Str(nep_uuid.to_string()),
        ),
        ("node-uuid".to_string(), JsonValue::Str(node_uuid.to_string())),
    ])
}

#[test]
fn test_node_edge_point_accepts_standard_encodings() {
    // The same UUID in hyphenated, simple, braced and URN form: all four parse
    // to the same 128-bit value.
    let hyphenated = entry(
        "65a39427-3055-3ba4-9e15-0ebed4974577",
        "62d11f13-db6c-3398-8a83-5fac0b2b7476",
    );
    let simple = entry(
        "65a3942730553ba49e150ebed4974577",
        "62d11f13db6c33988a835fac0b2b7476",
    );
    let braced = entry(
        "{65a39427-3055-3ba4-9e15-0ebed4974577}",
        "{62d11f13-db6c-3398-8a83-5fac0b2b7476}",
    );
    let urn = entry(
        "urn:uuid:65a39427-3055-3ba4-9e15-0ebed4974577",
        "urn:uuid:62d11f13-db6c-3398-8a83-5fac0b2b7476",
    );
    let expected = NodeEdgePoint {
        node_edge_point_uuid: 0x65a3942730553ba49e150ebed4974577,
        node_uuid: 0x62d11f13db6c33988a835fac0b2b7476,
    };
    assert_eq!(NodeEdgePoint::from_value(&hyphenated).unwrap(), expected);
    assert_eq!(NodeEdgePoint::from_value(&simple).unwrap(), expected);
    assert_eq!(NodeEdgePoint::from_value(&braced).unwrap(), expected);
    assert_eq!(NodeEdgePoint::from_value(&urn).unwrap(), expected);
}

#[test]
fn test_node_edge_point_rejects_malformed_text() {
    let bad = entry("not-a-uuid", "62d11f13-db6c-3398-8a83-5fac0b2b7476");
    match NodeEdgePoint::from_value(&bad) {
        Err(Error::Custom(msg)) => assert_eq!(msg, "Not found node edge point uuid"),
        Ok(v) => panic!("expected an error, got {:?}", v),
    }
    let empty = entry("65a39427-3055-3ba4-9e15-0ebed4974577", "");
    match NodeEdgePoint::from_value(&empty) {
        Err(Error::Custom(msg)) => assert_eq!(msg, "Not found node uuid"),
        Ok(v) => panic!("expected an error, got {:?}", v),
    }
}

#[test]
fn test_node_edge_point_serializes_hyphenated() {
    // The rendered texts are the canonical hyphenated lowercase form, not the
    // texts the record was parsed from.
    let record = NodeEdgePoint {
        node_edge_point_uuid: 0x65a3942730553ba49e150ebed4974577,
        node_uuid: 0x62d11f13db6c33988a835fac0b2b7476,
    };
    let value = record.to_value();
    assert_eq!(
        value.get_str("node-edge-point-uuid"),
        Some("65a39427-3055-3ba4-9e15-0ebed4974577")
    );
    assert_eq!(
        value.get_str("node-uuid"),
        Some("62d11f13-db6c-3398-8a83-5fac0b2b7476")
    );
    // And the serialized form parses back to the same record.
    assert_eq!(NodeEdgePoint::from_value(&value).unwrap(), record);
}

#[test]
fn test_equal_uuids_allowed() {
    let v = entry(
        "14219539-208b-35f5-b7cf-35a58e083490",
        "14219539-208b-35f5-b7cf-35a58e083490",
    );
    let record = NodeEdgePoint::from_value(&v).unwrap();
    assert_eq!(record.node_edge_point_uuid, record.node_uuid);
}
