use backend::json::JsonValue;
use backend::link::Link;
use backend::node_edge_point::NodeEdgePoint;
use backend::Error;

/// Converts an already-parsed `serde_json` tree into the library's own value
/// type. Numbers must be integers: the records under test carry none other.
fn to_json_value(v: &serde_json::Value) -> JsonValue {
    match v {
        serde_json::Value::Null => JsonValue::Null,
        serde_json::Value::Bool(b) => JsonValue::Bool(*b),
        serde_json::Value::Number(n) => {
            if let Some(i) = n.as_i64() {
                JsonValue::Int(i)
            } else if let Some(u) = n.as_u64() {
                JsonValue::UInt(u)
            } else {
                panic!("unexpected non-integer number")
            }
        }
        serde_json::Value::String(s) => JsonValue::Str(s.clone()),
        serde_json::Value::Array(items) => {
            JsonValue::Array(items.iter().map(to_json_value).collect())
        }
        serde_json::Value::Object(map) => JsonValue::Object(
            map.iter()
                .map(|(k, v)| (k.clone(), to_json_value(v)))
                .collect(),
        ),
    }
}

fn uuid_num(text: &str) -> u128 {
    uuid::Uuid::parse_str(text).unwrap().as_u128()
}

#[test]
fn test_raw_link() {
    let raw_link_data = r#"
        {
            "administrative-state": "UNLOCKED",
            "direction": "BIDIRECTIONAL",
            "layer-protocol-name": [
                "ETH"
            ],
            "lifecycle-state": "INSTALLED",
            "name": [
                {
                    "value": "",
                    "value-name": "LINK_NAME"
                }
            ],
            "node-edge-point": [
                {
                    "node-edge-point-uuid": "65a39427-3055-3ba4-9e15-0ebed4974577",
                    "node-uuid": "62d11f13-db6c-3398-8a83-5fac0b2b7476",
                    "topology-uuid": "4e537278-79f8-39ad-804b-f0b553cb2ffb"
                },
                {
                    "node-edge-point-uuid": "63366151-aeb4-3dfd-af66-d471b353aa1c",
                    "node-uuid": "7b0c973a-996a-3409-ad2f-d173354bfdb7",
                    "topology-uuid": "4e537278-79f8-39ad-804b-f0b553cb2ffb"
                }
            ],
            "operational-state": "ENABLED",
            "resilience-type": {
                "protection-type": "NO_PROTECTON",
                "restoration-policy": "NA"
            },
            "tapi-ciena-link-extensions:layer-protocol-qualifier": "tapi-ciena-protocol-extensions:ETHERNET",
            "tapi-ciena-link-extensions:signal-content-type": "IP",
            "uuid": "14219539-208b-35f5-b7cf-35a58e083490"
        }"#;

    let parsed: serde_json::Value = serde_json::from_str(raw_link_data).unwrap();
    let raw_link_data_value = to_json_value(&parsed);
    let raw_link_object = Link::from_value(&raw_link_data_value, "test-host").unwrap();

    let second_link_object = Link {
        host: "test-host".to_string(),
        node_edge_points: vec![
            NodeEdgePoint {
                node_edge_point_uuid: uuid_num("65a39427-3055-3ba4-9e15-0ebed4974577"),
                node_uuid: uuid_num("62d11f13-db6c-3398-8a83-5fac0b2b7476"),
            },
            NodeEdgePoint {
                node_edge_point_uuid: uuid_num("63366151-aeb4-3dfd-af66-d471b353aa1c"),
                node_uuid: uuid_num("7b0c973a-996a-3409-ad2f-d173354bfdb7"),
            },
        ],
        uuid: uuid_num("14219539-208b-35f5-b7cf-35a58e083490"),
        hash: raw_link_object.hash,
        date: raw_link_object.date.clone(),
    };

    assert_eq!(raw_link_object, second_link_object);
}

#[test]
fn test_raw_link_error() {
    let raw_link_data = r#"
        {
            "node-edge-point": [
                {
                    "node-edge-point-uuid": "65a39427-3055-3ba4-9e15-0ebed4974577",
                    "node-uuid": "62d11f13-db6c-3398-8a83-5fac0b2b7476"
                },
                {
                    "node-edge-point-uuid": "63366151-aeb4-3dfd-af66-d471b353aa1c"
                }
            ],
            "uuid": "14219539-208b-35f5-b7cf-35a58e083490"
        }"#;
    let parsed: serde_json::Value = serde_json::from_str(raw_link_data).unwrap();
    match Link::from_value(&to_json_value(&parsed), "test-host") {
        Err(Error::Custom(msg)) => assert_eq!(msg, "Not found node uuid".to_string()),
        Ok(_) => panic!("Expected an error, but got Ok"),
    }

    let raw_link_data = r#"
        {
            "node-edge-point": [
                {
                    "node-edge-point-uuid": "65a39427-3055-3ba4-9e15-0ebed4974577",
                    "node-uuid": "62d11f13-db6c-3398-8a83-5fac0b2b7476"
                },
                {
                    "node-uuid": "62d11f13-db6c-3398-8a83-5fac0b2b7476"
                }
            ],
            "uuid": "14219539-208b-35f5-b7cf-35a58e083490"
        }"#;
    let parsed: serde_json::Value = serde_json::from_str(raw_link_data).unwrap();
    match Link::from_value(&to_json_value(&parsed), "test-host") {
        Err(Error::Custom(msg)) => assert_eq!(msg, "Not found node edge point uuid".to_string()),
        Ok(_) => panic!("Expected an error, but got Ok"),
    }

    let raw_link_data = r#"
        {
            "node-edge-point": [
                {
                    "node-edge-point-uuid": "65a39427-3055-3ba4-9e15-0ebed4974577",
                    "node-uuid": "62d11f13-db6c-3398-8a83-5fac0b2b7476"
                }
            ]
        }"#;
    let parsed: serde_json::Value = serde_json::from_str(raw_link_data).unwrap();
    match Link::from_value(&to_json_value(&parsed), "test-host") {
        Err(Error::Custom(msg)) => assert_eq!(msg, "Not found link uuid".to_string()),
        Ok(_) => panic!("Expected an error, but got Ok"),
    }

    let raw_link_data = r#"
        {
            "node-edge-point": {
                "node-edge-point-uuid": "65a39427-3055-3ba4-9e15-0ebed4974577",
                "node-uuid": "62d11f13-db6c-3398-8a83-5fac0b2b7476"
            },
            "uuid": "14219539-208b-35f5-b7cf-35a58e083490"
        }"#;
    let parsed: serde_json::Value = serde_json::from_str(raw_link_data).unwrap();
    match Link::from_value(&to_json_value(&parsed), "test-host") {
        Err(Error::Custom(msg)) => assert_eq!(msg, "Not found node edge points list".to_string()),
        Ok(_) => panic!("Expected an error, but got Ok"),
    }
}

#[test]
fn test_controlled_link() {
    let link_object = Link {
        host: "test-host".to_string(),
        node_edge_points: vec![
            NodeEdgePoint {
                node_edge_point_uuid: uuid_num("65a39427-3055-3ba4-9e15-0ebed4974577"),
                node_uuid: uuid_num("62d11f13-db6c-3398-8a83-5fac0b2b7476"),
            },
            NodeEdgePoint {
                node_edge_point_uuid: uuid_num("63366151-aeb4-3dfd-af66-d471b353aa1c"),
                node_uuid: uuid_num("7b0c973a-996a-3409-ad2f-d173354bfdb7"),
            },
        ],
        uuid: uuid_num("14219539-208b-35f5-b7cf-35a58e083490"),
        hash: u64::MAX,
        date: "2024-01-01T00:00:00.000000000+01:00".to_string(),
    };

    let serialized = link_object.to_value();
    let expected_text = format!(
        r#"{{"host":"test-host","node-edge-point":[{{"node-edge-point-uuid":"65a39427-3055-3ba4-9e15-0ebed4974577","node-uuid":"62d11f13-db6c-3398-8a83-5fac0b2b7476"}},{{"node-edge-point-uuid":"63366151-aeb4-3dfd-af66-d471b353aa1c","node-uuid":"7b0c973a-996a-3409-ad2f-d173354bfdb7"}}],"uuid":"14219539-208b-35f5-b7cf-35a58e083490","hash":{},"date":"{}"}}"#,
        link_object.hash,
        link_object.date,
    );
    let text: String = backend::canon::canonical_chars(&serialized).into_iter().collect();
    assert_eq!(text, expected_text);

    let read_back = Link::from_serialized(&serialized).unwrap();
    assert_eq!(read_back, link_object);
}

#[test]
fn test_link_scenario_single_point() {
    let raw = r#"{"uuid":"14219539-208b-35f5-b7cf-35a58e083490","node-edge-point":[{"node-edge-point-uuid":"65a39427-3055-3ba4-9e15-0ebed4974577","node-uuid":"62d11f13-db6c-3398-8a83-5fac0b2b7476"}]}"#;
    let parsed: serde_json::Value = serde_json::from_str(raw).unwrap();
    let link = Link::from_value(&to_json_value(&parsed), "test-host").unwrap();
    assert_eq!(link.node_edge_points.len(), 1);
    assert_eq!(link.uuid, uuid_num("14219539-208b-35f5-b7cf-35a58e083490"));
    assert_eq!(
        link.node_edge_points[0],
        NodeEdgePoint {
            node_edge_point_uuid: uuid_num("65a39427-3055-3ba4-9e15-0ebed4974577"),
            node_uuid: uuid_num("62d11f13-db6c-3398-8a83-5fac0b2b7476"),
        }
    );
    // The sampled creation date is well-formed RFC 3339 text.
    assert!(chrono::DateTime::parse_from_rfc3339(&link.date).is_ok());
}

#[test]
fn test_reparse_equal_hash_distinct_dates() {
    let raw = r#"{"uuid":"14219539-208b-35f5-b7cf-35a58e083490","node-edge-point":[]}"#;
    let parsed: serde_json::Value = serde_json::from_str(raw).unwrap();
    let value = to_json_value(&parsed);
    let first = Link::from_value_at(&value, "test-host", "2024-01-01T00:00:00+00:00".to_string())
        .unwrap();
    let second = Link::from_value_at(&value, "test-host", "2025-06-30T12:34:56+02:00".to_string())
        .unwrap();
    assert_eq!(first.hash, second.hash);
    assert_ne!(first.date, second.date);
    assert_eq!(first.node_edge_points.len(), 0);
}

#[test]
fn test_hash_covers_unmodeled_fields() {
    let raw = r#"{"uuid":"14219539-208b-35f5-b7cf-35a58e083490","node-edge-point":[],"administrative-state":"UNLOCKED"}"#;
    let changed = r#"{"uuid":"14219539-208b-35f5-b7cf-35a58e083490","node-edge-point":[],"administrative-state":"LOCKED"}"#;
    let a: serde_json::Value = serde_json::from_str(raw).unwrap();
    let b: serde_json::Value = serde_json::from_str(changed).unwrap();
    let link_a = Link::from_value(&to_json_value(&a), "test-host").unwrap();
    let link_b = Link::from_value(&to_json_value(&b), "test-host").unwrap();
    assert_ne!(link_a.hash, link_b.hash);
}
