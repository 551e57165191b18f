use std::time::{Duration, SystemTime, UNIX_EPOCH};

use geekorm_sql::values::datetime::{datetime_from_value, datetime_to_value, UtcDateTime};
use geekorm_sql::values::time::{seconds_of_value, system_time_from_value, system_time_to_value, UnixTime};
use geekorm_sql::values::url::{url_from_value, url_to_value};
use geekorm_sql::values::uuid::{uuid_from_value, uuid_to_value};
use geekorm_sql::values::value::Value;
use geekorm_sql::values::values::Values;
use geekorm_sql::ToValue;

#[test]
fn test_values_get_index() {
    let mut values = Values::new();
    values.push("id", Value::Integer(1));
    values.push("username", Value::Text("GeekMasher".to_string()));
    values.push("first_name", Value::Text("mathew".to_string()));
    values.push("age", Value::Integer(42));

    assert_eq!(values.len(), 4);
    assert_eq!(values.get_index("id"), Some(1));
    assert_eq!(values.get_index("username"), Some(2));
    assert_eq!(values.get_index("first_name"), Some(3));
    assert_eq!(values.get_index("age"), Some(4));
}

#[test]
fn values_get_returns_first_value_of_a_name() {
    let mut values = Values::new();
    values.push("id", Value::Integer(1));
    values.push("id", Value::Integer(2));
    values.push("name", Value::Text("x".to_string()));
    assert_eq!(values.get(&"id".to_string()), Some(&Value::Integer(1)));
    assert_eq!(values.get(&"name".to_string()), Some(&Value::Text("x".to_string())));
    assert_eq!(values.get(&"age".to_string()), None);
    assert_eq!(values.get_index("age"), None);
    assert_eq!(
        values.into_values(),
        vec![Value::Integer(1), Value::Integer(2), Value::Text("x".to_string())]
    );
}

#[test]
fn test_uuid() {
    let uuid = uuid::Uuid::new_v4();
    let value = uuid_to_value(uuid.as_u128());
    let og_value = uuid_from_value(value).expect("Failed to parse UUID");

    assert_eq!(uuid, uuid::Uuid::from_u128(og_value));
}

#[test]
fn uuid_value_is_hyphenated_lowercase_text() {
    let id: u128 = 0x67e5504410b1426f9247bb680e5fe0c8;
    assert_eq!(uuid_to_value(id), Value::Text("67e55044-10b1-426f-9247-bb680e5fe0c8".to_string()));
    assert!(uuid_from_value(Value::Integer(1)).is_err());
    assert!(uuid_from_value(Value::Text("not a uuid".to_string())).is_err());
}

#[test]
fn test_std_time() {
    let now = SystemTime::now();
    let secs = now.duration_since(UNIX_EPOCH).unwrap().as_secs();
    let value = system_time_to_value(&UnixTime { secs });
    assert!(matches!(value, Value::Datetime(_)));

    let og_time = system_time_from_value(&value).expect("Failed to parse std::time::SystemTime");
    let og_time = UNIX_EPOCH + Duration::from_secs(og_time.secs);

    assert_eq!(
        og_time.duration_since(UNIX_EPOCH).unwrap().as_secs(),
        now.duration_since(UNIX_EPOCH).unwrap().as_secs()
    );
}

#[test]
fn test_datetime_conversion() {
    let now = chrono::Utc::now();
    let dt = UtcDateTime::from_timestamp(now.timestamp(), now.timestamp_subsec_nanos()).unwrap();
    let value: Value = datetime_to_value(&dt);
    let converted_dt = datetime_from_value(value).unwrap();
    assert_eq!(dt, converted_dt);
}

#[test]
fn datetime_text_and_nanosecond_values() {
    let value = Value::Text("2023-10-01T12:00:00Z".to_string());
    let dt = datetime_from_value(value).unwrap();
    assert_eq!(dt.timestamp(), 1696161600);
    assert_eq!(dt.to_rfc3339(), "2023-10-01T12:00:00+00:00");
    assert_eq!(dt.to_value(), Value::Datetime(1696161600));

    let dt = datetime_from_value(Value::Integer(-1)).unwrap();
    assert_eq!(dt.timestamp(), -1);
    assert_eq!(dt.timestamp_subsec_nanos(), 999_999_999);

    let err = datetime_from_value(Value::Text("yesterday".to_string())).unwrap_err();
    assert_eq!(err.message(), "Failed to convert value: Invalid DateTime format");
    assert!(UtcDateTime::from_timestamp(0, 2_000_000_000).is_none());
    assert!(UtcDateTime::from_timestamp(i64::MAX, 0).is_none());
    assert!(UtcDateTime::from_timestamp(59, 1_500_000_000).is_some());

    let err = datetime_from_value(Value::Boolean(true)).unwrap_err();
    assert_eq!(err.message(), "Failed to convert value: Value is not a DateTime");
}

#[test]
fn test_url_values() {
    let url = "https://42bytelabs.com:443/projects/geekorm";
    let parsed = url::Url::parse(url).expect("Failed to parse URL");

    let value = url_to_value(parsed.as_str());
    assert!(matches!(value, Value::Text(_)));

    let og_url = url_from_value(&value).expect("Failed to return URL");

    assert_eq!(parsed, url::Url::parse(&og_url).unwrap());
}

#[test]
fn url_values_normalise_and_refuse() {
    let value = Value::Text("HTTPS://Example.com".to_string());
    assert_eq!(url_from_value(&value).unwrap(), "https://example.com/");
    assert!(url_from_value(&Value::Text("no scheme".to_string())).is_err());
}

#[test]
fn time_seconds_and_answers() {
    assert_eq!(system_time_to_value(&UnixTime { secs: 5 }), Value::Datetime(5));
    assert_eq!(UnixTime { secs: 7 }.to_value(), Value::Datetime(7));
    assert_eq!(seconds_of_value(&Value::Datetime(42)), 42);
    assert_eq!(seconds_of_value(&Value::Integer(-1)), u64::MAX);

    let later = system_time_from_value(&Value::Integer(90)).unwrap();
    assert_eq!(later, UnixTime { secs: 90 });
    assert_eq!(system_time_to_value(&later), Value::Datetime(90));
    assert_eq!(system_time_from_value(&system_time_to_value(&later)).unwrap(), later);
}

#[test]
fn test_datetime_from_string() {
    let dt_str = "2023-10-01T12:00:00Z";
    let value = Value::Text(dt_str.to_string());
    let dt = datetime_from_value(value).unwrap();
    let expected = chrono::DateTime::parse_from_rfc3339(dt_str).unwrap();
    assert_eq!(dt.timestamp(), expected.timestamp());
    assert_eq!(dt.timestamp_subsec_nanos(), expected.timestamp_subsec_nanos());
    assert_eq!(dt.to_rfc3339(), expected.to_rfc3339());
}

#[test]
fn datetime_range_edges() {
    assert!(UtcDateTime::from_timestamp(-8334601228800, 0).is_some());
    assert!(UtcDateTime::from_timestamp(-8334601228801, 999_999_999).is_none());
    assert!(UtcDateTime::from_timestamp(8210266876799, 999_999_999).is_some());
    assert!(UtcDateTime::from_timestamp(8210266876800, 0).is_none());
    assert!(UtcDateTime::from_timestamp(-1, 1_999_999_999).is_some());
    assert!(UtcDateTime::from_timestamp(58, 1_000_000_000).is_none());
    assert!(UtcDateTime::from_timestamp(59, 2_000_000_000).is_none());
}

#[test]
fn uuid_text_forms() {
    let id: u128 = 0x67e55044_10b1_426f_9247_bb680e5fe0c8;
    let text = |s: &str| Value::Text(s.to_string());
    assert_eq!(uuid_from_value(text("67e5504410b1426f9247bb680e5fe0c8")).unwrap(), id);
    assert_eq!(uuid_from_value(text("67E55044-10B1-426F-9247-BB680E5FE0C8")).unwrap(), id);
    assert_eq!(uuid_from_value(text("{67e55044-10b1-426f-9247-bb680e5fe0c8}")).unwrap(), id);
    assert_eq!(uuid_from_value(text("URN:uuid:67e55044-10b1-426f-9247-bb680e5fe0c8")).unwrap(), id);
    assert!(uuid_from_value(text("urn:uuie:67e55044-10b1-426f-9247-bb680e5fe0c8")).is_err());
    assert!(uuid_from_value(text("(67e55044-10b1-426f-9247-bb680e5fe0c8)")).is_err());
    assert!(uuid_from_value(text("67e55044_10b1-426f-9247-bb680e5fe0c8")).is_err());
    assert!(uuid_from_value(text("67e55044-10b1-426f-9247-bb680e5fe0cg")).is_err());
    assert!(uuid_from_value(text("67e55044-10b1-426f-9247-bb680e5fe0é")).is_err());
}
