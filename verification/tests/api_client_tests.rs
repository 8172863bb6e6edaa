use bungie_pgcr_analyzer::api_client::{
    activity_instance_ids, carnage_report_parse_error, carnage_report_payload, character_ids,
    check_api_response, check_rate_limit, client_from_build, http_client_settings, parse_user_search_response,
    read_api_response, report_count,
};
use bungie_pgcr_analyzer::json::{JsonNumber, JsonValue};
use bungie_pgcr_analyzer::{BungieApiClient, BungieApiConfig, BungieError};
use std::time::Duration;

fn obj(members: Vec<(&str, JsonValue)>) -> JsonValue {
    JsonValue::Object(members.into_iter().map(|(k, v)| (k.to_string(), v)).collect())
}

fn text(s: &str) -> JsonValue {
    JsonValue::String(s.to_string())
}

fn number(n: i64) -> JsonValue {
    if n >= 0 {
        JsonValue::Number(JsonNumber::PosInt(n as u64))
    } else {
        JsonValue::Number(JsonNumber::NegInt(n))
    }
}

#[test]
fn default_config() {
    let c = BungieApiConfig::default();
    assert_eq!(c.base_url, "https://www.bungie.net/Platform");
    assert_eq!(c.api_key, "");
    assert_eq!(c.timeout, Duration::from_secs(30));
    assert_eq!(c.rate_limit_delay, 100);
    let c = BungieApiConfig::with_api_key("SECRET-REDACTED".to_string());
    assert_eq!(c.api_key, "SECRET-REDACTED");
    assert_eq!(c.base_url, "https://www.bungie.net/Platform");
    assert_eq!(c.rate_limit_delay, 100);
}

#[test]
fn client_needs_an_api_key() {
    match BungieApiClient::new(BungieApiConfig::default()) {
        Err(BungieError::ConfigError { message }) => assert_eq!(message, "API key is required"),
        other => panic!("unexpected {other:?}"),
    }
    let client = BungieApiClient::new(BungieApiConfig::with_api_key("key".to_string())).unwrap();
    assert_eq!(client.config().api_key, "key");
}

#[test]
fn client_build_failure_is_a_config_error() {
    match client_from_build(BungieApiConfig::default(), Err("no TLS".to_string())) {
        Err(BungieError::ConfigError { message }) => {
            assert_eq!(message, "Failed to create HTTP client: no TLS")
        }
        other => panic!("unexpected {other:?}"),
    }
}

#[test]
fn request_urls() {
    let c = BungieApiConfig::with_api_key("k".to_string());
    assert_eq!(
        c.search_users_url("Guardian 123#4"),
        "https://www.bungie.net/Platform/Destiny2/SearchDestinyPlayer/-1/Guardian%20123%234/"
    );
    assert_eq!(
        c.search_users_url("é-_.~"),
        "https://www.bungie.net/Platform/Destiny2/SearchDestinyPlayer/-1/%C3%A9-_.~/"
    );
    assert_eq!(
        c.activities_url(4, "123", "456", 25),
        "https://www.bungie.net/Platform/Destiny2/4/Account/123/Character/456/Stats/Activities/?count=25"
    );
    assert_eq!(
        c.activities_url(-1, "a", "b", 0),
        "https://www.bungie.net/Platform/Destiny2/-1/Account/a/Character/b/Stats/Activities/?count=0"
    );
    assert_eq!(
        c.carnage_report_url("987"),
        "https://www.bungie.net/Platform/Destiny2/Stats/PostGameCarnageReport/987/"
    );
    assert_eq!(
        c.profile_url(3, "123"),
        "https://www.bungie.net/Platform/Destiny2/3/Profile/123/?components=200"
    );
}

#[test]
fn report_count_defaults_and_caps() {
    assert_eq!(report_count(None), 25);
    assert_eq!(report_count(Some(10)), 10);
    assert_eq!(report_count(Some(250)), 250);
    assert_eq!(report_count(Some(251)), 250);
    assert_eq!(report_count(Some(0)), 0);
}

#[test]
fn rate_limit_is_refused_when_used_up() {
    match check_rate_limit(Some("0"), Some("17")) {
        Err(BungieError::RateLimitExceeded { retry_after }) => assert_eq!(retry_after, 17),
        other => panic!("unexpected {other:?}"),
    }
    assert!(check_rate_limit(Some("1"), Some("17")).is_ok());
    assert!(check_rate_limit(Some("0"), None).is_ok());
    assert!(check_rate_limit(Some("0"), Some("soon")).is_ok());
    assert!(check_rate_limit(None, Some("17")).is_ok());
}

#[test]
fn api_errors_carry_message_and_code() {
    let json = obj(vec![("Message", text("Not found")), ("ErrorCode", number(1627))]);
    assert!(check_api_response(true, &json).is_ok());
    match check_api_response(false, &json) {
        Err(BungieError::ApiError { message, error_code }) => {
            assert_eq!(message, "Not found");
            assert_eq!(error_code, 1627);
        }
        other => panic!("unexpected {other:?}"),
    }
    match check_api_response(false, &JsonValue::Null) {
        Err(BungieError::ApiError { message, error_code }) => {
            assert_eq!(message, "Unknown API error");
            assert_eq!(error_code, 0);
        }
        other => panic!("unexpected {other:?}"),
    }
    let big = obj(vec![("ErrorCode", number(4294967297))]);
    match check_api_response(false, &big) {
        Err(BungieError::ApiError { error_code, .. }) => assert_eq!(error_code, 1),
        other => panic!("unexpected {other:?}"),
    }
}

#[test]
fn user_search_keeps_complete_users() {
    let json = obj(vec![(
        "Response",
        JsonValue::Array(vec![
            obj(vec![("membershipId", text("1")), ("displayName", text("A")), ("membershipType", number(3))]),
            obj(vec![("membershipId", text("")), ("displayName", text("B")), ("membershipType", number(3))]),
            obj(vec![("membershipId", text("3")), ("displayName", text("C"))]),
            obj(vec![("membershipId", number(4)), ("displayName", text("D")), ("membershipType", number(1))]),
            obj(vec![("membershipId", text("5")), ("displayName", text("E")), ("membershipType", number(254))]),
        ]),
    )]);
    let r = parse_user_search_response(&json).unwrap();
    let ids: Vec<&str> = r.search_results.iter().map(|u| u.membership_id.as_str()).collect();
    assert_eq!(ids, vec!["1", "5"]);
    assert_eq!(r.search_results[1].membership_type, 254);
    assert_eq!(r.total_results, 2);
    assert!(!r.has_more);
}

#[test]
fn user_search_needs_a_response_array() {
    for json in [obj(vec![]), obj(vec![("Response", obj(vec![]))])] {
        match parse_user_search_response(&json) {
            Err(BungieError::ValidationError { field, message }) => {
                assert_eq!(field, "Response");
                assert_eq!(message, "Expected Response to be an array in user search response");
            }
            other => panic!("unexpected {other:?}"),
        }
    }
}

#[test]
fn activity_history_gives_instance_ids() {
    let activity = |id: &str| obj(vec![("activityDetails", obj(vec![("instanceId", text(id))]))]);
    let json = obj(vec![(
        "Response",
        obj(vec![(
            "activities",
            JsonValue::Array(vec![activity("11"), obj(vec![]), activity("22")]),
        )]),
    )]);
    assert_eq!(activity_instance_ids(&json).unwrap(), vec!["11".to_string(), "22".to_string()]);
    let json = obj(vec![("Response", obj(vec![("activities", JsonValue::Null)]))]);
    assert!(activity_instance_ids(&json).unwrap().is_empty());
    match activity_instance_ids(&obj(vec![("Response", obj(vec![]))])) {
        Err(BungieError::ValidationError { field, message }) => {
            assert_eq!(field, "activities");
            assert_eq!(message, "Missing activities field in activities response");
        }
        other => panic!("unexpected {other:?}"),
    }
    match activity_instance_ids(&obj(vec![])) {
        Err(BungieError::ValidationError { field, message }) => {
            assert_eq!(field, "Response");
            assert_eq!(message, "Missing Response field in activities response");
        }
        other => panic!("unexpected {other:?}"),
    }
}

#[test]
fn carnage_report_needs_a_response() {
    let json = obj(vec![("Response", number(5))]);
    assert!(matches!(carnage_report_payload(&json), Ok(JsonValue::Number(JsonNumber::PosInt(5)))));
    match carnage_report_payload(&obj(vec![])) {
        Err(BungieError::ValidationError { field, message }) => {
            assert_eq!(field, "Response");
            assert_eq!(message, "Missing Response field in carnage report response");
        }
        other => panic!("unexpected {other:?}"),
    }
    match carnage_report_parse_error("missing field `period`") {
        BungieError::ValidationError { field, message } => {
            assert_eq!(field, "PostGameCarnageReport");
            assert_eq!(message, "Failed to parse carnage report: missing field `period`");
        }
        other => panic!("unexpected {other:?}"),
    }
}

#[test]
fn profile_gives_character_ids() {
    let json = obj(vec![(
        "Response",
        obj(vec![(
            "characters",
            obj(vec![("data", obj(vec![("111", obj(vec![])), ("222", obj(vec![]))]))]),
        )]),
    )]);
    assert_eq!(character_ids(&json), vec!["111".to_string(), "222".to_string()]);
    assert!(character_ids(&obj(vec![("Response", obj(vec![]))])).is_empty());
    let json = obj(vec![("Response", obj(vec![("characters", obj(vec![("data", JsonValue::Array(vec![]))]))]))]);
    assert!(character_ids(&json).is_empty());
}

#[test]
fn json_numbers_as_i64() {
    assert_eq!(number(-5).as_i64(), Some(-5));
    assert_eq!(JsonValue::Number(JsonNumber::PosInt(u64::MAX)).as_i64(), None);
    assert_eq!(JsonValue::Number(JsonNumber::Float("1.5".to_string())).as_i64(), None);
    assert_eq!(text("5").as_i64(), None);
    assert_eq!(text("x").as_str(), Some("x"));
    assert!(obj(vec![("a", number(1))]).get("b").is_none());
}

#[test]
fn api_answers_are_read_in_order() {
    match read_api_response(Some("0"), Some("9"), true, "not json") {
        Err(BungieError::RateLimitExceeded { retry_after }) => assert_eq!(retry_after, 9),
        other => panic!("unexpected {other:?}"),
    }
    assert!(matches!(read_api_response(None, None, true, "not json"), Err(BungieError::JsonError(_))));
    assert!(matches!(read_api_response(None, None, false, "{"), Err(BungieError::JsonError(_))));
    match read_api_response(Some("3"), Some("9"), false, r#"{"Message":"Bad","ErrorCode":7}"#) {
        Err(BungieError::ApiError { message, error_code }) => {
            assert_eq!(message, "Bad");
            assert_eq!(error_code, 7);
        }
        other => panic!("unexpected {other:?}"),
    }
    let json = read_api_response(None, None, true, r#"{"Response":{"a":[1,-2,"x",null,true]}}"#).unwrap();
    let items = json.get("Response").unwrap().get("a").unwrap().as_array().unwrap();
    assert_eq!(items.len(), 5);
    assert_eq!(items[0].as_i64(), Some(1));
    assert_eq!(items[1].as_i64(), Some(-2));
    assert_eq!(items[2].as_str(), Some("x"));
    assert!(matches!(items[3], JsonValue::Null));
    assert!(matches!(items[4], JsonValue::Bool(true)));
    match read_api_response(None, None, true, "1.5").unwrap() {
        JsonValue::Number(JsonNumber::Float(t)) => assert_eq!(t, "1.5"),
        other => panic!("unexpected {other:?}"),
    }
}

#[test]
fn http_client_is_built_with_the_timeout_and_user_agent() {
    let mut c = BungieApiConfig::with_api_key("k".to_string());
    c.timeout = Duration::from_secs(7);
    let (timeout, agent) = http_client_settings(&c);
    assert_eq!(timeout, Duration::from_secs(7));
    assert_eq!(agent, "bungie-pgcr-analyzer/0.1.0");
}
