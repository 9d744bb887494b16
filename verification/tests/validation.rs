use hotspot_core::config::{get_public_routes, is_public_path, AppConfig, ConfigService};
use hotspot_core::constants::{all_event_types, all_roles, is_valid_event_type, is_valid_role};
use hotspot_core::jwt::{extract_bearer_token, is_temp_user, TokenClaims};
use hotspot_core::response::{success_response, success_response_with_msg, AppError};
use hotspot_core::strutil::{str_eq, str_starts_with};
use hotspot_core::validators::checkin_validator::{validate_checkin_content, validate_checkin_tags};
use hotspot_core::validators::common_validator::{
    validate_location_name, validate_pagination, validate_string_length,
};
use hotspot_core::validators::group_validator::{
    validate_group_creation_request, validate_group_name, validate_group_password,
    validate_group_role,
};
use hotspot_core::validators::message_validator::{
    validate_conversation_id, validate_message_content, validate_recipient_id,
};
use hotspot_core::validators::user_validator::{
    validate_nickname, validate_online_status, validate_user_registration,
};

#[test]
fn string_helpers_compare_by_characters() {
    assert!(str_eq("abc", "abc"));
    assert!(!str_eq("abc", "abd"));
    assert!(!str_eq("abc", "abcd"));
    assert!(str_starts_with("abcdef", "abc"));
    assert!(!str_starts_with("ab", "abc"));
    assert!(str_starts_with("abc", ""));
}

#[test]
fn roles_and_event_types_are_closed_vocabularies() {
    assert_eq!(all_roles(), vec!["member", "admin", "owner"]);
    assert!(is_valid_role("admin"));
    assert!(!is_valid_role("superuser"));
    assert_eq!(all_event_types().len(), 6);
    assert!(is_valid_event_type("transfer"));
    assert!(!is_valid_event_type("explode"));
}

#[test]
fn public_routes_gate_authentication() {
    assert_eq!(get_public_routes().len(), 5);
    assert!(is_public_path("/api/v1/user/login"));
    assert!(is_public_path("/ws/chat"));
    assert!(!is_public_path("/api/v1/checkin/create"));
}

#[test]
fn config_round_trips_through_the_service() {
    let config = AppConfig::new(
        String::from("local-test-signing-key"),
        String::from("3600"),
        String::from("postgres://db"),
        Some(String::from("redis://cache")),
        8080,
    );
    let service = ConfigService::new(config);
    let got = service.get_config();
    assert_eq!(got.jwt_expires_in, "3600");
    assert_eq!(got.database_url, "postgres://db");
    assert_eq!(got.redis_url.as_deref(), Some("redis://cache"));
    assert_eq!(got.server_port, 8080);
}

#[test]
fn temp_user_flag_is_read_from_the_claims() {
    let temp = TokenClaims { sub: 1, iat: 0, exp: 10, temp: true };
    let regular = TokenClaims { sub: 2, iat: 0, exp: 10, temp: false };
    assert!(is_temp_user(&temp));
    assert!(!is_temp_user(&regular));
}

#[test]
fn bearer_tokens_are_read_from_the_authorization_header() {
    assert_eq!(extract_bearer_token("Bearer abc.def").as_deref(), Some("abc.def"));
    assert_eq!(extract_bearer_token("Bearer   abc  ").as_deref(), Some("abc"));
    assert!(extract_bearer_token("Bearer ").is_none());
    assert!(extract_bearer_token("Bearer    ").is_none());
    assert!(extract_bearer_token("Basic abc").is_none());
    assert!(extract_bearer_token("").is_none());
}

#[test]
fn error_codes_follow_the_taxonomy() {
    assert_eq!(AppError::BadRequest(String::from("x")).code(), 1000);
    assert_eq!(AppError::Unauthorized(String::from("x")).code(), 1002);
    assert_eq!(AppError::Forbidden(String::from("x")).code(), 1003);
    assert_eq!(AppError::NotFound(String::from("x")).code(), 1004);
    assert_eq!(AppError::Conflict(String::from("x")).code(), 1005);
    assert_eq!(AppError::InternalServerError(String::from("x")).code(), 5000);
    let body = AppError::NotFound(String::from("missing")).into_response_body();
    assert_eq!(body.code, 1004);
    assert_eq!(body.msg, "missing");
    assert!(body.data.is_none());
}

#[test]
fn success_responses_carry_code_zero() {
    let r = success_response(5i64);
    assert_eq!(r.code, 0);
    assert_eq!(r.msg, "success");
    assert_eq!(r.data, Some(5));
    let r = success_response_with_msg(true, "created");
    assert_eq!(r.code, 0);
    assert_eq!(r.msg, "created");
}

#[test]
fn checkin_content_must_be_one_to_a_thousand_characters() {
    assert!(validate_checkin_content("a").is_ok());
    assert!(validate_checkin_content(&"a".repeat(1000)).is_ok());
    assert!(matches!(validate_checkin_content(""), Err(AppError::BadRequest(_))));
    assert!(validate_checkin_content(&"a".repeat(1001)).is_err());
}

#[test]
fn checkin_tags_are_limited_in_count_length_and_alphabet() {
    let ok = vec![String::from("food"), String::from("night walk"), String::from("c#_x-1")];
    assert!(validate_checkin_tags(&ok).is_ok());
    assert!(validate_checkin_tags(&[]).is_ok());
    let too_many: Vec<String> = (0..11).map(|i| format!("t{}", i)).collect();
    assert!(too_many.len() == 11 && validate_checkin_tags(&too_many).is_err());
    assert!(validate_checkin_tags(&[String::new()]).is_err());
    assert!(validate_checkin_tags(&[String::from("exclamation!")]).is_err());
    assert!(validate_checkin_tags(&[String::from("x").repeat(21)]).is_err());
}

#[test]
fn pagination_needs_a_cursor_and_a_sane_page_size() {
    assert!(validate_pagination(0, 20, 50).is_ok());
    assert!(matches!(validate_pagination(-1, 20, 50), Err(AppError::BadRequest(_))));
    assert!(validate_pagination(0, 0, 50).is_err());
    assert!(validate_pagination(0, 51, 50).is_err());
}

#[test]
fn location_name_and_generic_length_checks() {
    assert!(validate_location_name("park").is_ok());
    assert!(validate_location_name("").is_err());
    assert!(validate_location_name(&"x".repeat(101)).is_err());
    assert!(validate_string_length("abc", "field", 1, 5).is_ok());
    match validate_string_length("abcdef", "field", 1, 5) {
        Err(AppError::BadRequest(msg)) => assert_eq!(msg, "length out of range: field"),
        other => panic!("expected a length error, got {:?}", other),
    }
}

#[test]
fn group_fields_have_their_own_bounds() {
    assert!(validate_group_creation_request(None).is_ok());
    assert!(validate_group_creation_request(Some(&"d".repeat(1000))).is_ok());
    assert!(validate_group_creation_request(Some(&"d".repeat(1001))).is_err());
    assert!(validate_group_name("ab").is_ok());
    assert!(validate_group_name("a").is_err());
    assert!(validate_group_name(&"a".repeat(51)).is_err());
    assert!(validate_group_password(None).is_ok());
    assert!(validate_group_password(Some("1234")).is_ok());
    assert!(validate_group_password(Some("123")).is_err());
    assert!(validate_group_role("owner").is_ok());
    assert!(validate_group_role("pharaoh").is_err());
}

#[test]
fn message_content_depends_on_its_declared_type() {
    assert!(validate_message_content("hello", "text").is_ok());
    assert!(validate_message_content("", "text").is_err());
    assert!(validate_message_content(&"a".repeat(2001), "text").is_err());
    assert!(validate_message_content("https://img.example/x.png", "image").is_ok());
    assert!(validate_message_content("ftp://img.example/x.png", "image").is_err());
    assert!(validate_message_content("12.5,55.1", "location").is_ok());
    assert!(validate_message_content("", "location").is_err());
    assert!(validate_message_content("hello", "video").is_err());
}

#[test]
fn conversation_and_recipient_ids_are_checked() {
    let id = String::from("conv-1");
    assert!(validate_conversation_id(Some(&id)).is_ok());
    assert!(validate_conversation_id(Some(&String::new())).is_err());
    assert!(validate_conversation_id(None).is_err());
    assert_eq!(validate_recipient_id("123").unwrap(), 123);
    assert_eq!(validate_recipient_id("-7").unwrap(), -7);
    assert!(matches!(validate_recipient_id("12x"), Err(AppError::BadRequest(_))));
    assert!(validate_recipient_id("").is_err());
}

#[test]
fn registration_checks_login_id_password_and_nickname() {
    assert!(validate_user_registration("alice_1", Some("secret1"), Some("Alice")).is_ok());
    assert!(validate_user_registration("", Some("secret1"), None).is_err());
    assert!(validate_user_registration("bad space", Some("secret1"), None).is_err());
    assert!(validate_user_registration("alice", Some("short"), None).is_err());
    assert!(validate_user_registration("alice", None, Some("")).is_err());
    assert!(validate_user_registration(&"a".repeat(51), None, None).is_err());
}

#[test]
fn nickname_and_online_status_bounds() {
    assert!(validate_nickname("Alice").is_ok());
    assert!(validate_nickname("").is_err());
    assert!(validate_nickname(&"n".repeat(51)).is_err());
    assert!(validate_online_status("online").is_ok());
    assert!(validate_online_status("busy").is_ok());
    assert!(matches!(validate_online_status("sleeping"), Err(AppError::BadRequest(_))));
}
