use petpulse::alert::{AlertPayload, AlertType};
use petpulse::api::{
    AcknowledgeRequest, DigestPaginationParams, PaginationParams, acknowledge_alert,
    acknowledgment_duration_secs, default_digest_page, default_digest_page_size, default_page,
    default_page_size, resolve_alert,
};
use petpulse::escalation::plan_alert;
use petpulse::text::{i32_to_string, i64_to_string, join_strings, parse_i32, str_eq, u64_to_string};

fn payload() -> AlertPayload {
    AlertPayload {
        alert_id: "a3f1c9e2-0000-4000-8000-000000000001".to_string(),
        pet_id: "7".to_string(),
        alert_type: AlertType::Pacing,
        severity: "low".to_string(),
        message: None,
        video_id: None,
        timestamp: None,
        context: None,
        title: None,
        state: None,
        severity_level: None,
        critical_indicators: None,
        recommended_actions: None,
    }
}

#[test]
fn pagination_defaults_are_first_page_of_ten() {
    assert_eq!(default_page(), 1);
    assert_eq!(default_page_size(), 10);
    assert_eq!(default_digest_page(), 1);
    assert_eq!(default_digest_page_size(), 10);

    let params = PaginationParams::default();
    assert_eq!(params.page, 1);
    assert_eq!(params.page_size, 10);
    assert!(params.severity_level.is_none());

    let digest_params = DigestPaginationParams::default();
    assert_eq!(digest_params.page, 1);
    assert_eq!(digest_params.page_size, 10);
}

#[test]
fn page_index_guards_page_zero() {
    let mut params = PaginationParams::default();
    assert_eq!(params.page_index(), 0);
    params.page = 3;
    assert_eq!(params.page_index(), 2);
    params.page = 0;
    assert_eq!(params.page_index(), 0);

    let mut digest_params = DigestPaginationParams::default();
    digest_params.page = 0;
    assert_eq!(digest_params.page_index(), 0);
}

#[test]
fn acknowledgement_records_response_and_outcome() {
    let plan = plan_alert(payload(), 0, 1000);
    let mut alert = plan.alert;
    acknowledge_alert(
        &mut alert,
        AcknowledgeRequest { response: "on my way".to_string() },
        1500,
    );
    assert_eq!(alert.user_acknowledged_at, Some(1500));
    assert_eq!(alert.user_response.as_deref(), Some("on my way"));
    assert_eq!(alert.outcome.as_deref(), Some("Acknowledged by User"));
    assert_eq!(acknowledgment_duration_secs(&alert, 1500), 500);

    resolve_alert(&mut alert);
    assert_eq!(alert.outcome.as_deref(), Some("Resolved"));
    // Identity and creation stay untouched.
    assert_eq!(alert.created_at, 1000);
}

#[test]
fn decimal_rendering_is_exact() {
    assert_eq!(u64_to_string(0), "0");
    assert_eq!(u64_to_string(907), "907");
    assert_eq!(u64_to_string(u64::MAX), "18446744073709551615");
    assert_eq!(i64_to_string(-42), "-42");
    assert_eq!(i64_to_string(i64::MIN), "-9223372036854775808");
    assert_eq!(i32_to_string(-1), "-1");
    assert_eq!(i32_to_string(i32::MIN), "-2147483648");
}

#[test]
fn integer_parsing_matches_shape_and_range() {
    assert_eq!(parse_i32("0"), Some(0));
    assert_eq!(parse_i32("+42"), Some(42));
    assert_eq!(parse_i32("-2147483648"), Some(i32::MIN));
    assert_eq!(parse_i32("2147483647"), Some(i32::MAX));
    assert_eq!(parse_i32("2147483648"), None);
    assert_eq!(parse_i32("-2147483649"), None);
    assert_eq!(parse_i32("0000000017"), Some(17));
    assert_eq!(parse_i32(""), None);
    assert_eq!(parse_i32("-"), None);
    assert_eq!(parse_i32("1a"), None);
    assert_eq!(parse_i32(" 1"), None);
}

#[test]
fn string_helpers_behave() {
    assert!(str_eq("abc", "abc"));
    assert!(!str_eq("abc", "abd"));
    assert!(!str_eq("abc", "ab"));
    assert!(str_eq("", ""));
    assert_eq!(join_strings(&vec![], ", "), "");
    assert_eq!(join_strings(&vec!["a".to_string()], ", "), "a");
    assert_eq!(
        join_strings(&vec!["a".to_string(), "b".to_string(), "c".to_string()], ", "),
        "a, b, c"
    );
}
