use petpulse::notify::{
    NotificationStats, NotificationTemplates, build_alert_email_payload, critical_email_subject,
    increment_critical_alerts, increment_notifications_failed, increment_notifications_sent,
};
use petpulse::quick_actions::{
    CreateQuickActionRequest, EmergencyContact, QuickActionStatus, build_quick_action,
    build_quick_action_from_request, contacts_needing_action, fallback_message, generation_prompt,
    mark_sent, quick_action_message,
};

fn contact(id: i32, is_active: bool) -> EmergencyContact {
    EmergencyContact {
        id,
        user_id: 1,
        contact_type: "neighbor".to_string(),
        name: format!("Contact {id}"),
        phone: "+15550000000".to_string(),
        email: None,
        priority: 1,
        is_active,
    }
}

#[test]
fn sms_template_uppercases_severity_and_links_video() {
    let sms = NotificationTemplates::critical_alert_sms(
        "Rex",
        "high",
        "Limping on the left paw",
        "https://petpulse.dashboard/videos/v1",
    );
    assert_eq!(
        sms,
        "\u{1F6A8} PetPulse ALERT: Rex - Limping on the left paw\nSeverity: HIGH\nView: https://petpulse.dashboard/videos/v1"
    );
}

#[test]
fn sms_template_truncates_long_descriptions() {
    let description = "a".repeat(60);
    let sms = NotificationTemplates::critical_alert_sms("Rex", "critical", &description, "link");
    let expected_desc = format!("{}...", "a".repeat(47));
    assert!(sms.contains(&expected_desc));
    assert!(!sms.contains(&"a".repeat(48)));

    let exactly_fifty = "b".repeat(50);
    let sms = NotificationTemplates::critical_alert_sms("Rex", "critical", &exactly_fifty, "link");
    assert!(sms.contains(&exactly_fifty));
}

#[test]
fn email_template_carries_all_sections() {
    let email = NotificationTemplates::critical_alert_email(
        "Rex",
        "critical",
        "Labored breathing observed",
        "2026-02-01 12:00:00",
        &vec!["labored breathing".to_string(), "lethargy".to_string()],
        &vec!["call the vet".to_string()],
        "https://petpulse.dashboard/videos/v1",
    );
    assert!(email.contains("SEVERITY: CRITICAL"));
    assert!(email.contains("Immediate Attention Required for Rex"));
    assert!(email.contains("Labored breathing observed"));
    assert!(email.contains("<strong>Time:</strong> 2026-02-01 12:00:00"));
    assert!(email.contains("<li>labored breathing</li><li>lethargy</li>"));
    assert!(email.contains("<li>call the vet</li>"));
    assert!(email.contains("href=\"https://petpulse.dashboard/videos/v1\""));
    assert!(email.starts_with("\n<!DOCTYPE html>"));
    assert!(email.trim_end().ends_with("</html>"));
}

#[test]
fn email_subject_names_the_pet() {
    assert_eq!(
        critical_email_subject("Rex"),
        "\u{1F6A8} CRITICAL ALERT: Rex needs attention!"
    );
}

#[test]
fn email_payload_message_lists_indicators_and_actions() {
    let payload = build_alert_email_payload(
        "owner@example.com",
        "Rex",
        "CRITICAL",
        "Labored breathing",
        &vec!["breathing".to_string(), "lethargy".to_string()],
        &vec![],
    );
    assert_eq!(payload.email, "owner@example.com");
    assert_eq!(payload.pet_name, "Rex");
    assert_eq!(payload.severity, "CRITICAL");
    assert_eq!(payload.id, "latest");
    assert_eq!(payload.title.as_deref(), Some("Critical Alert for Rex"));
    assert_eq!(
        payload.message,
        "Labored breathing\n\nIndicators: [\"breathing\", \"lethargy\"]\n\nActions: []"
    );
}

#[test]
fn stats_track_channels_separately() {
    let mut stats = NotificationStats::new();
    increment_notifications_sent(&mut stats, "email");
    increment_notifications_sent(&mut stats, "email");
    increment_notifications_sent(&mut stats, "sms");
    increment_notifications_sent(&mut stats, "pigeon");
    increment_notifications_failed(&mut stats, "sms");
    assert_eq!(stats.email_sent, 2);
    assert_eq!(stats.sms_sent, 1);
    assert_eq!(stats.other_sent, 1);
    assert_eq!(stats.sms_failed, 1);
    assert_eq!(stats.email_failed, 0);

    increment_critical_alerts(&mut stats, 7);
    increment_critical_alerts(&mut stats, 7);
    increment_critical_alerts(&mut stats, 9);
    assert_eq!(stats.critical_alert_count(), 3);
    assert_eq!(stats.critical_pets, vec![7, 7, 9]);
}

#[test]
fn quick_action_generation_skips_pending_and_inactive_contacts() {
    let contacts = vec![contact(1, true), contact(2, true), contact(3, false), contact(4, true)];
    let pending = vec![2, 9];
    let selected = contacts_needing_action(&contacts, &pending);
    let ids: Vec<i32> = selected.iter().map(|c| c.id).collect();
    // Contact 2 already has a pending action, contact 3 is inactive.
    assert_eq!(ids, vec![1, 4]);
}

#[test]
fn quick_action_generation_with_no_contacts_or_all_pending() {
    assert!(contacts_needing_action(&Vec::new(), &vec![1]).is_empty());
    let contacts = vec![contact(1, true)];
    assert!(contacts_needing_action(&contacts, &vec![1]).is_empty());
}

#[test]
fn fallback_message_is_the_deterministic_template() {
    assert_eq!(
        fallback_message("Rex"),
        "{\"sms_text\": \"PetPulse Alert: Rex needs attention.\", \"email_body\": \"Please check on Rex.\"}"
    );
    assert_eq!(
        quick_action_message(None, "Rex"),
        fallback_message("Rex")
    );
    assert_eq!(
        quick_action_message(Some("generated".to_string()), "Rex"),
        "generated"
    );
}

#[test]
fn generation_prompt_names_contact_and_severity() {
    let prompt = generation_prompt("Rex", "Ada", "neighbor", "high");
    assert_eq!(
        prompt,
        "Write a concise, urgent message from a pet monitoring system regarding Rex. The recipient is Ada, who is a neighbor. Severity: high. The pet is showing unusual behavior. Generate a JSON object with two fields: 'sms_text' (short, <160 chars) and 'email_body' (polite, informative). Do not use markdown."
    );
}

#[test]
fn quick_actions_start_pending_then_go_sent() {
    let alert_id = "a3f1c9e2-0000-4000-8000-000000000001".to_string();
    let mut action = build_quick_action(&alert_id, 4, "check on Rex".to_string(), 100);
    assert_eq!(action.id.len(), 36);
    assert_eq!(action.status, QuickActionStatus::Pending);
    assert_eq!(action.action_type, "message");
    assert!(action.sent_at.is_none());

    mark_sent(&mut action, 105);
    assert_eq!(action.status, QuickActionStatus::Sent);
    assert_eq!(action.sent_at, Some(105));
    assert_eq!(action.status.to_string(), "sent");
}

#[test]
fn quick_action_from_request_carries_clips() {
    let alert_id = "a3f1c9e2-0000-4000-8000-000000000001".to_string();
    let request = CreateQuickActionRequest {
        emergency_contact_id: 9,
        action_type: "call".to_string(),
        message: "please call".to_string(),
        video_clip_ids: Some(vec!["v1".to_string()]),
    };
    let action = build_quick_action_from_request(&alert_id, request, 50);
    assert_eq!(action.emergency_contact_id, 9);
    assert_eq!(action.action_type, "call");
    assert_eq!(action.video_clips, Some(vec!["v1".to_string()]));
    assert_eq!(action.status, QuickActionStatus::Pending);
    assert_eq!(action.created_at, 50);
}
