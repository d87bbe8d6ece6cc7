use petpulse::alert::{AlertContext, AlertPayload, AlertType};
use petpulse::escalation::{
    Alert, Decision, EnvironmentAction, Intervention, NotificationLevel, OwnerContact,
    decide_intervention, final_severity, monitoring_outcome, plan_alert, recent_same_type_count,
    record_critical_notification, record_intervention, record_outcome, resolve_owner_contact,
    video_link,
};
use petpulse::video::{VideoJob, VideoStatus};

const NOW: i64 = 1769947200; // 2026-02-01T12:00:00Z

fn payload(pet_id: &str, alert_type: AlertType, severity_level: Option<&str>) -> AlertPayload {
    AlertPayload {
        alert_id: "a3f1c9e2-0000-4000-8000-000000000001".to_string(),
        pet_id: pet_id.to_string(),
        alert_type,
        severity: "low".to_string(),
        message: Some("Pet is pacing".to_string()),
        video_id: Some("936da01f-9abd-4d9d-80c7-02af85c822a8".to_string()),
        timestamp: None,
        context: None,
        title: None,
        state: None,
        severity_level: severity_level.map(|s| s.to_string()),
        critical_indicators: None,
        recommended_actions: None,
    }
}

fn stored_alert(pet_id: i32, alert_type: AlertType, created_at: i64) -> Alert {
    let plan = plan_alert(payload(&pet_id.to_string(), alert_type, None), 0, created_at);
    plan.alert
}

#[test]
fn scenario_a_first_pacing_alert_dims_lights() {
    let plan = plan_alert(payload("7", AlertType::Pacing, None), 0, NOW);
    assert_eq!(plan.current_count, 1);
    // severity_level absent defaults to "low"
    assert_eq!(plan.alert.severity_level, "low");
    assert_eq!(
        plan.decision.intervention,
        Intervention::AdjustEnvironment(EnvironmentAction::DimLights)
    );
    assert_eq!(plan.decision.side_action, None);
    assert!(!plan.is_critical);
    assert!(plan.quick_action_severity.is_none());
    assert!(plan.monitor);
}

#[test]
fn scenario_b_fourth_alert_notifies_and_plays_owner_voice() {
    let plan = plan_alert(payload("7", AlertType::Pacing, None), 3, NOW);
    assert_eq!(plan.current_count, 4);
    assert_eq!(
        plan.decision.intervention,
        Intervention::NotifyUser(NotificationLevel::Standard)
    );
    assert_eq!(plan.decision.side_action, Some(Intervention::PlayOwnerVoice));
}

#[test]
fn scenario_c_critical_skips_monitoring_and_awaits_acknowledgement() {
    let plan = plan_alert(payload("7", AlertType::Pacing, Some("critical")), 0, NOW);
    assert!(plan.is_critical);
    assert!(!plan.monitor);
    assert_eq!(
        plan.decision.intervention,
        Intervention::NotifyUser(NotificationLevel::Critical)
    );
    assert_eq!(plan.quick_action_severity.as_deref(), Some("critical"));
    assert_eq!(plan.alert.severity, "critical");

    let mut alert = plan.alert;
    record_critical_notification(&mut alert, NOW + 5);
    assert!(alert.notification_sent);
    assert_eq!(
        alert.notification_channels,
        Some(vec!["email".to_string(), "sms".to_string()])
    );
    assert_eq!(alert.user_notified_at, Some(NOW + 5));
    assert_eq!(alert.intervention_action.as_deref(), Some("CRITICAL_NOTIFICATION_SENT"));
    assert_eq!(alert.outcome.as_deref(), Some("Waiting for user acknowledgement"));
}

#[test]
fn fifth_alert_is_forced_to_high_unless_critical() {
    let plan = plan_alert(payload("7", AlertType::Pacing, Some("low")), 4, NOW);
    assert_eq!(plan.current_count, 5);
    assert_eq!(plan.alert.severity_level, "high");
    assert_eq!(plan.alert.severity, "high");
    assert_eq!(plan.quick_action_severity.as_deref(), Some("high"));
    assert!(plan.monitor);

    let critical = plan_alert(payload("7", AlertType::Pacing, Some("critical")), 4, NOW);
    assert_eq!(critical.alert.severity_level, "critical");
    assert!(critical.is_critical);
}

#[test]
fn severity_override_applies_from_count_five() {
    assert_eq!(final_severity(&"low".to_string(), 4), "low");
    assert_eq!(final_severity(&"low".to_string(), 5), "high");
    assert_eq!(final_severity(&"medium".to_string(), 9), "high");
    assert_eq!(final_severity(&"critical".to_string(), 7), "critical");
}

#[test]
fn recent_count_window_and_reset() {
    let history = vec![
        stored_alert(7, AlertType::Pacing, NOW - 3599), // inside the hour
        stored_alert(7, AlertType::Pacing, NOW - 100),  // inside
        stored_alert(7, AlertType::Pacing, NOW - 3601), // fell out
        stored_alert(7, AlertType::Vocalization, NOW - 50), // other type
        stored_alert(8, AlertType::Pacing, NOW - 50),   // other pet
    ];
    assert_eq!(recent_same_type_count(&history, 7, AlertType::Pacing, NOW), 2);

    // Once the hour window has emptied, the running count is effectively 1.
    let later = NOW + 7200;
    assert_eq!(recent_same_type_count(&history, 7, AlertType::Pacing, later), 0);
    let plan = plan_alert(payload("7", AlertType::Pacing, None), 0, later);
    assert_eq!(plan.current_count, 1);
}

#[test]
fn recent_count_is_monotone_within_the_hour() {
    // Each alert within one rolling hour sees a count at least one above
    // the previous alert's.
    let mut history: Vec<Alert> = Vec::new();
    let mut previous_count = 0u64;
    for k in 0..5 {
        let t = NOW + 60 * k;
        let prior = recent_same_type_count(&history, 7, AlertType::Pacing, t);
        let count = prior + 1;
        assert!(count >= previous_count + 1, "count dropped at alert {k}");
        previous_count = count;
        history.push(stored_alert(7, AlertType::Pacing, t));
    }
    assert_eq!(previous_count, 5);
}

#[test]
fn intervention_table_by_count_and_type() {
    let d = |ty, count| decide_intervention(ty, count, "low");
    assert_eq!(
        d(AlertType::Restlessness, 2).intervention,
        Intervention::AdjustEnvironment(EnvironmentAction::DimLights)
    );
    assert_eq!(d(AlertType::Vocalization, 1).intervention, Intervention::PlayCalmingMusic);
    assert_eq!(d(AlertType::AttentionSeeking, 2).intervention, Intervention::PlayCalmingMusic);
    assert_eq!(d(AlertType::UnusualBehavior, 2).intervention, Intervention::PlayCalmingMusic);
    assert_eq!(d(AlertType::Comfort, 1).intervention, Intervention::LogOnly);
    assert_eq!(d(AlertType::Pacing, 3).intervention, Intervention::PlayOwnerVoice);
    assert_eq!(d(AlertType::Restlessness, 3).intervention, Intervention::PlayOwnerVoice);
    assert_eq!(d(AlertType::Vocalization, 3).intervention, Intervention::DispenseTreat);
    assert_eq!(d(AlertType::AttentionSeeking, 3).intervention, Intervention::DispenseTreat);
    assert_eq!(d(AlertType::Comfort, 3).intervention, Intervention::PlayOwnerVoice);
    assert_eq!(
        d(AlertType::Pacing, 5).intervention,
        Intervention::NotifyUser(NotificationLevel::Standard)
    );
    assert_eq!(d(AlertType::Pacing, 5).side_action, None);
    assert_eq!(
        decide_intervention(AlertType::Comfort, 1, "critical"),
        Decision {
            intervention: Intervention::NotifyUser(NotificationLevel::Critical),
            side_action: None,
        }
    );
}

#[test]
fn severity_level_resolves_from_context() {
    let mut p = payload("7", AlertType::Pacing, None);
    p.context = Some(AlertContext {
        mood: None,
        description: None,
        severity_level: Some("high".to_string()),
        critical_indicators: Some(vec!["ind".to_string()]),
        recommended_actions: None,
    });
    let plan = plan_alert(p, 0, NOW);
    assert_eq!(plan.alert.severity_level, "high");
    assert_eq!(plan.alert.critical_indicators, Some(vec!["ind".to_string()]));
    assert_eq!(plan.alert.recommended_actions, None);
    assert_eq!(plan.quick_action_severity.as_deref(), Some("high"));
}

#[test]
fn pet_id_parses_with_fallback_one() {
    assert_eq!(plan_alert(payload("42", AlertType::Pacing, None), 0, NOW).alert.pet_id, 42);
    assert_eq!(plan_alert(payload("-5", AlertType::Pacing, None), 0, NOW).alert.pet_id, -5);
    assert_eq!(plan_alert(payload("abc", AlertType::Pacing, None), 0, NOW).alert.pet_id, 1);
    assert_eq!(
        plan_alert(payload("99999999999", AlertType::Pacing, None), 0, NOW).alert.pet_id,
        1
    );
}

#[test]
fn intervention_is_recorded_with_its_label() {
    let plan = plan_alert(payload("7", AlertType::Pacing, None), 0, NOW);
    let mut alert = plan.alert;
    record_intervention(&mut alert, &plan.decision, NOW + 1);
    assert_eq!(alert.intervention_action.as_deref(), Some("AdjustEnvironment(DimLights)"));
    assert_eq!(alert.intervention_time, Some(NOW + 1));

    let critical = decide_intervention(AlertType::Pacing, 1, "critical");
    record_intervention(&mut alert, &critical, NOW + 2);
    assert_eq!(alert.intervention_action.as_deref(), Some("NotifyUser(Critical)"));
}

#[test]
fn monitoring_outcome_narratives() {
    let mut job = VideoJob::new("v".to_string(), 7, "gs://b/k".to_string(), NOW);
    job.status = VideoStatus::Processed;
    job.is_unusual = false;
    assert_eq!(
        monitoring_outcome(&Some(job.clone())),
        "Resolution: Pet behavior returned to normal. Alert resolved."
    );
    job.is_unusual = true;
    assert_eq!(
        monitoring_outcome(&Some(job)),
        "Alert persists: Unusual behavior continues. May trigger escalation on next alert."
    );
    assert_eq!(
        monitoring_outcome(&None),
        "No new video data available for resolution check."
    );

    let plan = plan_alert(payload("7", AlertType::Pacing, None), 0, NOW);
    let mut alert = plan.alert;
    record_outcome(&mut alert, monitoring_outcome(&None));
    assert_eq!(
        alert.outcome.as_deref(),
        Some("No new video data available for resolution check.")
    );
}

#[test]
fn owner_contact_falls_back_to_defaults() {
    let resolved = resolve_owner_contact(None, "owner@example.com".to_string());
    assert_eq!(resolved.email, "owner@example.com");
    assert_eq!(resolved.name, "Pet Owner");
    assert_eq!(resolved.pet_name, "Your Pet");

    let stored = OwnerContact {
        email: "a@b.c".to_string(),
        name: "Ada".to_string(),
        pet_name: "Rex".to_string(),
    };
    let resolved = resolve_owner_contact(Some(stored), "owner@example.com".to_string());
    assert_eq!(resolved.name, "Ada");
    assert_eq!(resolved.pet_name, "Rex");
}

#[test]
fn video_links_point_at_the_clip_or_the_dashboard() {
    assert_eq!(
        video_link(&Some("abc".to_string())),
        "https://petpulse.dashboard/videos/abc"
    );
    assert_eq!(video_link(&None), "https://petpulse.dashboard");
}

#[test]
fn notification_levels_have_severity_headings() {
    assert_eq!(NotificationLevel::Critical.severity_label(), "CRITICAL");
    assert_eq!(NotificationLevel::Standard.severity_label(), "HIGH");
}

#[test]
fn alert_type_labels_are_snake_case() {
    assert_eq!(AlertType::Pacing.to_string(), "pacing");
    assert_eq!(AlertType::PositionChanges.to_string(), "position_changes");
    assert_eq!(AlertType::UnusualBehavior.to_string(), "unusual_behavior");
    assert_eq!(AlertType::QueueDepthHigh.to_string(), "queue_depth_high");
}
