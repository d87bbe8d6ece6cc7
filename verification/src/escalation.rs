//! The alert escalation engine: counts same-type alerts for a pet over the
//! trailing hour, forces severity up on frequent recurrence, decides an
//! intervention from a priority table, and tracks the critical-notification
//! and monitoring bookkeeping on the persisted alert row.

use vstd::prelude::*;
use crate::alert::{
    AlertPayload, AlertType, resolve_critical_indicators, resolve_recommended_actions,
    resolve_severity_level, spec_resolved_indicators, spec_resolved_actions,
    spec_resolved_severity_level,
};
use crate::ids::fresh_uuid;
use crate::text::{clone_opt_string, parse_i32, spec_int_text_shape, spec_int_text_val, str_eq};
use crate::video::VideoJob;

verus! {

/// The intervention the engine chooses for an alert.
#[derive(Clone, Copy, Debug, PartialEq, Eq, Structural)]
pub enum Intervention {
    PlayCalmingMusic,
    PlayOwnerVoice,
    DispenseTreat,
    AdjustEnvironment(EnvironmentAction),
    NotifyUser(NotificationLevel),
    LogOnly,
}

/// An environment adjustment an intervention can perform.
#[derive(Clone, Copy, Debug, PartialEq, Eq, Structural)]
pub enum EnvironmentAction {
    DimLights,
    WarmTemperature,
}

/// How urgently the user is notified.
#[derive(Clone, Copy, Debug, PartialEq, Eq, Structural)]
pub enum NotificationLevel {
    Standard,
    Critical,
}

impl Intervention {
    /// The label an intervention is persisted under.
    pub open spec fn spec_label(self) -> Seq<char> {
        match self {
            Intervention::PlayCalmingMusic => "PlayCalmingMusic"@,
            Intervention::PlayOwnerVoice => "PlayOwnerVoice"@,
            Intervention::DispenseTreat => "DispenseTreat"@,
            Intervention::AdjustEnvironment(EnvironmentAction::DimLights) => (
            "AdjustEnvironment(DimLights)"@),
            Intervention::AdjustEnvironment(EnvironmentAction::WarmTemperature) => (
            "AdjustEnvironment(WarmTemperature)"@),
            Intervention::NotifyUser(NotificationLevel::Standard) => "NotifyUser(Standard)"@,
            Intervention::NotifyUser(NotificationLevel::Critical) => "NotifyUser(Critical)"@,
            Intervention::LogOnly => "LogOnly"@,
        }
    }

    /// Renders the label an intervention is persisted under.
    pub fn to_string(&self) -> (r: String)
        ensures
            r@ == self.spec_label(),
    {
        let label: &str = match self {
            Intervention::PlayCalmingMusic => "PlayCalmingMusic",
            Intervention::PlayOwnerVoice => "PlayOwnerVoice",
            Intervention::DispenseTreat => "DispenseTreat",
            Intervention::AdjustEnvironment(EnvironmentAction::DimLights) => (
            "AdjustEnvironment(DimLights)"),
            Intervention::AdjustEnvironment(EnvironmentAction::WarmTemperature) => (
            "AdjustEnvironment(WarmTemperature)"),
            Intervention::NotifyUser(NotificationLevel::Standard) => "NotifyUser(Standard)",
            Intervention::NotifyUser(NotificationLevel::Critical) => "NotifyUser(Critical)",
            Intervention::LogOnly => "LogOnly",
        };
        label.to_owned()
    }
}

impl NotificationLevel {
    /// The severity heading used when notifying at this level.
    pub open spec fn spec_severity_label(self) -> Seq<char> {
        match self {
            NotificationLevel::Critical => "CRITICAL"@,
            NotificationLevel::Standard => "HIGH"@,
        }
    }

    /// Renders the severity heading used when notifying at this level.
    pub fn severity_label(&self) -> (r: String)
        ensures
            r@ == self.spec_severity_label(),
    {
        match self {
            NotificationLevel::Critical => "CRITICAL".to_owned(),
            NotificationLevel::Standard => "HIGH".to_owned(),
        }
    }
}

/// A persisted alert row. Once inserted, its id and creation time are
/// immutable; the other fields receive append-only updates from the engine.
#[derive(Clone, Debug)]
pub struct Alert {
    pub id: String,
    pub pet_id: i32,
    pub alert_type: AlertType,
    pub severity: String,
    pub severity_level: String,
    pub message: Option<String>,
    pub critical_indicators: Option<Vec<String>>,
    pub recommended_actions: Option<Vec<String>>,
    pub payload: AlertPayload,
    pub intervention_action: Option<String>,
    pub intervention_time: Option<i64>,
    pub outcome: Option<String>,
    pub notification_sent: bool,
    pub notification_channels: Option<Vec<String>>,
    pub user_notified_at: Option<i64>,
    pub user_acknowledged_at: Option<i64>,
    pub user_response: Option<String>,
    pub created_at: i64,
}

/// The escalation window: one trailing hour, in seconds.
pub const ESCALATION_WINDOW_SECS: i64 = 3600;

/// Whether a stored alert falls in the trailing one-hour window for this
/// pet and alert type at time `now`.
pub open spec fn spec_in_window(a: Alert, pet_id: int, ty: AlertType, now: int) -> bool {
    a.pet_id == pet_id && a.alert_type == ty && a.created_at >= now - 3600
}

/// How many stored alerts fall in the trailing one-hour window for this pet
/// and alert type at time `now`.
pub open spec fn spec_recent_count(h: Seq<Alert>, pet_id: int, ty: AlertType, now: int) -> nat
    decreases h.len(),
{
    if h.len() == 0 {
        0
    } else {
        spec_recent_count(h.drop_last(), pet_id, ty, now) + if spec_in_window(
            h.last(),
            pet_id,
            ty,
            now,
        ) {
            1nat
        } else {
            0nat
        }
    }
}

/// Counts the stored alerts for this pet and alert type whose creation time
/// lies in the trailing one-hour window at time `now`.
pub fn recent_same_type_count(h: &Vec<Alert>, pet_id: i32, ty: AlertType, now: i64) -> (c: u64)
    requires
        h@.len() <= u64::MAX,
        now >= i64::MIN + 3600,
    ensures
        c == spec_recent_count(h@, pet_id as int, ty, now as int),
{
    let mut c: u64 = 0;
    let mut i: usize = 0;
    while i < h.len()
        invariant
            i <= h@.len(),
            h@.len() <= u64::MAX,
            now >= i64::MIN + 3600,
            c == spec_recent_count(h@.subrange(0, i as int), pet_id as int, ty, now as int),
            c <= i,
        decreases h@.len() - i,
    {
        let a = &h[i];
        if a.pet_id == pet_id && a.alert_type == ty && a.created_at >= now - ESCALATION_WINDOW_SECS {
            c += 1;
        }
        proof {
            let pre = h@.subrange(0, i as int);
            let post = h@.subrange(0, i + 1);
            assert(post.drop_last() =~= pre);
            assert(post.last() == h@[i as int]);
        }
        i += 1;
    }
    proof {
        assert(h@.subrange(0, h@.len() as int) =~= h@);
    }
    c
}

/// If every alert counted at `t1` is still inside the window at `t2`, the
/// count at `t2` is at least the count at `t1`.
proof fn lemma_count_window_shift(h: Seq<Alert>, pet_id: int, ty: AlertType, t1: int, t2: int)
    requires
        forall|i: int|
            0 <= i < h.len() && spec_in_window(#[trigger] h[i], pet_id, ty, t1) ==> spec_in_window(
                h[i],
                pet_id,
                ty,
                t2,
            ),
    ensures
        spec_recent_count(h, pet_id, ty, t2) >= spec_recent_count(h, pet_id, ty, t1),
    decreases h.len(),
{
    if h.len() > 0 {
        lemma_count_window_shift(h.drop_last(), pet_id, ty, t1, t2);
        assert(h.last() == h[h.len() - 1]);
    }
}

/// The recency count is monotone within one rolling hour: after an alert is
/// persisted at `t1`, a later same-type alert at `t2` whose window still
/// covers everything counted at `t1` sees a strictly larger count.
pub proof fn lemma_recent_count_monotonic(
    h: Seq<Alert>,
    a: Alert,
    pet_id: int,
    ty: AlertType,
    t1: int,
    t2: int,
)
    requires
        spec_in_window(a, pet_id, ty, t2),
        forall|i: int|
            0 <= i < h.len() && spec_in_window(#[trigger] h[i], pet_id, ty, t1) ==> spec_in_window(
                h[i],
                pet_id,
                ty,
                t2,
            ),
    ensures
        spec_recent_count(h.push(a), pet_id, ty, t2) >= spec_recent_count(h, pet_id, ty, t1) + 1,
{
    lemma_count_window_shift(h, pet_id, ty, t1, t2);
    assert(h.push(a).drop_last() =~= h);
    assert(h.push(a).last() == a);
}

/// Once the hour window has emptied, the count resets: a new alert is
/// effectively the first again.
pub proof fn lemma_recent_count_reset(h: Seq<Alert>, pet_id: int, ty: AlertType, now: int)
    requires
        forall|i: int| 0 <= i < h.len() ==> #[trigger] h[i].created_at < now - 3600,
    ensures
        spec_recent_count(h, pet_id, ty, now) == 0,
    decreases h.len(),
{
    if h.len() > 0 {
        lemma_recent_count_reset(h.drop_last(), pet_id, ty, now);
        assert(h.last() == h[h.len() - 1]);
    }
}

/// The severity level an alert is persisted with: from the fifth same-type
/// alert in the hour on, anything short of "critical" is forced to "high".
pub open spec fn spec_final_severity(level: Seq<char>, count: nat) -> Seq<char> {
    if count >= 5 && level != "critical"@ {
        "high"@
    } else {
        level
    }
}

/// Applies the escalation override to a resolved severity level.
pub fn final_severity(level: &String, count: u64) -> (r: String)
    ensures
        r@ == spec_final_severity(level@, count as nat),
{
    if count >= 5 && !crate::text::str_eq(level.as_str(), "critical") {
        "high".to_owned()
    } else {
        level.clone()
    }
}

/// The escalation override: on the fifth same-type alert within the hour
/// (or any later one), the persisted severity level is "high" unless the
/// alert already reported "critical", which is never lowered.
pub proof fn lemma_escalation_override(level: Seq<char>, count: nat)
    requires
        count >= 5,
    ensures
        level != "critical"@ ==> spec_final_severity(level, count) == "high"@,
        level == "critical"@ ==> spec_final_severity(level, count) == "critical"@,
{
}

/// What the engine decides for one alert: the recorded intervention, and,
/// on the fourth same-type alert only, an autonomous side action executed
/// in addition to it. That composite fourth step deviates from the
/// otherwise single-choice model and is kept as a documented special case.
#[derive(Clone, Copy, Debug, PartialEq, Eq, Structural)]
pub struct Decision {
    pub intervention: Intervention,
    pub side_action: Option<Intervention>,
}

/// The intervention priority table, keyed by count bucket and alert type.
/// Critical severity bypasses the table and always notifies critically.
pub open spec fn spec_decide_intervention(ty: AlertType, count: nat, critical: bool) -> Decision {
    if critical {
        Decision {
            intervention: Intervention::NotifyUser(NotificationLevel::Critical),
            side_action: None,
        }
    } else if count <= 2 {
        Decision {
            intervention: match ty {
                AlertType::Pacing | AlertType::Restlessness => Intervention::AdjustEnvironment(
                    EnvironmentAction::DimLights,
                ),
                AlertType::Vocalization | AlertType::AttentionSeeking => (
                Intervention::PlayCalmingMusic),
                AlertType::UnusualBehavior => Intervention::PlayCalmingMusic,
                _ => Intervention::LogOnly,
            },
            side_action: None,
        }
    } else if count == 3 {
        Decision {
            intervention: match ty {
                AlertType::Vocalization | AlertType::AttentionSeeking => (
                Intervention::DispenseTreat),
                _ => Intervention::PlayOwnerVoice,
            },
            side_action: None,
        }
    } else if count == 4 {
        Decision {
            intervention: Intervention::NotifyUser(NotificationLevel::Standard),
            side_action: Some(Intervention::PlayOwnerVoice),
        }
    } else {
        Decision {
            intervention: Intervention::NotifyUser(NotificationLevel::Standard),
            side_action: None,
        }
    }
}

/// Decides the intervention for an alert from its type, its running count
/// in the hour window, and its severity level.
pub fn decide_intervention(ty: AlertType, count: u64, severity_level: &str) -> (r: Decision)
    ensures
        r == spec_decide_intervention(ty, count as nat, severity_level@ == "critical"@),
{
    if crate::text::str_eq(severity_level, "critical") {
        return Decision {
            intervention: Intervention::NotifyUser(NotificationLevel::Critical),
            side_action: None,
        };
    }
    if count <= 2 {
        let intervention = match ty {
            AlertType::Pacing | AlertType::Restlessness => Intervention::AdjustEnvironment(
                EnvironmentAction::DimLights,
            ),
            AlertType::Vocalization | AlertType::AttentionSeeking => Intervention::PlayCalmingMusic,
            AlertType::UnusualBehavior => Intervention::PlayCalmingMusic,
            _ => Intervention::LogOnly,
        };
        Decision { intervention, side_action: None }
    } else if count == 3 {
        let intervention = match ty {
            AlertType::Vocalization | AlertType::AttentionSeeking => Intervention::DispenseTreat,
            _ => Intervention::PlayOwnerVoice,
        };
        Decision { intervention, side_action: None }
    } else if count == 4 {
        Decision {
            intervention: Intervention::NotifyUser(NotificationLevel::Standard),
            side_action: Some(Intervention::PlayOwnerVoice),
        }
    } else {
        Decision {
            intervention: Intervention::NotifyUser(NotificationLevel::Standard),
            side_action: None,
        }
    }
}

/// The pet id an alert row is keyed by: the payload's pet id parsed as a
/// decimal number, with 1 as the fallback on unparseable text.
pub open spec fn spec_db_pet_id(p: AlertPayload) -> int {
    if spec_int_text_shape(p.pet_id@) && i32::MIN <= spec_int_text_val(p.pet_id@) <= i32::MAX {
        spec_int_text_val(p.pet_id@)
    } else {
        1
    }
}

/// The severity level an alert is persisted with, given how many same-type
/// alerts (the new one included) fall in the trailing hour.
pub open spec fn spec_planned_level(p: AlertPayload, count: nat) -> Seq<char> {
    spec_final_severity(spec_resolved_severity_level(p), count)
}

/// The legacy severity string an alert is persisted with: pinned for
/// "critical" and "high" final levels, otherwise the payload's own.
pub open spec fn spec_persisted_severity(level: Seq<char>, legacy: Seq<char>) -> Seq<char> {
    if level == "critical"@ {
        "critical"@
    } else if level == "high"@ {
        "high"@
    } else {
        legacy
    }
}

/// Everything the engine decides for one inbound alert, before any side
/// effect is performed.
#[derive(Clone, Debug)]
pub struct AlertPlan {
    /// The alert row to persist, with no intervention or outcome recorded yet.
    pub alert: Alert,
    /// Same-type alerts in the trailing hour, the new one included.
    pub current_count: u64,
    /// The intervention decision from the priority table.
    pub decision: Decision,
    /// Whether the critical branch runs: notify both channels, generate
    /// quick actions, and skip monitoring.
    pub is_critical: bool,
    /// The severity quick-action generation runs under, where it runs at
    /// all: "critical" or "high".
    pub quick_action_severity: Option<String>,
    /// Whether the monitoring phase follows (every non-critical alert).
    pub monitor: bool,
}

/// Plans the processing of one inbound alert: resolves its severity level,
/// applies the escalation override against the count of recent same-type
/// alerts, decides the intervention, and lays out the alert row to persist.
/// No side effect happens here; the caller persists, executes and notifies.
pub fn plan_alert(payload: AlertPayload, recent_count_prior: u64, now: i64) -> (r: AlertPlan)
    requires
        recent_count_prior < u64::MAX,
    ensures
        r.current_count == recent_count_prior + 1,
        r.alert.id@.len() == 36,
        r.alert.pet_id as int == spec_db_pet_id(payload),
        r.alert.alert_type == payload.alert_type,
        r.alert.severity_level@ == spec_planned_level(payload, r.current_count as nat),
        r.alert.severity@ == spec_persisted_severity(
            spec_planned_level(payload, r.current_count as nat),
            payload.severity@,
        ),
        r.alert.message == payload.message,
        r.alert.critical_indicators is Some <==> spec_resolved_indicators(payload) is Some,
        r.alert.critical_indicators is Some ==> r.alert.critical_indicators->0@
            == spec_resolved_indicators(payload)->0,
        r.alert.recommended_actions is Some <==> spec_resolved_actions(payload) is Some,
        r.alert.recommended_actions is Some ==> r.alert.recommended_actions->0@
            == spec_resolved_actions(payload)->0,
        r.alert.payload == payload,
        r.alert.intervention_action is None,
        r.alert.intervention_time is None,
        r.alert.outcome is None,
        !r.alert.notification_sent,
        r.alert.notification_channels is None,
        r.alert.user_notified_at is None,
        r.alert.user_acknowledged_at is None,
        r.alert.user_response is None,
        r.alert.created_at == now,
        r.is_critical == (spec_planned_level(payload, r.current_count as nat) == "critical"@),
        r.decision == spec_decide_intervention(
            payload.alert_type,
            r.current_count as nat,
            r.is_critical,
        ),
        r.quick_action_severity is Some <==> (r.is_critical || spec_planned_level(
            payload,
            r.current_count as nat,
        ) == "high"@),
        r.is_critical ==> r.quick_action_severity is Some && r.quick_action_severity->0@
            == "critical"@,
        (!r.is_critical && spec_planned_level(payload, r.current_count as nat) == "high"@)
            ==> r.quick_action_severity is Some && r.quick_action_severity->0@ == "high"@,
        r.monitor == !r.is_critical,
{
    let db_pet_id: i32 = match parse_i32(payload.pet_id.as_str()) {
        Some(v) => v,
        None => 1,
    };
    let level = resolve_severity_level(&payload);
    let current_count = recent_count_prior + 1;
    let severity_level = final_severity(&level, current_count);
    let is_critical = str_eq(severity_level.as_str(), "critical");
    let is_high = str_eq(severity_level.as_str(), "high");
    let severity: String = if is_critical {
        "critical".to_owned()
    } else if is_high {
        "high".to_owned()
    } else {
        payload.severity.clone()
    };
    let critical_indicators = resolve_critical_indicators(&payload);
    let recommended_actions = resolve_recommended_actions(&payload);
    let decision = decide_intervention(payload.alert_type, current_count, severity_level.as_str());
    let quick_action_severity: Option<String> = if is_critical {
        Some("critical".to_owned())
    } else if is_high {
        Some("high".to_owned())
    } else {
        None
    };
    let message = clone_opt_string(&payload.message);
    let alert_type = payload.alert_type;
    let alert = Alert {
        id: fresh_uuid(),
        pet_id: db_pet_id,
        alert_type,
        severity,
        severity_level,
        message,
        critical_indicators,
        recommended_actions,
        payload,
        intervention_action: None,
        intervention_time: None,
        outcome: None,
        notification_sent: false,
        notification_channels: None,
        user_notified_at: None,
        user_acknowledged_at: None,
        user_response: None,
        created_at: now,
    };
    AlertPlan {
        alert,
        current_count,
        decision,
        is_critical,
        quick_action_severity,
        monitor: !is_critical,
    }
}

/// The escalation override at the engine's boundary: whatever plan the
/// engine produces for a fifth (or later) same-type alert within the hour,
/// the persisted severity level is "high" unless the alert resolved to
/// "critical", which is kept.
pub proof fn lemma_plan_escalation_override(
    payload: AlertPayload,
    recent_count_prior: u64,
    now: i64,
    plan: AlertPlan,
)
    requires
        call_ensures(plan_alert, (payload, recent_count_prior, now), plan),
        recent_count_prior + 1 >= 5,
    ensures
        spec_resolved_severity_level(payload) != "critical"@ ==> plan.alert.severity_level@
            == "high"@,
        spec_resolved_severity_level(payload) == "critical"@ ==> plan.alert.severity_level@
            == "critical"@,
{
}

/// Records the executed intervention and its time onto the alert row.
pub fn record_intervention(alert: &mut Alert, decision: &Decision, now: i64)
    ensures
        *final(alert) == (Alert {
            intervention_action: final(alert).intervention_action,
            intervention_time: Some(now),
            ..*old(alert)
        }),
        final(alert).intervention_action is Some && final(alert).intervention_action->0@
            == decision.intervention.spec_label(),
{
    alert.intervention_action = Some(decision.intervention.to_string());
    alert.intervention_time = Some(now);
}

/// Records the critical-notification bookkeeping: both channels notified,
/// the user-notified time, and an outcome awaiting acknowledgement. The
/// identity, severity and payload fields stay untouched.
pub fn record_critical_notification(alert: &mut Alert, now: i64)
    ensures
        final(alert).notification_sent,
        final(alert).notification_channels is Some,
        final(alert).notification_channels->0@.len() == 2,
        final(alert).notification_channels->0@[0]@ == "email"@,
        final(alert).notification_channels->0@[1]@ == "sms"@,
        final(alert).user_notified_at == Some(now),
        final(alert).intervention_action is Some && final(alert).intervention_action->0@
            == "CRITICAL_NOTIFICATION_SENT"@,
        final(alert).outcome is Some && final(alert).outcome->0@
            == "Waiting for user acknowledgement"@,
        final(alert).id == old(alert).id,
        final(alert).pet_id == old(alert).pet_id,
        final(alert).alert_type == old(alert).alert_type,
        final(alert).severity == old(alert).severity,
        final(alert).severity_level == old(alert).severity_level,
        final(alert).message == old(alert).message,
        final(alert).critical_indicators == old(alert).critical_indicators,
        final(alert).recommended_actions == old(alert).recommended_actions,
        final(alert).payload == old(alert).payload,
        final(alert).intervention_time == old(alert).intervention_time,
        final(alert).user_acknowledged_at == old(alert).user_acknowledged_at,
        final(alert).user_response == old(alert).user_response,
        final(alert).created_at == old(alert).created_at,
{
    let mut channels: Vec<String> = Vec::new();
    channels.push("email".to_owned());
    channels.push("sms".to_owned());
    alert.notification_sent = true;
    alert.notification_channels = Some(channels);
    alert.user_notified_at = Some(now);
    alert.intervention_action = Some("CRITICAL_NOTIFICATION_SENT".to_owned());
    alert.outcome = Some("Waiting for user acknowledgement".to_owned());
}

/// Records a monitoring (or any other) outcome narrative onto the alert row.
pub fn record_outcome(alert: &mut Alert, outcome: String)
    ensures
        *final(alert) == (Alert { outcome: Some(outcome), ..*old(alert) }),
{
    alert.outcome = Some(outcome);
}

/// The outcome of the monitoring re-check after the fixed delay: resolved
/// where the pet's latest processed clip is no longer unusual, persisting
/// where it still is, indeterminate where no clip exists yet.
pub open spec fn spec_monitoring_outcome(latest: Option<VideoJob>) -> Seq<char> {
    match latest {
        Some(v) => if !v.is_unusual {
            "Resolution: Pet behavior returned to normal. Alert resolved."@
        } else {
            "Alert persists: Unusual behavior continues. May trigger escalation on next alert."@
        },
        None => "No new video data available for resolution check."@,
    }
}

/// Judges the monitoring re-check from the pet's most recent processed
/// clip, if any.
pub fn monitoring_outcome(latest: &Option<VideoJob>) -> (r: String)
    ensures
        r@ == spec_monitoring_outcome(*latest),
{
    match latest {
        Some(v) => {
            if !v.is_unusual {
                "Resolution: Pet behavior returned to normal. Alert resolved.".to_owned()
            } else {
                "Alert persists: Unusual behavior continues. May trigger escalation on next alert.".to_owned()
            }
        },
        None => "No new video data available for resolution check.".to_owned(),
    }
}

/// The owner's contact details for the critical branch.
#[derive(Clone, Debug)]
pub struct OwnerContact {
    pub email: String,
    pub name: String,
    pub pet_name: String,
}

/// Resolves the owner contact for a critical notification: the stored
/// relation where the lookup succeeded, else the configured default email
/// with placeholder names.
pub fn resolve_owner_contact(lookup: Option<OwnerContact>, default_email: String) -> (r:
    OwnerContact)
    ensures
        lookup is Some ==> r == lookup->0,
        lookup is None ==> r.email == default_email && r.name@ == "Pet Owner"@ && r.pet_name@
            == "Your Pet"@,
{
    match lookup {
        Some(c) => c,
        None => OwnerContact {
            email: default_email,
            name: "Pet Owner".to_owned(),
            pet_name: "Your Pet".to_owned(),
        },
    }
}

/// The dashboard deep link for a notification: straight to the clip where
/// the alert carries a video id, else the dashboard root.
pub fn video_link(video_id: &Option<String>) -> (r: String)
    ensures
        video_id is Some ==> r@ == "https://petpulse.dashboard/videos/"@ + video_id->0@,
        video_id is None ==> r@ == "https://petpulse.dashboard"@,
{
    match video_id {
        Some(v) => {
            let mut s = "https://petpulse.dashboard/videos/".to_owned();
            s.append(v.as_str());
            s
        },
        None => "https://petpulse.dashboard".to_owned(),
    }
}

} // verus!
