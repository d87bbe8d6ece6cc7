//! Alert events: the payload the escalation engine consumes, the closed set
//! of alert types, and the severity resolution and mapping rules shared by
//! the workers and the engine.

use vstd::prelude::*;
use crate::text::str_eq;

verus! {

/// The closed set of alert types the engine understands.
#[derive(Clone, Copy, Debug, PartialEq, Eq, Structural)]
pub enum AlertType {
    Pacing,
    Vocalization,
    PositionChanges,
    DoorProximity,
    Restlessness,
    AttentionSeeking,
    UnusualBehavior,
    ProcessingError,
    QueueDepthHigh,
    Comfort,
}

impl AlertType {
    /// The snake_case label of this alert type, as stored and sent.
    pub open spec fn spec_label(self) -> Seq<char> {
        match self {
            AlertType::Pacing => "pacing"@,
            AlertType::Vocalization => "vocalization"@,
            AlertType::PositionChanges => "position_changes"@,
            AlertType::DoorProximity => "door_proximity"@,
            AlertType::Restlessness => "restlessness"@,
            AlertType::AttentionSeeking => "attention_seeking"@,
            AlertType::UnusualBehavior => "unusual_behavior"@,
            AlertType::ProcessingError => "processing_error"@,
            AlertType::QueueDepthHigh => "queue_depth_high"@,
            AlertType::Comfort => "comfort"@,
        }
    }

    /// Renders the snake_case label of this alert type.
    pub fn to_string(&self) -> (r: String)
        ensures
            r@ == self.spec_label(),
    {
        let label: &str = match self {
            AlertType::Pacing => "pacing",
            AlertType::Vocalization => "vocalization",
            AlertType::PositionChanges => "position_changes",
            AlertType::DoorProximity => "door_proximity",
            AlertType::Restlessness => "restlessness",
            AlertType::AttentionSeeking => "attention_seeking",
            AlertType::UnusualBehavior => "unusual_behavior",
            AlertType::ProcessingError => "processing_error",
            AlertType::QueueDepthHigh => "queue_depth_high",
            AlertType::Comfort => "comfort",
        };
        label.to_owned()
    }
}

/// The known optional fields an alert's free-form context may carry,
/// parsed once at the boundary.
#[derive(Clone, Debug)]
pub struct AlertContext {
    pub mood: Option<String>,
    pub description: Option<String>,
    pub severity_level: Option<String>,
    pub critical_indicators: Option<Vec<String>>,
    pub recommended_actions: Option<Vec<String>>,
}

/// An inbound alert event, as delivered to the escalation engine.
#[derive(Clone, Debug)]
pub struct AlertPayload {
    pub alert_id: String,
    pub pet_id: String,
    pub alert_type: AlertType,
    pub severity: String,
    pub message: Option<String>,
    pub video_id: Option<String>,
    pub timestamp: Option<String>,
    pub context: Option<AlertContext>,
    pub title: Option<String>,
    pub state: Option<String>,
    pub severity_level: Option<String>,
    pub critical_indicators: Option<Vec<String>>,
    pub recommended_actions: Option<Vec<String>>,
}

/// The severity level an alert resolves to: the payload's own field, else
/// the context's, else "low".
pub open spec fn spec_resolved_severity_level(p: AlertPayload) -> Seq<char> {
    if p.severity_level is Some {
        p.severity_level->0@
    } else if p.context is Some && p.context->0.severity_level is Some {
        p.context->0.severity_level->0@
    } else {
        "low"@
    }
}

/// Resolves the severity level of a payload, defaulting to "low".
pub fn resolve_severity_level(p: &AlertPayload) -> (r: String)
    ensures
        r@ == spec_resolved_severity_level(*p),
{
    match &p.severity_level {
        Some(s) => s.clone(),
        None => match &p.context {
            Some(c) => match &c.severity_level {
                Some(s) => s.clone(),
                None => "low".to_owned(),
            },
            None => "low".to_owned(),
        },
    }
}

pub(crate) fn clone_strings(v: &Vec<String>) -> (r: Vec<String>)
    ensures
        r@ =~= v@,
{
    let mut r: Vec<String> = Vec::new();
    let mut i: usize = 0;
    while i < v.len()
        invariant
            i <= v@.len(),
            r@ =~= v@.subrange(0, i as int),
        decreases v@.len() - i,
    {
        r.push(v[i].clone());
        i += 1;
    }
    proof {
        assert(v@.subrange(0, v@.len() as int) =~= v@);
    }
    r
}

/// The critical-indicator list an alert resolves to: the payload's own
/// field, else the context's.
pub open spec fn spec_resolved_indicators(p: AlertPayload) -> Option<Seq<String>> {
    if p.critical_indicators is Some {
        Some(p.critical_indicators->0@)
    } else if p.context is Some && p.context->0.critical_indicators is Some {
        Some(p.context->0.critical_indicators->0@)
    } else {
        None
    }
}

/// Resolves the critical indicators of a payload.
pub fn resolve_critical_indicators(p: &AlertPayload) -> (r: Option<Vec<String>>)
    ensures
        r is Some <==> spec_resolved_indicators(*p) is Some,
        r is Some ==> r->0@ =~= spec_resolved_indicators(*p)->0,
{
    match &p.critical_indicators {
        Some(v) => Some(clone_strings(v)),
        None => match &p.context {
            Some(c) => match &c.critical_indicators {
                Some(v) => Some(clone_strings(v)),
                None => None,
            },
            None => None,
        },
    }
}

/// The recommended-action list an alert resolves to: the payload's own
/// field, else the context's.
pub open spec fn spec_resolved_actions(p: AlertPayload) -> Option<Seq<String>> {
    if p.recommended_actions is Some {
        Some(p.recommended_actions->0@)
    } else if p.context is Some && p.context->0.recommended_actions is Some {
        Some(p.context->0.recommended_actions->0@)
    } else {
        None
    }
}

/// Resolves the recommended actions of a payload.
pub fn resolve_recommended_actions(p: &AlertPayload) -> (r: Option<Vec<String>>)
    ensures
        r is Some <==> spec_resolved_actions(*p) is Some,
        r is Some ==> r->0@ =~= spec_resolved_actions(*p)->0,
{
    match &p.recommended_actions {
        Some(v) => Some(clone_strings(v)),
        None => match &p.context {
            Some(c) => match &c.recommended_actions {
                Some(v) => Some(clone_strings(v)),
                None => None,
            },
            None => None,
        },
    }
}

/// The one-step up-shift from an analysis severity level to the legacy
/// severity string carried on standard (non-critical) alerts.
pub open spec fn spec_mapped_severity(level: Seq<char>) -> Seq<char> {
    if level == "info"@ {
        "low"@
    } else if level == "low"@ {
        "medium"@
    } else if level == "medium"@ {
        "high"@
    } else if level == "high"@ {
        "high"@
    } else {
        "medium"@
    }
}

/// Maps an analysis severity level to the legacy severity string, shifting
/// it one step up.
pub fn map_severity(level: &str) -> (r: String)
    ensures
        r@ == spec_mapped_severity(level@),
{
    if str_eq(level, "info") {
        "low".to_owned()
    } else if str_eq(level, "low") {
        "medium".to_owned()
    } else if str_eq(level, "medium") {
        "high".to_owned()
    } else if str_eq(level, "high") {
        "high".to_owned()
    } else {
        "medium".to_owned()
    }
}

} // verus!
