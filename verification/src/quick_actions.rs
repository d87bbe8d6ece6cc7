//! Quick actions: per-contact outreach rows generated for high and critical
//! alerts, with best-effort duplicate suppression — a contact that already
//! has a pending action is skipped.

use vstd::prelude::*;
use crate::ids::fresh_uuid;

verus! {

/// An emergency contact of a pet's owner.
#[derive(Clone, Debug)]
pub struct EmergencyContact {
    pub id: i32,
    pub user_id: i32,
    pub contact_type: String,
    pub name: String,
    pub phone: String,
    pub email: Option<String>,
    pub priority: i32,
    pub is_active: bool,
}

/// The lifecycle status of a quick action.
#[derive(Clone, Copy, Debug, PartialEq, Eq, Structural)]
pub enum QuickActionStatus {
    Pending,
    Sent,
    Failed,
}

impl QuickActionStatus {
    /// The stored label of this status.
    pub open spec fn spec_label(self) -> Seq<char> {
        match self {
            QuickActionStatus::Pending => "pending"@,
            QuickActionStatus::Sent => "sent"@,
            QuickActionStatus::Failed => "failed"@,
        }
    }

    /// Renders the stored label of this status.
    pub fn to_string(&self) -> (r: String)
        ensures
            r@ == self.spec_label(),
    {
        match self {
            QuickActionStatus::Pending => "pending".to_owned(),
            QuickActionStatus::Sent => "sent".to_owned(),
            QuickActionStatus::Failed => "failed".to_owned(),
        }
    }
}

/// A generated outreach message targeted at one emergency contact, tied to
/// one alert.
#[derive(Clone, Debug)]
pub struct QuickAction {
    pub id: String,
    pub alert_id: String,
    pub emergency_contact_id: i32,
    pub action_type: String,
    pub message: String,
    pub video_clips: Option<Vec<String>>,
    pub status: QuickActionStatus,
    pub sent_at: Option<i64>,
    pub acknowledged_at: Option<i64>,
    pub error_message: Option<String>,
    pub created_at: i64,
}

/// Whether a contact receives a quick action: it is active and has no
/// pending action already.
pub open spec fn spec_needs_action(c: EmergencyContact, pending_ids: Seq<i32>) -> bool {
    c.is_active && !pending_ids.contains(c.id)
}

/// The contacts that receive a quick action, in stored order: the active
/// ones without a pending action.
pub open spec fn spec_contacts_needing_action(
    contacts: Seq<EmergencyContact>,
    pending_ids: Seq<i32>,
) -> Seq<EmergencyContact>
    decreases contacts.len(),
{
    if contacts.len() == 0 {
        Seq::<EmergencyContact>::empty()
    } else {
        spec_contacts_needing_action(contacts.drop_last(), pending_ids) + if spec_needs_action(
            contacts.last(),
            pending_ids,
        ) {
            seq![contacts.last()]
        } else {
            Seq::<EmergencyContact>::empty()
        }
    }
}

fn clone_contact(c: &EmergencyContact) -> (r: EmergencyContact)
    ensures
        r == *c,
{
    EmergencyContact {
        id: c.id,
        user_id: c.user_id,
        contact_type: c.contact_type.clone(),
        name: c.name.clone(),
        phone: c.phone.clone(),
        email: crate::text::clone_opt_string(&c.email),
        priority: c.priority,
        is_active: c.is_active,
    }
}

fn contains_id(ids: &Vec<i32>, id: i32) -> (r: bool)
    ensures
        r == ids@.contains(id),
{
    let mut i: usize = 0;
    while i < ids.len()
        invariant
            i <= ids@.len(),
            forall|j: int| 0 <= j < i ==> ids@[j] != id,
        decreases ids@.len() - i,
    {
        if ids[i] == id {
            return true;
        }
        i += 1;
    }
    proof {
        assert(forall|j: int| 0 <= j < ids@.len() ==> ids@[j] != id);
    }
    false
}

/// Selects the contacts that receive a quick action for an alert: every
/// active emergency contact that has no pending action at the moment of
/// generation. A contact with a pending action is skipped, so generation
/// never yields a second pending row for it.
pub fn contacts_needing_action(
    contacts: &Vec<EmergencyContact>,
    pending_ids: &Vec<i32>,
) -> (r: Vec<EmergencyContact>)
    ensures
        r@ == spec_contacts_needing_action(contacts@, pending_ids@),
        forall|i: int| 0 <= i < r@.len() ==> !pending_ids@.contains(#[trigger] r@[i].id),
{
    let mut r: Vec<EmergencyContact> = Vec::new();
    let mut i: usize = 0;
    while i < contacts.len()
        invariant
            i <= contacts@.len(),
            r@ == spec_contacts_needing_action(contacts@.subrange(0, i as int), pending_ids@),
        decreases contacts@.len() - i,
    {
        let c = &contacts[i];
        proof {
            let post = contacts@.subrange(0, i + 1);
            assert(post.drop_last() =~= contacts@.subrange(0, i as int));
            assert(post.last() == contacts@[i as int]);
        }
        if c.is_active && !contains_id(pending_ids, c.id) {
            let ghost before = r@;
            r.push(clone_contact(c));
            proof {
                assert(r@ =~= before.push(contacts@[i as int]));
                assert(r@ =~= spec_contacts_needing_action(
                    contacts@.subrange(0, i + 1),
                    pending_ids@,
                ));
            }
        } else {
            proof {
                assert(r@ =~= spec_contacts_needing_action(
                    contacts@.subrange(0, i + 1),
                    pending_ids@,
                ));
            }
        }
        i += 1;
    }
    proof {
        assert(contacts@.subrange(0, contacts@.len() as int) =~= contacts@);
        lemma_selected_not_pending(contacts@, pending_ids@);
    }
    r
}

/// No selected contact has a pending action: the generator's duplicate
/// suppression in one statement.
pub proof fn lemma_selected_not_pending(contacts: Seq<EmergencyContact>, pending_ids: Seq<i32>)
    ensures
        forall|i: int|
            0 <= i < spec_contacts_needing_action(contacts, pending_ids).len()
                ==> !pending_ids.contains(
                #[trigger] spec_contacts_needing_action(contacts, pending_ids)[i].id,
            ),
    decreases contacts.len(),
{
    if contacts.len() > 0 {
        lemma_selected_not_pending(contacts.drop_last(), pending_ids);
    }
}

/// The deterministic fallback message used when external text generation
/// fails: a small JSON object with an SMS text and an email body.
pub open spec fn spec_fallback_message(pet_name: Seq<char>) -> Seq<char> {
    "{\"sms_text\": \"PetPulse Alert: "@ + pet_name + " needs attention.\", \"email_body\": \"Please check on "@
        + pet_name + ".\"}"@
}

/// Builds the fallback quick-action message for a pet.
pub fn fallback_message(pet_name: &str) -> (r: String)
    ensures
        r@ == spec_fallback_message(pet_name@),
{
    let mut s = "{\"sms_text\": \"PetPulse Alert: ".to_owned();
    s.append(pet_name);
    s.append(" needs attention.\", \"email_body\": \"Please check on ");
    s.append(pet_name);
    s.append(".\"}");
    proof {
        assert(s@ =~= spec_fallback_message(pet_name@));
    }
    s
}

/// The prompt handed to the external text generator for one contact.
pub open spec fn spec_generation_prompt(
    pet_name: Seq<char>,
    contact_name: Seq<char>,
    contact_type: Seq<char>,
    severity: Seq<char>,
) -> Seq<char> {
    "Write a concise, urgent message from a pet monitoring system regarding "@ + pet_name
        + ". The recipient is "@ + contact_name + ", who is a "@ + contact_type + ". Severity: "@
        + severity
        + ". The pet is showing unusual behavior. Generate a JSON object with two fields: 'sms_text' (short, <160 chars) and 'email_body' (polite, informative). Do not use markdown."@
}

/// Builds the text-generation prompt for one contact.
pub fn generation_prompt(
    pet_name: &str,
    contact_name: &str,
    contact_type: &str,
    severity: &str,
) -> (r: String)
    ensures
        r@ == spec_generation_prompt(pet_name@, contact_name@, contact_type@, severity@),
{
    let mut s = "Write a concise, urgent message from a pet monitoring system regarding ".to_owned();
    s.append(pet_name);
    s.append(". The recipient is ");
    s.append(contact_name);
    s.append(", who is a ");
    s.append(contact_type);
    s.append(". Severity: ");
    s.append(severity);
    s.append(
        ". The pet is showing unusual behavior. Generate a JSON object with two fields: 'sms_text' (short, <160 chars) and 'email_body' (polite, informative). Do not use markdown.",
    );
    proof {
        assert(s@ =~= spec_generation_prompt(pet_name@, contact_name@, contact_type@, severity@));
    }
    s
}

/// Chooses the quick-action message: the externally generated text where
/// one came back, else the deterministic fallback for the pet.
pub fn quick_action_message(generated: Option<String>, pet_name: &str) -> (r: String)
    ensures
        generated is Some ==> r == generated->0,
        generated is None ==> r@ == spec_fallback_message(pet_name@),
{
    match generated {
        Some(text) => text,
        None => fallback_message(pet_name),
    }
}

/// Builds a fresh quick action for a contact: pending, of type "message",
/// carrying the synthesized text.
pub fn build_quick_action(alert_id: &String, contact_id: i32, message: String, now: i64) -> (r:
    QuickAction)
    ensures
        r.id@.len() == 36,
        r.alert_id == alert_id,
        r.emergency_contact_id == contact_id,
        r.action_type@ == "message"@,
        r.message == message,
        r.video_clips is None,
        r.status == QuickActionStatus::Pending,
        r.sent_at is None,
        r.acknowledged_at is None,
        r.error_message is None,
        r.created_at == now,
{
    QuickAction {
        id: fresh_uuid(),
        alert_id: alert_id.clone(),
        emergency_contact_id: contact_id,
        action_type: "message".to_owned(),
        message,
        video_clips: None,
        status: QuickActionStatus::Pending,
        sent_at: None,
        acknowledged_at: None,
        error_message: None,
        created_at: now,
    }
}

/// Marks a quick action as delivered: sent, with the send time recorded.
/// Delivery is conceptually instantaneous here; no transport step blocks
/// the generator.
pub fn mark_sent(action: &mut QuickAction, now: i64)
    ensures
        *final(action) == (QuickAction {
            status: QuickActionStatus::Sent,
            sent_at: Some(now),
            ..*old(action)
        }),
{
    action.status = QuickActionStatus::Sent;
    action.sent_at = Some(now);
}

/// A request to create a quick action by hand for one contact of an alert.
#[derive(Clone, Debug)]
pub struct CreateQuickActionRequest {
    pub emergency_contact_id: i32,
    pub action_type: String,
    pub message: String,
    pub video_clip_ids: Option<Vec<String>>,
}

/// Builds the quick action a creation request describes: pending, then
/// immediately marked sent by the caller after persisting.
pub fn build_quick_action_from_request(
    alert_id: &String,
    request: CreateQuickActionRequest,
    now: i64,
) -> (r: QuickAction)
    ensures
        r.id@.len() == 36,
        r.alert_id == alert_id,
        r.emergency_contact_id == request.emergency_contact_id,
        r.action_type == request.action_type,
        r.message == request.message,
        r.video_clips == request.video_clip_ids,
        r.status == QuickActionStatus::Pending,
        r.sent_at is None,
        r.acknowledged_at is None,
        r.error_message is None,
        r.created_at == now,
{
    QuickAction {
        id: fresh_uuid(),
        alert_id: alert_id.clone(),
        emergency_contact_id: request.emergency_contact_id,
        action_type: request.action_type,
        message: request.message,
        video_clips: request.video_clip_ids,
        status: QuickActionStatus::Pending,
        sent_at: None,
        acknowledged_at: None,
        error_message: None,
        created_at: now,
    }
}

} // verus!
