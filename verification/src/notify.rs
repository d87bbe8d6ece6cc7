//! Outbound notifications: the email and SMS templates for critical
//! alerts, the payload published to the email channel, and the verified
//! sent/failed bookkeeping the dispatcher exposes.

use vstd::prelude::*;
use crate::text::{spec_uppercase, to_uppercase};

verus! {

/// Builders for the two notification channels.
pub struct NotificationTemplates;

/// A list rendered as HTML list items, concatenated in order.
pub open spec fn spec_li_items(items: Seq<String>) -> Seq<char>
    decreases items.len(),
{
    if items.len() == 0 {
        Seq::<char>::empty()
    } else {
        spec_li_items(items.drop_last()) + "<li>"@ + items.last()@ + "</li>"@
    }
}

fn li_items(items: &Vec<String>) -> (r: String)
    ensures
        r@ == spec_li_items(items@),
{
    let mut s = String::new();
    let mut i: usize = 0;
    while i < items.len()
        invariant
            i <= items@.len(),
            s@ == spec_li_items(items@.subrange(0, i as int)),
        decreases items@.len() - i,
    {
        s.append("<li>");
        s.append(items[i].as_str());
        s.append("</li>");
        proof {
            let post = items@.subrange(0, i + 1);
            assert(post.drop_last() =~= items@.subrange(0, i as int));
            assert(post.last() == items@[i as int]);
        }
        i += 1;
    }
    proof {
        assert(items@.subrange(0, items@.len() as int) =~= items@);
    }
    s
}

/// The HTML email sent for a critical alert: the styled document with the
/// uppercased severity badge, the pet, description and time, the indicator
/// and action lists as HTML items, and the video deep link.
pub open spec fn spec_critical_alert_email(
    pet_name: Seq<char>,
    severity: Seq<char>,
    description: Seq<char>,
    started_at: Seq<char>,
    indicators: Seq<String>,
    actions: Seq<String>,
    video_link: Seq<char>,
) -> Seq<char> {
    "\n<!DOCTYPE html>\n<html>\n<head>\n    <style>\n        body { font-family: 'Helvetica Neue', Helvetica, Arial, sans-serif; line-height: 1.6; color: #333; }\n        .container { max-width: 600px; margin: 0 auto; padding: 20px; border: 1px solid #ddd; border-radius: 8px; }\n        .header { background-color: #dfe6e9; padding: 15px; border-radius: 8px 8px 0 0; text-align: center; }\n        .header h1 { margin: 0; color: #2d3436; }\n        .alert-badge { background-color: #d63031; color: white; padding: 5px 10px; border-radius: 4px; font-weight: bold; display: inline-block; margin-top: 10px; }\n        .content { padding: 20px; }\n        .section { margin-bottom: 20px; }\n        .section h3 { border-bottom: 2px solid #eee; padding-bottom: 5px; color: #636e72; }\n        .button { display: inline-block; background-color: #0984e3; color: white; padding: 10px 20px; text-decoration: none; border-radius: 5px; font-weight: bold; }\n        .footer { margin-top: 30px; font-size: 12px; color: #b2bec3; text-align: center; }\n        ul { padding-left: 20px; }\n        li { margin-bottom: 5px; }\n    </style>\n</head>\n<body>\n    <div class=\"container\">\n        <div class=\"header\">\n            <h1>🚨 PetPulse Critical Alert</h1>\n            <div class=\"alert-badge\">SEVERITY: "@ + spec_uppercase(severity) + "</div>\n        </div>\n        <div class=\"content\">\n            <p><strong>Immediate Attention Required for "@ + pet_name + "</strong></p>\n            <p>"@ + description
        + "</p>\n            <p><strong>Time:</strong> "@ + started_at + "</p>\n\n            <div class=\"section\">\n                <h3>⚠️ Critical Indicators Observed</h3>\n                <ul>\n                    "@ + spec_li_items(indicators) + "\n                </ul>\n            </div>\n\n            <div class=\"section\">\n                <h3>📋 Recommended Actions</h3>\n                <ul>\n                    "@
        + spec_li_items(actions) + "\n                </ul>\n            </div>\n\n            <div class=\"section\" style=\"text-align: center; margin-top: 30px;\">\n                <a href=\""@ + video_link + "\" class=\"button\">📺 View Video Clip</a>\n            </div>\n            \n            <p style=\"text-align: center; margin-top: 20px;\">\n                <small>This link expires in 24 hours.</small>\n            </p>\n        </div>\n        <div class=\"footer\">\n            <p>Sent by PetPulse Autonomous Monitoring System</p>\n        </div>\n    </div>\n</body>\n</html>\n"@
}

/// A description cut to its first 47 characters with an ellipsis where it
/// runs past 50.
pub open spec fn spec_truncated(d: Seq<char>) -> Seq<char> {
    if d.len() > 50 {
        d.subrange(0, 47) + "..."@
    } else {
        d
    }
}

/// The concise SMS sent for a critical alert.
pub open spec fn spec_critical_alert_sms(
    pet_name: Seq<char>,
    severity: Seq<char>,
    description: Seq<char>,
    video_link: Seq<char>,
) -> Seq<char> {
    "\u{1F6A8} PetPulse ALERT: "@ + pet_name + " - "@ + spec_truncated(description)
        + "\nSeverity: "@ + spec_uppercase(severity) + "\nView: "@ + video_link
}

impl NotificationTemplates {
    /// Generates the rich HTML email body for a critical alert.
    pub fn critical_alert_email(
        pet_name: &str,
        severity: &str,
        description: &str,
        started_at: &str,
        critical_indicators: &Vec<String>,
        recommended_actions: &Vec<String>,
        video_link: &str,
    ) -> (r: String)
        ensures
            r@ == spec_critical_alert_email(
                pet_name@,
                severity@,
                description@,
                started_at@,
                critical_indicators@,
                recommended_actions@,
                video_link@,
            ),
    {
        let mut s = "\n<!DOCTYPE html>\n<html>\n<head>\n    <style>\n        body { font-family: 'Helvetica Neue', Helvetica, Arial, sans-serif; line-height: 1.6; color: #333; }\n        .container { max-width: 600px; margin: 0 auto; padding: 20px; border: 1px solid #ddd; border-radius: 8px; }\n        .header { background-color: #dfe6e9; padding: 15px; border-radius: 8px 8px 0 0; text-align: center; }\n        .header h1 { margin: 0; color: #2d3436; }\n        .alert-badge { background-color: #d63031; color: white; padding: 5px 10px; border-radius: 4px; font-weight: bold; display: inline-block; margin-top: 10px; }\n        .content { padding: 20px; }\n        .section { margin-bottom: 20px; }\n        .section h3 { border-bottom: 2px solid #eee; padding-bottom: 5px; color: #636e72; }\n        .button { display: inline-block; background-color: #0984e3; color: white; padding: 10px 20px; text-decoration: none; border-radius: 5px; font-weight: bold; }\n        .footer { margin-top: 30px; font-size: 12px; color: #b2bec3; text-align: center; }\n        ul { padding-left: 20px; }\n        li { margin-bottom: 5px; }\n    </style>\n</head>\n<body>\n    <div class=\"container\">\n        <div class=\"header\">\n            <h1>🚨 PetPulse Critical Alert</h1>\n            <div class=\"alert-badge\">SEVERITY: ".to_owned();
        let upper = to_uppercase(severity);
        s.append(upper.as_str());
        s.append("</div>\n        </div>\n        <div class=\"content\">\n            <p><strong>Immediate Attention Required for ");
        s.append(pet_name);
        s.append("</strong></p>\n            <p>");
        s.append(description);
        s.append("</p>\n            <p><strong>Time:</strong> ");
        s.append(started_at);
        s.append("</p>\n\n            <div class=\"section\">\n                <h3>⚠️ Critical Indicators Observed</h3>\n                <ul>\n                    ");
        let indicators_html = li_items(critical_indicators);
        s.append(indicators_html.as_str());
        s.append("\n                </ul>\n            </div>\n\n            <div class=\"section\">\n                <h3>📋 Recommended Actions</h3>\n                <ul>\n                    ");
        let actions_html = li_items(recommended_actions);
        s.append(actions_html.as_str());
        s.append("\n                </ul>\n            </div>\n\n            <div class=\"section\" style=\"text-align: center; margin-top: 30px;\">\n                <a href=\"");
        s.append(video_link);
        s.append("\" class=\"button\">📺 View Video Clip</a>\n            </div>\n            \n            <p style=\"text-align: center; margin-top: 20px;\">\n                <small>This link expires in 24 hours.</small>\n            </p>\n        </div>\n        <div class=\"footer\">\n            <p>Sent by PetPulse Autonomous Monitoring System</p>\n        </div>\n    </div>\n</body>\n</html>\n");
        proof {
            assert(s@ =~= spec_critical_alert_email(
                pet_name@,
                severity@,
                description@,
                started_at@,
                critical_indicators@,
                recommended_actions@,
                video_link@,
            ));
        }
        s
    }

    /// Generates the concise SMS message for a critical alert, truncating a
    /// long description.
    pub fn critical_alert_sms(
        pet_name: &str,
        severity: &str,
        description: &str,
        video_link: &str,
    ) -> (r: String)
        ensures
            r@ == spec_critical_alert_sms(pet_name@, severity@, description@, video_link@),
    {
        let mut s = "\u{1F6A8} PetPulse ALERT: ".to_owned();
        s.append(pet_name);
        s.append(" - ");
        let n = description.unicode_len();
        if n > 50 {
            let head = description.substring_char(0, 47);
            s.append(head);
            s.append("...");
        } else {
            s.append(description);
        }
        s.append("\nSeverity: ");
        let upper = to_uppercase(severity);
        s.append(upper.as_str());
        s.append("\nView: ");
        s.append(video_link);
        proof {
            assert(s@ =~= spec_critical_alert_sms(pet_name@, severity@, description@, video_link@));
        }
        s
    }
}

/// The subject line of the fallback critical-alert email.
pub open spec fn spec_critical_email_subject(pet_name: Seq<char>) -> Seq<char> {
    "\u{1F6A8} CRITICAL ALERT: "@ + pet_name + " needs attention!"@
}

/// Builds the subject line of the fallback critical-alert email.
pub fn critical_email_subject(pet_name: &str) -> (r: String)
    ensures
        r@ == spec_critical_email_subject(pet_name@),
{
    let mut s = "\u{1F6A8} CRITICAL ALERT: ".to_owned();
    s.append(pet_name);
    s.append(" needs attention!");
    proof {
        assert(s@ =~= spec_critical_email_subject(pet_name@));
    }
    s
}

/// The message published to the email channel, with payload ids kept for
/// the dashboard link.
#[derive(Clone, Debug)]
pub struct AlertEmailPayload {
    pub email: String,
    pub pet_name: String,
    pub message: String,
    pub severity: String,
    pub id: String,
    pub title: Option<String>,
}

/// A list of texts rendered quoted and bracketed, each item verbatim.
pub open spec fn spec_quoted_list(items: Seq<String>) -> Seq<char> {
    "["@ + spec_quoted_inner(items) + "]"@
}

/// The items of a quoted list, separated by commas.
pub open spec fn spec_quoted_inner(items: Seq<String>) -> Seq<char>
    decreases items.len(),
{
    if items.len() == 0 {
        Seq::<char>::empty()
    } else if items.len() == 1 {
        "\""@ + items[0]@ + "\""@
    } else {
        spec_quoted_inner(items.drop_last()) + ", "@ + "\""@ + items.last()@ + "\""@
    }
}

fn quoted_list(items: &Vec<String>) -> (r: String)
    ensures
        r@ == spec_quoted_list(items@),
{
    let mut s = "[".to_owned();
    proof {
        assert(s@ =~= "["@ + spec_quoted_inner(items@.subrange(0, 0)));
    }
    let mut i: usize = 0;
    while i < items.len()
        invariant
            i <= items@.len(),
            s@ == "["@ + spec_quoted_inner(items@.subrange(0, i as int)),
        decreases items@.len() - i,
    {
        if i > 0 {
            s.append(", ");
        }
        s.append("\"");
        s.append(items[i].as_str());
        s.append("\"");
        proof {
            let post = items@.subrange(0, i + 1);
            assert(post.drop_last() =~= items@.subrange(0, i as int));
            assert(post.last() == items@[i as int]);
            assert(post[0] == items@[0]);
            assert(s@ =~= "["@ + spec_quoted_inner(post));
        }
        i += 1;
    }
    s.append("]");
    proof {
        assert(items@.subrange(0, items@.len() as int) =~= items@);
        assert(s@ =~= spec_quoted_list(items@));
    }
    s
}

/// The body of the published email message: the description followed by
/// the indicator and action lists, items quoted verbatim.
pub open spec fn spec_email_alert_message(
    description: Seq<char>,
    indicators: Seq<String>,
    actions: Seq<String>,
) -> Seq<char> {
    description + "\n\nIndicators: "@ + spec_quoted_list(indicators) + "\n\nActions: "@
        + spec_quoted_list(actions)
}

/// Builds the message published to the email channel for a critical alert.
/// The id is a placeholder pointing the dashboard at the latest alert.
pub fn build_alert_email_payload(
    email: &str,
    pet_name: &str,
    severity: &str,
    description: &str,
    critical_indicators: &Vec<String>,
    recommended_actions: &Vec<String>,
) -> (r: AlertEmailPayload)
    ensures
        r.email@ == email@,
        r.pet_name@ == pet_name@,
        r.severity@ == severity@,
        r.message@ == spec_email_alert_message(
            description@,
            critical_indicators@,
            recommended_actions@,
        ),
        r.id@ == "latest"@,
        r.title is Some && r.title->0@ == "Critical Alert for "@ + pet_name@,
{
    let mut message = description.to_owned();
    message.append("\n\nIndicators: ");
    let indicators = quoted_list(critical_indicators);
    message.append(indicators.as_str());
    message.append("\n\nActions: ");
    let actions = quoted_list(recommended_actions);
    message.append(actions.as_str());
    let mut title = "Critical Alert for ".to_owned();
    title.append(pet_name);
    proof {
        assert(message@ =~= spec_email_alert_message(
            description@,
            critical_indicators@,
            recommended_actions@,
        ));
    }
    AlertEmailPayload {
        email: email.to_owned(),
        pet_name: pet_name.to_owned(),
        message,
        severity: severity.to_owned(),
        id: "latest".to_owned(),
        title: Some(title),
    }
}

/// A counter one step further on, held at the top of its range.
pub open spec fn spec_bumped(n: nat) -> nat {
    if n < u64::MAX {
        n + 1
    } else {
        n
    }
}

/// The dispatcher's bookkeeping: how many notifications went out or failed
/// on each channel, and which pets raised critical alerts.
#[derive(Clone, Debug)]
pub struct NotificationStats {
    pub email_sent: u64,
    pub sms_sent: u64,
    pub other_sent: u64,
    pub email_failed: u64,
    pub sms_failed: u64,
    pub other_failed: u64,
    pub critical_pets: Vec<i32>,
}

impl NotificationStats {
    /// Fresh bookkeeping with nothing recorded.
    pub fn new() -> (r: NotificationStats)
        ensures
            r.email_sent == 0,
            r.sms_sent == 0,
            r.other_sent == 0,
            r.email_failed == 0,
            r.sms_failed == 0,
            r.other_failed == 0,
            r.critical_pets@ =~= Seq::<i32>::empty(),
    {
        NotificationStats {
            email_sent: 0,
            sms_sent: 0,
            other_sent: 0,
            email_failed: 0,
            sms_failed: 0,
            other_failed: 0,
            critical_pets: Vec::new(),
        }
    }

    /// How many critical alerts have been recorded.
    pub fn critical_alert_count(&self) -> (r: usize)
        ensures
            r == self.critical_pets@.len(),
    {
        self.critical_pets.len()
    }
}

/// Records one more delivered notification on a channel; an unknown
/// channel counts under the rest.
pub fn increment_notifications_sent(stats: &mut NotificationStats, channel: &str)
    ensures
        channel@ == "email"@ ==> final(stats).email_sent == spec_bumped(old(stats).email_sent as nat),
        channel@ == "sms"@ ==> final(stats).sms_sent == spec_bumped(old(stats).sms_sent as nat),
        (channel@ != "email"@ && channel@ != "sms"@) ==> final(stats).other_sent == spec_bumped(
            old(stats).other_sent as nat,
        ),
        channel@ != "email"@ ==> final(stats).email_sent == old(stats).email_sent,
        channel@ != "sms"@ ==> final(stats).sms_sent == old(stats).sms_sent,
        (channel@ == "email"@ || channel@ == "sms"@) ==> final(stats).other_sent == old(
            stats,
        ).other_sent,
        final(stats).email_failed == old(stats).email_failed,
        final(stats).sms_failed == old(stats).sms_failed,
        final(stats).other_failed == old(stats).other_failed,
        final(stats).critical_pets == old(stats).critical_pets,
{
    proof {
        reveal_strlit("email");
        reveal_strlit("sms");
        assert("email"@.len() == 5);
        assert("sms"@.len() == 3);
        assert("email"@ != "sms"@);
    }
    if crate::text::str_eq(channel, "email") {
        stats.email_sent = bump(stats.email_sent);
    } else if crate::text::str_eq(channel, "sms") {
        stats.sms_sent = bump(stats.sms_sent);
    } else {
        stats.other_sent = bump(stats.other_sent);
    }
}

/// Records one more failed notification on a channel; an unknown channel
/// counts under the rest.
pub fn increment_notifications_failed(stats: &mut NotificationStats, channel: &str)
    ensures
        channel@ == "email"@ ==> final(stats).email_failed == spec_bumped(
            old(stats).email_failed as nat,
        ),
        channel@ == "sms"@ ==> final(stats).sms_failed == spec_bumped(
            old(stats).sms_failed as nat,
        ),
        (channel@ != "email"@ && channel@ != "sms"@) ==> final(stats).other_failed == spec_bumped(
            old(stats).other_failed as nat,
        ),
        channel@ != "email"@ ==> final(stats).email_failed == old(stats).email_failed,
        channel@ != "sms"@ ==> final(stats).sms_failed == old(stats).sms_failed,
        (channel@ == "email"@ || channel@ == "sms"@) ==> final(stats).other_failed == old(
            stats,
        ).other_failed,
        final(stats).email_sent == old(stats).email_sent,
        final(stats).sms_sent == old(stats).sms_sent,
        final(stats).other_sent == old(stats).other_sent,
        final(stats).critical_pets == old(stats).critical_pets,
{
    proof {
        reveal_strlit("email");
        reveal_strlit("sms");
        assert("email"@.len() == 5);
        assert("sms"@.len() == 3);
        assert("email"@ != "sms"@);
    }
    if crate::text::str_eq(channel, "email") {
        stats.email_failed = bump(stats.email_failed);
    } else if crate::text::str_eq(channel, "sms") {
        stats.sms_failed = bump(stats.sms_failed);
    } else {
        stats.other_failed = bump(stats.other_failed);
    }
}

/// Records a critical alert against the pet that raised it.
pub fn increment_critical_alerts(stats: &mut NotificationStats, pet_id: i32)
    ensures
        final(stats).critical_pets@ == old(stats).critical_pets@.push(pet_id),
        final(stats).email_sent == old(stats).email_sent,
        final(stats).sms_sent == old(stats).sms_sent,
        final(stats).other_sent == old(stats).other_sent,
        final(stats).email_failed == old(stats).email_failed,
        final(stats).sms_failed == old(stats).sms_failed,
        final(stats).other_failed == old(stats).other_failed,
{
    stats.critical_pets.push(pet_id);
}

fn bump(n: u64) -> (r: u64)
    ensures
        r == spec_bumped(n as nat),
{
    if n < u64::MAX {
        n + 1
    } else {
        n
    }
}

} // verus!
