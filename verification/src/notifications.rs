//! What a desktop notification looks like.
//!
//! The alert policy decides what should notify; handing the notification to
//! the desktop happens outside this crate. Here are the decisions in between:
//! how urgent the desktop should treat an alert, and the unique id each
//! delivery goes under.

use vstd::prelude::*;

use crate::alerts::{AlertNotification, AlertSeverity};
use crate::text::{decimal, push_decimal};

verus! {

/// Action a notification and its button activate, bringing the app forward.
pub const SHOW_DASHBOARD_ACTION: &'static str = "app.show-dashboard";

/// Label of the notification's button.
pub const OPEN_DASHBOARD_LABEL: &'static str = "Open Dashboard";

/// How prominently the desktop shows a notification.
#[derive(Debug, Clone, Copy, PartialEq, Eq, Structural)]
pub enum Urgency {
    Normal,
    High,
    Urgent,
}

/// The urgency of an alert: the more severe, the more prominent.
pub fn urgency(severity: AlertSeverity) -> (urgency: Urgency)
    ensures
        urgency == match severity {
            AlertSeverity::Notice => Urgency::Normal,
            AlertSeverity::Warning => Urgency::High,
            AlertSeverity::Critical => Urgency::Urgent,
        },
{
    match severity {
        AlertSeverity::Notice => Urgency::Normal,
        AlertSeverity::Warning => Urgency::High,
        AlertSeverity::Critical => Urgency::Urgent,
    }
}

/// The id one delivery goes under: the alert's id and a sequence number, so
/// a repeated alert shows up again instead of silently replacing the last one.
pub fn delivery_id(alert_id: &str, sequence: u64) -> (id: String)
    ensures
        id@ == alert_id@ + "-"@ + decimal(sequence as nat),
{
    let mut id = String::from_str(alert_id);
    id.append("-");
    push_decimal(&mut id, sequence);
    id
}

/// The notification Settings sends to show that notifications work.
pub fn test_notification() -> (alert: AlertNotification)
    ensures
        alert.id@ == "airgradient-test-notification"@,
        alert.title@ == "Air Monitor test notification"@,
        alert.body@
            == "Notifications are working. Click this notification to open the dashboard."@,
        alert.severity == AlertSeverity::Notice,
{
    AlertNotification {
        id: String::from_str("airgradient-test-notification"),
        title: String::from_str("Air Monitor test notification"),
        body: String::from_str(
            "Notifications are working. Click this notification to open the dashboard.",
        ),
        severity: AlertSeverity::Notice,
    }
}

} // verus!
