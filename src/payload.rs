use vstd::prelude::*;
use vstd::string::*;

use crate::labels::Labels;

verus! {

/// The state an alert reports.
#[derive(Clone, Copy, Debug, PartialEq, Eq, Hash, Structural)]
pub enum AlertStatus {
    Firing,
    Resolved,
}

/// Why an inbound payload was refused.
#[derive(Clone, Copy, Debug, PartialEq, Eq, Structural)]
pub enum ValidationError {
    /// A status token other than `firing` or `resolved`.
    UnknownStatus,
}

/// The display token of a status.
pub open spec fn status_name(s: AlertStatus) -> Seq<char> {
    match s {
        AlertStatus::Firing => "Firing"@,
        AlertStatus::Resolved => "Resolved"@,
    }
}

/// The status that a wire token denotes, if any.
pub open spec fn status_of_token(t: Seq<char>) -> Option<AlertStatus> {
    if t == "firing"@ {
        Some(AlertStatus::Firing)
    } else if t == "resolved"@ {
        Some(AlertStatus::Resolved)
    } else {
        None
    }
}

impl AlertStatus {
    /// Reads a wire token: `firing` or `resolved`, in lower case.
    pub fn parse(token: &str) -> (r: Result<AlertStatus, ValidationError>)
        ensures
            match status_of_token(token@) {
                Some(s) => r == Ok::<AlertStatus, ValidationError>(s),
                None => r == Err::<AlertStatus, ValidationError>(ValidationError::UnknownStatus),
            },
    {
        let t = String::from_str(token);
        if t == String::from_str("firing") {
            Ok(AlertStatus::Firing)
        } else if t == String::from_str("resolved") {
            Ok(AlertStatus::Resolved)
        } else {
            Err(ValidationError::UnknownStatus)
        }
    }

    /// The display token: `Firing` or `Resolved`.
    pub fn name(&self) -> (r: &'static str)
        ensures
            r@ == status_name(*self),
    {
        match self {
            AlertStatus::Firing => "Firing",
            AlertStatus::Resolved => "Resolved",
        }
    }
}

/// Free-form metadata of an alert.
pub struct Annotations {
    pub summary: String,
    pub description: Option<String>,
}

/// One alerting condition.
pub struct Alert {
    pub status: AlertStatus,
    pub labels: Labels,
    pub annotations: Option<Annotations>,
    pub fingerprint: String,
}

/// The inbound payload: a batch of alerts with what they share.
pub struct AlertGroup {
    pub version: String,
    pub status: AlertStatus,
    pub alerts: Vec<Alert>,
    pub group_labels: Labels,
    pub common_labels: Labels,
    pub common_annotations: Option<Annotations>,
    pub truncated_alerts: i32,
}

} // verus!
