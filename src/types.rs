use vstd::prelude::*;

verus! {

/// The kind of a message shown to the user.
#[derive(Debug, Clone, Copy, PartialEq, Eq, Structural)]
pub enum AlertType {
    Error,
    Info,
}

/// A message shown to the user under the service controls.
#[derive(Debug, Clone)]
pub struct Alert {
    pub message: String,
    pub alert_type: AlertType,
}

} // verus!
