use vstd::prelude::*;

verus! {

/// A user-visible notification a state update may raise alongside the
/// rendered line.  The driving loop forwards it to the notification sink; it
/// is never written to the primary output stream.
#[derive(Debug, Clone, PartialEq, Eq)]
pub struct Alert {
    pub message: String,
}

impl Alert {
    pub fn new(message: String) -> (a: Alert)
        ensures
            a.message@ == message@,
    {
        Alert { message }
    }
}

/// The messages carried by a batch of alerts, in order.
pub open spec fn alert_messages(alerts: Seq<Alert>) -> Seq<Seq<char>> {
    alerts.map(|i: int, a: Alert| a.message@)
}

} // verus!
