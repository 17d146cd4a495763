//! Alerts from Grafana, relayed to the debug channel.
use vstd::prelude::*;

verus! {

/// The route Grafana posts its alert webhooks to.
pub struct GrafanaRoute;

/// The path of the Grafana webhook.
pub const GRAFANA_PATH: &'static str = "/grafana";

impl GrafanaRoute {
    /// The path of the Grafana webhook.
    pub fn path() -> (r: &'static str)
        ensures
            r@ == GRAFANA_PATH@,
    {
        GRAFANA_PATH
    }
}

/// The chat message for an alert: the title as a heading between sirens,
/// then the alert's message.
pub open spec fn alert_message_spec(title: Seq<char>, message: Seq<char>) -> Seq<char> {
    "# 🚨🚨🚨🚨 "@ + title + " 🚨🚨🚨🚨\n\n"@ + message
}

/// The chat message for an alert with the given title and message.
pub fn alert_message(title: &str, message: &str) -> (r: String)
    ensures
        r@ == alert_message_spec(title@, message@),
{
    let mut r = String::from_str("# 🚨🚨🚨🚨 ");
    r.append(title);
    r.append(" 🚨🚨🚨🚨\n\n");
    r.append(message);
    r
}

} // verus!
