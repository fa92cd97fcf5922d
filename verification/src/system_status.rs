//! Picking the robot's status reports out of the rosbridge messages.
use vstd::prelude::*;

verus! {

/// `serde_json::Value`, a parsed JSON document; carried through unopened.
#[verifier::external_type_specification]
#[verifier::external_body]
pub struct ExJsonValue(serde_json::Value);

/// The ROS `builtin_interfaces/Time` of a status report.
#[derive(Debug, Clone, Copy, PartialEq, Eq, Structural)]
pub struct RosTime {
    pub sec: i32,
    pub nanosec: u32,
}

/// The outer envelope of a rosbridge v2 message.
pub struct RosbridgePublish {
    pub op: String,
    pub topic: Option<String>,
    /// The payload, still as JSON.
    pub msg: Option<serde_json::Value>,
}

/// The topic that carries the status reports, with its leading slash.
pub open spec fn monitor_topic() -> Seq<char> {
    "/dog/monitor"@
}

/// The same topic written without the leading slash.
pub open spec fn monitor_topic_relative() -> Seq<char> {
    "dog/monitor"@
}

/// The envelope is a publication on the monitor topic (with or without the
/// leading slash) that carries a payload.
pub open spec fn is_status_envelope(outer: RosbridgePublish) -> bool {
    &&& outer.op@ == "publish"@
    &&& outer.topic matches Some(t) && (t@ == monitor_topic() || t@ == monitor_topic_relative())
    &&& outer.msg is Some
}

fn text_is(text: &String, expected: &str) -> (same: bool)
    ensures
        same == (text@ == expected@),
{
    text.eq(&expected.to_owned())
}

impl RosbridgePublish {
    /// The payload of a status report: `Some` exactly for a publication on the
    /// monitor topic that carries a payload, and then that payload.
    pub fn status_payload(self) -> (payload: Option<serde_json::Value>)
        ensures
            payload is Some <==> is_status_envelope(self),
            payload is Some ==> payload == self.msg,
    {
        if !text_is(&self.op, "publish") {
            return None;
        }
        let on_monitor = match &self.topic {
            Some(t) => text_is(t, "/dog/monitor") || text_is(t, "dog/monitor"),
            None => false,
        };
        if !on_monitor {
            return None;
        }
        self.msg
    }
}

} // verus!
