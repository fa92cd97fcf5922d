//! The link settings that the control loop follows.
use vstd::prelude::*;

verus! {

/// The endpoint and topics in use: reconnect when the first two change,
/// rebuild the command mapper when the third does.
pub struct LinkConfig {
    pub ws_url: String,
    pub subscribe_topic: String,
    pub publish_topic: String,
}

/// What one look at the settings requires of the control loop.
#[derive(Debug, Clone, Copy, PartialEq, Eq, Structural)]
pub struct Reconfigure {
    /// Open a new bridge to the (new) endpoint and subscription.
    pub reconnect: bool,
    /// Start a new mapper for the (new) publish topic.
    pub republish: bool,
}

/// What following `wanted` requires when `current` is in use (texts in field order).
pub open spec fn reconfigure_for(
    current: (Seq<char>, Seq<char>, Seq<char>),
    wanted: (Seq<char>, Seq<char>, Seq<char>),
) -> Reconfigure {
    Reconfigure { reconnect: current.0 != wanted.0 || current.1 != wanted.1, republish: current.2 != wanted.2 }
}

/// A changed endpoint or a changed subscription each alone calls for a new
/// bridge, and nothing else does; a changed publish topic, and nothing else,
/// calls for a new mapper.
pub proof fn lemma_what_changes_rebuild(
    current: (Seq<char>, Seq<char>, Seq<char>),
    wanted: (Seq<char>, Seq<char>, Seq<char>),
)
    ensures
        current.0 != wanted.0 ==> reconfigure_for(current, wanted).reconnect,
        current.1 != wanted.1 ==> reconfigure_for(current, wanted).reconnect,
        current.0 == wanted.0 && current.1 == wanted.1 ==> !reconfigure_for(current, wanted).reconnect,
        current.2 != wanted.2 <==> reconfigure_for(current, wanted).republish,
{
}

/// Once the loop has followed the settings, following the same settings again
/// rebuilds nothing.
pub proof fn lemma_follow_settles(wanted: (Seq<char>, Seq<char>, Seq<char>))
    ensures
        reconfigure_for(wanted, wanted) == (Reconfigure { reconnect: false, republish: false }),
{
}

fn same_text(a: &String, b: &String) -> (same: bool)
    ensures
        same == (a@ == b@),
{
    a.eq(b)
}

impl LinkConfig {
    /// The three texts, in field order.
    pub open spec fn texts(&self) -> (Seq<char>, Seq<char>, Seq<char>) {
        (self.ws_url@, self.subscribe_topic@, self.publish_topic@)
    }

    /// Compares the link in use with the wanted one, takes over what changed, and
    /// says what the loop has to rebuild.
    pub fn follow(&mut self, wanted: &LinkConfig) -> (plan: Reconfigure)
        ensures
            plan == reconfigure_for(old(self).texts(), wanted.texts()),
            plan.reconnect <==> (old(self).ws_url@ != wanted.ws_url@ || old(self).subscribe_topic@
                != wanted.subscribe_topic@),
            plan.republish <==> old(self).publish_topic@ != wanted.publish_topic@,
            final(self).texts() == wanted.texts(),
    {
        let url_changed = !same_text(&self.ws_url, &wanted.ws_url);
        let sub_changed = !same_text(&self.subscribe_topic, &wanted.subscribe_topic);
        let pub_changed = !same_text(&self.publish_topic, &wanted.publish_topic);
        if url_changed || sub_changed {
            self.ws_url = wanted.ws_url.clone();
            self.subscribe_topic = wanted.subscribe_topic.clone();
        }
        if pub_changed {
            self.publish_topic = wanted.publish_topic.clone();
        }
        Reconfigure { reconnect: url_changed || sub_changed, republish: pub_changed }
    }
}

/// What one cycle of the control loop does besides following the settings.
#[derive(Debug, Clone, Copy, PartialEq, Eq, Structural)]
pub struct CyclePlan {
    /// Read the messages the bridge received and take in the status reports.
    pub read_incoming: bool,
    /// Run the mapper, and send its command if it says so.
    pub run_mapper: bool,
}

/// The cycle's plan: incoming messages are read whenever a bridge is open,
/// whether or not a gamepad is connected; the mapper runs only with a connected
/// gamepad and an open bridge.
pub fn plan_cycle(pad_connected: bool, bridge_open: bool) -> (plan: CyclePlan)
    ensures
        plan.read_incoming == bridge_open,
        plan.run_mapper == (pad_connected && bridge_open),
{
    CyclePlan { read_incoming: bridge_open, run_mapper: pad_connected && bridge_open }
}

/// The status kept after a batch of messages: the last report that parsed
/// (`Some`), or `current` where none did.
pub open spec fn newest_report_of<T>(current: Option<T>, reports: Seq<Option<T>>) -> Option<T>
    decreases reports.len(),
{
    if reports.len() == 0 {
        current
    } else {
        match reports.last() {
            Some(r) => Some(r),
            None => newest_report_of(current, reports.drop_last()),
        }
    }
}

/// Takes in the parse results of a batch of messages, in arrival order: the last
/// report that parsed replaces the current status; where none parsed, the
/// current status stays.
pub fn newest_report<T>(current: Option<T>, reports: Vec<Option<T>>) -> (status: Option<T>)
    ensures
        status == newest_report_of(current, reports@),
{
    let mut rest = reports;
    while rest.len() > 0
        invariant
            newest_report_of(current, rest@) == newest_report_of(current, reports@),
        decreases rest@.len(),
    {
        let ghost before = rest@;
        let last = rest.pop();
        proof {
            assert(rest@ == before.drop_last());
        }
        match last {
            Some(Some(report)) => {
                return Some(report);
            },
            _ => {},
        }
    }
    current
}

} // verus!
