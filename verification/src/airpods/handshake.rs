//! The opening of an AirPods connection.

use vstd::prelude::*;

verus! {

/// Seconds to wait for an acknowledgement.
pub const ACK_TIMEOUT_SECS: u64 = 5;

/// Seconds before the first look at whether the battery was reported.
pub const NOTIFY_FIRST_DELAY_SECS: u64 = 1;

/// What is to be done next.
#[derive(Clone, Copy, Debug, PartialEq, Eq, Structural)]
pub enum HandshakeStep {
    SendHandshake,
    AwaitHandshakeAck,
    SendFeatures,
    AwaitFeaturesAck,
    SendNotify,
    /// The connection is open.
    Complete,
    /// The connection cannot be opened.
    Failed,
}

impl HandshakeStep {
    /// What is to be done after a step that went well or not.
    pub open spec fn after(self, went_well: bool) -> HandshakeStep {
        match self {
            HandshakeStep::SendHandshake => if went_well {
                HandshakeStep::AwaitHandshakeAck
            } else {
                HandshakeStep::Failed
            },
            HandshakeStep::AwaitHandshakeAck => HandshakeStep::SendFeatures,
            HandshakeStep::SendFeatures => if went_well {
                HandshakeStep::AwaitFeaturesAck
            } else {
                HandshakeStep::Failed
            },
            HandshakeStep::AwaitFeaturesAck => HandshakeStep::SendNotify,
            HandshakeStep::SendNotify => if went_well {
                HandshakeStep::Complete
            } else {
                HandshakeStep::Failed
            },
            HandshakeStep::Complete => HandshakeStep::Complete,
            HandshakeStep::Failed => HandshakeStep::Failed,
        }
    }

    /// What is to be done first.
    pub fn start() -> (step: HandshakeStep)
        ensures
            step == HandshakeStep::SendHandshake,
    {
        HandshakeStep::SendHandshake
    }

    /// What is to be done after a step that went well or not. Only a packet that
    /// could not be sent stops the opening; an acknowledgement may be missing.
    pub fn next(self, went_well: bool) -> (step: HandshakeStep)
        ensures
            step == self.after(went_well),
    {
        match self {
            HandshakeStep::SendHandshake if went_well => HandshakeStep::AwaitHandshakeAck,
            HandshakeStep::AwaitHandshakeAck => HandshakeStep::SendFeatures,
            HandshakeStep::SendFeatures if went_well => HandshakeStep::AwaitFeaturesAck,
            HandshakeStep::AwaitFeaturesAck => HandshakeStep::SendNotify,
            HandshakeStep::SendNotify if went_well => HandshakeStep::Complete,
            HandshakeStep::Complete => HandshakeStep::Complete,
            _ => HandshakeStep::Failed,
        }
    }
}

/// Where the opening stands after a number of steps.
pub open spec fn after_steps(outcomes: Seq<bool>) -> HandshakeStep
    decreases outcomes.len(),
{
    if outcomes.len() == 0 {
        HandshakeStep::SendHandshake
    } else {
        after_steps(outcomes.drop_last()).after(outcomes.last())
    }
}

/// The connection is open once the three packets were sent, whether they were
/// acknowledged or not, and not before that.
pub proof fn law_sent_packets_open_the_connection(outcomes: Seq<bool>)
    ensures
        after_steps(outcomes) == HandshakeStep::Complete <==> outcomes.len() >= 5 && outcomes[0]
            && outcomes[2] && outcomes[4],
        after_steps(outcomes) == HandshakeStep::Failed <==> {
            ||| outcomes.len() >= 1 && !outcomes[0]
            ||| outcomes.len() >= 3 && !outcomes[2]
            ||| outcomes.len() >= 5 && !outcomes[4]
        },
{
    lemma_position(outcomes);
}

proof fn lemma_position(outcomes: Seq<bool>)
    ensures
        after_steps(outcomes) == {
            let n = outcomes.len();
            if n >= 1 && !outcomes[0] || n >= 3 && !outcomes[2] || n >= 5 && !outcomes[4] {
                HandshakeStep::Failed
            } else if n == 0 {
                HandshakeStep::SendHandshake
            } else if n == 1 {
                HandshakeStep::AwaitHandshakeAck
            } else if n == 2 {
                HandshakeStep::SendFeatures
            } else if n == 3 {
                HandshakeStep::AwaitFeaturesAck
            } else if n == 4 {
                HandshakeStep::SendNotify
            } else {
                HandshakeStep::Complete
            }
        },
    decreases outcomes.len(),
{
    if outcomes.len() > 0 {
        lemma_position(outcomes.drop_last());
    }
}

/// Seconds to wait after each further request for notifications.
pub open spec fn notify_delays() -> Seq<u64> {
    seq![2u64, 3u64, 5u64, 10u64]
}

/// Seconds to wait after a further request for notifications, if there is to be one.
pub open spec fn notify_delay(attempt: nat, battery_known: bool) -> Option<u64> {
    if attempt < notify_delays().len() && !battery_known {
        Some(notify_delays()[attempt as int])
    } else {
        None
    }
}

/// Decides on a further request for notifications. If there is to be one, the
/// seconds to wait after it are returned.
pub fn notify_retry(attempt: usize, battery_known: bool) -> (delay: Option<u64>)
    ensures
        delay == if attempt < notify_delays().len() && !battery_known {
            Some(notify_delays()[attempt as int])
        } else {
            None
        },
        delay == notify_delay(attempt as nat, battery_known),
{
    if battery_known {
        return None;
    }
    match attempt {
        0 => Some(2),
        1 => Some(3),
        2 => Some(5),
        3 => Some(10),
        _ => None,
    }
}

/// The packets are sent in their order, each followed by the wait for its
/// acknowledgement where it has one; a wait goes on to the next packet whether the
/// acknowledgement came or not.
pub proof fn law_steps_follow_in_order(outcomes: Seq<bool>)
    requires
        outcomes.len() >= 1 ==> outcomes[0],
        outcomes.len() >= 3 ==> outcomes[2],
    ensures
        outcomes.len() == 0 ==> after_steps(outcomes) is SendHandshake,
        outcomes.len() == 1 ==> after_steps(outcomes) is AwaitHandshakeAck,
        outcomes.len() == 2 ==> after_steps(outcomes) is SendFeatures,
        outcomes.len() == 3 ==> after_steps(outcomes) is AwaitFeaturesAck,
        outcomes.len() == 4 ==> after_steps(outcomes) is SendNotify,
{
    lemma_position(outcomes);
}

/// Once the connection is open, or cannot be opened, nothing changes that; and a
/// packet that could not be sent ends the opening at once.
pub proof fn law_end_of_the_opening_is_final(step: HandshakeStep, went_well: bool)
    ensures
        HandshakeStep::Complete.after(went_well) is Complete,
        HandshakeStep::Failed.after(went_well) is Failed,
        step.after(false) is Failed <==> step is SendHandshake || step is SendFeatures || step
            is SendNotify || step is Failed,
        step.after(true) is Failed <==> step is Failed,
        step is AwaitHandshakeAck || step is AwaitFeaturesAck ==> step.after(true) == step.after(
            false,
        ),
{
}

/// There are four further requests for notifications, and the wait after each is
/// longer than the one before: two, three, five and ten seconds.
pub proof fn law_notification_delays(attempt: int)
    ensures
        notify_delays().len() == 4,
        attempt == 0 ==> notify_delays()[attempt] == 2,
        attempt == 1 ==> notify_delays()[attempt] == 3,
        attempt == 2 ==> notify_delays()[attempt] == 5,
        attempt == 3 ==> notify_delays()[attempt] == 10,
{
}

/// Notifications are asked for again, at most four times and with growing delays,
/// as long as the battery was not reported.
pub proof fn law_notifications_are_asked_for_until_the_battery_is_known(
    attempt: nat,
    battery_known: bool,
)
    ensures
        notify_delay(attempt, battery_known) is Some <==> attempt < 4 && !battery_known,
        attempt < 3 && !battery_known ==> notify_delay(attempt, battery_known)->0 < notify_delay(
            attempt + 1,
            battery_known,
        )->0,
        notify_delay(0, false) == Some(2u64),
        notify_delay(3, false) == Some(10u64),
{
}

} // verus!
