//! Publication of the reaction-role announcement: one message, then one
//! reaction per binding, in table order.
//!
//! The gateway performs the sends; this module decides them. A failed
//! message send ends the publication at once, with no reaction attempted;
//! a failed reaction attach is logged by the caller and the remaining
//! reactions are still attempted.
//!
//! The channel published to and the channel the router watches are
//! independent configuration values with no automatic linkage: keeping
//! them consistent is the operator's responsibility.

use vstd::prelude::*;
use crate::reaction::ReactionKey;
use crate::store::RoleBinding;

verus! {

/// A failed publication: the announcement message itself could not be sent.
#[derive(Clone, Copy, Debug, PartialEq, Eq, Structural)]
pub enum PublishError {
    SendFailed,
}

/// The plan for one announcement: the channel to post in and the reactions
/// to attach, one per binding, in table order.
pub struct AnnouncementPlan {
    pub channel_id: u64,
    pub reactions: Vec<ReactionKey>,
}

/// Progress of one publication.
#[derive(Clone, Copy, Debug, PartialEq, Eq, Structural)]
pub enum PublishPhase {
    /// The announcement message has not been sent yet.
    Unsent,
    /// The message is up; this many reaction attempts have been made.
    Attaching { attached: usize },
    /// Publication is over; `failed` records a failed message send.
    Done { failed: bool },
}

/// What the publisher asks of the gateway next.
#[derive(Clone, Copy, Debug, PartialEq, Eq, Structural)]
pub enum PublishStep {
    /// Send the announcement message to the plan's channel.
    SendMessage,
    /// Attach the plan's reaction at this position.
    AttachReaction { index: usize },
    /// Nothing is left to do.
    Idle,
}

/// A phase speaks about positions the plan has: while attaching, the count
/// of attempts made stays below the number of planned reactions.
pub open spec fn phase_wf(total: nat, phase: PublishPhase) -> bool {
    match phase {
        PublishPhase::Attaching { attached } => attached < total,
        _ => true,
    }
}

/// One transition of the publication: from `phase`, after the gateway
/// reported `ok` for the step just performed. A failed message send ends
/// the publication at once; a failed reaction attach does not, the next
/// reaction is still attempted.
pub open spec fn publish_transition(total: nat, phase: PublishPhase, ok: bool) -> PublishPhase {
    match phase {
        PublishPhase::Unsent => {
            if !ok {
                PublishPhase::Done { failed: true }
            } else if total == 0 {
                PublishPhase::Done { failed: false }
            } else {
                PublishPhase::Attaching { attached: 0 }
            }
        },
        PublishPhase::Attaching { attached } => {
            if attached + 1 < total {
                PublishPhase::Attaching { attached: (attached + 1) as usize }
            } else {
                PublishPhase::Done { failed: false }
            }
        },
        PublishPhase::Done { failed } => PublishPhase::Done { failed },
    }
}

/// The gateway call each phase asks for next.
pub open spec fn next_step_spec(phase: PublishPhase) -> PublishStep {
    match phase {
        PublishPhase::Unsent => PublishStep::SendMessage,
        PublishPhase::Attaching { attached } => PublishStep::AttachReaction { index: attached },
        PublishPhase::Done { .. } => PublishStep::Idle,
    }
}

/// Builds the announcement plan: the reactions to attach are the bound
/// emojis, one per binding, in table order.
pub fn plan_announcement(channel_id: u64, bindings: &Vec<RoleBinding>) -> (p: AnnouncementPlan)
    ensures
        p.channel_id == channel_id,
        p.reactions@.len() == bindings@.len(),
        forall|i: int|
            0 <= i < bindings@.len() ==> (#[trigger] p.reactions@[i])@ == bindings@[i].key@,
{
    let mut reactions: Vec<ReactionKey> = Vec::new();
    let mut i: usize = 0;
    while i < bindings.len()
        invariant
            i <= bindings@.len(),
            reactions@.len() == i as int,
            forall|t: int|
                0 <= t < i ==> (#[trigger] reactions@[t])@ == bindings@[t].key@,
        decreases bindings@.len() - i,
    {
        reactions.push(bindings[i].key.clone());
        i += 1;
    }
    AnnouncementPlan { channel_id, reactions }
}

impl AnnouncementPlan {
    /// The gateway call to make next, per [`next_step_spec`]: publication
    /// that is done, in particular after a failed send, asks for nothing.
    pub fn next_step(&self, phase: PublishPhase) -> (s: PublishStep)
        ensures
            s == next_step_spec(phase),
            phase is Done ==> s == PublishStep::Idle,
    {
        match phase {
            PublishPhase::Unsent => PublishStep::SendMessage,
            PublishPhase::Attaching { attached } => PublishStep::AttachReaction {
                index: attached,
            },
            PublishPhase::Done { .. } => PublishStep::Idle,
        }
    }

    /// Advances the publication after the gateway reported `ok` for the
    /// step just performed, per [`publish_transition`]. A failed message
    /// send ends the publication with no reaction ever attempted; a failed
    /// reaction attach moves on to the next reaction.
    pub fn advance(&self, phase: PublishPhase, ok: bool) -> (next: PublishPhase)
        requires
            phase_wf(self.reactions@.len(), phase),
        ensures
            next == publish_transition(self.reactions@.len(), phase, ok),
            phase_wf(self.reactions@.len(), next),
            phase is Unsent && !ok ==> next == (PublishPhase::Done { failed: true }),
    {
        match phase {
            PublishPhase::Unsent => {
                if !ok {
                    PublishPhase::Done { failed: true }
                } else if self.reactions.len() == 0 {
                    PublishPhase::Done { failed: false }
                } else {
                    PublishPhase::Attaching { attached: 0 }
                }
            },
            PublishPhase::Attaching { attached } => {
                let total = self.reactions.len();
                if attached + 1 < total {
                    PublishPhase::Attaching { attached: attached + 1 }
                } else {
                    PublishPhase::Done { failed: false }
                }
            },
            PublishPhase::Done { failed } => PublishPhase::Done { failed },
        }
    }

    /// The publication's outcome once it is done: a failed message send is
    /// the one publication error.
    pub fn outcome(&self, phase: PublishPhase) -> (r: Option<Result<(), PublishError>>)
        ensures
            match phase {
                PublishPhase::Done { failed } => r == Some(
                    if failed {
                        Err::<(), PublishError>(PublishError::SendFailed)
                    } else {
                        Ok::<(), PublishError>(())
                    },
                ),
                _ => r is None,
            },
    {
        match phase {
            PublishPhase::Done { failed } => {
                if failed {
                    Some(Err(PublishError::SendFailed))
                } else {
                    Some(Ok(()))
                }
            },
            _ => None,
        }
    }
}

/// Title of the announcement message.
pub fn announcement_title() -> (t: String)
    ensures
        t@ == "Reaction Roles"@,
{
    String::from_str("Reaction Roles")
}

/// Body of the announcement message, naming each emoji and the role it
/// offers.
pub fn announcement_body() -> (t: String)
    ensures
        t@
            == "<a:gib:956543324410507284> for giveaways given by Collab People\n<a:fraggy_spit:1084701921392218172> for Burning away Money to Zil\n:parrot: for PirateNationBrick Announcement By zyo\n<:pepefingerping:956560593819693087> or Any other Pings that Fuckers want to ping\n:coin: for Alt-coins Buy opps?"@,
{
    String::from_str(
        "<a:gib:956543324410507284> for giveaways given by Collab People\n<a:fraggy_spit:1084701921392218172> for Burning away Money to Zil\n:parrot: for PirateNationBrick Announcement By zyo\n<:pepefingerping:956560593819693087> or Any other Pings that Fuckers want to ping\n:coin: for Alt-coins Buy opps?",
    )
}

} // verus!
