//! Admission of incoming reaction events: filter, look up, act.

use vstd::prelude::*;
use crate::reaction::ReactionKey;
use crate::store::{RoleMapStore, lookup_in};

verus! {

/// Which way a reaction event moves a role: a fresh reaction grants it,
/// removing the reaction revokes it.
#[derive(Clone, Copy, Debug, PartialEq, Eq, Structural)]
pub enum Direction {
    Add,
    Remove,
}

/// A raw reaction event as the gateway reports it: the channel it happened
/// in, the emoji, and the guild and user, either of which a direct-message
/// reaction may lack.
pub struct ReactionEvent {
    pub channel_id: u64,
    pub emoji: ReactionKey,
    pub guild_id: Option<u64>,
    pub user_id: Option<u64>,
}

/// Outcome of the best-effort "is the reacting user a bot" probe, made by
/// the caller against the gateway before routing. Only a positive answer
/// blocks the event: a probe that was switched off or that itself failed
/// must not stand in the way of a role grant.
#[derive(Clone, Copy, Debug, PartialEq, Eq, Structural)]
pub enum BotProbe {
    /// The probe is switched off for this event.
    Skipped,
    /// The gateway user lookup itself failed.
    LookupFailed,
    /// The reacting user is an ordinary account.
    Human,
    /// The reacting user is a bot account.
    Bot,
}

/// The single role mutation an admitted event asks the gateway for.
#[derive(Clone, Copy, Debug, PartialEq, Eq, Structural)]
pub struct RoleAction {
    pub direction: Direction,
    pub guild_id: u64,
    pub user_id: u64,
    pub role_id: u64,
}

/// Why a reaction event produced no role mutation.
#[derive(Clone, Copy, Debug, PartialEq, Eq, Structural)]
pub enum DiscardReason {
    /// The event's channel is not the watched channel.
    ForeignChannel,
    /// The reacting user is a bot account.
    BotUser,
    /// No binding matches the event's emoji.
    UnboundEmoji,
    /// The event carries no guild id (a direct-message reaction).
    MissingGuild,
    /// The event carries no user id.
    MissingUser,
}

/// The router's verdict on one event: either exactly one role mutation, or
/// none at all.
#[derive(Clone, Copy, Debug, PartialEq, Eq, Structural)]
pub enum RouteDecision {
    Admit(RoleAction),
    Discard(DiscardReason),
}

/// The admission rules, evaluated in order, first match wins: discard an
/// event from any channel but the watched one; discard when the reacting
/// user is known to be a bot; discard when no binding matches the emoji;
/// discard when guild or user is missing; otherwise admit one role
/// mutation in the event's direction.
pub open spec fn route_spec(
    store: RoleMapStore,
    direction: Direction,
    event: ReactionEvent,
    probe: BotProbe,
) -> RouteDecision {
    if event.channel_id != store.watched_channel {
        RouteDecision::Discard(DiscardReason::ForeignChannel)
    } else if probe is Bot {
        RouteDecision::Discard(DiscardReason::BotUser)
    } else {
        match lookup_in(store.bindings@, event.emoji@) {
            None => RouteDecision::Discard(DiscardReason::UnboundEmoji),
            Some(role_id) => match (event.guild_id, event.user_id) {
                (Some(g), Some(u)) => RouteDecision::Admit(
                    RoleAction { direction, guild_id: g, user_id: u, role_id },
                ),
                (None, _) => RouteDecision::Discard(DiscardReason::MissingGuild),
                (Some(_), None) => RouteDecision::Discard(DiscardReason::MissingUser),
            },
        }
    }
}

/// Decides one reaction event against the store, per [`route_spec`].
///
/// An event from a channel other than the watched one is always discarded:
/// the router asks for zero role mutations on it. An admitted event asks
/// for exactly one, on the role its emoji is bound to.
pub fn route_event(
    store: &RoleMapStore,
    direction: Direction,
    event: &ReactionEvent,
    probe: BotProbe,
) -> (d: RouteDecision)
    ensures
        d == route_spec(*store, direction, *event, probe),
        event.channel_id != store.watched_channel ==> d is Discard,
        d is Admit ==> {
            &&& event.channel_id == store.watched_channel
            &&& probe != BotProbe::Bot
            &&& lookup_in(store.bindings@, event.emoji@) == Some(d->Admit_0.role_id)
            &&& event.guild_id == Some(d->Admit_0.guild_id)
            &&& event.user_id == Some(d->Admit_0.user_id)
            &&& d->Admit_0.direction == direction
        },
{
    if event.channel_id != store.watched_channel {
        return RouteDecision::Discard(DiscardReason::ForeignChannel);
    }
    if matches!(probe, BotProbe::Bot) {
        return RouteDecision::Discard(DiscardReason::BotUser);
    }
    match store.lookup(&event.emoji) {
        None => RouteDecision::Discard(DiscardReason::UnboundEmoji),
        Some(role_id) => match (event.guild_id, event.user_id) {
            (Some(g), Some(u)) => RouteDecision::Admit(
                RoleAction { direction, guild_id: g, user_id: u, role_id },
            ),
            (None, _) => RouteDecision::Discard(DiscardReason::MissingGuild),
            (Some(_), None) => RouteDecision::Discard(DiscardReason::MissingUser),
        },
    }
}

} // verus!
