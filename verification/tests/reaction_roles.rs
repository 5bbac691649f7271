use rolebot::reaction::{key_eq, parse_emote, ReactionKey};
use rolebot::roles::MemberRoles;
use rolebot::router::{
    route_event, BotProbe, Direction, DiscardReason, ReactionEvent, RoleAction, RouteDecision,
};
use rolebot::publisher::{
    announcement_body, announcement_title, plan_announcement, PublishPhase, PublishStep,
};
use rolebot::store::{Config, ConfigError, RoleMapStore};

fn custom(id: u64, name: &str, animated: bool) -> ReactionKey {
    ReactionKey::Custom {
        id,
        name: name.to_string(),
        animated,
    }
}

fn unicode(glyph: &str) -> ReactionKey {
    ReactionKey::Unicode {
        glyph: glyph.to_string(),
    }
}

fn config(channel_id: u64, emotes: &[&str], role_ids: &[u64]) -> Config {
    Config {
        channel_id,
        emotes: emotes.iter().map(|e| e.to_string()).collect(),
        role_ids: role_ids.to_vec(),
    }
}

#[test]
fn parse_still_custom_token() {
    match parse_emote("<:gib:100>") {
        Some(ReactionKey::Custom { id, name, animated }) => {
            assert_eq!(id, 100);
            assert_eq!(name, "gib");
            assert!(!animated);
        }
        other => panic!("expected a custom key, got {:?}", other.is_some()),
    }
}

#[test]
fn parse_animated_custom_token() {
    match parse_emote("<a:fraggy_spit:1084701921392218172>") {
        Some(ReactionKey::Custom { id, name, animated }) => {
            assert_eq!(id, 1084701921392218172);
            assert_eq!(name, "fraggy_spit");
            assert!(animated);
        }
        _ => panic!("expected an animated custom key"),
    }
}

#[test]
fn parse_unicode_glyph() {
    match parse_emote("\u{1F99C}") {
        Some(ReactionKey::Unicode { glyph }) => assert_eq!(glyph, "\u{1F99C}"),
        _ => panic!("expected a unicode key"),
    }
}

#[test]
fn parse_rejects_malformed_tokens() {
    assert!(parse_emote("").is_none());
    assert!(parse_emote("<").is_none());
    assert!(parse_emote("<gib:100>").is_none());
    assert!(parse_emote("<:gib100>").is_none());
    assert!(parse_emote("<::100>").is_none());
    assert!(parse_emote("<:gib:>").is_none());
    assert!(parse_emote("<:gib:12x>").is_none());
    assert!(parse_emote("<:gib:100").is_none());
    assert!(parse_emote("<a:gib>").is_none());
}

#[test]
fn parse_rejects_id_over_u64() {
    assert!(parse_emote("<:x:18446744073709551615>").is_some());
    assert!(parse_emote("<:x:18446744073709551616>").is_none());
}

#[test]
fn key_eq_ignores_name_and_animated() {
    let a = custom(100, "gib", false);
    let b = custom(100, "other_name", true);
    assert!(key_eq(&a, &b));
}

#[test]
fn key_eq_distinguishes_ids_and_shapes() {
    assert!(!key_eq(&custom(100, "gib", false), &custom(101, "gib", false)));
    assert!(!key_eq(&custom(100, "gib", false), &unicode("gib")));
    assert!(key_eq(&unicode("\u{1FA99}"), &unicode("\u{1FA99}")));
    assert!(!key_eq(&unicode("\u{1FA99}"), &unicode("\u{1F99C}")));
}

#[test]
fn build_rejects_length_mismatch() {
    let cfg = config(42, &["<:gib:100>", "\u{1F99C}"], &[200]);
    match RoleMapStore::build(&cfg) {
        Err(ConfigError::LengthMismatch) => {}
        _ => panic!("expected a length mismatch"),
    }
}

#[test]
fn build_rejects_first_bad_emote() {
    let cfg = config(42, &["<:gib:100>", "<:broken", "<also:bad>"], &[1, 2, 3]);
    match RoleMapStore::build(&cfg) {
        Err(ConfigError::BadEmote { index }) => assert_eq!(index, 1),
        _ => panic!("expected a bad emote"),
    }
}

#[test]
fn build_keeps_configuration_order() {
    let cfg = config(42, &["<:gib:100>", "\u{1FA99}"], &[200, 300]);
    let store = RoleMapStore::build(&cfg).unwrap();
    assert_eq!(store.watched_channel, 42);
    assert_eq!(store.bindings.len(), 2);
    assert_eq!(store.bindings[0].role_id, 200);
    assert_eq!(store.bindings[1].role_id, 300);
    assert_eq!(store.lookup(&custom(100, "gib", false)), Some(200));
    assert_eq!(store.lookup(&unicode("\u{1FA99}")), Some(300));
    assert_eq!(store.lookup(&unicode("\u{1F99C}")), None);
}

#[test]
fn lookup_takes_first_match() {
    let cfg = config(42, &["<:gib:100>", "<a:gib_again:100>"], &[200, 300]);
    let store = RoleMapStore::build(&cfg).unwrap();
    assert_eq!(store.lookup(&custom(100, "anything", true)), Some(200));
}

fn event(channel_id: u64, emoji: ReactionKey, guild: Option<u64>, user: Option<u64>) -> ReactionEvent {
    ReactionEvent {
        channel_id,
        emoji,
        guild_id: guild,
        user_id: user,
    }
}

#[test]
fn admitted_event_grants_bound_role() {
    let cfg = config(42, &["<:gib:100>"], &[200]);
    let store = RoleMapStore::build(&cfg).unwrap();
    let ev = event(42, custom(100, "gib", false), Some(7), Some(9));
    let decision = route_event(&store, Direction::Add, &ev, BotProbe::Human);
    assert_eq!(
        decision,
        RouteDecision::Admit(RoleAction {
            direction: Direction::Add,
            guild_id: 7,
            user_id: 9,
            role_id: 200,
        })
    );
}

#[test]
fn foreign_channel_event_asks_no_mutation() {
    let cfg = config(42, &["<:gib:100>"], &[200]);
    let store = RoleMapStore::build(&cfg).unwrap();
    let ev = event(43, custom(100, "gib", false), Some(7), Some(9));
    let decision = route_event(&store, Direction::Add, &ev, BotProbe::Human);
    assert_eq!(decision, RouteDecision::Discard(DiscardReason::ForeignChannel));
}

#[test]
fn cosmetic_differences_do_not_block_admission() {
    let cfg = config(42, &["<:gib:100>"], &[200]);
    let store = RoleMapStore::build(&cfg).unwrap();
    let ev = event(42, custom(100, "renamed", true), Some(7), Some(9));
    let decision = route_event(&store, Direction::Remove, &ev, BotProbe::Skipped);
    assert_eq!(
        decision,
        RouteDecision::Admit(RoleAction {
            direction: Direction::Remove,
            guild_id: 7,
            user_id: 9,
            role_id: 200,
        })
    );
}

#[test]
fn bot_reactor_is_discarded_but_failed_probe_is_not() {
    let cfg = config(42, &["<:gib:100>"], &[200]);
    let store = RoleMapStore::build(&cfg).unwrap();
    let ev = event(42, custom(100, "gib", false), Some(7), Some(9));
    assert_eq!(
        route_event(&store, Direction::Add, &ev, BotProbe::Bot),
        RouteDecision::Discard(DiscardReason::BotUser)
    );
    assert!(matches!(
        route_event(&store, Direction::Add, &ev, BotProbe::LookupFailed),
        RouteDecision::Admit(_)
    ));
}

#[test]
fn unbound_emoji_and_missing_ids_are_discarded() {
    let cfg = config(42, &["<:gib:100>"], &[200]);
    let store = RoleMapStore::build(&cfg).unwrap();
    let stranger = event(42, custom(999, "gib", false), Some(7), Some(9));
    assert_eq!(
        route_event(&store, Direction::Add, &stranger, BotProbe::Human),
        RouteDecision::Discard(DiscardReason::UnboundEmoji)
    );
    let no_guild = event(42, custom(100, "gib", false), None, Some(9));
    assert_eq!(
        route_event(&store, Direction::Add, &no_guild, BotProbe::Human),
        RouteDecision::Discard(DiscardReason::MissingGuild)
    );
    let no_user = event(42, custom(100, "gib", false), Some(7), None);
    assert_eq!(
        route_event(&store, Direction::Add, &no_user, BotProbe::Human),
        RouteDecision::Discard(DiscardReason::MissingUser)
    );
}

#[test]
fn double_grant_changes_role_state_once() {
    let mut member = MemberRoles::new();
    assert!(member.grant(200));
    let after_first = member.roles.clone();
    assert!(!member.grant(200));
    assert_eq!(member.roles, after_first);
    assert!(member.has_role(200));
}

#[test]
fn revoke_removes_only_the_role() {
    let mut member = MemberRoles::new();
    member.grant(200);
    member.grant(300);
    assert!(member.revoke(200));
    assert!(!member.has_role(200));
    assert!(member.has_role(300));
    assert!(!member.revoke(200));
    assert!(member.has_role(300));
}

#[test]
fn announcement_plan_follows_table_order() {
    let cfg = config(42, &["<:gib:100>", "\u{1FA99}"], &[200, 300]);
    let store = RoleMapStore::build(&cfg).unwrap();
    let plan = plan_announcement(42, &store.bindings);
    assert_eq!(plan.channel_id, 42);
    assert_eq!(plan.reactions.len(), 2);
    assert!(key_eq(&plan.reactions[0], &custom(100, "gib", false)));
    assert!(key_eq(&plan.reactions[1], &unicode("\u{1FA99}")));
}

#[test]
fn failed_send_short_circuits_publication() {
    let cfg = config(42, &["<:gib:100>", "\u{1FA99}"], &[200, 300]);
    let store = RoleMapStore::build(&cfg).unwrap();
    let plan = plan_announcement(42, &store.bindings);
    assert_eq!(plan.next_step(PublishPhase::Unsent), PublishStep::SendMessage);
    let failed = plan.advance(PublishPhase::Unsent, false);
    assert_eq!(failed, PublishPhase::Done { failed: true });
    assert_eq!(plan.next_step(failed), PublishStep::Idle);
    assert!(plan.outcome(failed).unwrap().is_err());
}

#[test]
fn failed_reaction_attach_does_not_stop_the_rest() {
    let cfg = config(42, &["<:gib:100>", "\u{1FA99}"], &[200, 300]);
    let store = RoleMapStore::build(&cfg).unwrap();
    let plan = plan_announcement(42, &store.bindings);
    let phase = plan.advance(PublishPhase::Unsent, true);
    assert_eq!(phase, PublishPhase::Attaching { attached: 0 });
    assert_eq!(plan.next_step(phase), PublishStep::AttachReaction { index: 0 });
    let phase = plan.advance(phase, false);
    assert_eq!(phase, PublishPhase::Attaching { attached: 1 });
    assert_eq!(plan.next_step(phase), PublishStep::AttachReaction { index: 1 });
    let phase = plan.advance(phase, true);
    assert_eq!(phase, PublishPhase::Done { failed: false });
    assert_eq!(plan.outcome(phase), Some(Ok(())));
}

#[test]
fn announcement_text_is_fixed() {
    assert_eq!(announcement_title(), "Reaction Roles");
    let body = announcement_body();
    assert!(body.starts_with("<a:gib:956543324410507284> for giveaways"));
    assert!(body.ends_with(":coin: for Alt-coins Buy opps?"));
    assert_eq!(body.lines().count(), 5);
}
