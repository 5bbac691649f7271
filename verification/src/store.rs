//! The reaction-to-role table and the watched channel.

use vstd::prelude::*;
use crate::reaction::{
    KeyView, ReactionKey, key_eq, key_eq_spec, lemma_key_eq_ignores_cosmetic, parse_emote,
    parse_emote_spec,
};

verus! {

/// One row of the reaction-role table: an emoji and the role it grants.
pub struct RoleBinding {
    pub key: ReactionKey,
    pub role_id: u64,
}

/// The startup configuration: the watched channel, the emote tokens and the
/// role ids they bind to, pairwise by position. The two sequences must have
/// the same length.
pub struct Config {
    pub channel_id: u64,
    pub emotes: Vec<String>,
    pub role_ids: Vec<u64>,
}

/// A fatal startup fault in the configuration.
#[derive(Clone, Copy, Debug, PartialEq, Eq, Structural)]
pub enum ConfigError {
    /// `emotes` and `role_ids` differ in length.
    LengthMismatch,
    /// The emote token at this position does not parse into a reaction key.
    BadEmote { index: usize },
}

/// The in-memory reaction-to-role table plus the single watched channel,
/// both immutable after startup.
pub struct RoleMapStore {
    pub bindings: Vec<RoleBinding>,
    pub watched_channel: u64,
}

/// The role of the first binding whose key equals `key` under
/// [`key_eq_spec`], scanning left to right; `None` when no binding matches.
pub open spec fn lookup_in(bindings: Seq<RoleBinding>, key: KeyView) -> Option<u64>
    decreases bindings.len(),
{
    if bindings.len() == 0 {
        None
    } else if key_eq_spec(bindings[0].key@, key) {
        Some(bindings[0].role_id)
    } else {
        lookup_in(bindings.drop_first(), key)
    }
}

impl RoleMapStore {
    /// Builds the table from configuration, once, at startup.
    ///
    /// Fails with `LengthMismatch` exactly when the emote and role lists
    /// differ in length, and with `BadEmote` at the first emote token that
    /// does not parse; either failure yields no table at all. On success,
    /// binding `i` pairs the parse of `emotes[i]` with `role_ids[i]`, in
    /// configuration order.
    #[verifier::loop_isolation(false)]
    pub fn build(config: &Config) -> (r: Result<RoleMapStore, ConfigError>)
        ensures
            (config.emotes@.len() != config.role_ids@.len()) <==> r == Err::<
                RoleMapStore,
                ConfigError,
            >(ConfigError::LengthMismatch),
            match r {
                Ok(store) => {
                    &&& store.watched_channel == config.channel_id
                    &&& store.bindings@.len() == config.emotes@.len()
                    &&& forall|i: int|
                        0 <= i < store.bindings@.len() ==> parse_emote_spec(config.emotes@[i]@)
                            == Some((#[trigger] store.bindings@[i]).key@)
                    &&& forall|i: int|
                        0 <= i < store.bindings@.len() ==> (#[trigger] store.bindings@[i]).role_id
                            == config.role_ids@[i]
                },
                Err(ConfigError::LengthMismatch) => true,
                Err(ConfigError::BadEmote { index }) => {
                    &&& 0 <= index < config.emotes@.len()
                    &&& parse_emote_spec(config.emotes@[index as int]@) is None
                    &&& forall|j: int|
                        0 <= j < index ==> parse_emote_spec(config.emotes@[j]@) is Some
                },
            },
            (config.emotes@.len() == config.role_ids@.len() && forall|i: int|
                0 <= i < config.emotes@.len() ==> parse_emote_spec(config.emotes@[i]@) is Some)
                ==> r is Ok,
    {
        if config.emotes.len() != config.role_ids.len() {
            return Err(ConfigError::LengthMismatch);
        }
        let mut bindings: Vec<RoleBinding> = Vec::new();
        let mut i: usize = 0;
        while i < config.emotes.len()
            invariant
                config.emotes@.len() == config.role_ids@.len(),
                i <= config.emotes@.len(),
                bindings@.len() == i as int,
                forall|t: int|
                    0 <= t < i ==> parse_emote_spec(config.emotes@[t]@) == Some(
                        (#[trigger] bindings@[t]).key@,
                    ),
                forall|t: int|
                    0 <= t < i ==> (#[trigger] bindings@[t]).role_id == config.role_ids@[t],
            decreases config.emotes@.len() - i,
        {
            match parse_emote(config.emotes[i].as_str()) {
                Some(key) => {
                    let ghost kv = key@;
                    let ghost prev = bindings@;
                    bindings.push(RoleBinding { key, role_id: config.role_ids[i] });
                    proof {
                        assert(bindings@[i as int].key@ == kv);
                        assert(parse_emote_spec(config.emotes@[i as int]@) == Some(kv));
                        assert(forall|t: int|
                            0 <= t < i ==> #[trigger] bindings@[t] == prev[t]);
                    }
                },
                None => {
                    proof {
                        assert forall|j: int| 0 <= j < i implies parse_emote_spec(
                            config.emotes@[j]@,
                        ) is Some by {
                            assert(parse_emote_spec(config.emotes@[j]@) == Some(
                                bindings@[j].key@,
                            ));
                        }
                    }
                    return Err(ConfigError::BadEmote { index: i });
                },
            }
            i += 1;
        }
        Ok(RoleMapStore { bindings, watched_channel: config.channel_id })
    }

    /// Linear scan for the first binding equal to `key`; not finding one is
    /// the common case, not an error.
    pub fn lookup(&self, key: &ReactionKey) -> (r: Option<u64>)
        ensures
            r == lookup_in(self.bindings@, key@),
    {
        let n = self.bindings.len();
        let mut i: usize = 0;
        proof {
            assert(self.bindings@.skip(0) =~= self.bindings@);
        }
        while i < n
            invariant
                n == self.bindings@.len(),
                i <= n,
                lookup_in(self.bindings@, key@) == lookup_in(self.bindings@.skip(i as int), key@),
            decreases n - i,
        {
            if key_eq(&self.bindings[i].key, key) {
                proof {
                    assert(self.bindings@.skip(i as int)[0] == self.bindings@[i as int]);
                }
                return Some(self.bindings[i].role_id);
            }
            proof {
                assert(self.bindings@.skip(i as int).drop_first() =~= self.bindings@.skip(
                    i as int + 1,
                ));
            }
            i += 1;
        }
        None
    }
}

/// Lookup respects the key equality rule: two keys that compare equal find
/// the same binding. In particular, two custom keys sharing an id but
/// differing in display name or animated flag are interchangeable.
pub proof fn lemma_lookup_respects_key_eq(bindings: Seq<RoleBinding>, a: KeyView, b: KeyView)
    requires
        key_eq_spec(a, b),
    ensures
        lookup_in(bindings, a) == lookup_in(bindings, b),
    decreases bindings.len(),
{
    if bindings.len() != 0 {
        lemma_lookup_respects_key_eq(bindings.drop_first(), a, b);
    }
}

/// Two custom keys sharing an id find the same binding, however their
/// display names or animated flags differ: the name and the flag are
/// cosmetic to lookup.
pub proof fn lemma_lookup_ignores_cosmetic(bindings: Seq<RoleBinding>, a: KeyView, b: KeyView)
    requires
        a is Custom,
        b is Custom,
        a->id == b->id,
    ensures
        lookup_in(bindings, a) == lookup_in(bindings, b),
{
    lemma_key_eq_ignores_cosmetic(a, b);
    lemma_lookup_respects_key_eq(bindings, a, b);
}

} // verus!
