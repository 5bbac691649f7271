//! A model of the gateway's record of one member's roles.
//!
//! The gateway is the authority on role state; this model states the
//! contract the router relies on: granting a role a member already has is
//! a no-op, as is revoking one they lack. Events for the same member may
//! race without local deduplication because of exactly this contract.

use vstd::prelude::*;

verus! {

/// What granting `role` leaves of a role set: unchanged when the role is
/// already held, otherwise the role appended.
pub open spec fn grant_spec(roles: Seq<u64>, role: u64) -> Seq<u64> {
    if roles.contains(role) {
        roles
    } else {
        roles.push(role)
    }
}

/// One member's roles as the gateway records them: a set, kept here as a
/// duplicate-free sequence.
pub struct MemberRoles {
    pub roles: Vec<u64>,
}

impl MemberRoles {
    /// No role appears twice.
    pub open spec fn wf(&self) -> bool {
        self.roles@.no_duplicates()
    }

    /// An empty role set.
    pub fn new() -> (m: MemberRoles)
        ensures
            m.roles@ == Seq::<u64>::empty(),
            m.wf(),
    {
        MemberRoles { roles: Vec::new() }
    }

    /// Whether the member holds `role`.
    pub fn has_role(&self, role: u64) -> (r: bool)
        ensures
            r == self.roles@.contains(role),
    {
        let n = self.roles.len();
        let mut i: usize = 0;
        while i < n
            invariant
                n == self.roles@.len(),
                i <= n,
                forall|t: int| 0 <= t < i ==> self.roles@[t] != role,
            decreases n - i,
        {
            if self.roles[i] == role {
                return true;
            }
            i += 1;
        }
        false
    }

    /// Grants `role`: a change only when the member lacks it; granting a
    /// role already held observably changes nothing.
    pub fn grant(&mut self, role: u64) -> (changed: bool)
        requires
            old(self).wf(),
        ensures
            final(self).roles@ == grant_spec(old(self).roles@, role),
            final(self).wf(),
            changed == !old(self).roles@.contains(role),
            final(self).roles@.contains(role),
    {
        if self.has_role(role) {
            false
        } else {
            proof {
                assert(old(self).roles@.push(role)[old(self).roles@.len() as int] == role);
            }
            self.roles.push(role);
            true
        }
    }

    /// Revokes `role`: a change only when the member holds it; revoking a
    /// role not held observably changes nothing.
    #[verifier::loop_isolation(false)]
    pub fn revoke(&mut self, role: u64) -> (changed: bool)
        requires
            old(self).wf(),
        ensures
            final(self).wf(),
            changed == old(self).roles@.contains(role),
            forall|r: u64|
                final(self).roles@.contains(r) <==> (old(self).roles@.contains(r) && r != role),
    {
        let n = self.roles.len();
        let mut i: usize = 0;
        while i < n
            invariant
                *self == *old(self),
                n == self.roles@.len(),
                i <= n,
                forall|t: int| 0 <= t < i ==> self.roles@[t] != role,
            decreases n - i,
        {
            if self.roles[i] == role {
                let ghost prev = self.roles@;
                proof {
                    assert(prev[i as int] == role);
                    assert(prev.contains(role));
                }
                self.roles.remove(i);
                proof {
                    lemma_remove_at(prev, i as int, role);
                }
                return true;
            }
            i += 1;
        }
        false
    }
}

/// Removing the one position holding `role` from a duplicate-free sequence
/// removes exactly that value.
proof fn lemma_remove_at(s: Seq<u64>, i: int, role: u64)
    requires
        s.no_duplicates(),
        0 <= i < s.len(),
        s[i] == role,
    ensures
        s.remove(i).no_duplicates(),
        forall|r: u64| s.remove(i).contains(r) <==> (s.contains(r) && r != role),
{
    let t = s.remove(i);
    assert forall|r: u64| t.contains(r) implies (s.contains(r) && r != role) by {
        let k = choose|k: int| 0 <= k < t.len() && t[k] == r;
        if k < i {
            assert(s[k] == r);
        } else {
            assert(s[k + 1] == r);
        }
    }
    assert forall|r: u64| s.contains(r) && r != role implies t.contains(r) by {
        let k = choose|k: int| 0 <= k < s.len() && s[k] == r;
        if k < i {
            assert(t[k] == r);
        } else {
            assert(t[k - 1] == r);
        }
    }
}

/// Granting the same role twice in sequence leaves what one grant leaves:
/// the second grant is a no-op by the contract of the underlying role API,
/// not by any local deduplication.
pub proof fn lemma_grant_idempotent(roles: Seq<u64>, role: u64)
    ensures
        grant_spec(grant_spec(roles, role), role) == grant_spec(roles, role),
{
    if !roles.contains(role) {
        assert(roles.push(role)[roles.len() as int] == role);
    }
}

} // verus!
