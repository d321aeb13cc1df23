//! The multisig record and the global configuration record, together with
//! the member normalizer (canonical ascending order) and the structural
//! invariant checker shared by both storage backends.

use vstd::prelude::*;
use vstd::seq_lib::lemma_multiset_commutative;
use crate::errors::MultisigError;
use crate::pubkey::{bytes_le, bytes_lt, lemma_bytes_le_total, lemma_bytes_le_trans,
    lemma_bytes_lt_trans, Pubkey};

verus! {

/// The permission profile a member carries (a small bit mask; its meaning is
/// interpreted by the out-of-scope proposal/voting instructions).
#[derive(Clone, Copy, Debug)]
pub struct Permissions {
    pub mask: u8,
}

/// A participant of a multisig: an identity with its permission profile.
#[derive(Clone, Copy, Debug)]
pub struct Member {
    pub key: Pubkey,
    pub permissions: Permissions,
}

/// The members stand in ascending order of identity.
pub open spec fn members_sorted(s: Seq<Member>) -> bool {
    forall|i: int, j: int|
        0 <= i < j < s.len() ==> bytes_le(#[trigger] s[i].key@, #[trigger] s[j].key@)
}

/// Two members share one identity.
pub open spec fn has_key_collision(s: Seq<Member>) -> bool {
    exists|i: int, j: int|
        0 <= i < j < s.len() && (#[trigger] s[i].key@) == (#[trigger] s[j].key@)
}

/// Canonical form: ascending by identity, no identity twice.
pub open spec fn members_normalized(s: Seq<Member>) -> bool {
    members_sorted(s) && !has_key_collision(s)
}

/// The multisig record: one logical entity, committed either as a directly
/// addressable account or as a compressed Merkle leaf.
#[derive(Debug)]
pub struct Multisig {
    /// The identity allowed to reconfigure the multisig; the all-zero key
    /// denotes an autonomous multisig.
    pub config_authority: Pubkey,
    /// How many member approvals an action needs.
    pub threshold: u16,
    /// The participants, in canonical ascending order of identity.
    pub members: Vec<Member>,
    /// Seconds that must pass between approval/settlement and execution.
    pub time_lock: u32,
    /// How many proposals were ever created; starts at zero.
    pub transaction_index: u64,
    /// Proposals with an index at or below this watermark are invalidated.
    pub stale_transaction_index: u64,
    /// The one-time identity the multisig's address was derived from.
    pub create_key: Pubkey,
    /// The derivation salt recorded for address re-derivation.
    pub bump: u8,
    /// The identity entitled to reclaimed rent, if reclamation is on.
    pub rent_collector: Option<Pubkey>,
}

/// The global configuration record, read-only to this core.
#[derive(Clone, Copy, Debug)]
pub struct ProgramConfig {
    /// Where the creation fee goes.
    pub treasury: Pubkey,
    /// The creation fee in lamports; zero disables the fee.
    pub multisig_creation_fee: u64,
}

impl Multisig {
    /// The structural invariant every committed record satisfies.
    pub open spec fn invariant_holds(self) -> bool {
        &&& 1 <= self.threshold
        &&& self.threshold as int <= self.members@.len()
        &&& members_normalized(self.members@)
    }

    /// The invariant checker: pure validation of the fully populated record,
    /// identical for both storage backends.
    pub fn check_invariant(&self) -> (r: Result<(), MultisigError>)
        ensures
            r is Ok <==> self.invariant_holds(),
            r is Err ==> r == Err::<(), MultisigError>(MultisigError::StateInvariantError),
    {
        if self.threshold < 1 {
            return Err(MultisigError::StateInvariantError);
        }
        if self.threshold as usize > self.members.len() {
            return Err(MultisigError::StateInvariantError);
        }
        let mut i: usize = 1;
        while i < self.members.len()
            invariant
                1 <= i,
                i <= self.members@.len() || self.members@.len() < 1,
                forall|p: int, q: int|
                    0 <= p < q < i && q < self.members@.len() ==> bytes_lt(
                        #[trigger] self.members@[p].key@,
                        #[trigger] self.members@[q].key@,
                    ),
            decreases self.members@.len() - i,
        {
            let prev = self.members[i - 1];
            let cur = self.members[i];
            if !prev.key.key_lt(&cur.key) {
                proof {
                    if bytes_le(prev.key@, cur.key@) {
                        assert(prev.key@ == cur.key@);
                        assert(has_key_collision(self.members@)) by {
                            assert(self.members@[i - 1].key@ == self.members@[i as int].key@);
                        }
                    } else {
                        assert(!members_sorted(self.members@)) by {
                            assert(!bytes_le(
                                self.members@[i - 1].key@,
                                self.members@[i as int].key@,
                            ));
                        }
                    }
                }
                return Err(MultisigError::StateInvariantError);
            }
            proof {
                assert forall|p: int, q: int|
                    0 <= p < q < i + 1 && q < self.members@.len() implies bytes_lt(
                    #[trigger] self.members@[p].key@,
                    #[trigger] self.members@[q].key@,
                ) by {
                    if q == i {
                        if p < i - 1 {
                            lemma_bytes_lt_trans(
                                self.members@[p].key@,
                                self.members@[i - 1].key@,
                                self.members@[i as int].key@,
                            );
                        }
                    }
                }
            }
            i += 1;
        }
        proof {
            assert(members_sorted(self.members@));
            if has_key_collision(self.members@) {
                let (p, q) = choose|p: int, q: int|
                    0 <= p < q < self.members@.len() && (#[trigger] self.members@[p].key@)
                        == (#[trigger] self.members@[q].key@);
                assert(bytes_lt(self.members@[p].key@, self.members@[q].key@));
            }
        }
        Ok(())
    }
}

/// Where a new member belongs in an ascending list: the first position whose
/// occupant's identity is not below-or-equal the new one.
fn find_insert_position(list: &Vec<Member>, key: &Pubkey) -> (j: usize)
    ensures
        j <= list@.len(),
        forall|k: int| 0 <= k < j ==> bytes_le(#[trigger] list@[k].key@, key@),
        j < list@.len() ==> !bytes_le(list@[j as int].key@, key@),
{
    let mut j: usize = 0;
    while j < list.len()
        invariant
            j <= list@.len(),
            forall|k: int| 0 <= k < j ==> bytes_le(#[trigger] list@[k].key@, key@),
        decreases list@.len() - j,
    {
        if !list[j].key.key_le(key) {
            return j;
        }
        j += 1;
    }
    j
}

/// The member normalizer: sorts the caller-supplied list into ascending
/// identity order. A pure transform: the same members come out, reordered.
pub fn normalize_members(members: Vec<Member>) -> (r: Vec<Member>)
    ensures
        r@.len() == members@.len(),
        r@.to_multiset() == members@.to_multiset(),
        members_sorted(r@),
{
    broadcast use vstd::seq_lib::group_to_multiset_ensures;

    let mut out: Vec<Member> = Vec::new();
    proof {
        assert(members@.take(0) =~= Seq::<Member>::empty());
        assert(out@.to_multiset() =~= members@.take(0).to_multiset());
    }
    let mut i: usize = 0;
    while i < members.len()
        invariant
            i <= members@.len(),
            out@.len() == i,
            out@.to_multiset() == members@.take(i as int).to_multiset(),
            members_sorted(out@),
        decreases members@.len() - i,
    {
        let m = members[i];
        let j = find_insert_position(&out, &m.key);
        proof {
            let old_out = out@;
            let newseq = old_out.insert(j as int, m);
            assert forall|p: int, q: int|
                0 <= p < q < newseq.len() implies bytes_le(
                #[trigger] newseq[p].key@,
                #[trigger] newseq[q].key@,
            ) by {
                if j < old_out.len() {
                    lemma_bytes_le_total(old_out[j as int].key@, m.key@);
                }
                assert forall|k: int| j <= k < old_out.len() implies bytes_le(
                    m.key@,
                    #[trigger] old_out[k].key@,
                ) by {
                    if k > j {
                        lemma_bytes_le_trans(m.key@, old_out[j as int].key@, old_out[k].key@);
                    }
                }
                if q < j {
                    assert(newseq[p] == old_out[p] && newseq[q] == old_out[q]);
                } else if p < j && q == j {
                    assert(newseq[p] == old_out[p] && newseq[q] == m);
                } else if p < j && q > j {
                    assert(newseq[p] == old_out[p] && newseq[q] == old_out[q - 1]);
                } else if p == j {
                    assert(newseq[p] == m && newseq[q] == old_out[q - 1]);
                } else {
                    assert(newseq[p] == old_out[p - 1] && newseq[q] == old_out[q - 1]);
                }
            }
        }
        let ghost pre = out@;
        out.insert(j, m);
        proof {
            assert(out@ == pre.insert(j as int, m));
            vstd::seq_lib::to_multiset_insert::<Member>(pre, j as int, m);
            vstd::seq_lib::to_multiset_build::<Member>(members@.take(i as int), m);
            assert(members@.take(i + 1) =~= members@.take(i as int).push(members@[i as int]));
            assert(out@.to_multiset() =~= members@.take(i + 1).to_multiset());
        }
        i += 1;
    }
    proof {
        assert(members@.take(members@.len() as int) =~= members@);
    }
    out
}

/// Two duplicate positions make the element count at least two.
proof fn lemma_dup_indices_count(s: Seq<Member>, i: int, j: int)
    requires
        0 <= i < j < s.len(),
        s[i] == s[j],
    ensures
        s.to_multiset().count(s[i]) >= 2,
{
    broadcast use vstd::seq_lib::group_to_multiset_ensures;
    broadcast use vstd::multiset::group_multiset_axioms;

    let s0 = s.subrange(0, j);
    let s1 = s.subrange(j, s.len() as int);
    assert(s =~= s0 + s1);
    lemma_multiset_commutative(s0, s1);
    assert(s0[i] == s[i]);
    assert(s0.contains(s[i]));
    assert(s1[0] == s[j]);
    assert(s1.contains(s[i]));
    assert(s0.to_multiset().count(s[i]) > 0);
    assert(s1.to_multiset().count(s[i]) > 0);
    assert(s.to_multiset().count(s[i]) == s0.to_multiset().count(s[i]) + s1.to_multiset().count(
        s[i],
    ));
}

/// An identity collision is a property of the members alone, not of their
/// order: it carries over to any rearrangement.
pub proof fn lemma_key_collision_carries(s: Seq<Member>, t: Seq<Member>)
    requires
        s.to_multiset() == t.to_multiset(),
        has_key_collision(s),
    ensures
        has_key_collision(t),
{
    broadcast use vstd::seq_lib::group_to_multiset_ensures;
    broadcast use vstd::multiset::group_multiset_axioms;

    let (i, j) = choose|i: int, j: int|
        0 <= i < j < s.len() && (#[trigger] s[i].key@) == (#[trigger] s[j].key@);
    if s[i] == s[j] {
        lemma_dup_indices_count(s, i, j);
        if t.no_duplicates() {
            t.lemma_multiset_has_no_duplicates();
            assert(t.to_multiset().count(s[i]) >= 2);
            assert(t.to_multiset().contains(s[i]));
            assert(false);
        } else {
            let (p, q) = choose|p: int, q: int|
                0 <= p < t.len() && 0 <= q < t.len() && p != q && #[trigger] t[p] == #[trigger] t[q];
            if p < q {
                assert(t[p].key@ == t[q].key@);
            } else {
                assert(t[q].key@ == t[p].key@);
            }
        }
    } else {
        assert(s.contains(s[i]));
        assert(s.contains(s[j]));
        assert(t.to_multiset().count(s[i]) > 0);
        assert(t.to_multiset().count(s[j]) > 0);
        assert(t.contains(s[i]));
        assert(t.contains(s[j]));
        let p = choose|p: int| 0 <= p < t.len() && t[p] == s[i];
        let q = choose|q: int| 0 <= q < t.len() && t[q] == s[j];
        assert(p != q);
        if p < q {
            assert(t[p].key@ == t[q].key@);
        } else {
            assert(t[q].key@ == t[p].key@);
        }
    }
}

} // verus!
