//! Governance proposals: proposing, voting (with delegation), executing and
//! cancelling high-impact actions.

use vstd::prelude::*;
use vstd::utf8::encode_utf8;
use crate::keyed::{
    KeyedStore, has_str, contains_str, named_in, distinct_names, pairs_to_map, keys_distinct,
};
use super::state::{PriceOracle, OracleView, Proposal, proposal_view};
use super::types::{Error, Ledger, ProposedAction, AdminAction, Transfer};

verus! {

/// The action a proposal code stands for.
pub open spec fn action_for_code(code: u32) -> Option<AdminAction> {
    if code == 0 {
        Some(AdminAction::TogglePause)
    } else if code == 1 {
        Some(AdminAction::RegisterAdmin)
    } else if code == 2 {
        Some(AdminAction::RemoveAdmin)
    } else if code == 3 {
        Some(AdminAction::SelfDestruct)
    } else if code == 4 {
        Some(AdminAction::Upgrade)
    } else if code == 5 {
        Some(AdminAction::Slash)
    } else {
        None
    }
}

/// Number of votes a proposal needs: a strict majority of the admins.
pub open spec fn required_threshold(v: OracleView) -> int {
    v.admins.len() as int / 2 + 1
}

/// `voter` votes in its own name: it is an admin that has not delegated.
pub open spec fn own_vote(v: OracleView, voter: Seq<char>) -> bool {
    v.is_admin(voter) && !v.vote_delegates.contains_key(voter)
}

/// `owner` has delegated its vote to `voter`.
pub open spec fn delegates_to(v: OracleView, owner: Seq<char>, voter: Seq<char>) -> bool {
    v.vote_delegates.contains_key(owner) && v.vote_delegates[owner]@ == voter
}

/// Some owner has delegated its vote to `voter`.
pub open spec fn has_delegators(v: OracleView, voter: Seq<char>) -> bool {
    exists|o: Seq<char>| delegates_to(v, o, voter)
}

/// The names whose votes `voter` casts: its own, when it votes in its own
/// name, and those of the admins that delegated to it.
pub open spec fn vote_names(v: OracleView, voter: Seq<char>) -> Set<Seq<char>> {
    Set::new(
        |x: Seq<char>|
            (x == voter && own_vote(v, voter)) || (delegates_to(v, x, voter) && v.is_admin(x)),
    )
}

/// `new` extends `old` by the votes `voter` casts, each name once.
pub open spec fn votes_added(v: OracleView, old: Seq<String>, new: Seq<String>, voter: Seq<char>) -> bool {
    &&& old.is_prefix_of(new)
    &&& named_in(new) == named_in(old).union(vote_names(v, voter))
    &&& distinct_names(old) ==> distinct_names(new)
}

impl PriceOracle {
    /// Adds the votes `voter` casts to `voters`.
    fn add_effective_votes(&self, voters: Vec<String>, voter: &String) -> (r: Vec<String>)
        ensures
            votes_added(self@, voters@, r@, voter@),
    {
        let ghost v = self@;
        let ghost start = voters@;
        let mut voters = voters;
        if contains_str(&self.admins, voter) && !self.vote_delegates.contains(voter) && !contains_str(
            &voters,
            voter,
        ) {
            voters.push(voter.clone());
        }
        let ghost first = voters@;
        assert(named_in(first) =~= named_in(start).union(
            Set::new(|x: Seq<char>| x == voter@ && own_vote(v, voter@)),
        )) by {
            assert forall|x: Seq<char>| named_in(first).contains(x) implies named_in(start).union(
                Set::new(|x: Seq<char>| x == voter@ && own_vote(v, voter@)),
            ).contains(x) by {
                let j = choose|j: int| 0 <= j < first.len() && #[trigger] first[j]@ == x;
                if j < start.len() {
                    assert(start[j]@ == x);
                }
            }
            assert forall|x: Seq<char>| named_in(start).union(
                Set::new(|x: Seq<char>| x == voter@ && own_vote(v, voter@)),
            ).contains(x) implies named_in(first).contains(x) by {
                if has_str(start, x) {
                    let j = choose|j: int| 0 <= j < start.len() && #[trigger] start[j]@ == x;
                    assert(first[j]@ == x);
                } else {
                    assert(first[first.len() - 1]@ == x);
                }
            }
        }
        let pairs = self.vote_delegates.pairs();
        let mut i: usize = 0;
        while i < pairs.len()
            invariant
                self@ == v,
                pairs_to_map(pairs@) == v.vote_delegates,
                keys_distinct(pairs@),
                i <= pairs@.len(),
                start.is_prefix_of(voters@),
                distinct_names(start) ==> distinct_names(voters@),
                named_in(voters@) == named_in(first).union(
                    Set::new(
                        |x: Seq<char>|
                            exists|j: int|
                                0 <= j < i && #[trigger] pairs@[j].0@ == x && pairs@[j].1@ == voter@
                                    && v.is_admin(x),
                    ),
                ),
            decreases pairs@.len() - i,
        {
            let ghost before = voters@;
            let owner = &pairs[i].0;
            if pairs[i].1 == *voter && contains_str(&self.admins, owner) && !contains_str(
                &voters,
                owner,
            ) {
                voters.push(owner.clone());
            }
            proof {
                let prev_set = Set::new(
                    |x: Seq<char>|
                        exists|j: int|
                            0 <= j < i && #[trigger] pairs@[j].0@ == x && pairs@[j].1@ == voter@
                                && v.is_admin(x),
                );
                let next_set = Set::new(
                    |x: Seq<char>|
                        exists|j: int|
                            0 <= j < i + 1 && #[trigger] pairs@[j].0@ == x && pairs@[j].1@
                                == voter@ && v.is_admin(x),
                );
                assert forall|x: Seq<char>| #[trigger] named_in(voters@).contains(x) <==> named_in(
                    first,
                ).union(next_set).contains(x) by {
                    if has_str(voters@, x) {
                        let j = choose|j: int| 0 <= j < voters@.len() && #[trigger] voters@[j]@ == x;
                        if j < before.len() {
                            assert(before[j]@ == x);
                            assert(named_in(before).contains(x));
                            if prev_set.contains(x) {
                                let k = choose|k: int|
                                    0 <= k < i && #[trigger] pairs@[k].0@ == x && pairs@[k].1@
                                        == voter@ && v.is_admin(x);
                                assert(next_set.contains(x));
                            }
                        } else {
                            assert(next_set.contains(x));
                        }
                    }
                    if next_set.contains(x) {
                        let k = choose|k: int|
                            0 <= k < i + 1 && #[trigger] pairs@[k].0@ == x && pairs@[k].1@ == voter@
                                && v.is_admin(x);
                        if k < i {
                            assert(prev_set.contains(x));
                            assert(named_in(before).contains(x));
                            let j = choose|j: int| 0 <= j < before.len() && #[trigger] before[j]@ == x;
                            assert(voters@[j]@ == x);
                        } else if has_str(before, x) {
                            let j = choose|j: int| 0 <= j < before.len() && #[trigger] before[j]@ == x;
                            assert(voters@[j]@ == x);
                        } else {
                            assert(voters@[voters@.len() - 1]@ == x);
                        }
                    }
                    if named_in(first).contains(x) {
                        assert(named_in(before).contains(x));
                        let j = choose|j: int| 0 <= j < before.len() && #[trigger] before[j]@ == x;
                        assert(voters@[j]@ == x);
                    }
                }
                assert(named_in(voters@) =~= named_in(first).union(next_set));
                assert(start.is_prefix_of(voters@)) by {
                    assert forall|j: int| 0 <= j < start.len() implies voters@[j] == start[j] by {
                        assert(before[j] == start[j]);
                    }
                }
            }
            i = i + 1;
        }
        proof {
            let last_set = Set::new(
                |x: Seq<char>|
                    exists|j: int|
                        0 <= j < pairs@.len() && #[trigger] pairs@[j].0@ == x && pairs@[j].1@
                            == voter@ && v.is_admin(x),
            );
            assert forall|x: Seq<char>| #[trigger] vote_names(v, voter@).contains(x) <==> (Set::new(
                |x: Seq<char>| x == voter@ && own_vote(v, voter@),
            ).contains(x) || last_set.contains(x)) by {
                KeyedStore::<String>::lemma_pairs_cover(pairs@, x);
                if delegates_to(v, x, voter@) {
                    let j = choose|j: int| 0 <= j < pairs@.len() && pairs@[j].0@ == x;
                    KeyedStore::<String>::lemma_pairs_value(pairs@, j);
                }
                if last_set.contains(x) {
                    let j = choose|j: int|
                        0 <= j < pairs@.len() && #[trigger] pairs@[j].0@ == x && pairs@[j].1@
                            == voter@ && v.is_admin(x);
                    KeyedStore::<String>::lemma_pairs_value(pairs@, j);
                }
            }
            assert(named_in(voters@) =~= named_in(start).union(vote_names(v, voter@)));
        }
        voters
    }
}

/// What an executed proposal did.
#[derive(Debug)]
pub enum Executed {
    /// The pause state was flipped to the given value.
    TogglePause(bool),
    /// The target was registered as an admin.
    RegisterAdmin(String),
    /// The target was removed from the admins.
    RemoveAdmin(String),
    /// The contract was destroyed.
    SelfDestruct,
    /// An upgrade was approved; the code is not replaced here.
    Upgrade,
    /// The target's stake was slashed with the given transfer.
    Slash(Transfer),
}

/// The first reason a proposal cannot be executed, if any.
pub open spec fn execute_rejection(v: OracleView, executor: Seq<char>, action_id: u64) -> Option<
    Error,
> {
    match v.gate(Some(executor), false, true) {
        Some(e) => Some(e),
        None => if action_id >= v.proposals.len() {
            Some(Error::ActionNotFound)
        } else if v.proposals[action_id as int].0.executed {
            Some(Error::ActionAlreadyExecuted)
        } else if v.proposals[action_id as int].0.cancelled {
            Some(Error::ActionCancelled)
        } else if v.proposals[action_id as int].1.len() < required_threshold(v) {
            Some(Error::ThresholdNotReached)
        } else if v.proposals[action_id as int].1.len() < match v.min_quorum_threshold {
            Some(t) => t as int,
            None => 1,
        } {
            Some(Error::QuorumNotReached)
        } else {
            None
        }
    }
}

/// The effect of executing an accepted proposal: what it did and the state
/// after its action, or the error it fails with.
pub open spec fn execute_effect(v: OracleView, ledger: Ledger, action_id: u64) -> Result<
    (Executed, OracleView),
    Error,
> {
    let p = v.proposals[action_id as int].0;
    match p.action_type {
        AdminAction::TogglePause => Ok(
            (Executed::TogglePause(!v.paused), OracleView { paused: !v.paused, ..v }),
        ),
        AdminAction::RegisterAdmin => match p.target {
            Some(t) => Ok(
                (
                    Executed::RegisterAdmin(t),
                    OracleView {
                        admins: if v.is_admin(t@) {
                            v.admins
                        } else {
                            v.admins.push(t)
                        },
                        ..v
                    },
                ),
            ),
            None => Err(Error::InvalidActionType),
        },
        AdminAction::RemoveAdmin => match p.target {
            Some(t) => if v.admins.len() <= 1 {
                Err(Error::CannotRemoveLastAdmin)
            } else {
                Ok(
                    (
                        Executed::RemoveAdmin(t),
                        OracleView {
                            admins: v.admins.filter(crate::keyed::not_named(t@)),
                            ..v
                        },
                    ),
                )
            },
            None => Err(Error::InvalidActionType),
        },
        AdminAction::SelfDestruct => if v.admins.len() < 2 {
            Err(Error::MultiSigValidationFailed)
        } else {
            Ok((Executed::SelfDestruct, PriceOracle::destroyed_view(v)))
        },
        AdminAction::Upgrade => Ok((Executed::Upgrade, v)),
        AdminAction::Slash => match p.target {
            Some(t) => match super::staking::slash_amount_of(encode_utf8(p.data@)) {
                None => Err(Error::InvalidSlashAmount),
                Some(a) => match super::staking::slash_rejection(v, t@, a as i128) {
                    Some(e) => Err(e),
                    None => Ok(
                        (
                            Executed::Slash(super::staking::slash_transfer(v, ledger, a as i128)),
                            super::staking::slashed_view(v, t@, a as i128),
                        ),
                    ),
                },
            },
            None => Err(Error::InvalidActionType),
        },
        _ => Err(Error::InvalidActionType),
    }
}

/// The state after an executed proposal is marked executed and the action
/// is logged.
pub open spec fn mark_executed(w: OracleView, ledger: Ledger, action_id: u64) -> OracleView {
    let p = w.proposals[action_id as int];
    OracleView {
        proposals: w.proposals.update(action_id as int, (ProposedAction { executed: true, ..p.0 }, p.1)),
        admin_update_timestamp: Some(ledger.timestamp),
        ..w
    }
}

impl PriceOracle {
    /// The proposal code of an action type.
    fn action_from_code(code: u32) -> (r: Option<AdminAction>)
        ensures
            r == action_for_code(code),
    {
        if code == 0 {
            Some(AdminAction::TogglePause)
        } else if code == 1 {
            Some(AdminAction::RegisterAdmin)
        } else if code == 2 {
            Some(AdminAction::RemoveAdmin)
        } else if code == 3 {
            Some(AdminAction::SelfDestruct)
        } else if code == 4 {
            Some(AdminAction::Upgrade)
        } else if code == 5 {
            Some(AdminAction::Slash)
        } else {
            None
        }
    }

    /// Records a proposal by an admin, with the votes the proposer casts;
    /// returns its id, which is its position.
    pub fn propose_action(
        &mut self,
        ledger: &Ledger,
        admin: &String,
        action_type: u32,
        target: Option<String>,
        data: String,
    ) -> (r: Result<u64, Error>)
        ensures
            match old(self)@.gate(Some(admin@), false, true) {
                Some(e) => r == Err::<u64, Error>(e) && final(self)@ == old(self)@,
                None => match action_for_code(action_type) {
                    None => r == Err::<u64, Error>(Error::InvalidActionType) && final(self)@ == old(
                        self,
                    )@,
                    Some(t) => r == Ok::<u64, Error>(old(self)@.proposals.len() as u64) && exists|
                        vs: Seq<String>,
                    |
                        votes_added(old(self)@, Seq::empty(), vs, admin@) && final(self)@ == (
                        OracleView {
                            proposals: old(self)@.proposals.push(
                                (
                                    ProposedAction {
                                        action_id: old(self)@.proposals.len() as u64,
                                        action_type: t,
                                        target,
                                        data,
                                        proposed_at: ledger.timestamp,
                                        executed: false,
                                        cancelled: false,
                                    },
                                    vs,
                                ),
                            ),
                            admin_update_timestamp: Some(ledger.timestamp),
                            ..old(self)@
                        }),
                },
            },
    {
        self.check_gate(Some(admin), false, true)?;
        let admin_action = match Self::action_from_code(action_type) {
            Some(a) => a,
            None => {
                return Err(Error::InvalidActionType);
            },
        };
        let action_id = self.proposals.len() as u64;
        let voters = self.add_effective_votes(Vec::new(), admin);
        let proposed = ProposedAction {
            action_id,
            action_type: admin_action,
            target,
            data,
            proposed_at: ledger.timestamp,
            executed: false,
            cancelled: false,
        };
        let ghost vs = voters@;
        let ghost pa = proposed;
        self.proposals.push(Proposal { action: proposed, voters });
        self.admin_update_timestamp = Some(ledger.timestamp);
        proof {
            assert(self.proposals@.map_values(|p: Proposal| proposal_view(p)) =~= old(
                self,
            )@.proposals.push((pa, vs)));
        }
        Ok(action_id)
    }

    /// Adds the votes `voter` casts to a pending proposal; returns the number
    /// of votes it has.
    pub fn vote_for_action(&mut self, ledger: &Ledger, voter: &String, action_id: u64) -> (r: Result<
        u32,
        Error,
    >)
        ensures
            ({
                let v = old(self)@;
                if v.destroyed {
                    r == Err::<u32, Error>(Error::ContractDestroyed)
                } else if v.frozen {
                    r == Err::<u32, Error>(Error::ContractFrozen)
                } else if (!v.is_admin(voter@) || v.vote_delegates.contains_key(voter@))
                    && !has_delegators(v, voter@) {
                    r == Err::<u32, Error>(Error::NotAuthorized)
                } else if action_id >= v.proposals.len() {
                    r == Err::<u32, Error>(Error::ActionNotFound)
                } else if v.proposals[action_id as int].0.executed {
                    r == Err::<u32, Error>(Error::ActionAlreadyExecuted)
                } else if v.proposals[action_id as int].0.cancelled {
                    r == Err::<u32, Error>(Error::ActionCancelled)
                } else {
                    exists|vs: Seq<String>|
                        votes_added(v, v.proposals[action_id as int].1, vs, voter@) && r == Ok::<
                            u32,
                            Error,
                        >(
                            if vs.len() > u32::MAX {
                                u32::MAX
                            } else {
                                vs.len() as u32
                            },
                        ) && final(self)@ == (OracleView {
                            proposals: v.proposals.update(
                                action_id as int,
                                (v.proposals[action_id as int].0, vs),
                            ),
                            admin_update_timestamp: Some(ledger.timestamp),
                            ..v
                        })
                }
            }),
            r is Err ==> final(self)@ == old(self)@,
    {
        self.check_gate(None, false, true)?;
        let voter_is_admin = contains_str(&self.admins, voter);
        let voter_delegated_away = self.vote_delegates.contains(voter);
        if (!voter_is_admin || voter_delegated_away) && !self.has_delegators(voter) {
            return Err(Error::NotAuthorized);
        }
        if action_id >= self.proposals.len() as u64 {
            return Err(Error::ActionNotFound);
        }
        let idx = action_id as usize;
        if self.proposals[idx].action.executed {
            return Err(Error::ActionAlreadyExecuted);
        }
        if self.proposals[idx].action.cancelled {
            return Err(Error::ActionCancelled);
        }
        let action = self.proposals[idx].action.clone();
        let old_voters = self.proposals[idx].voters.clone();
        assert(old_voters@ =~= self.proposals@[idx as int].voters@);
        let voters = self.add_effective_votes(old_voters, voter);
        let count: u32 = if voters.len() > u32::MAX as usize {
            u32::MAX
        } else {
            voters.len() as u32
        };
        let ghost vs = voters@;
        let ghost pa = action;
        self.proposals.set(idx, Proposal { action, voters });
        self.admin_update_timestamp = Some(ledger.timestamp);
        proof {
            assert(self.proposals@.map_values(|p: Proposal| proposal_view(p)) =~= old(
                self,
            )@.proposals.update(action_id as int, (pa, vs)));
            let v = old(self)@;
            assert(pa == v.proposals[action_id as int].0);
            assert(votes_added(v, v.proposals[action_id as int].1, vs, voter@));
            assert(self@ == (OracleView {
                proposals: v.proposals.update(action_id as int, (v.proposals[action_id as int].0, vs)),
                admin_update_timestamp: Some(ledger.timestamp),
                ..v
            }));
        }
        Ok(count)
    }

    /// Whether some owner has delegated its vote to `voter`.
    fn has_delegators(&self, voter: &String) -> (r: bool)
        ensures
            r == has_delegators(self@, voter@),
    {
        let pairs = self.vote_delegates.pairs();
        let mut i: usize = 0;
        while i < pairs.len()
            invariant
                pairs_to_map(pairs@) == self@.vote_delegates,
                keys_distinct(pairs@),
                i <= pairs@.len(),
                forall|j: int| 0 <= j < i ==> pairs@[j].1@ != voter@,
            decreases pairs@.len() - i,
        {
            if pairs[i].1 == *voter {
                proof {
                    KeyedStore::<String>::lemma_pairs_value(pairs@, i as int);
                    assert(delegates_to(self@, pairs@[i as int].0@, voter@));
                }
                return true;
            }
            i = i + 1;
        }
        proof {
            assert forall|o: Seq<char>| !delegates_to(self@, o, voter@) by {
                KeyedStore::<String>::lemma_pairs_cover(pairs@, o);
                if self@.vote_delegates.contains_key(o) {
                    let j = choose|j: int| 0 <= j < pairs@.len() && pairs@[j].0@ == o;
                    KeyedStore::<String>::lemma_pairs_value(pairs@, j);
                }
            }
        }
        false
    }

    /// Delegates the owner's vote to `delegate`.
    pub fn delegate_vote(&mut self, owner: String, delegate: String) -> (r: Result<(), Error>)
        ensures
            r == (match old(self)@.gate(None, false, true) {
                Some(e) => Err(e),
                None => if owner@ == delegate@ {
                    Err(Error::InvalidDelegate)
                } else {
                    Ok(())
                },
            }),
            r is Err ==> final(self)@ == old(self)@,
            r is Ok ==> final(self)@ == (OracleView {
                vote_delegates: old(self)@.vote_delegates.insert(owner@, delegate),
                ..old(self)@
            }),
    {
        self.check_gate(None, false, true)?;
        if owner == delegate {
            return Err(Error::InvalidDelegate);
        }
        self.vote_delegates.set(owner, delegate);
        Ok(())
    }

    /// Removes the owner's vote delegation.
    pub fn clear_vote_delegate(&mut self, owner: &String) -> (r: Result<(), Error>)
        ensures
            r == (match old(self)@.gate(None, false, false) {
                Some(e) => Err(e),
                None => Ok(()),
            }),
            r is Err ==> final(self)@ == old(self)@,
            r is Ok ==> final(self)@ == (OracleView {
                vote_delegates: old(self)@.vote_delegates.remove(owner@),
                ..old(self)@
            }),
    {
        self.check_gate(None, false, false)?;
        self.vote_delegates.remove(owner);
        Ok(())
    }

    /// The delegate of an owner, if any.
    pub fn get_vote_delegate(&self, owner: &String) -> (r: Option<String>)
        ensures
            r == (if self@.vote_delegates.contains_key(owner@) {
                Some(self@.vote_delegates[owner@])
            } else {
                None
            }),
    {
        match self.vote_delegates.get(owner) {
            Some(d) => Some(d.clone()),
            None => None,
        }
    }

    /// The number of votes a proposal needs to execute.
    pub fn get_required_threshold(&self) -> (r: u32)
        requires
            self@.admins.len() <= u32::MAX,
        ensures
            r == required_threshold(self@),
    {
        (self.admins.len() / 2 + 1) as u32
    }

    /// A proposal, if it exists.
    pub fn get_proposed_action(&self, action_id: u64) -> (r: Option<ProposedAction>)
        ensures
            r == (if action_id < self@.proposals.len() {
                Some(self@.proposals[action_id as int].0)
            } else {
                None
            }),
    {
        if action_id < self.proposals.len() as u64 {
            Some(self.proposals[action_id as usize].action.clone())
        } else {
            None
        }
    }

    /// The names whose votes a proposal has collected; empty when it does not
    /// exist.
    pub fn get_action_voters(&self, action_id: u64) -> (r: Vec<String>)
        ensures
            r@ == (if action_id < self@.proposals.len() {
                self@.proposals[action_id as int].1
            } else {
                Seq::empty()
            }),
    {
        if action_id < self.proposals.len() as u64 {
            let r = self.proposals[action_id as usize].voters.clone();
            assert(r@ =~= self.proposals@[action_id as int].voters@);
            r
        } else {
            Vec::new()
        }
    }

    /// Cancels a pending proposal.
    pub fn cancel_proposed_action(&mut self, ledger: &Ledger, canceller: &String, action_id: u64) -> (r:
        Result<(), Error>)
        ensures
            ({
                let v = old(self)@;
                match v.gate(Some(canceller@), false, true) {
                    Some(e) => r == Err::<(), Error>(e),
                    None => if action_id >= v.proposals.len() {
                        r == Err::<(), Error>(Error::ActionNotFound)
                    } else if v.proposals[action_id as int].0.executed {
                        r == Err::<(), Error>(Error::ActionAlreadyExecuted)
                    } else if v.proposals[action_id as int].0.cancelled {
                        r == Err::<(), Error>(Error::ActionCancelled)
                    } else {
                        &&& r == Ok::<(), Error>(())
                        &&& final(self)@ == (OracleView {
                            proposals: v.proposals.update(
                                action_id as int,
                                (
                                    ProposedAction {
                                        cancelled: true,
                                        ..v.proposals[action_id as int].0
                                    },
                                    v.proposals[action_id as int].1,
                                ),
                            ),
                            admin_update_timestamp: Some(ledger.timestamp),
                            ..v
                        })
                    },
                }
            }),
            r is Err ==> final(self)@ == old(self)@,
    {
        self.check_gate(Some(canceller), false, true)?;
        if action_id >= self.proposals.len() as u64 {
            return Err(Error::ActionNotFound);
        }
        let idx = action_id as usize;
        if self.proposals[idx].action.executed {
            return Err(Error::ActionAlreadyExecuted);
        }
        if self.proposals[idx].action.cancelled {
            return Err(Error::ActionCancelled);
        }
        let action = ProposedAction { cancelled: true, ..self.proposals[idx].action.clone() };
        let voters = self.proposals[idx].voters.clone();
        let ghost vs = voters@;
        let ghost pa = action;
        assert(vs =~= self.proposals@[idx as int].voters@);
        self.proposals.set(idx, Proposal { action, voters });
        self.admin_update_timestamp = Some(ledger.timestamp);
        proof {
            assert(self.proposals@.map_values(|p: Proposal| proposal_view(p)) =~= old(
                self,
            )@.proposals.update(action_id as int, (pa, vs)));
        }
        Ok(())
    }
}

impl PriceOracle {
    /// Executes a pending proposal that has reached the vote threshold and
    /// the minimum quorum, then marks it executed.
    pub fn execute_proposed_action(&mut self, ledger: &Ledger, executor: &String, action_id: u64) -> (r:
        Result<Executed, Error>)
        ensures
            match execute_rejection(old(self)@, executor@, action_id) {
                Some(e) => r == Err::<Executed, Error>(e) && final(self)@ == old(self)@,
                None => match execute_effect(old(self)@, *ledger, action_id) {
                    Err(e) => r == Err::<Executed, Error>(e) && final(self)@ == old(self)@,
                    Ok((x, w)) => r == Ok::<Executed, Error>(x) && final(self)@ == mark_executed(
                        w,
                        *ledger,
                        action_id,
                    ),
                },
            },
    {
        self.check_gate(Some(executor), false, true)?;
        if action_id >= self.proposals.len() as u64 {
            return Err(Error::ActionNotFound);
        }
        let idx = action_id as usize;
        if self.proposals[idx].action.executed {
            return Err(Error::ActionAlreadyExecuted);
        }
        if self.proposals[idx].action.cancelled {
            return Err(Error::ActionCancelled);
        }
        let threshold = self.admins.len() / 2 + 1;
        let votes = self.proposals[idx].voters.len();
        if votes < threshold {
            return Err(Error::ThresholdNotReached);
        }
        let min_quorum = self.get_min_quorum_threshold() as usize;
        if votes < min_quorum {
            return Err(Error::QuorumNotReached);
        }
        let action = self.proposals[idx].action.clone();
        let outcome = match action.action_type {
            AdminAction::TogglePause => {
                self.paused = !self.paused;
                Executed::TogglePause(self.paused)
            },
            AdminAction::RegisterAdmin => match &action.target {
                Some(t) => {
                    self.add_authorized(t.clone());
                    Executed::RegisterAdmin(t.clone())
                },
                None => {
                    return Err(Error::InvalidActionType);
                },
            },
            AdminAction::RemoveAdmin => match &action.target {
                Some(t) => {
                    if self.admins.len() <= 1 {
                        return Err(Error::CannotRemoveLastAdmin);
                    }
                    self.remove_authorized(t);
                    Executed::RemoveAdmin(t.clone())
                },
                None => {
                    return Err(Error::InvalidActionType);
                },
            },
            AdminAction::SelfDestruct => {
                if self.admins.len() < 2 {
                    return Err(Error::MultiSigValidationFailed);
                }
                self.wipe();
                Executed::SelfDestruct
            },
            AdminAction::Upgrade => Executed::Upgrade,
            AdminAction::Slash => match &action.target {
                Some(t) => {
                    let amount = super::staking::parse_slash_amount(action.data.as_str().as_bytes())?;
                    let transfer = self.execute_slash_internal(ledger, t, amount)?;
                    Executed::Slash(transfer)
                },
                None => {
                    return Err(Error::InvalidActionType);
                },
            },
            _ => {
                return Err(Error::InvalidActionType);
            },
        };
        let ghost w = self@;
        let voters = self.proposals[idx].voters.clone();
        let executed = ProposedAction { executed: true, ..action };
        let ghost vs = voters@;
        let ghost pa = executed;
        assert(vs =~= self.proposals@[idx as int].voters@);
        self.proposals.set(idx, Proposal { action: executed, voters });
        self.admin_update_timestamp = Some(ledger.timestamp);
        proof {
            assert(self.proposals@.map_values(|p: Proposal| proposal_view(p)) =~= w.proposals.update(
                action_id as int,
                (pa, vs),
            ));
        }
        Ok(outcome)
    }
}

} // verus!
