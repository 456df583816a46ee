//! Relayer stakes, slashing into the insurance reserve, and price-update
//! subscriptions.

use vstd::prelude::*;
use vstd::utf8::encode_utf8;
use crate::keyed::{has_str, not_named, contains_str, without_str};
use super::state::{PriceOracle, OracleView, applied_value};
use super::types::{Error, Ledger, Transfer};

verus! {

/// The number a string of decimal digits denotes.
pub open spec fn digits_value(b: Seq<u8>) -> int
    decreases b.len(),
{
    if b.len() == 0 {
        0
    } else {
        digits_value(b.drop_last()) * 10 + (b.last() - 48)
    }
}

/// Every byte is an ASCII decimal digit.
pub open spec fn all_digits(b: Seq<u8>) -> bool {
    forall|i: int| 0 <= i < b.len() ==> 48 <= #[trigger] b[i] <= 57
}

/// The amount a slash proposal's data encodes: a non-empty string of decimal
/// digits whose value fits in an `i128`.
pub open spec fn slash_amount_of(b: Seq<u8>) -> Option<int> {
    if b.len() > 0 && all_digits(b) && digits_value(b) <= i128::MAX {
        Some(digits_value(b))
    } else {
        None
    }
}

/// The value of a digit string never decreases when digits are appended.
proof fn lemma_digits_value_monotone(b: Seq<u8>, i: int, j: int)
    requires
        all_digits(b),
        0 <= i <= j <= b.len(),
    ensures
        0 <= digits_value(b.take(i)) <= digits_value(b.take(j)),
    decreases j - i,
{
    if i < j {
        lemma_digits_value_monotone(b, i, j - 1);
        assert(b.take(j).drop_last() =~= b.take(j - 1));
        assert(b.take(j).last() == b[j - 1]);
    } else {
        lemma_digits_value_nonneg(b.take(i));
    }
}

proof fn lemma_digits_value_nonneg(b: Seq<u8>)
    requires
        all_digits(b),
    ensures
        digits_value(b) >= 0,
    decreases b.len(),
{
    if b.len() > 0 {
        assert(all_digits(b.drop_last()));
        lemma_digits_value_nonneg(b.drop_last());
        assert(b.last() == b[b.len() - 1]);
    }
}

/// Parses the decimal amount of a slash proposal.
pub fn parse_slash_amount(data: &[u8]) -> (r: Result<i128, Error>)
    ensures
        match slash_amount_of(data@) {
            Some(a) => r == Ok::<i128, Error>(a as i128),
            None => r == Err::<i128, Error>(Error::InvalidSlashAmount),
        },
{
    let n = data.len();
    if n == 0 {
        return Err(Error::InvalidSlashAmount);
    }
    let mut acc: i128 = 0;
    let mut i: usize = 0;
    let mut overflow = false;
    while i < n
        invariant
            n == data@.len(),
            i <= n,
            all_digits(data@.take(i as int)),
            !overflow ==> acc as int == digits_value(data@.take(i as int)),
            overflow ==> digits_value(data@.take(i as int)) > i128::MAX,
        decreases n - i,
    {
        let c = data[i];
        if c < 48 || c > 57 {
            proof {
                assert(!all_digits(data@));
            }
            return Err(Error::InvalidSlashAmount);
        }
        proof {
            assert(data@.take(i + 1).drop_last() =~= data@.take(i as int));
            assert(all_digits(data@.take(i + 1)));
            lemma_digits_value_monotone(data@.take(i + 1), i as int, i + 1);
            assert(data@.take(i + 1).take(i as int) =~= data@.take(i as int));
            assert(data@.take(i + 1).take(i + 1) =~= data@.take(i + 1));
        }
        if !overflow {
            let d: i128 = (c - 48) as i128;
            match acc.checked_mul(10) {
                Some(m) => match m.checked_add(d) {
                    Some(s) => {
                        acc = s;
                    },
                    None => {
                        overflow = true;
                    },
                },
                None => {
                    overflow = true;
                },
            }
        }
        i = i + 1;
    }
    assert(data@.take(n as int) =~= data@);
    if overflow {
        Err(Error::InvalidSlashAmount)
    } else {
        Ok(acc)
    }
}

/// The stake of a relayer, zero when it has none.
pub open spec fn stake_of(v: OracleView, relayer: Seq<char>) -> i128 {
    if v.provider_stakes.contains_key(relayer) {
        v.provider_stakes[relayer]
    } else {
        0
    }
}

/// Why a slash of `amount` from `bad_relayer` is refused, if it is.
pub open spec fn slash_rejection(v: OracleView, bad_relayer: Seq<char>, amount: i128) -> Option<
    Error,
> {
    if amount <= 0 {
        Some(Error::InvalidSlashAmount)
    } else if v.slash_token is None {
        Some(Error::SlashTokenNotSet)
    } else if v.insurance_reserve is None {
        Some(Error::InsuranceReserveNotSet)
    } else if stake_of(v, bad_relayer) < amount {
        Some(Error::InsufficientStake)
    } else {
        None
    }
}

/// The state after `amount` is slashed from `bad_relayer`.
pub open spec fn slashed_view(v: OracleView, bad_relayer: Seq<char>, amount: i128) -> OracleView {
    OracleView {
        provider_stakes: v.provider_stakes.insert(
            bad_relayer,
            (stake_of(v, bad_relayer) - amount) as i128,
        ),
        ..v
    }
}

/// The transfer of slashed funds to the insurance reserve.
pub open spec fn slash_transfer(v: OracleView, ledger: Ledger, amount: i128) -> Transfer {
    Transfer {
        token: v.slash_token.unwrap(),
        from: ledger.contract_address,
        to: v.insurance_reserve.unwrap(),
        amount,
    }
}

impl OracleView {
    /// What `stake_tokens` does: the transfer of the stake into the contract,
    /// with the next state. A credit that would overflow leaves the recorded
    /// stake unchanged.
    pub open spec fn stake_outcome(self, ledger: Ledger, relayer: String, amount: i128) -> Result<
        (Transfer, OracleView),
        Error,
    > {
        match self.gate(None, true, true) {
            Some(e) => Err(e),
            None => if amount <= 0 {
                Err(Error::InvalidSlashAmount)
            } else if self.slash_token is None {
                Err(Error::SlashTokenNotSet)
            } else {
                let current = stake_of(self, relayer@);
                Ok(
                    (
                        Transfer {
                            token: self.slash_token.unwrap(),
                            from: relayer,
                            to: ledger.contract_address,
                            amount,
                        },
                        OracleView {
                            provider_stakes: self.provider_stakes.insert(
                                relayer@,
                                if current + amount <= i128::MAX {
                                    (current + amount) as i128
                                } else {
                                    current
                                },
                            ),
                            ..self
                        },
                    ),
                )
            },
        }
    }

    /// What `unstake_tokens` does: the transfer back to the relayer, with the
    /// next state.
    pub open spec fn unstake_outcome(self, ledger: Ledger, relayer: String, amount: i128) -> Result<
        (Transfer, OracleView),
        Error,
    > {
        match self.gate(None, true, true) {
            Some(e) => Err(e),
            None => if amount <= 0 {
                Err(Error::InvalidSlashAmount)
            } else if self.slash_token is None {
                Err(Error::SlashTokenNotSet)
            } else if amount > stake_of(self, relayer@) {
                Err(Error::InsufficientStake)
            } else {
                Ok(
                    (
                        Transfer {
                            token: self.slash_token.unwrap(),
                            from: ledger.contract_address,
                            to: relayer,
                            amount,
                        },
                        OracleView {
                            provider_stakes: self.provider_stakes.insert(
                                relayer@,
                                (stake_of(self, relayer@) - amount) as i128,
                            ),
                            ..self
                        },
                    ),
                )
            },
        }
    }
}

impl PriceOracle {
    /// Moves `amount` of `bad_relayer`'s stake to the insurance reserve.
    pub(crate) fn execute_slash_internal(
        &mut self,
        ledger: &Ledger,
        bad_relayer: &String,
        amount: i128,
    ) -> (r: Result<Transfer, Error>)
        ensures
            match slash_rejection(old(self)@, bad_relayer@, amount) {
                Some(e) => r == Err::<Transfer, Error>(e) && final(self)@ == old(self)@,
                None => r == Ok::<Transfer, Error>(slash_transfer(old(self)@, *ledger, amount))
                    && final(self)@ == slashed_view(old(self)@, bad_relayer@, amount),
            },
    {
        if amount <= 0 {
            return Err(Error::InvalidSlashAmount);
        }
        let token = match &self.slash_token {
            Some(t) => t.clone(),
            None => {
                return Err(Error::SlashTokenNotSet);
            },
        };
        let reserve = match &self.insurance_reserve {
            Some(t) => t.clone(),
            None => {
                return Err(Error::InsuranceReserveNotSet);
            },
        };
        let current: i128 = self.get_provider_stake(bad_relayer);
        if current < amount {
            return Err(Error::InsufficientStake);
        }
        self.provider_stakes.set(bad_relayer.clone(), current - amount);
        Ok(Transfer { token, from: ledger.contract_address.clone(), to: reserve, amount })
    }

    /// Sets the token used for stakes and slashing.
    pub fn set_slash_token(&mut self, ledger: &Ledger, admin: &String, token: String) -> (r: Result<
        (),
        Error,
    >)
        ensures
            r == (match old(self)@.gate(Some(admin@), true, true) {
                Some(e) => Err(e),
                None => Ok(()),
            }),
            r is Err ==> final(self)@ == old(self)@,
            r is Ok ==> final(self)@ == (OracleView {
                slash_token: Some(token),
                admin_update_timestamp: Some(ledger.timestamp),
                ..old(self)@
            }),
    {
        self.check_gate(Some(admin), true, true)?;
        self.slash_token = Some(token);
        self.admin_update_timestamp = Some(ledger.timestamp);
        Ok(())
    }

    /// The staking token, if set.
    pub fn get_slash_token(&self) -> (r: Option<String>)
        ensures
            r == self@.slash_token,
    {
        super::types::clone_opt_string(&self.slash_token)
    }

    /// Sets the address that receives slashed funds.
    pub fn set_insurance_reserve(&mut self, ledger: &Ledger, admin: &String, reserve: String) -> (r:
        Result<(), Error>)
        ensures
            r == (match old(self)@.gate(Some(admin@), true, true) {
                Some(e) => Err(e),
                None => Ok(()),
            }),
            r is Err ==> final(self)@ == old(self)@,
            r is Ok ==> final(self)@ == (OracleView {
                insurance_reserve: Some(reserve),
                admin_update_timestamp: Some(ledger.timestamp),
                ..old(self)@
            }),
    {
        self.check_gate(Some(admin), true, true)?;
        self.insurance_reserve = Some(reserve);
        self.admin_update_timestamp = Some(ledger.timestamp);
        Ok(())
    }

    /// The insurance reserve, if set.
    pub fn get_insurance_reserve(&self) -> (r: Option<String>)
        ensures
            r == self@.insurance_reserve,
    {
        super::types::clone_opt_string(&self.insurance_reserve)
    }

    /// Credits `amount` to the relayer's stake; returns the transfer of the
    /// tokens from the relayer to the contract. A credit that would overflow
    /// leaves the recorded stake unchanged.
    pub fn stake_tokens(&mut self, ledger: &Ledger, relayer: &String, amount: i128) -> (r: Result<
        Transfer,
        Error,
    >)
        ensures
            applied_value(old(self)@.stake_outcome(*ledger, *relayer, amount), r, old(self)@, final(self)@),
    {
        self.check_gate(None, true, true)?;
        if amount <= 0 {
            return Err(Error::InvalidSlashAmount);
        }
        let token = match &self.slash_token {
            Some(t) => t.clone(),
            None => {
                return Err(Error::SlashTokenNotSet);
            },
        };
        let current: i128 = self.get_provider_stake(relayer);
        let new_stake = match current.checked_add(amount) {
            Some(s) => s,
            None => current,
        };
        self.provider_stakes.set(relayer.clone(), new_stake);
        Ok(Transfer { token, from: relayer.clone(), to: ledger.contract_address.clone(), amount })
    }

    /// Withdraws `amount` from the relayer's stake; returns the transfer of
    /// the tokens back to the relayer.
    pub fn unstake_tokens(&mut self, ledger: &Ledger, relayer: &String, amount: i128) -> (r: Result<
        Transfer,
        Error,
    >)
        ensures
            applied_value(old(self)@.unstake_outcome(*ledger, *relayer, amount), r, old(self)@, final(self)@),
    {
        self.check_gate(None, true, true)?;
        if amount <= 0 {
            return Err(Error::InvalidSlashAmount);
        }
        let token = match &self.slash_token {
            Some(t) => t.clone(),
            None => {
                return Err(Error::SlashTokenNotSet);
            },
        };
        let current: i128 = self.get_provider_stake(relayer);
        if amount > current {
            return Err(Error::InsufficientStake);
        }
        self.provider_stakes.set(relayer.clone(), current - amount);
        Ok(Transfer { token, from: ledger.contract_address.clone(), to: relayer.clone(), amount })
    }

    /// The staked balance of a relayer, zero when it has none.
    pub fn get_provider_stake(&self, relayer: &String) -> (r: i128)
        ensures
            r == stake_of(self@, relayer@),
    {
        match self.provider_stakes.get(relayer) {
            Some(s) => *s,
            None => 0,
        }
    }

    /// Slashes `amount` from `bad_relayer` into the insurance reserve, on the
    /// authority of one admin.
    pub fn execute_slash(
        &mut self,
        ledger: &Ledger,
        executor: &String,
        bad_relayer: &String,
        amount: i128,
    ) -> (r: Result<Transfer, Error>)
        ensures
            match old(self)@.gate(Some(executor@), true, true) {
                Some(e) => r == Err::<Transfer, Error>(e) && final(self)@ == old(self)@,
                None => match slash_rejection(old(self)@, bad_relayer@, amount) {
                    Some(e) => r == Err::<Transfer, Error>(e) && final(self)@ == old(self)@,
                    None => r == Ok::<Transfer, Error>(slash_transfer(old(self)@, *ledger, amount))
                        && final(self)@ == slashed_view(old(self)@, bad_relayer@, amount),
                },
            },
    {
        self.check_gate(Some(executor), true, true)?;
        self.execute_slash_internal(ledger, bad_relayer, amount)
    }

    /// Subscribes a contract to price-update notifications.
    pub fn subscribe_to_price_updates(&mut self, callback_contract: String) -> (r: Result<
        (),
        Error,
    >)
        ensures
            r == (if old(self)@.destroyed {
                Err(Error::ContractDestroyed)
            } else if has_str(old(self)@.subscribers, callback_contract@) {
                Err(Error::AlreadySubscribed)
            } else {
                Ok(())
            }),
            r is Err ==> final(self)@ == old(self)@,
            r is Ok ==> final(self)@ == (OracleView {
                subscribers: old(self)@.subscribers.push(callback_contract),
                ..old(self)@
            }),
    {
        if self.destroyed {
            return Err(Error::ContractDestroyed);
        }
        if contains_str(&self.subscribers, &callback_contract) {
            return Err(Error::AlreadySubscribed);
        }
        self.subscribers.push(callback_contract);
        Ok(())
    }

    /// Unsubscribes a contract from price-update notifications.
    pub fn unsubscribe_from_price_updates(&mut self, callback_contract: &String) -> (r: Result<
        (),
        Error,
    >)
        ensures
            r == (if old(self)@.destroyed {
                Err(Error::ContractDestroyed)
            } else if !has_str(old(self)@.subscribers, callback_contract@) {
                Err(Error::SubscriberNotFound)
            } else {
                Ok(())
            }),
            r is Err ==> final(self)@ == old(self)@,
            r is Ok ==> final(self)@ == (OracleView {
                subscribers: old(self)@.subscribers.filter(not_named(callback_contract@)),
                ..old(self)@
            }),
    {
        if self.destroyed {
            return Err(Error::ContractDestroyed);
        }
        if !contains_str(&self.subscribers, callback_contract) {
            return Err(Error::SubscriberNotFound);
        }
        self.subscribers = without_str(&self.subscribers, callback_contract);
        Ok(())
    }

    /// The contracts subscribed to price updates.
    pub fn get_price_update_subscribers(&self) -> (r: Vec<String>)
        ensures
            r@ == self@.subscribers,
    {
        let r = self.subscribers.clone();
        assert(r@ =~= self.subscribers@);
        r
    }
}

} // verus!
