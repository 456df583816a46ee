//! The fixed reward distribution splitter: recipients hold fixed shares in
//! basis points (10000 = 100%), and a distribution pays each recipient its
//! share of an amount.

use vstd::prelude::*;

verus! {

/// Basis points of the whole.
pub const TOTAL_BPS: u32 = 10_000;

/// A recipient and its share in basis points.
#[derive(Debug)]
pub struct Recipient {
    pub address: String,
    pub share: u32,
}

impl Clone for Recipient {
    fn clone(&self) -> (r: Self)
        ensures
            r == *self,
    {
        Recipient { address: self.address.clone(), share: self.share }
    }
}

/// Storage keys of the splitter's state.
#[derive(Clone, Copy, Debug, PartialEq, Eq, Structural)]
pub enum DataKey {
    Admin,
    Token,
    Recipients,
    Initialized,
    TotalShares,
    DefaultAdmin,
    DefaultToken,
}

/// Errors of the splitter.
#[derive(Clone, Copy, Debug, PartialEq, Eq, Structural)]
pub enum Error {
    AlreadyInitialized,
    Unauthorized,
    InvalidShare,
    TotalSharesExceeded,
    NoRecipients,
    InsufficientBalance,
    ZeroAmount,
    TokenNotSet,
}

/// One payment of a distribution.
#[derive(Debug)]
pub struct Payout {
    pub recipient: String,
    pub amount: i128,
}

/// The token transfers of a distribution, all from `from`.
#[derive(Debug)]
pub struct Distribution {
    pub token: String,
    pub from: String,
    pub payouts: Vec<Payout>,
}

/// The state of the splitter contract.
pub struct RewardSplitter {
    pub initialized: bool,
    pub admin: Option<String>,
    pub token: Option<String>,
    pub recipients: Vec<Recipient>,
    pub total_shares: u32,
    pub default_admin: Option<String>,
    pub default_token: Option<String>,
}

/// The splitter state as a mathematical value.
#[verifier::ext_equal]
pub struct SplitterView {
    pub initialized: bool,
    pub admin: Option<String>,
    pub token: Option<String>,
    pub recipients: Seq<Recipient>,
    pub total_shares: u32,
    pub default_admin: Option<String>,
    pub default_token: Option<String>,
}

impl View for RewardSplitter {
    type V = SplitterView;

    open spec fn view(&self) -> SplitterView {
        SplitterView {
            initialized: self.initialized,
            admin: self.admin,
            token: self.token,
            recipients: self.recipients@,
            total_shares: self.total_shares,
            default_admin: self.default_admin,
            default_token: self.default_token,
        }
    }
}

/// Sum of the shares of a recipient list.
pub open spec fn share_sum(rs: Seq<Recipient>) -> int
    decreases rs.len(),
{
    if rs.len() == 0 {
        0
    } else {
        share_sum(rs.drop_last()) + rs.last().share
    }
}

/// Sum of the shares held by `address`.
pub open spec fn matching_sum(rs: Seq<Recipient>, address: Seq<char>) -> int
    decreases rs.len(),
{
    if rs.len() == 0 {
        0
    } else {
        matching_sum(rs.drop_last(), address) + if rs.last().address@ == address {
            rs.last().share as int
        } else {
            0
        }
    }
}

/// The share of the first entry of `address`, if any.
pub open spec fn first_share(rs: Seq<Recipient>, address: Seq<char>) -> Option<u32>
    decreases rs.len(),
{
    if rs.len() == 0 {
        None
    } else if rs[0].address@ == address {
        Some(rs[0].share)
    } else {
        first_share(rs.drop_first(), address)
    }
}

/// Not an entry of `address`.
pub open spec fn other_than(address: Seq<char>) -> spec_fn(Recipient) -> bool {
    |r: Recipient| r.address@ != address
}

/// The list with every entry of `address` given `share`.
pub open spec fn with_share(rs: Seq<Recipient>, address: String, share: u32) -> Seq<Recipient> {
    rs.map_values(
        |r: Recipient|
            if r.address@ == address@ {
                Recipient { address, share }
            } else {
                r
            },
    )
}

/// A recipient's part of `amount`, rounded down.
pub open spec fn share_of(amount: int, share: int, total: int) -> int {
    (amount * share) / total
}

/// The payments of a distribution of `amount`: every recipient whose part is
/// positive, in list order.
pub open spec fn payouts(rs: Seq<Recipient>, amount: int, total: int) -> Seq<(Seq<char>, int)>
    decreases rs.len(),
{
    if rs.len() == 0 {
        Seq::empty()
    } else {
        let rest = payouts(rs.drop_last(), amount, total);
        let part = share_of(amount, rs.last().share as int, total);
        if part > 0 {
            rest.push((rs.last().address@, part))
        } else {
            rest
        }
    }
}

/// Sum of the amounts of a list of payments.
pub open spec fn payout_sum(ps: Seq<(Seq<char>, int)>) -> int
    decreases ps.len(),
{
    if ps.len() == 0 {
        0
    } else {
        payout_sum(ps.drop_last()) + ps.last().1
    }
}

/// The view of a list of payments.
pub open spec fn payout_view(ps: Seq<Payout>) -> Seq<(Seq<char>, int)> {
    ps.map_values(|p: Payout| (p.recipient@, p.amount as int))
}

/// The error an admin operation fails with when `admin` is not the admin.
pub open spec fn admin_check(v: SplitterView, admin: Seq<char>) -> Option<Error> {
    if v.admin.unwrap()@ != admin {
        Some(Error::Unauthorized)
    } else {
        None
    }
}

/// The recorded total equals the sum of the recipients' shares and is at
/// most 100%.
pub open spec fn shares_consistent(v: SplitterView) -> bool {
    v.total_shares == share_sum(v.recipients) && v.total_shares <= TOTAL_BPS
}

/// The defaults recorded at initialization are the same in `after` as in
/// `before`.
pub open spec fn keeps_defaults(before: SplitterView, after: SplitterView) -> bool {
    after.default_admin == before.default_admin && after.default_token == before.default_token
}

/// No two recipients have the same address.
pub open spec fn distinct_addresses(rs: Seq<Recipient>) -> bool {
    forall|i: int, j: int| 0 <= i < j < rs.len() ==> rs[i].address@ != rs[j].address@
}

proof fn lemma_share_sum_push(rs: Seq<Recipient>, r: Recipient)
    ensures
        share_sum(rs.push(r)) == share_sum(rs) + r.share,
{
    assert(rs.push(r).drop_last() =~= rs);
}

proof fn lemma_share_sum_filter(rs: Seq<Recipient>, address: Seq<char>)
    ensures
        share_sum(rs.filter(other_than(address))) == share_sum(rs) - matching_sum(rs, address),
    decreases rs.len(),
{
    reveal_with_fuel(Seq::<_>::filter, 1);
    if rs.len() > 0 {
        let t = rs.drop_last();
        lemma_share_sum_filter(t, address);
        if rs.last().address@ != address {
            lemma_share_sum_push(t.filter(other_than(address)), rs.last());
        }
    }
}

proof fn lemma_matching_sum_le_share_sum(rs: Seq<Recipient>, address: Seq<char>)
    ensures
        0 <= matching_sum(rs, address) <= share_sum(rs),
    decreases rs.len(),
{
    if rs.len() > 0 {
        lemma_matching_sum_le_share_sum(rs.drop_last(), address);
    }
}

proof fn lemma_with_share_untouched(rs: Seq<Recipient>, address: String, share: u32)
    requires
        forall|j: int| 0 <= j < rs.len() ==> rs[j].address@ != address@,
    ensures
        with_share(rs, address, share) == rs,
{
    assert(with_share(rs, address, share) =~= rs);
}

proof fn lemma_share_sum_with_share(rs: Seq<Recipient>, address: String, share: u32, k: int)
    requires
        distinct_addresses(rs),
        0 <= k < rs.len(),
        rs[k].address@ == address@,
    ensures
        share_sum(with_share(rs, address, share)) == share_sum(rs) - rs[k].share + share,
    decreases rs.len(),
{
    let t = rs.drop_last();
    let w = with_share(rs, address, share);
    assert(w.drop_last() =~= with_share(t, address, share));
    if k == rs.len() - 1 {
        assert forall|j: int| 0 <= j < t.len() implies t[j].address@ != address@ by {
            assert(rs[j].address@ != rs[k].address@);
        }
        lemma_with_share_untouched(t, address, share);
    } else {
        assert(rs.last().address@ != address@) by {
            assert(rs[k].address@ != rs[rs.len() - 1].address@);
        }
        lemma_share_sum_with_share(t, address, share, k);
    }
}

proof fn lemma_share_of_bound(amount: int, share: int, total: int)
    by (nonlinear_arith)
    requires
        amount >= 0,
        share >= 0,
        total > 0,
    ensures
        0 <= share_of(amount, share, total),
        total * share_of(amount, share, total) <= amount * share,
{
}

proof fn lemma_payouts_scaled(rs: Seq<Recipient>, amount: int, total: int)
    requires
        amount >= 0,
        total > 0,
    ensures
        total * payout_sum(payouts(rs, amount, total)) <= amount * share_sum(rs),
        payout_sum(payouts(rs, amount, total)) >= 0,
    decreases rs.len(),
{
    if rs.len() > 0 {
        let t = rs.drop_last();
        lemma_payouts_scaled(t, amount, total);
        let part = share_of(amount, rs.last().share as int, total);
        lemma_share_of_bound(amount, rs.last().share as int, total);
        let rest = payouts(t, amount, total);
        if part > 0 {
            assert(rest.push((rs.last().address@, part)).drop_last() =~= rest);
        }
        assert(total * (payout_sum(rest) + part) == total * payout_sum(rest) + total * part)
            by (nonlinear_arith);
        assert(amount * (share_sum(t) + rs.last().share) == amount * share_sum(t) + amount
            * rs.last().share) by (nonlinear_arith);
    }
}

/// A distribution never pays out more than the distributed amount when the
/// recipients' shares add up to at most the recorded total.
pub proof fn lemma_distribution_within_amount(rs: Seq<Recipient>, amount: int, total: int)
    requires
        amount > 0,
        total > 0,
        share_sum(rs) <= total,
    ensures
        payout_sum(payouts(rs, amount, total)) <= amount,
{
    lemma_payouts_scaled(rs, amount, total);
    let p = payout_sum(payouts(rs, amount, total));
    assert(amount * share_sum(rs) <= amount * total) by (nonlinear_arith)
        requires
            amount > 0,
            share_sum(rs) <= total,
    ;
    assert(p <= amount) by (nonlinear_arith)
        requires
            total * p <= amount * total,
            total > 0,
    ;
}

impl RewardSplitter {
    /// The state of a freshly deployed splitter: nothing stored.
    pub fn new() -> (s: Self)
        ensures
            s@ == (SplitterView {
                initialized: false,
                admin: None,
                token: None,
                recipients: Seq::empty(),
                total_shares: 0,
                default_admin: None,
                default_token: None,
            }),
            shares_consistent(s@),
    {
        let s = RewardSplitter {
            initialized: false,
            admin: None,
            token: None,
            recipients: Vec::new(),
            total_shares: 0,
            default_admin: None,
            default_token: None,
        };
        assert(s@.recipients =~= Seq::empty());
        s
    }

    /// Initializes the contract: `admin` and `token` become both the current
    /// and the default parameters, with no recipients.
    pub fn initialize(&mut self, admin: String, token: String) -> (r: Result<(), Error>)
        ensures
            r == (if old(self)@.initialized {
                Err(Error::AlreadyInitialized)
            } else {
                Ok(())
            }),
            r is Err ==> final(self)@ == old(self)@,
            r is Ok ==> final(self)@ == (SplitterView {
                initialized: true,
                admin: Some(admin),
                token: Some(token),
                recipients: Seq::empty(),
                total_shares: 0,
                default_admin: Some(admin),
                default_token: Some(token),
            }),
            r is Ok ==> shares_consistent(final(self)@),
    {
        if self.initialized {
            return Err(Error::AlreadyInitialized);
        }
        self.default_admin = Some(admin.clone());
        self.default_token = Some(token.clone());
        self.admin = Some(admin);
        self.token = Some(token);
        self.recipients = Vec::new();
        self.total_shares = 0;
        self.initialized = true;
        Ok(())
    }

    /// Checks that `admin` is the stored admin.
    fn require_admin(&self, admin: &String) -> (r: Result<(), Error>)
        requires
            self@.admin is Some,
        ensures
            r == (match admin_check(self@, admin@) {
                Some(e) => Err(e),
                None => Ok(()),
            }),
    {
        match &self.admin {
            Some(a) => if *a != *admin {
                Err(Error::Unauthorized)
            } else {
                Ok(())
            },
            None => Err(Error::Unauthorized),
        }
    }

    /// Adds a recipient with a fixed share, keeping the total at most 100%.
    pub fn add_recipient(&mut self, admin: &String, recipient: String, share: u32) -> (r: Result<
        (),
        Error,
    >)
        requires
            old(self)@.admin is Some,
            admin_check(old(self)@, admin@) is None && 1 <= share <= TOTAL_BPS ==> old(
                self,
            )@.total_shares + share <= u32::MAX,
        ensures
            r == (match admin_check(old(self)@, admin@) {
                Some(e) => Err(e),
                None => if share == 0 || share > TOTAL_BPS {
                    Err(Error::InvalidShare)
                } else if old(self)@.total_shares + share > TOTAL_BPS {
                    Err(Error::TotalSharesExceeded)
                } else {
                    Ok(())
                },
            }),
            r is Err ==> final(self)@ == old(self)@,
            r is Ok ==> final(self)@ == (SplitterView {
                recipients: old(self)@.recipients.push(Recipient { address: recipient, share }),
                total_shares: (old(self)@.total_shares + share) as u32,
                ..old(self)@
            }),
            shares_consistent(old(self)@) ==> shares_consistent(final(self)@),
            keeps_defaults(old(self)@, final(self)@),
    {
        self.require_admin(admin)?;
        if share == 0 || share > TOTAL_BPS {
            return Err(Error::InvalidShare);
        }
        if self.total_shares + share > TOTAL_BPS {
            return Err(Error::TotalSharesExceeded);
        }
        let ghost before = self.recipients@;
        let entry = Recipient { address: recipient, share };
        proof {
            lemma_share_sum_push(before, entry);
        }
        self.recipients.push(entry);
        self.total_shares = self.total_shares + share;
        Ok(())
    }

    /// Removes every entry of `recipient` and its shares; nothing changes
    /// when it is not a recipient.
    pub fn remove_recipient(&mut self, admin: &String, recipient: &String) -> (r: Result<(), Error>)
        requires
            old(self)@.admin is Some,
            admin_check(old(self)@, admin@) is None ==> matching_sum(old(self)@.recipients, recipient@)
                <= old(self)@.total_shares,
        ensures
            r == (match admin_check(old(self)@, admin@) {
                Some(e) => Err(e),
                None => Ok(()),
            }),
            r is Err ==> final(self)@ == old(self)@,
            r is Ok ==> final(self)@ == (SplitterView {
                recipients: old(self)@.recipients.filter(other_than(recipient@)),
                total_shares: (old(self)@.total_shares - matching_sum(
                    old(self)@.recipients,
                    recipient@,
                )) as u32,
                ..old(self)@
            }),
            shares_consistent(old(self)@) ==> shares_consistent(final(self)@),
            keeps_defaults(old(self)@, final(self)@),
    {
        self.require_admin(admin)?;
        let ghost rs = self.recipients@;
        proof {
            lemma_matching_sum_prefix_le(rs, 0, recipient@);
        }
        let mut kept: Vec<Recipient> = Vec::new();
        let mut removed: u32 = 0;
        let mut found = false;
        let mut i: usize = 0;
        while i < self.recipients.len()
            invariant
                self.recipients@ == rs,
                matching_sum(rs, recipient@) <= self.total_shares,
                i <= rs.len(),
                kept@ == rs.take(i as int).filter(other_than(recipient@)),
                removed as int == matching_sum(rs.take(i as int), recipient@),
                matching_sum(rs.take(i as int), recipient@) <= matching_sum(rs, recipient@),
                found == (matching_sum(rs.take(i as int), recipient@) > 0 || exists|j: int|
                    0 <= j < i && rs[j].address@ == recipient@),
            decreases rs.len() - i,
        {
            proof {
                reveal_with_fuel(Seq::<_>::filter, 1);
                assert(rs.take(i + 1).drop_last() =~= rs.take(i as int));
                lemma_matching_sum_prefix(rs, i as int, recipient@);
                lemma_matching_sum_prefix_le(rs, i + 1, recipient@);
            }
            let r = &self.recipients[i];
            if r.address == *recipient {
                removed = removed + r.share;
                found = true;
            } else {
                kept.push(r.clone());
            }
            i = i + 1;
        }
        assert(rs.take(rs.len() as int) =~= rs);
        if !found {
            proof {
                lemma_filter_none(rs, recipient@);
            }
            return Ok(());
        }
        proof {
            lemma_share_sum_filter(rs, recipient@);
            lemma_matching_sum_le_share_sum(rs, recipient@);
        }
        self.recipients = kept;
        self.total_shares = self.total_shares - removed;
        Ok(())
    }

    /// Sets the share of `recipient` to `new_share`, keeping the total at
    /// most 100%; the total is adjusted by the first entry's old share.
    /// Nothing changes when it is not a recipient.
    pub fn update_recipient_share(&mut self, admin: &String, recipient: String, new_share: u32) -> (r:
        Result<(), Error>)
        requires
            old(self)@.admin is Some,
            admin_check(old(self)@, admin@) is None && 1 <= new_share <= TOTAL_BPS ==> (first_share(
                old(self)@.recipients,
                recipient@,
            ) matches Some(s) ==> s <= old(self)@.total_shares && old(self)@.total_shares - s
                + new_share <= u32::MAX),
        ensures
            r == (match admin_check(old(self)@, admin@) {
                Some(e) => Err(e),
                None => if new_share == 0 || new_share > TOTAL_BPS {
                    Err(Error::InvalidShare)
                } else {
                    match first_share(old(self)@.recipients, recipient@) {
                        None => Ok(()),
                        Some(s) => if old(self)@.total_shares - s + new_share > TOTAL_BPS {
                            Err(Error::TotalSharesExceeded)
                        } else {
                            Ok(())
                        },
                    }
                },
            }),
            r is Err ==> final(self)@ == old(self)@,
            r is Ok ==> final(self)@ == match first_share(old(self)@.recipients, recipient@) {
                None => old(self)@,
                Some(s) => SplitterView {
                    recipients: with_share(old(self)@.recipients, recipient, new_share),
                    total_shares: (old(self)@.total_shares - s + new_share) as u32,
                    ..old(self)@
                },
            },
            shares_consistent(old(self)@) && distinct_addresses(old(self)@.recipients)
                ==> shares_consistent(final(self)@),
            keeps_defaults(old(self)@, final(self)@),
    {
        self.require_admin(admin)?;
        if new_share == 0 || new_share > TOTAL_BPS {
            return Err(Error::InvalidShare);
        }
        let ghost rs = self.recipients@;
        let idx: usize = match self.find_recipient(&recipient) {
            Some(i) => {
                proof {
                    lemma_first_share_at(rs, i as int, recipient@);
                }
                i
            },
            None => {
                proof {
                    lemma_first_share_none(rs, recipient@);
                }
                return Ok(());
            },
        };
        let old_share: u32 = self.recipients[idx].share;
        let new_total = self.total_shares - old_share + new_share;
        if new_total > TOTAL_BPS {
            return Err(Error::TotalSharesExceeded);
        }
        let mut updated: Vec<Recipient> = Vec::new();
        let mut k: usize = 0;
        while k < self.recipients.len()
            invariant
                self.recipients@ == rs,
                k <= rs.len(),
                updated@ =~= with_share(rs, recipient, new_share).take(k as int),
            decreases rs.len() - k,
        {
            if self.recipients[k].address == recipient {
                updated.push(Recipient { address: recipient.clone(), share: new_share });
            } else {
                updated.push(self.recipients[k].clone());
            }
            k = k + 1;
        }
        proof {
            if distinct_addresses(rs) {
                lemma_share_sum_with_share(rs, recipient, new_share, idx as int);
            }
            assert(with_share(rs, recipient, new_share).take(rs.len() as int) =~= with_share(
                rs,
                recipient,
                new_share,
            ));
        }
        self.recipients = updated;
        self.total_shares = new_total;
        Ok(())
    }

    /// Position of the first entry of `recipient`.
    fn find_recipient(&self, recipient: &String) -> (r: Option<usize>)
        ensures
            match r {
                Some(i) => i < self@.recipients.len() && self@.recipients[i as int].address@
                    == recipient@ && forall|j: int|
                    0 <= j < i ==> self@.recipients[j].address@ != recipient@,
                None => forall|j: int|
                    0 <= j < self@.recipients.len() ==> self@.recipients[j].address@ != recipient@,
            },
    {
        let mut i: usize = 0;
        while i < self.recipients.len()
            invariant
                i <= self@.recipients.len(),
                forall|j: int| 0 <= j < i ==> self@.recipients[j].address@ != recipient@,
            decreases self@.recipients.len() - i,
        {
            if self.recipients[i].address == *recipient {
                return Some(i);
            }
            i = i + 1;
        }
        None
    }

    /// The transfers that distribute `amount` of the token held by the
    /// contract (whose balance is `balance`): each recipient receives
    /// `amount * share / total_shares`, rounded down, when that is positive.
    pub fn distribute(&self, contract_address: &String, amount: i128, balance: i128) -> (r: Result<
        Distribution,
        Error,
    >)
        requires
            amount > 0 && self@.token is Some && self@.recipients.len() > 0 && self@.total_shares > 0
                && balance >= amount ==> forall|i: int|
                0 <= i < self@.recipients.len() ==> amount * #[trigger] self@.recipients[i].share
                    <= i128::MAX,
        ensures
            match r {
                Err(e) => e == (if amount <= 0 {
                    Error::ZeroAmount
                } else if self@.token is None {
                    Error::TokenNotSet
                } else if self@.recipients.len() == 0 || self@.total_shares == 0 {
                    Error::NoRecipients
                } else {
                    Error::InsufficientBalance
                }),
                Ok(d) => amount > 0 && self@.token is Some && self@.recipients.len() > 0
                    && self@.total_shares > 0 && balance >= amount && d.token
                    == self@.token.unwrap() && d.from == *contract_address && payout_view(
                    d.payouts@,
                ) == payouts(self@.recipients, amount as int, self@.total_shares as int),
            },
            r is Err <==> (amount <= 0 || self@.token is None || self@.recipients.len() == 0
                || self@.total_shares == 0 || balance < amount),
            share_sum(self@.recipients) <= self@.total_shares ==> (r matches Ok(d) ==> payout_sum(
                payout_view(d.payouts@),
            ) <= amount),
    {
        if amount <= 0 {
            return Err(Error::ZeroAmount);
        }
        let token = match &self.token {
            Some(t) => t.clone(),
            None => {
                return Err(Error::TokenNotSet);
            },
        };
        if self.recipients.len() == 0 {
            return Err(Error::NoRecipients);
        }
        if self.total_shares == 0 {
            return Err(Error::NoRecipients);
        }
        if balance < amount {
            return Err(Error::InsufficientBalance);
        }
        let total: i128 = self.total_shares as i128;
        let ghost rs = self.recipients@;
        assert forall|j: int| 0 <= j < rs.len() implies amount * #[trigger] rs[j].share <= i128::MAX by {
            assert(self@.recipients[j].share == rs[j].share);
        }
        let mut out: Vec<Payout> = Vec::new();
        let mut i: usize = 0;
        while i < self.recipients.len()
            invariant
                self.recipients@ == rs,
                rs == self@.recipients,
                i <= rs.len(),
                amount > 0,
                total == self@.total_shares,
                total > 0,
                forall|j: int| 0 <= j < rs.len() ==> amount * #[trigger] rs[j].share <= i128::MAX,
                payout_view(out@) =~= payouts(rs.take(i as int), amount as int, total as int),
            decreases rs.len() - i,
        {
            let r = &self.recipients[i];
            proof {
                assert(rs.take(i + 1).drop_last() =~= rs.take(i as int));
                assert(rs.take(i + 1).last() == rs[i as int]);
                assert(amount * r.share <= i128::MAX);
                assert(amount * r.share >= 0) by (nonlinear_arith)
                    requires
                        amount > 0,
                ;
            }
            let share_amount: i128 = (amount * (r.share as i128)) / total;
            if share_amount > 0 {
                out.push(Payout { recipient: r.address.clone(), amount: share_amount });
            }
            i = i + 1;
        }
        assert(rs.take(rs.len() as int) =~= rs);
        proof {
            if share_sum(rs) <= total {
                lemma_distribution_within_amount(rs, amount as int, total as int);
            }
        }
        Ok(Distribution { token, from: contract_address.clone(), payouts: out })
    }

    /// The recipients.
    pub fn get_recipients(&self) -> (r: Vec<Recipient>)
        ensures
            r@ == self@.recipients,
    {
        let r = self.recipients.clone();
        assert(r@ =~= self.recipients@);
        r
    }

    /// The recorded total of the shares.
    pub fn get_total_shares(&self) -> (r: u32)
        ensures
            r == self@.total_shares,
    {
        self.total_shares
    }

    /// The admin.
    pub fn get_admin(&self) -> (r: String)
        requires
            self@.admin is Some,
        ensures
            r == self@.admin.unwrap(),
    {
        match &self.admin {
            Some(a) => a.clone(),
            None => String::new(),
        }
    }

    /// The token to distribute.
    pub fn get_token(&self) -> (r: String)
        requires
            self@.token is Some,
        ensures
            r == self@.token.unwrap(),
    {
        match &self.token {
            Some(t) => t.clone(),
            None => String::new(),
        }
    }

    /// Hands the admin role to `new_admin`.
    pub fn transfer_admin(&mut self, current_admin: &String, new_admin: String) -> (r: Result<
        (),
        Error,
    >)
        requires
            old(self)@.admin is Some,
        ensures
            r == (match admin_check(old(self)@, current_admin@) {
                Some(e) => Err(e),
                None => Ok(()),
            }),
            r is Err ==> final(self)@ == old(self)@,
            r is Ok ==> final(self)@ == (SplitterView { admin: Some(new_admin), ..old(self)@ }),
            keeps_defaults(old(self)@, final(self)@),
    {
        self.require_admin(current_admin)?;
        self.admin = Some(new_admin);
        Ok(())
    }

    /// Changes the token to distribute.
    pub fn update_token(&mut self, admin: &String, new_token: String) -> (r: Result<(), Error>)
        requires
            old(self)@.admin is Some,
        ensures
            r == (match admin_check(old(self)@, admin@) {
                Some(e) => Err(e),
                None => Ok(()),
            }),
            r is Err ==> final(self)@ == old(self)@,
            r is Ok ==> final(self)@ == (SplitterView { token: Some(new_token), ..old(self)@ }),
            keeps_defaults(old(self)@, final(self)@),
    {
        self.require_admin(admin)?;
        self.token = Some(new_token);
        Ok(())
    }

    /// Restores the default admin and token and clears the recipients.
    pub fn reset_parameters(&mut self, admin: &String) -> (r: Result<(), Error>)
        requires
            old(self)@.admin is Some,
            old(self)@.default_admin is Some,
            old(self)@.default_token is Some,
        ensures
            r == (match admin_check(old(self)@, admin@) {
                Some(e) => Err(e),
                None => Ok(()),
            }),
            r is Err ==> final(self)@ == old(self)@,
            r is Ok ==> final(self)@ == (SplitterView {
                admin: old(self)@.default_admin,
                token: old(self)@.default_token,
                recipients: Seq::empty(),
                total_shares: 0,
                ..old(self)@
            }),
            shares_consistent(old(self)@) ==> shares_consistent(final(self)@),
            keeps_defaults(old(self)@, final(self)@),
    {
        self.require_admin(admin)?;
        self.admin = crate::price_oracle::types::clone_opt_string(&self.default_admin);
        self.token = crate::price_oracle::types::clone_opt_string(&self.default_token);
        self.recipients = Vec::new();
        self.total_shares = 0;
        Ok(())
    }

    /// The default admin.
    pub fn get_default_admin(&self) -> (r: String)
        requires
            self@.default_admin is Some,
        ensures
            r == self@.default_admin.unwrap(),
    {
        match &self.default_admin {
            Some(a) => a.clone(),
            None => String::new(),
        }
    }

    /// The default token.
    pub fn get_default_token(&self) -> (r: String)
        requires
            self@.default_token is Some,
        ensures
            r == self@.default_token.unwrap(),
    {
        match &self.default_token {
            Some(t) => t.clone(),
            None => String::new(),
        }
    }
}

proof fn lemma_matching_sum_prefix(rs: Seq<Recipient>, i: int, address: Seq<char>)
    requires
        0 <= i < rs.len(),
    ensures
        matching_sum(rs.take(i + 1), address) == matching_sum(rs.take(i), address) + if rs[i].address@
            == address {
            rs[i].share as int
        } else {
            0
        },
        matching_sum(rs.take(i), address) >= 0,
{
    assert(rs.take(i + 1).drop_last() =~= rs.take(i));
    lemma_matching_sum_nonneg(rs.take(i), address);
}

proof fn lemma_matching_sum_prefix_le(rs: Seq<Recipient>, i: int, address: Seq<char>)
    requires
        0 <= i <= rs.len(),
    ensures
        matching_sum(rs.take(i), address) <= matching_sum(rs, address),
    decreases rs.len() - i,
{
    if i < rs.len() {
        lemma_matching_sum_prefix(rs, i, address);
        lemma_matching_sum_prefix_le(rs, i + 1, address);
    } else {
        assert(rs.take(i) =~= rs);
    }
}

proof fn lemma_first_share_at(rs: Seq<Recipient>, i: int, address: Seq<char>)
    requires
        0 <= i < rs.len(),
        rs[i].address@ == address,
        forall|j: int| 0 <= j < i ==> rs[j].address@ != address,
    ensures
        first_share(rs, address) == Some(rs[i].share),
    decreases i,
{
    if i > 0 {
        let t = rs.drop_first();
        assert forall|j: int| 0 <= j < i - 1 implies t[j].address@ != address by {
            assert(t[j] == rs[j + 1]);
        }
        lemma_first_share_at(t, i - 1, address);
    }
}

proof fn lemma_first_share_none(rs: Seq<Recipient>, address: Seq<char>)
    requires
        forall|j: int| 0 <= j < rs.len() ==> rs[j].address@ != address,
    ensures
        first_share(rs, address) is None,
    decreases rs.len(),
{
    if rs.len() > 0 {
        let t = rs.drop_first();
        assert forall|j: int| 0 <= j < t.len() implies t[j].address@ != address by {
            assert(t[j] == rs[j + 1]);
        }
        lemma_first_share_none(t, address);
    }
}

proof fn lemma_matching_sum_nonneg(rs: Seq<Recipient>, address: Seq<char>)
    ensures
        matching_sum(rs, address) >= 0,
    decreases rs.len(),
{
    if rs.len() > 0 {
        lemma_matching_sum_nonneg(rs.drop_last(), address);
    }
}

proof fn lemma_filter_none(rs: Seq<Recipient>, address: Seq<char>)
    requires
        forall|j: int| 0 <= j < rs.len() ==> rs[j].address@ != address,
    ensures
        rs.filter(other_than(address)) == rs,
        matching_sum(rs, address) == 0,
    decreases rs.len(),
{
    reveal_with_fuel(Seq::<_>::filter, 1);
    if rs.len() > 0 {
        lemma_filter_none(rs.drop_last(), address);
        assert(rs.drop_last().push(rs.last()) =~= rs);
    }
}

} // verus!
