//! Players' bank accounts: opened with starting money, read, and charged.
use vstd::prelude::*;
use crate::models::actor::{Actor, ActorStartingConfig};
use crate::models::bank::{
    profile_shown, recorded, BankAccountModel, BankTransactionModel, PlayerBankProfile,
    PlayerBankProfileModel, PlayerBankProfileView,
};
use crate::ids::uuid_text;
use crate::models::money::{amount_read, starting_money, Money};
use crate::repositories::bank::BankRepository;
use crate::shared::error::BankError;
use crate::text::{blank, is_blank};

verus! {

/// A profile as it is opened: `cash` in hand, `bank` in the account under
/// the id `id`, nothing else.
pub open spec fn opened_profile(
    uid: Seq<char>,
    id: Seq<char>,
    cash: int,
    bank: int,
) -> PlayerBankProfileModel {
    PlayerBankProfileModel {
        uid,
        cash,
        account: BankAccountModel { id, uid, balance: bank },
        pending_earnings: 0,
        transactions: Seq::<BankTransactionModel>::empty(),
        pin: None,
    }
}

/// Why opening an account with these starting amounts, as read from their
/// texts, fails, if it does.
pub open spec fn opening_error(uid: Seq<char>, cash: Option<int>, bank: Option<int>) -> Option<
    BankError,
> {
    if blank(uid) {
        Some(BankError::InvalidActorUid)
    } else if starting_money(cash) is None || starting_money(bank) is None {
        Some(BankError::InvalidAmount)
    } else {
        None
    }
}

/// A starting amount: it must have been read and must not be negative.
fn check_starting_money(amount: Option<Money>) -> (r: Result<Money, BankError>)
    ensures
        match starting_money(amount_read(amount)) {
            Some(c) => r matches Ok(m) && m@ == c,
            None => r == Err::<Money, BankError>(BankError::InvalidAmount),
        },
{
    let money = match amount {
        Some(m) => m,
        None => return Err(BankError::InvalidAmount),
    };
    if money.cents() < 0 {
        return Err(BankError::InvalidAmount);
    }
    Ok(money)
}

/// Opens the bank profile of a new actor with the configured starting cash
/// and bank balance, and shows it.
pub fn create_actor_account(actor: &Actor, starting: &ActorStartingConfig) -> (r: Result<
    PlayerBankProfileView,
    BankError,
>)
    ensures
        match opening_error(actor.uid@, starting@.cash, starting@.bank) {
            Some(e) => r == Err::<PlayerBankProfileView, BankError>(e),
            None => r matches Ok(v) && v@ == profile_shown(
                opened_profile(
                    actor.uid@,
                    v@.account.id,
                    starting_money(starting@.cash)->0,
                    starting_money(starting@.bank)->0,
                ),
            ) && uuid_text(v@.account.id),
        },
{
    let uid = actor.uid.as_str();
    if is_blank(uid) {
        return Err(BankError::InvalidActorUid);
    }
    let cash = check_starting_money(starting.cash)?;
    let bank = check_starting_money(starting.bank)?;
    let profile = PlayerBankProfile::with_starting_balances(uid, cash, bank);
    Ok(PlayerBankProfileView::from_profile(&profile))
}

/// Why charging `amount` to the account of `uid` is refused, if it is.
pub open spec fn withdraw_error(
    profiles: Map<Seq<char>, PlayerBankProfileModel>,
    uid: Seq<char>,
    amount: int,
) -> Option<BankError> {
    if blank(uid) {
        Some(BankError::InvalidActorUid)
    } else if amount <= 0 {
        Some(BankError::InvalidAmount)
    } else if !profiles.contains_key(uid) {
        Some(BankError::AccountNotFound)
    } else if profiles[uid].account.balance < amount {
        Some(BankError::InsufficientFunds)
    } else {
        None
    }
}

/// `after` is `before` charged `amount`: the balance is lower by `amount`,
/// and a withdrawal of `amount` is recorded as the newest transaction.
pub open spec fn charged(
    before: PlayerBankProfileModel,
    after: PlayerBankProfileModel,
    amount: int,
) -> bool {
    &&& after.uid == before.uid
    &&& after.cash == before.cash
    &&& after.pending_earnings == before.pending_earnings
    &&& after.pin == before.pin
    &&& after.account.id == before.account.id
    &&& after.account.uid == before.account.uid
    &&& after.account.balance == before.account.balance - amount
    &&& after.transactions == recorded(before.transactions, after.transactions[0])
    &&& after.transactions[0].uid == before.uid
    &&& after.transactions[0].amount == -amount
    &&& after.transactions[0].description == "withdrawal"@
}

/// Bank accounts over a repository of profiles.
pub struct BankService<R> {
    pub repository: R,
}

impl<R: BankRepository> BankService<R> {
    pub open spec fn profiles(&self) -> Map<Seq<char>, PlayerBankProfileModel> {
        self.repository.profiles()
    }

    pub fn new(repository: R) -> (r: Self)
        ensures
            r.repository == repository,
    {
        BankService { repository }
    }

    /// Opens the player's profile with starting cash and bank balance, unless
    /// one is there: then that one is shown and kept as it is. The amounts
    /// are those the starting texts read as; none stands for a text that is
    /// no amount, which is refused like a negative one.
    pub fn init_player_account(&mut self, uid: &str, cash: Option<Money>, bank: Option<Money>) -> (r: Result<
        PlayerBankProfileView,
        BankError,
    >)
        requires
            old(self).repository.inv(),
        ensures
            final(self).repository.inv(),
            match opening_error(uid@, amount_read(cash), amount_read(bank)) {
                Some(e) => r == Err::<PlayerBankProfileView, BankError>(e) && final(self).profiles()
                    == old(self).profiles(),
                None => if old(self).profiles().contains_key(uid@) {
                    r matches Ok(v) && v@ == profile_shown(old(self).profiles()[uid@])
                        && final(self).profiles() == old(self).profiles()
                } else {
                    r matches Ok(v) && final(self).profiles() == old(self).profiles().insert(
                        uid@,
                        opened_profile(
                            uid@,
                            v@.account.id,
                            starting_money(amount_read(cash))->0,
                            starting_money(amount_read(bank))->0,
                        ),
                    ) && v@ == profile_shown(final(self).profiles()[uid@])
                        && uuid_text(v@.account.id)
                },
            },
    {
        if is_blank(uid) {
            return Err(BankError::InvalidActorUid);
        }
        let cash = check_starting_money(cash)?;
        let bank = check_starting_money(bank)?;
        if let Some(existing) = self.repository.find_by_uid(uid)? {
            return Ok(PlayerBankProfileView::from_profile(&existing));
        }
        let profile = PlayerBankProfile::with_starting_balances(uid, cash, bank);
        let saved = self.repository.save(profile)?;
        Ok(PlayerBankProfileView::from_profile(&saved))
    }

    /// The player's profile, shown, if there is one.
    pub fn get_account(&self, uid: &str) -> (r: Result<Option<PlayerBankProfileView>, BankError>)
        requires
            self.repository.inv(),
        ensures
            blank(uid@) ==> r == Err::<Option<PlayerBankProfileView>, BankError>(
                BankError::InvalidActorUid,
            ),
            !blank(uid@) ==> match r {
                Ok(Some(v)) => self.profiles().contains_key(uid@) && v@ == profile_shown(
                    self.profiles()[uid@],
                ),
                Ok(None) => !self.profiles().contains_key(uid@),
                Err(_) => false,
            },
    {
        if is_blank(uid) {
            return Err(BankError::InvalidActorUid);
        }
        match self.repository.find_by_uid(uid)? {
            Some(profile) => Ok(Some(PlayerBankProfileView::from_profile(&profile))),
            None => Ok(None),
        }
    }

    /// Charges `amount` to the player's account and records the withdrawal.
    /// A refused charge changes nothing.
    pub fn withdraw_from_account(&mut self, uid: &str, amount: Money) -> (r: Result<
        PlayerBankProfileView,
        BankError,
    >)
        requires
            old(self).repository.inv(),
        ensures
            final(self).repository.inv(),
            match withdraw_error(old(self).profiles(), uid@, amount@) {
                Some(e) => r == Err::<PlayerBankProfileView, BankError>(e) && final(self).profiles()
                    == old(self).profiles(),
                None => r matches Ok(v) && final(self).profiles().contains_key(uid@) && charged(
                    old(self).profiles()[uid@],
                    final(self).profiles()[uid@],
                    amount@,
                ) && final(self).profiles() == old(self).profiles().insert(
                    uid@,
                    final(self).profiles()[uid@],
                ) && v@ == profile_shown(final(self).profiles()[uid@]),
            },
    {
        if is_blank(uid) {
            return Err(BankError::InvalidActorUid);
        }
        if !amount.is_positive() {
            return Err(BankError::InvalidAmount);
        }
        let mut profile = match self.repository.find_by_uid(uid)? {
            Some(p) => p,
            None => return Err(BankError::AccountNotFound),
        };
        proof {
            self.repository.lemma_consistent();
        }
        if !profile.account.withdraw(amount) {
            return Err(BankError::InsufficientFunds);
        }
        proof {
            amount.lemma_range();
        }
        profile.record_transaction(Money::from_cents(-amount.cents()), "withdrawal");
        let saved = self.repository.save(profile)?;
        Ok(PlayerBankProfileView::from_profile(&saved))
    }
}

} // verus!
