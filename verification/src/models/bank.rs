//! Bank accounts, their transactions, and the PIN that guards a profile.
use vstd::prelude::*;
use sha2::Digest;
use crate::ids::{new_uuid_text, now_millis, uuid_text};
use crate::models::money::{money_text, Money, MoneyAmount};
use crate::text::{push_char, same_text};

verus! {

/// What `sha2::Sha256::digest` gives for the UTF-8 bytes of a text.
pub uninterp spec fn sha256_of_text(text: Seq<char>) -> Seq<u8>;

/// `sha2::Sha256::digest` over the UTF-8 bytes of `text`. Claimed: the digest
/// depends on the text alone (named `sha256_of_text`) and has 32 bytes, the
/// output size of SHA-256.
#[verifier::external_body]
fn sha256_text(text: &str) -> (r: Vec<u8>)
    ensures
        r@ == sha256_of_text(text@),
        r@.len() == 32,
{
    sha2::Sha256::digest(text.as_bytes()).to_vec()
}

/// The lowercase hexadecimal digit of a value below 16.
pub open spec fn hex_digit(n: int) -> char {
    if n < 10 {
        (48 + n) as char
    } else {
        (87 + n) as char
    }
}

/// Bytes written as lowercase hexadecimal, two digits per byte.
pub open spec fn hex_text(bytes: Seq<u8>) -> Seq<char>
    decreases bytes.len(),
{
    if bytes.len() == 0 {
        Seq::<char>::empty()
    } else {
        hex_text(bytes.drop_last()) + seq![
            hex_digit(bytes.last() as int / 16),
            hex_digit(bytes.last() as int % 16),
        ]
    }
}

fn hex_digit_char(n: u8) -> (c: char)
    requires
        n < 16,
    ensures
        c == hex_digit(n as int),
{
    if n < 10 {
        (48u8 + n) as char
    } else {
        (87u8 + n) as char
    }
}

/// Bytes as lowercase hexadecimal text.
pub fn hex_encode(bytes: &Vec<u8>) -> (r: String)
    ensures
        r@ == hex_text(bytes@),
{
    let mut text = String::new();
    let mut i: usize = 0;
    while i < bytes.len()
        invariant
            i <= bytes@.len(),
            text@ == hex_text(bytes@.take(i as int)),
        decreases bytes@.len() - i,
    {
        let b = bytes[i];
        let hi = hex_digit_char(b / 16);
        let lo = hex_digit_char(b % 16);
        push_char(&mut text, hi);
        push_char(&mut text, lo);
        proof {
            let next = bytes@.take(i + 1);
            assert(next.drop_last() =~= bytes@.take(i as int));
            assert(next.last() == b);
        }
        i = i + 1;
    }
    proof {
        assert(bytes@.take(i as int) =~= bytes@);
    }
    text
}

/// The stored hash of a PIN under a salt: the hexadecimal SHA-256 of
/// `"{salt}:{pin}"`.
pub open spec fn pin_hash(salt: Seq<char>, pin: Seq<char>) -> Seq<char> {
    hex_text(sha256_of_text(salt + seq![':'] + pin))
}

fn hash_pin(salt: &str, pin: &str) -> (r: String)
    ensures
        r@ == pin_hash(salt@, pin@),
{
    let mut text = String::from_str(salt);
    push_char(&mut text, ':');
    text.append(pin);
    proof {
        assert(text@ =~= salt@ + seq![':'] + pin@);
    }
    let digest = sha256_text(text.as_str());
    hex_encode(&digest)
}

/// A salted PIN hash. Only a hash of the PIN is kept.
#[derive(Debug)]
pub struct BankPin {
    salt: String,
    hash: String,
}

/// What is stored of a PIN: the salt and the hash.
pub struct PinModel {
    pub salt: Seq<char>,
    pub hash: Seq<char>,
}

impl BankPin {
    pub closed spec fn model(&self) -> PinModel {
        PinModel { salt: self.salt@, hash: self.hash@ }
    }

    fn new(pin: &str) -> (r: Self)
        ensures
            r.model().hash == pin_hash(r.model().salt, pin@),
            uuid_text(r.model().salt),
    {
        let salt = new_uuid_text();
        let hash = hash_pin(salt.as_str(), pin);
        BankPin { salt, hash }
    }

    fn verify(&self, pin: &str) -> (r: bool)
        ensures
            r == (self.model().hash == pin_hash(self.model().salt, pin@)),
    {
        let expected = hash_pin(self.salt.as_str(), pin);
        same_text(self.hash.as_str(), expected.as_str())
    }

    fn duplicate(&self) -> (r: Self)
        ensures
            r.model() == self.model(),
    {
        BankPin { salt: self.salt.clone(), hash: self.hash.clone() }
    }
}

/// A player's bank account.
#[derive(Debug)]
pub struct BankAccount {
    /// A random UUID, as text.
    pub id: String,
    pub uid: String,
    pub balance: Money,
}

pub struct BankAccountModel {
    pub id: Seq<char>,
    pub uid: Seq<char>,
    pub balance: int,
}

impl View for BankAccount {
    type V = BankAccountModel;

    open spec fn view(&self) -> BankAccountModel {
        BankAccountModel { id: self.id@, uid: self.uid@, balance: self.balance@ }
    }
}

impl Clone for BankAccount {
    fn clone(&self) -> (r: Self)
        ensures
            r@ == self@,
    {
        BankAccount { id: self.id.clone(), uid: self.uid.clone(), balance: self.balance }
    }
}

impl BankAccount {
    /// An empty account with a fresh id.
    pub fn new(uid: &str) -> (r: Self)
        ensures
            r@.uid == uid@,
            r@.balance == 0,
            uuid_text(r@.id),
    {
        BankAccount { id: new_uuid_text(), uid: String::from_str(uid), balance: Money::zero() }
    }

    /// Adds `amount` to the balance.
    pub fn deposit(&mut self, amount: Money)
        requires
            i64::MIN <= old(self)@.balance + amount@ <= i64::MAX,
        ensures
            final(self)@.balance == old(self)@.balance + amount@,
            final(self)@.id == old(self)@.id,
            final(self)@.uid == old(self)@.uid,
    {
        self.balance = self.balance + amount;
    }

    /// Takes `amount` from the balance when it is positive and covered;
    /// otherwise leaves the account as it was. Tells which happened.
    pub fn withdraw(&mut self, amount: Money) -> (r: bool)
        ensures
            r == (amount@ > 0 && amount@ <= old(self)@.balance),
            r ==> final(self)@.balance == old(self)@.balance - amount@,
            !r ==> final(self)@.balance == old(self)@.balance,
            final(self)@.id == old(self)@.id,
            final(self)@.uid == old(self)@.uid,
    {
        if !amount.is_positive() || self.balance.cents() < amount.cents() {
            return false;
        }
        self.balance = self.balance - amount;
        true
    }
}

/// A movement of money on a player's account.
#[derive(Debug)]
pub struct BankTransaction {
    /// A random UUID, as text.
    pub id: String,
    pub uid: String,
    pub amount: Money,
    pub description: String,
    /// When it was recorded, in milliseconds since the Unix epoch.
    pub created_at: i64,
}

pub struct BankTransactionModel {
    pub id: Seq<char>,
    pub uid: Seq<char>,
    pub amount: int,
    pub description: Seq<char>,
    pub created_at: int,
}

impl View for BankTransaction {
    type V = BankTransactionModel;

    open spec fn view(&self) -> BankTransactionModel {
        BankTransactionModel {
            id: self.id@,
            uid: self.uid@,
            amount: self.amount@,
            description: self.description@,
            created_at: self.created_at as int,
        }
    }
}

impl Clone for BankTransaction {
    fn clone(&self) -> (r: Self)
        ensures
            r@ == self@,
    {
        BankTransaction {
            id: self.id.clone(),
            uid: self.uid.clone(),
            amount: self.amount,
            description: self.description.clone(),
            created_at: self.created_at,
        }
    }
}

impl BankTransaction {
    /// A transaction recorded now, with a fresh id.
    pub fn new(uid: &str, amount: Money, description: &str) -> (r: Self)
        ensures
            r@.uid == uid@,
            r@.amount == amount@,
            r@.description == description@,
            uuid_text(r@.id),
    {
        BankTransaction {
            id: new_uuid_text(),
            uid: String::from_str(uid),
            amount,
            description: String::from_str(description),
            created_at: now_millis(),
        }
    }
}

/// How many transactions a profile keeps, newest first.
pub const TRANSACTION_HISTORY: usize = 10;

/// A player's money: cash in hand, the bank account, earnings not yet
/// paid out, the latest transactions and, once set, a PIN.
#[derive(Debug)]
pub struct PlayerBankProfile {
    pub uid: String,
    pub cash: Money,
    pub account: BankAccount,
    pub pending_earnings: Money,
    /// The latest transactions, newest first.
    pub transactions: Vec<BankTransaction>,
    /// The PIN, once one is set.
    pub pin: Option<BankPin>,
}

pub struct PlayerBankProfileModel {
    pub uid: Seq<char>,
    pub cash: int,
    pub account: BankAccountModel,
    pub pending_earnings: int,
    pub transactions: Seq<BankTransactionModel>,
    pub pin: Option<PinModel>,
}

pub open spec fn transaction_models(ts: Seq<BankTransaction>) -> Seq<BankTransactionModel> {
    ts.map_values(|t: BankTransaction| t@)
}

impl PlayerBankProfile {
    /// The salt and hash of the PIN, if one is set.
    pub open spec fn pin_model(&self) -> Option<PinModel> {
        match self.pin {
            Some(p) => Some(p.model()),
            None => None,
        }
    }

}

impl View for PlayerBankProfile {
    type V = PlayerBankProfileModel;

    open spec fn view(&self) -> PlayerBankProfileModel {
        PlayerBankProfileModel {
            uid: self.uid@,
            cash: self.cash@,
            account: self.account@,
            pending_earnings: self.pending_earnings@,
            transactions: transaction_models(self.transactions@),
            pin: self.pin_model(),
        }
    }
}

/// Whether a stored PIN accepts `candidate`: its hash is the hash of the
/// candidate under its salt. No PIN accepts nothing.
pub open spec fn pin_accepts(pin: Option<PinModel>, candidate: Seq<char>) -> bool {
    match pin {
        Some(p) => p.hash == pin_hash(p.salt, candidate),
        None => false,
    }
}

/// The history after recording `t`: `t` first, then the earlier ones, cut
/// to the ten newest.
pub open spec fn recorded(
    history: Seq<BankTransactionModel>,
    t: BankTransactionModel,
) -> Seq<BankTransactionModel> {
    let all = seq![t] + history;
    if all.len() > TRANSACTION_HISTORY {
        all.take(TRANSACTION_HISTORY as int)
    } else {
        all
    }
}

fn copy_transactions(ts: &Vec<BankTransaction>) -> (r: Vec<BankTransaction>)
    ensures
        transaction_models(r@) == transaction_models(ts@),
{
    let mut r: Vec<BankTransaction> = Vec::new();
    let mut i: usize = 0;
    while i < ts.len()
        invariant
            i <= ts@.len(),
            r@.len() == i,
            transaction_models(r@) == transaction_models(ts@.take(i as int)),
        decreases ts@.len() - i,
    {
        let c = ts[i].clone();
        let ghost prev = r@;
        r.push(c);
        proof {
            assert forall|k: int| 0 <= k < i + 1 implies #[trigger] transaction_models(r@)[k]
                == transaction_models(ts@.take(i + 1))[k] by {
                if k < i {
                    assert(transaction_models(prev)[k] == transaction_models(
                        ts@.take(i as int),
                    )[k]);
                }
            }
            assert(transaction_models(r@) =~= transaction_models(ts@.take(i + 1)));
        }
        i = i + 1;
    }
    proof {
        assert(ts@.take(i as int) =~= ts@);
    }
    r
}

impl Clone for PlayerBankProfile {
    fn clone(&self) -> (r: Self)
        ensures
            r@ == self@,
    {
        let pin = match &self.pin {
            Some(p) => Some(p.duplicate()),
            None => None,
        };
        PlayerBankProfile {
            uid: self.uid.clone(),
            cash: self.cash,
            account: self.account.clone(),
            pending_earnings: self.pending_earnings,
            transactions: copy_transactions(&self.transactions),
            pin,
        }
    }
}

impl PlayerBankProfile {
    /// A profile with no money, no transactions and no PIN.
    pub fn new(uid: &str) -> (r: Self)
        ensures
            r@.uid == uid@,
            r@.cash == 0,
            r@.account.uid == uid@,
            r@.account.balance == 0,
            uuid_text(r@.account.id),
            r@.pending_earnings == 0,
            r@.transactions == Seq::<BankTransactionModel>::empty(),
            r@.pin is None,
    {
        let r = PlayerBankProfile {
            uid: String::from_str(uid),
            cash: Money::zero(),
            account: BankAccount::new(uid),
            pending_earnings: Money::zero(),
            transactions: Vec::new(),
            pin: None,
        };
        proof {
            assert(r@.transactions =~= Seq::<BankTransactionModel>::empty());
        }
        r
    }

    /// A new profile holding `cash` in hand and `bank_balance` in the account.
    pub fn with_starting_balances(uid: &str, cash: Money, bank_balance: Money) -> (r: Self)
        ensures
            r@.uid == uid@,
            r@.cash == cash@,
            r@.account.uid == uid@,
            r@.account.balance == bank_balance@,
            uuid_text(r@.account.id),
            r@.pending_earnings == 0,
            r@.transactions == Seq::<BankTransactionModel>::empty(),
            r@.pin is None,
    {
        let mut profile = Self::new(uid);
        profile.cash = cash;
        proof {
            bank_balance.lemma_range();
        }
        profile.account.deposit(bank_balance);
        profile
    }

    /// Records a transaction of `amount` as the newest, keeping the ten
    /// newest.
    pub fn record_transaction(&mut self, amount: Money, description: &str)
        ensures
            final(self)@.transactions == recorded(
                old(self)@.transactions,
                final(self)@.transactions[0],
            ),
            final(self)@.transactions[0].uid == old(self)@.uid,
            final(self)@.transactions[0].amount == amount@,
            final(self)@.transactions[0].description == description@,
            final(self)@.uid == old(self)@.uid,
            final(self)@.cash == old(self)@.cash,
            final(self)@.account == old(self)@.account,
            final(self)@.pending_earnings == old(self)@.pending_earnings,
            final(self)@.pin == old(self)@.pin,
    {
        let t = BankTransaction::new(self.uid.as_str(), amount, description);
        let ghost tm = t@;
        let ghost before = transaction_models(self.transactions@);
        self.transactions.insert(0, t);
        proof {
            assert(transaction_models(self.transactions@) =~= seq![tm] + before);
        }
        self.transactions.truncate(TRANSACTION_HISTORY);
        proof {
            let all = seq![tm] + before;
            if all.len() > TRANSACTION_HISTORY {
                assert(transaction_models(self.transactions@) =~= all.take(10));
            } else {
                assert(transaction_models(self.transactions@) =~= all);
            }
        }
    }

    pub fn pin_is_set(&self) -> (r: bool)
        ensures
            r == (self@.pin is Some),
    {
        self.pin.is_some()
    }

    /// Whether `pin` is the PIN that was set; `false` when none was set.
    pub fn verify_pin(&self, pin: &str) -> (r: bool)
        ensures
            r == pin_accepts(self@.pin, pin@),
    {
        match &self.pin {
            Some(stored) => stored.verify(pin),
            None => false,
        }
    }

    /// Sets the PIN, under a fresh salt. Afterwards `verify_pin(pin)` holds.
    pub fn set_pin(&mut self, pin: &str)
        ensures
            pin_accepts(final(self)@.pin, pin@),
            final(self)@.pin matches Some(p) && uuid_text(p.salt),
            final(self)@.uid == old(self)@.uid,
            final(self)@.cash == old(self)@.cash,
            final(self)@.account == old(self)@.account,
            final(self)@.pending_earnings == old(self)@.pending_earnings,
            final(self)@.transactions == old(self)@.transactions,
    {
        self.pin = Some(BankPin::new(pin));
    }
}

/// An account as it is shown: the balance as two-decimal text.
#[derive(Debug)]
pub struct BankAccountView {
    pub id: String,
    pub uid: String,
    pub balance: MoneyAmount,
}

pub struct BankAccountViewModel {
    pub id: Seq<char>,
    pub uid: Seq<char>,
    pub balance: Seq<char>,
}

impl View for BankAccountView {
    type V = BankAccountViewModel;

    open spec fn view(&self) -> BankAccountViewModel {
        BankAccountViewModel { id: self.id@, uid: self.uid@, balance: self.balance@ }
    }
}

pub open spec fn account_shown(a: BankAccountModel) -> BankAccountViewModel {
    BankAccountViewModel { id: a.id, uid: a.uid, balance: money_text(a.balance) }
}

impl BankAccountView {
    pub fn from_account(account: &BankAccount) -> (r: Self)
        ensures
            r@ == account_shown(account@),
    {
        BankAccountView {
            id: account.id.clone(),
            uid: account.uid.clone(),
            balance: account.balance.to_amount(),
        }
    }
}

/// A transaction as it is shown: the amount as two-decimal text.
#[derive(Debug)]
pub struct BankTransactionView {
    pub id: String,
    pub uid: String,
    pub amount: MoneyAmount,
    pub description: String,
    /// When it was recorded, in milliseconds since the Unix epoch.
    pub created_at: i64,
}

pub struct BankTransactionViewModel {
    pub id: Seq<char>,
    pub uid: Seq<char>,
    pub amount: Seq<char>,
    pub description: Seq<char>,
    pub created_at: int,
}

impl View for BankTransactionView {
    type V = BankTransactionViewModel;

    open spec fn view(&self) -> BankTransactionViewModel {
        BankTransactionViewModel {
            id: self.id@,
            uid: self.uid@,
            amount: self.amount@,
            description: self.description@,
            created_at: self.created_at as int,
        }
    }
}

pub open spec fn transaction_shown(t: BankTransactionModel) -> BankTransactionViewModel {
    BankTransactionViewModel {
        id: t.id,
        uid: t.uid,
        amount: money_text(t.amount),
        description: t.description,
        created_at: t.created_at,
    }
}

impl BankTransactionView {
    pub fn from_transaction(t: &BankTransaction) -> (r: Self)
        ensures
            r@ == transaction_shown(t@),
    {
        BankTransactionView {
            id: t.id.clone(),
            uid: t.uid.clone(),
            amount: t.amount.to_amount(),
            description: t.description.clone(),
            created_at: t.created_at,
        }
    }
}

/// A profile as it is shown: amounts as two-decimal text, and of the PIN
/// only whether one is set.
#[derive(Debug)]
pub struct PlayerBankProfileView {
    pub uid: String,
    pub cash: MoneyAmount,
    pub account: BankAccountView,
    pub pending_earnings: MoneyAmount,
    pub pin_set: bool,
    pub transactions: Vec<BankTransactionView>,
}

pub struct PlayerBankProfileViewModel {
    pub uid: Seq<char>,
    pub cash: Seq<char>,
    pub account: BankAccountViewModel,
    pub pending_earnings: Seq<char>,
    pub pin_set: bool,
    pub transactions: Seq<BankTransactionViewModel>,
}

impl View for PlayerBankProfileView {
    type V = PlayerBankProfileViewModel;

    open spec fn view(&self) -> PlayerBankProfileViewModel {
        PlayerBankProfileViewModel {
            uid: self.uid@,
            cash: self.cash@,
            account: self.account@,
            pending_earnings: self.pending_earnings@,
            pin_set: self.pin_set,
            transactions: self.transactions@.map_values(|t: BankTransactionView| t@),
        }
    }
}

pub open spec fn profile_shown(p: PlayerBankProfileModel) -> PlayerBankProfileViewModel {
    PlayerBankProfileViewModel {
        uid: p.uid,
        cash: money_text(p.cash),
        account: account_shown(p.account),
        pending_earnings: money_text(p.pending_earnings),
        pin_set: p.pin is Some,
        transactions: p.transactions.map_values(|t: BankTransactionModel| transaction_shown(t)),
    }
}

impl PlayerBankProfileView {
    pub fn from_profile(profile: &PlayerBankProfile) -> (r: Self)
        ensures
            r@ == profile_shown(profile@),
    {
        let mut shown: Vec<BankTransactionView> = Vec::new();
        let mut i: usize = 0;
        while i < profile.transactions.len()
            invariant
                i <= profile.transactions@.len(),
                shown@.len() == i,
                forall|k: int|
                    0 <= k < i ==> #[trigger] shown@[k]@ == transaction_shown(
                        profile.transactions@[k]@,
                    ),
            decreases profile.transactions@.len() - i,
        {
            shown.push(BankTransactionView::from_transaction(&profile.transactions[i]));
            i = i + 1;
        }
        let r = PlayerBankProfileView {
            uid: profile.uid.clone(),
            cash: profile.cash.to_amount(),
            account: BankAccountView::from_account(&profile.account),
            pending_earnings: profile.pending_earnings.to_amount(),
            pin_set: profile.pin.is_some(),
            transactions: shown,
        };
        proof {
            assert(r@.transactions =~= profile_shown(profile@).transactions);
        }
        r
    }
}

impl<'a> From<&'a PlayerBankProfile> for PlayerBankProfileView {
    fn from(profile: &'a PlayerBankProfile) -> (r: PlayerBankProfileView)
        ensures
            r@ == profile_shown(profile@),
    {
        PlayerBankProfileView::from_profile(profile)
    }
}

impl<'a> vstd::std_specs::convert::FromSpecImpl<&'a PlayerBankProfile> for PlayerBankProfileView {
    open spec fn obeys_from_spec() -> bool {
        false
    }

    /// A view of the profile; the call's own contract says which.
    closed spec fn from_spec(v: &'a PlayerBankProfile) -> PlayerBankProfileView {
        choose|r: PlayerBankProfileView| r@ == profile_shown(v@)
    }
}

impl<'a> From<&'a BankAccount> for BankAccountView {
    fn from(account: &'a BankAccount) -> (r: BankAccountView)
        ensures
            r@ == account_shown(account@),
    {
        BankAccountView::from_account(account)
    }
}

impl<'a> vstd::std_specs::convert::FromSpecImpl<&'a BankAccount> for BankAccountView {
    open spec fn obeys_from_spec() -> bool {
        false
    }

    /// A view of the account; the call's own contract says which.
    closed spec fn from_spec(v: &'a BankAccount) -> BankAccountView {
        choose|r: BankAccountView| r@ == account_shown(v@)
    }
}

impl<'a> From<&'a BankTransaction> for BankTransactionView {
    fn from(t: &'a BankTransaction) -> (r: BankTransactionView)
        ensures
            r@ == transaction_shown(t@),
    {
        BankTransactionView::from_transaction(t)
    }
}

impl<'a> vstd::std_specs::convert::FromSpecImpl<&'a BankTransaction> for BankTransactionView {
    open spec fn obeys_from_spec() -> bool {
        false
    }

    /// A view of the transaction; the call's own contract says which.
    closed spec fn from_spec(v: &'a BankTransaction) -> BankTransactionView {
        choose|r: BankTransactionView| r@ == transaction_shown(v@)
    }
}

} // verus!
