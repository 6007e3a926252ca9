//! Money as whole cents, and its two-decimal text form.
use vstd::prelude::*;
use crate::text::{append_decimal, decimal, digit_char, digit_to_char, push_char};
use std::cmp::Ordering;
use vstd::std_specs::cmp::PartialOrdSpecImpl;

verus! {

/// An amount of money in cents.
#[derive(Debug, Clone, Copy, Default, PartialEq, Eq, Ord, Hash, Structural)]
pub struct Money {
    cents: i64,
}

impl View for Money {
    type V = int;

    closed spec fn view(&self) -> int {
        self.cents as int
    }
}

/// Money written as text with two decimals, such as `"19.95"`.
#[derive(Debug, Clone, PartialEq, Eq)]
pub struct MoneyAmount(String);

impl View for MoneyAmount {
    type V = Seq<char>;

    closed spec fn view(&self) -> Seq<char> {
        self.0@
    }
}

/// The two-decimal text of an amount of cents: an optional `-`, the whole
/// units in decimal, a `.` and exactly two digits of cents.
pub open spec fn money_text(cents: int) -> Seq<char> {
    let magnitude = if cents < 0 {
        -cents
    } else {
        cents
    };
    let sign = if cents < 0 {
        seq!['-']
    } else {
        Seq::<char>::empty()
    };
    sign + decimal((magnitude / 100) as nat) + seq![
        '.',
        digit_char((magnitude % 100) / 10),
        digit_char(magnitude % 10),
    ]
}

impl Money {
    /// The amount of no money.
    pub fn zero() -> (m: Money)
        ensures
            m@ == 0,
    {
        Money { cents: 0 }
    }

    pub fn from_cents(cents: i64) -> (m: Money)
        ensures
            m@ == cents,
    {
        Money { cents }
    }

    pub fn cents(self) -> (c: i64)
        ensures
            c == self@,
    {
        self.cents
    }

    pub fn is_positive(self) -> (b: bool)
        ensures
            b == (self@ > 0),
    {
        self.cents > 0
    }

    /// An amount is a number of cents in the range of `i64`.
    pub proof fn lemma_range(self)
        ensures
            i64::MIN <= self@ <= i64::MAX,
    {
    }

    /// Two amounts are the same exactly when their cents are.
    pub proof fn lemma_view_injective(self, other: Money)
        ensures
            self@ == other@ <==> self == other,
    {
    }

    /// The two-decimal text of this amount, written exactly from the cents.
    /// Below 2^46 whole units this is also the text of the amount in major
    /// units formatted as a float with two decimals; above, such a float no
    /// longer holds every cent.
    pub fn to_amount(self) -> (a: MoneyAmount)
        ensures
            a@ == money_text(self@),
    {
        let negative = self.cents < 0;
        let magnitude: u64 = if negative {
            (0i128 - (self.cents as i128)) as u64
        } else {
            self.cents as u64
        };
        let mut text = String::new();
        if negative {
            push_char(&mut text, '-');
        }
        append_decimal(&mut text, magnitude / 100);
        push_char(&mut text, '.');
        let tens = digit_to_char((magnitude % 100) / 10);
        push_char(&mut text, tens);
        let ones = digit_to_char(magnitude % 10);
        push_char(&mut text, ones);
        proof {
            assert(text@ =~= money_text(self@));
        }
        MoneyAmount(text)
    }
}

/// The two-decimal text of an amount, as `to_amount` gives it.
impl From<Money> for MoneyAmount {
    fn from(value: Money) -> (r: MoneyAmount)
        ensures
            r@ == money_text(value@),
    {
        value.to_amount()
    }
}

impl vstd::std_specs::convert::FromSpecImpl<Money> for MoneyAmount {
    open spec fn obeys_from_spec() -> bool {
        false
    }

    /// A text of the amount; the call's own contract says which.
    closed spec fn from_spec(v: Money) -> MoneyAmount {
        choose|a: MoneyAmount| a@ == money_text(v@)
    }
}

/// Amounts are ordered by their cents.
impl PartialOrd for Money {
    fn partial_cmp(&self, other: &Money) -> (r: Option<Ordering>) {
        if self.cents < other.cents {
            Some(Ordering::Less)
        } else if self.cents == other.cents {
            Some(Ordering::Equal)
        } else {
            Some(Ordering::Greater)
        }
    }
}

impl PartialOrdSpecImpl for Money {
    open spec fn obeys_partial_cmp_spec() -> bool {
        true
    }

    open spec fn partial_cmp_spec(&self, other: &Money) -> Option<Ordering> {
        if self@ < other@ {
            Some(Ordering::Less)
        } else if self@ == other@ {
            Some(Ordering::Equal)
        } else {
            Some(Ordering::Greater)
        }
    }
}

/// Adding amounts; the sum must fit in the range of cents.
impl std::ops::Add for Money {
    type Output = Money;

    fn add(self, rhs: Money) -> (r: Money)
        ensures
            r@ == self@ + rhs@,
    {
        Money { cents: self.cents + rhs.cents }
    }
}

impl vstd::std_specs::ops::AddSpecImpl for Money {
    open spec fn obeys_add_spec() -> bool {
        true
    }

    open spec fn add_req(self, rhs: Money) -> bool {
        i64::MIN <= self@ + rhs@ <= i64::MAX
    }

    closed spec fn add_spec(self, rhs: Money) -> Money {
        Money { cents: (self.cents + rhs.cents) as i64 }
    }
}

/// Subtracting amounts; the difference must fit in the range of cents.
impl std::ops::Sub for Money {
    type Output = Money;

    fn sub(self, rhs: Money) -> (r: Money)
        ensures
            r@ == self@ - rhs@,
    {
        Money { cents: self.cents - rhs.cents }
    }
}

impl vstd::std_specs::ops::SubSpecImpl for Money {
    open spec fn obeys_sub_spec() -> bool {
        true
    }

    open spec fn sub_req(self, rhs: Money) -> bool {
        i64::MIN <= self@ - rhs@ <= i64::MAX
    }

    closed spec fn sub_spec(self, rhs: Money) -> Money {
        Money { cents: (self.cents - rhs.cents) as i64 }
    }
}

impl MoneyAmount {
    pub fn as_str(&self) -> (s: &str)
        ensures
            s@ == self@,
    {
        self.0.as_str()
    }
}


/// The cents of an amount read from text, if the text was one.
pub open spec fn amount_read(amount: Option<Money>) -> Option<int> {
    match amount {
        Some(m) => Some(m@),
        None => None,
    }
}

/// A starting amount: one that was read and is not negative.
pub open spec fn starting_money(read: Option<int>) -> Option<int> {
    match read {
        Some(c) => if c >= 0 {
            Some(c)
        } else {
            None
        },
        None => None,
    }
}

} // verus!
