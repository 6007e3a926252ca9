//! Kinds of fuel.
use vstd::prelude::*;
use crate::text::{chars_of, trim, trim_bounds};

verus! {

#[derive(Debug, Clone, Copy, PartialEq, Eq, Hash, Structural)]
pub enum FuelType {
    Regular,
    Jeta1,
}

/// A character with ASCII upper case turned to lower case.
pub open spec fn ascii_lower(c: char) -> char {
    if 65 <= (c as u32) <= 90 {
        ((c as u32) + 32) as char
    } else {
        c
    }
}

pub open spec fn lower_text(s: Seq<char>) -> Seq<char> {
    s.map_values(|c: char| ascii_lower(c))
}

/// The fuel that a name denotes, ignoring surrounding whitespace and ASCII
/// case: `regular`, or `jeta1`, `jet_a1` or `jet-a1`.
pub open spec fn fuel_named(s: Seq<char>) -> Option<FuelType> {
    let t = lower_text(trim(s));
    if t == "regular"@ {
        Some(FuelType::Regular)
    } else if t == "jeta1"@ || t == "jet_a1"@ || t == "jet-a1"@ {
        Some(FuelType::Jeta1)
    } else {
        None
    }
}

pub open spec fn fuel_text(f: FuelType) -> Seq<char> {
    match f {
        FuelType::Regular => "regular"@,
        FuelType::Jeta1 => "jeta1"@,
    }
}

fn lower_char(c: char) -> (r: char)
    ensures
        r == ascii_lower(c),
{
    let n = c as u32;
    if 65 <= n && n <= 90 {
        let b: u8 = (n + 32) as u8;
        b as char
    } else {
        c
    }
}

/// Whether the lowered text `v[lo..hi]` is `word`.
fn lowered_is(v: &Vec<char>, lo: usize, hi: usize, word: &str) -> (r: bool)
    requires
        lo <= hi <= v@.len(),
    ensures
        r == (lower_text(v@.subrange(lo as int, hi as int)) == word@),
{
    let w = chars_of(word);
    let ghost t = lower_text(v@.subrange(lo as int, hi as int));
    if w.len() != hi - lo {
        proof {
            assert(t.len() != word@.len());
        }
        return false;
    }
    let mut i: usize = 0;
    while i < w.len()
        invariant
            w@ == word@,
            w@.len() == hi - lo,
            lo <= hi <= v@.len(),
            t == lower_text(v@.subrange(lo as int, hi as int)),
            i <= w@.len(),
            forall|j: int| 0 <= j < i ==> t[j] == w@[j],
        decreases w@.len() - i,
    {
        let c = lower_char(v[lo + i]);
        proof {
            assert(t[i as int] == ascii_lower(v@[lo + i]));
        }
        if c != w[i] {
            return false;
        }
        i = i + 1;
    }
    proof {
        assert(t =~= word@);
    }
    true
}

impl FuelType {
    /// Reads a fuel name, as `FuelType::try_from` does.
    pub fn parse(value: &str) -> (r: Result<FuelType, ()>)
        ensures
            match fuel_named(value@) {
                Some(f) => r == Ok::<FuelType, ()>(f),
                None => r == Err::<FuelType, ()>(()),
            },
    {
        let v = chars_of(value);
        let (lo, hi) = trim_bounds(&v);
        if lowered_is(&v, lo, hi, "regular") {
            Ok(FuelType::Regular)
        } else if lowered_is(&v, lo, hi, "jeta1") || lowered_is(&v, lo, hi, "jet_a1") || lowered_is(
            &v,
            lo,
            hi,
            "jet-a1",
        ) {
            Ok(FuelType::Jeta1)
        } else {
            Err(())
        }
    }

    /// The name of the fuel, as it is shown.
    pub fn as_text(&self) -> (r: String)
        ensures
            r@ == fuel_text(*self),
    {
        match self {
            FuelType::Regular => String::from_str("regular"),
            FuelType::Jeta1 => String::from_str("jeta1"),
        }
    }
}

impl<'a> TryFrom<&'a str> for FuelType {
    type Error = ();

    fn try_from(value: &'a str) -> Result<Self, Self::Error> {
        FuelType::parse(value)
    }
}

impl<'a> vstd::std_specs::convert::TryFromSpecImpl<&'a str> for FuelType {
    open spec fn obeys_try_from_spec() -> bool {
        true
    }

    open spec fn try_from_spec(v: &'a str) -> Result<FuelType, ()> {
        match fuel_named(v@) {
            Some(f) => Ok(f),
            None => Err(()),
        }
    }
}

} // verus!
