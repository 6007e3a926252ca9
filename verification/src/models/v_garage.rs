//! Virtual garages: the vehicle classnames that a player or organization has unlocked.
use vstd::prelude::*;
use crate::models::names::{
    add_unique, add_unique_spec, copy_names, first_index, lemma_add_unique_idempotent,
    lemma_add_unique_no_duplicates, names, no_duplicates, remove_name,
};

verus! {

/// The categories of vehicles.
#[derive(Debug, Clone, Copy, PartialEq, Eq, Structural)]
pub enum VehicleCategory {
    Cars,
    Armor,
    Helis,
    Planes,
    Naval,
    Other,
}

/// The unlocked classnames of each category.
#[derive(Debug, PartialEq, Eq)]
pub struct VGarage {
    pub cars: Vec<String>,
    pub armor: Vec<String>,
    pub helis: Vec<String>,
    pub planes: Vec<String>,
    pub naval: Vec<String>,
    pub other: Vec<String>,
}

/// The classnames of each category, as texts.
#[verifier::ext_equal]
pub struct VGarageModel {
    pub cars: Seq<Seq<char>>,
    pub armor: Seq<Seq<char>>,
    pub helis: Seq<Seq<char>>,
    pub planes: Seq<Seq<char>>,
    pub naval: Seq<Seq<char>>,
    pub other: Seq<Seq<char>>,
}

impl View for VGarage {
    type V = VGarageModel;

    open spec fn view(&self) -> VGarageModel {
        VGarageModel {
            cars: names(self.cars@),
            armor: names(self.armor@),
            helis: names(self.helis@),
            planes: names(self.planes@),
            naval: names(self.naval@),
            other: names(self.other@),
        }
    }
}

impl VGarageModel {
    pub open spec fn empty() -> VGarageModel {
        VGarageModel {
            cars: Seq::empty(),
            armor: Seq::empty(),
            helis: Seq::empty(),
            planes: Seq::empty(),
            naval: Seq::empty(),
            other: Seq::empty(),
        }
    }

    /// The classnames of one category.
    pub open spec fn get(self, category: VehicleCategory) -> Seq<Seq<char>> {
        match category {
            VehicleCategory::Cars => self.cars,
            VehicleCategory::Armor => self.armor,
            VehicleCategory::Helis => self.helis,
            VehicleCategory::Planes => self.planes,
            VehicleCategory::Naval => self.naval,
            VehicleCategory::Other => self.other,
        }
    }

    /// These unlocks with one category replaced.
    pub open spec fn with(self, category: VehicleCategory, list: Seq<Seq<char>>) -> VGarageModel {
        match category {
            VehicleCategory::Cars => VGarageModel { cars: list, ..self },
            VehicleCategory::Armor => VGarageModel { armor: list, ..self },
            VehicleCategory::Helis => VGarageModel { helis: list, ..self },
            VehicleCategory::Planes => VGarageModel { planes: list, ..self },
            VehicleCategory::Naval => VGarageModel { naval: list, ..self },
            VehicleCategory::Other => VGarageModel { other: list, ..self },
        }
    }

    /// These unlocks after adding classnames to one category.
    pub open spec fn add(self, category: VehicleCategory, added: Seq<Seq<char>>) -> VGarageModel {
        self.with(category, add_unique_spec(self.get(category), added))
    }

    /// These unlocks after adding every classname of `other`, category by category.
    pub open spec fn merge(self, other: VGarageModel) -> VGarageModel {
        VGarageModel {
            cars: add_unique_spec(self.cars, other.cars),
            armor: add_unique_spec(self.armor, other.armor),
            helis: add_unique_spec(self.helis, other.helis),
            planes: add_unique_spec(self.planes, other.planes),
            naval: add_unique_spec(self.naval, other.naval),
            other: add_unique_spec(self.other, other.other),
        }
    }

    /// No category holds a classname twice.
    pub open spec fn unique(self) -> bool {
        no_duplicates(self.cars)
        && no_duplicates(self.armor)
        && no_duplicates(self.helis)
        && no_duplicates(self.planes)
        && no_duplicates(self.naval)
        && no_duplicates(self.other)
    }
}

impl Clone for VGarage {
    fn clone(&self) -> (r: Self)
        ensures
            r@ == self@,
    {
        VGarage {
            cars: copy_names(&self.cars),
            armor: copy_names(&self.armor),
            helis: copy_names(&self.helis),
            planes: copy_names(&self.planes),
            naval: copy_names(&self.naval),
            other: copy_names(&self.other),
        }
    }
}

impl Default for VGarage {
    fn default() -> (r: Self)
        ensures
            r@ == VGarageModel::empty(),
    {
        let r = VGarage {
            cars: Vec::new(),
            armor: Vec::new(),
            helis: Vec::new(),
            planes: Vec::new(),
            naval: Vec::new(),
            other: Vec::new(),
        };
        proof {
            assert(r@ =~= VGarageModel::empty());
        }
        r
    }
}

impl VGarage {
    /// Adds each non-empty classname to the category unless it is there already.
    pub fn add(&mut self, category: VehicleCategory, classnames: Vec<String>)
        ensures
            final(self)@ == old(self)@.add(category, names(classnames@)),
    {
        match category {
            VehicleCategory::Cars => add_unique(&mut self.cars, classnames),
            VehicleCategory::Armor => add_unique(&mut self.armor, classnames),
            VehicleCategory::Helis => add_unique(&mut self.helis, classnames),
            VehicleCategory::Planes => add_unique(&mut self.planes, classnames),
            VehicleCategory::Naval => add_unique(&mut self.naval, classnames),
            VehicleCategory::Other => add_unique(&mut self.other, classnames),
        }
    }

    /// Adds every classname of `unlocks`, category by category.
    pub fn merge(&mut self, unlocks: &Self)
        ensures
            final(self)@ == old(self)@.merge(unlocks@),
    {
        self.add(VehicleCategory::Cars, copy_names(&unlocks.cars));
        self.add(VehicleCategory::Armor, copy_names(&unlocks.armor));
        self.add(VehicleCategory::Helis, copy_names(&unlocks.helis));
        self.add(VehicleCategory::Planes, copy_names(&unlocks.planes));
        self.add(VehicleCategory::Naval, copy_names(&unlocks.naval));
        self.add(VehicleCategory::Other, copy_names(&unlocks.other));
    }

    /// The classnames of one category.
    pub fn get(&self, category: VehicleCategory) -> (r: &[String])
        ensures
            names(r@) == self@.get(category),
    {
        match category {
            VehicleCategory::Cars => self.cars.as_slice(),
            VehicleCategory::Armor => self.armor.as_slice(),
            VehicleCategory::Helis => self.helis.as_slice(),
            VehicleCategory::Planes => self.planes.as_slice(),
            VehicleCategory::Naval => self.naval.as_slice(),
            VehicleCategory::Other => self.other.as_slice(),
        }
    }

    /// Removes the first occurrence of a classname from a category and gives
    /// it back.
    pub fn remove(&mut self, category: VehicleCategory, classname: &str) -> (r: Option<String>)
        ensures
            match first_index(old(self)@.get(category), classname@) {
                Some(i) => r matches Some(s) && s@ == classname@ && final(self)@ == old(self)@.with(category, old(self)@.get(category).remove(i)),
                None => r is None && final(self)@ == old(self)@,
            },
    {
        match category {
            VehicleCategory::Cars => remove_name(&mut self.cars, classname),
            VehicleCategory::Armor => remove_name(&mut self.armor, classname),
            VehicleCategory::Helis => remove_name(&mut self.helis, classname),
            VehicleCategory::Planes => remove_name(&mut self.planes, classname),
            VehicleCategory::Naval => remove_name(&mut self.naval, classname),
            VehicleCategory::Other => remove_name(&mut self.other, classname),
        }
    }
}

/// The unlocks of one player.
#[derive(Debug, PartialEq, Eq)]
pub struct PlayerVGarage {
    pub uid: String,
    pub unlocks: VGarage,
}

pub struct PlayerVGarageModel {
    pub uid: Seq<char>,
    pub unlocks: VGarageModel,
}

impl View for PlayerVGarage {
    type V = PlayerVGarageModel;

    open spec fn view(&self) -> PlayerVGarageModel {
        PlayerVGarageModel { uid: self.uid@, unlocks: self.unlocks@ }
    }
}

impl Clone for PlayerVGarage {
    fn clone(&self) -> (r: Self)
        ensures
            r@ == self@,
    {
        PlayerVGarage { uid: self.uid.clone(), unlocks: self.unlocks.clone() }
    }
}

impl PlayerVGarage {
    pub fn new(uid: &str, unlocks: VGarage) -> (r: Self)
        ensures
            r.uid@ == uid@,
            r.unlocks == unlocks,
    {
        PlayerVGarage { uid: uid.to_owned(), unlocks }
    }
}

/// Merging the same unlocks twice is the same as merging them once.
pub proof fn lemma_merge_idempotent(unlocks: VGarageModel, other: VGarageModel)
    ensures
        unlocks.merge(other).merge(other) == unlocks.merge(other),
{
    lemma_add_unique_idempotent(unlocks.cars, other.cars);
    lemma_add_unique_idempotent(unlocks.armor, other.armor);
    lemma_add_unique_idempotent(unlocks.helis, other.helis);
    lemma_add_unique_idempotent(unlocks.planes, other.planes);
    lemma_add_unique_idempotent(unlocks.naval, other.naval);
    lemma_add_unique_idempotent(unlocks.other, other.other);
}

/// Merging keeps every category free of duplicates.
pub proof fn lemma_merge_keeps_unique(unlocks: VGarageModel, other: VGarageModel)
    requires
        unlocks.unique(),
    ensures
        unlocks.merge(other).unique(),
{
    lemma_add_unique_no_duplicates(unlocks.cars, other.cars);
    lemma_add_unique_no_duplicates(unlocks.armor, other.armor);
    lemma_add_unique_no_duplicates(unlocks.helis, other.helis);
    lemma_add_unique_no_duplicates(unlocks.planes, other.planes);
    lemma_add_unique_no_duplicates(unlocks.naval, other.naval);
    lemma_add_unique_no_duplicates(unlocks.other, other.other);
}

/// Adding to a category keeps every category free of duplicates.
pub proof fn lemma_add_keeps_unique(unlocks: VGarageModel, category: VehicleCategory, added: Seq<Seq<char>>)
    requires
        unlocks.unique(),
    ensures
        unlocks.add(category, added).unique(),
{
    lemma_add_unique_no_duplicates(unlocks.get(category), added);
}

} // verus!
