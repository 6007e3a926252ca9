//! Virtual lockers: the equipment classnames that a player or organization has unlocked.
use vstd::prelude::*;
use crate::models::names::{
    add_unique, add_unique_spec, copy_names, first_index, lemma_add_unique_idempotent,
    lemma_add_unique_no_duplicates, names, no_duplicates, remove_name,
};

verus! {

/// The categories of equipment.
#[derive(Debug, Clone, Copy, PartialEq, Eq, Structural)]
pub enum EquipmentCategory {
    Items,
    Weapons,
    Magazines,
    Backpacks,
}

/// The unlocked classnames of each category.
#[derive(Debug, PartialEq, Eq)]
pub struct VLocker {
    pub items: Vec<String>,
    pub weapons: Vec<String>,
    pub magazines: Vec<String>,
    pub backpacks: Vec<String>,
}

/// The classnames of each category, as texts.
#[verifier::ext_equal]
pub struct VLockerModel {
    pub items: Seq<Seq<char>>,
    pub weapons: Seq<Seq<char>>,
    pub magazines: Seq<Seq<char>>,
    pub backpacks: Seq<Seq<char>>,
}

impl View for VLocker {
    type V = VLockerModel;

    open spec fn view(&self) -> VLockerModel {
        VLockerModel {
            items: names(self.items@),
            weapons: names(self.weapons@),
            magazines: names(self.magazines@),
            backpacks: names(self.backpacks@),
        }
    }
}

impl VLockerModel {
    pub open spec fn empty() -> VLockerModel {
        VLockerModel {
            items: Seq::empty(),
            weapons: Seq::empty(),
            magazines: Seq::empty(),
            backpacks: Seq::empty(),
        }
    }

    /// The classnames of one category.
    pub open spec fn get(self, category: EquipmentCategory) -> Seq<Seq<char>> {
        match category {
            EquipmentCategory::Items => self.items,
            EquipmentCategory::Weapons => self.weapons,
            EquipmentCategory::Magazines => self.magazines,
            EquipmentCategory::Backpacks => self.backpacks,
        }
    }

    /// These unlocks with one category replaced.
    pub open spec fn with(self, category: EquipmentCategory, list: Seq<Seq<char>>) -> VLockerModel {
        match category {
            EquipmentCategory::Items => VLockerModel { items: list, ..self },
            EquipmentCategory::Weapons => VLockerModel { weapons: list, ..self },
            EquipmentCategory::Magazines => VLockerModel { magazines: list, ..self },
            EquipmentCategory::Backpacks => VLockerModel { backpacks: list, ..self },
        }
    }

    /// These unlocks after adding classnames to one category.
    pub open spec fn add(self, category: EquipmentCategory, added: Seq<Seq<char>>) -> VLockerModel {
        self.with(category, add_unique_spec(self.get(category), added))
    }

    /// These unlocks after adding every classname of `other`, category by category.
    pub open spec fn merge(self, other: VLockerModel) -> VLockerModel {
        VLockerModel {
            items: add_unique_spec(self.items, other.items),
            weapons: add_unique_spec(self.weapons, other.weapons),
            magazines: add_unique_spec(self.magazines, other.magazines),
            backpacks: add_unique_spec(self.backpacks, other.backpacks),
        }
    }

    /// No category holds a classname twice.
    pub open spec fn unique(self) -> bool {
        no_duplicates(self.items)
        && no_duplicates(self.weapons)
        && no_duplicates(self.magazines)
        && no_duplicates(self.backpacks)
    }
}

impl Clone for VLocker {
    fn clone(&self) -> (r: Self)
        ensures
            r@ == self@,
    {
        VLocker {
            items: copy_names(&self.items),
            weapons: copy_names(&self.weapons),
            magazines: copy_names(&self.magazines),
            backpacks: copy_names(&self.backpacks),
        }
    }
}

impl Default for VLocker {
    fn default() -> (r: Self)
        ensures
            r@ == VLockerModel::empty(),
    {
        let r = VLocker {
            items: Vec::new(),
            weapons: Vec::new(),
            magazines: Vec::new(),
            backpacks: Vec::new(),
        };
        proof {
            assert(r@ =~= VLockerModel::empty());
        }
        r
    }
}

impl VLocker {
    /// Adds each non-empty classname to the category unless it is there already.
    pub fn add(&mut self, category: EquipmentCategory, classnames: Vec<String>)
        ensures
            final(self)@ == old(self)@.add(category, names(classnames@)),
    {
        match category {
            EquipmentCategory::Items => add_unique(&mut self.items, classnames),
            EquipmentCategory::Weapons => add_unique(&mut self.weapons, classnames),
            EquipmentCategory::Magazines => add_unique(&mut self.magazines, classnames),
            EquipmentCategory::Backpacks => add_unique(&mut self.backpacks, classnames),
        }
    }

    /// Adds every classname of `unlocks`, category by category.
    pub fn merge(&mut self, unlocks: &Self)
        ensures
            final(self)@ == old(self)@.merge(unlocks@),
    {
        self.add(EquipmentCategory::Items, copy_names(&unlocks.items));
        self.add(EquipmentCategory::Weapons, copy_names(&unlocks.weapons));
        self.add(EquipmentCategory::Magazines, copy_names(&unlocks.magazines));
        self.add(EquipmentCategory::Backpacks, copy_names(&unlocks.backpacks));
    }

    /// The classnames of one category.
    pub fn get(&self, category: EquipmentCategory) -> (r: &[String])
        ensures
            names(r@) == self@.get(category),
    {
        match category {
            EquipmentCategory::Items => self.items.as_slice(),
            EquipmentCategory::Weapons => self.weapons.as_slice(),
            EquipmentCategory::Magazines => self.magazines.as_slice(),
            EquipmentCategory::Backpacks => self.backpacks.as_slice(),
        }
    }

    /// Removes the first occurrence of a classname from a category and gives
    /// it back.
    pub fn remove(&mut self, category: EquipmentCategory, classname: &str) -> (r: Option<String>)
        ensures
            match first_index(old(self)@.get(category), classname@) {
                Some(i) => r matches Some(s) && s@ == classname@ && final(self)@ == old(self)@.with(category, old(self)@.get(category).remove(i)),
                None => r is None && final(self)@ == old(self)@,
            },
    {
        match category {
            EquipmentCategory::Items => remove_name(&mut self.items, classname),
            EquipmentCategory::Weapons => remove_name(&mut self.weapons, classname),
            EquipmentCategory::Magazines => remove_name(&mut self.magazines, classname),
            EquipmentCategory::Backpacks => remove_name(&mut self.backpacks, classname),
        }
    }
}

/// The unlocks of one player.
#[derive(Debug, PartialEq, Eq)]
pub struct PlayerVLocker {
    pub uid: String,
    pub unlocks: VLocker,
}

pub struct PlayerVLockerModel {
    pub uid: Seq<char>,
    pub unlocks: VLockerModel,
}

impl View for PlayerVLocker {
    type V = PlayerVLockerModel;

    open spec fn view(&self) -> PlayerVLockerModel {
        PlayerVLockerModel { uid: self.uid@, unlocks: self.unlocks@ }
    }
}

impl Clone for PlayerVLocker {
    fn clone(&self) -> (r: Self)
        ensures
            r@ == self@,
    {
        PlayerVLocker { uid: self.uid.clone(), unlocks: self.unlocks.clone() }
    }
}

impl PlayerVLocker {
    pub fn new(uid: &str, unlocks: VLocker) -> (r: Self)
        ensures
            r.uid@ == uid@,
            r.unlocks == unlocks,
    {
        PlayerVLocker { uid: uid.to_owned(), unlocks }
    }
}

/// Merging the same unlocks twice is the same as merging them once.
pub proof fn lemma_merge_idempotent(unlocks: VLockerModel, other: VLockerModel)
    ensures
        unlocks.merge(other).merge(other) == unlocks.merge(other),
{
    lemma_add_unique_idempotent(unlocks.items, other.items);
    lemma_add_unique_idempotent(unlocks.weapons, other.weapons);
    lemma_add_unique_idempotent(unlocks.magazines, other.magazines);
    lemma_add_unique_idempotent(unlocks.backpacks, other.backpacks);
}

/// Merging keeps every category free of duplicates.
pub proof fn lemma_merge_keeps_unique(unlocks: VLockerModel, other: VLockerModel)
    requires
        unlocks.unique(),
    ensures
        unlocks.merge(other).unique(),
{
    lemma_add_unique_no_duplicates(unlocks.items, other.items);
    lemma_add_unique_no_duplicates(unlocks.weapons, other.weapons);
    lemma_add_unique_no_duplicates(unlocks.magazines, other.magazines);
    lemma_add_unique_no_duplicates(unlocks.backpacks, other.backpacks);
}

/// Adding to a category keeps every category free of duplicates.
pub proof fn lemma_add_keeps_unique(unlocks: VLockerModel, category: EquipmentCategory, added: Seq<Seq<char>>)
    requires
        unlocks.unique(),
    ensures
        unlocks.add(category, added).unique(),
{
    lemma_add_unique_no_duplicates(unlocks.get(category), added);
}

} // verus!
