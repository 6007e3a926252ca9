//! Actors (player characters): the record kept of each, the snapshot the
//! game sends of it, and what a new actor starts with.
use vstd::prelude::*;
use crate::ids::now_millis;
use crate::models::money::{amount_read, Money};
use crate::models::v_garage::{VGarage, VGarageModel};
use crate::models::v_locker::{VLocker, VLockerModel};

verus! {

/// An actor's loadout is JSON that the library carries without reading.
#[verifier::external_type_specification]
#[verifier::external_body]
pub struct ExJsonValue(serde_json::Value);

/// `serde_json::Value`'s derived `Clone`: the copy equals the value copied.
pub assume_specification[ <serde_json::Value as Clone>::clone ](v: &serde_json::Value) -> (r:
    serde_json::Value)
    ensures
        r == *v,
;

/// `serde_json::Value::Array(Vec::new())`, the empty loadout. Its value is
/// not stated.
#[verifier::external_body]
fn empty_loadout() -> (r: serde_json::Value) {
    serde_json::Value::Array(Vec::new())
}

/// What a new actor starts with: cash and bank as the amounts their
/// configured money texts read as (none where a text is no amount), and
/// the equipment and vehicles unlocked for it.
#[derive(Debug, PartialEq, Eq)]
pub struct ActorStartingConfig {
    pub cash: Option<Money>,
    pub bank: Option<Money>,
    pub virtual_arsenal: VLocker,
    pub virtual_garage: VGarage,
}

impl Default for ActorStartingConfig {
    fn default() -> (r: Self)
        ensures
            r@.cash == Some(0int),
            r@.bank == Some(0int),
            r.virtual_arsenal@ == VLockerModel::empty(),
            r.virtual_garage@ == VGarageModel::empty(),
    {
        ActorStartingConfig {
            cash: Some(Money::zero()),
            bank: Some(Money::zero()),
            virtual_arsenal: VLocker::default(),
            virtual_garage: VGarage::default(),
        }
    }
}

pub struct StartingModel {
    pub cash: Option<int>,
    pub bank: Option<int>,
    pub virtual_arsenal: VLockerModel,
    pub virtual_garage: VGarageModel,
}

impl View for ActorStartingConfig {
    type V = StartingModel;

    open spec fn view(&self) -> StartingModel {
        StartingModel {
            cash: amount_read(self.cash),
            bank: amount_read(self.bank),
            virtual_arsenal: self.virtual_arsenal@,
            virtual_garage: self.virtual_garage@,
        }
    }
}

impl Clone for ActorStartingConfig {
    fn clone(&self) -> (r: Self)
        ensures
            r@ == self@,
    {
        ActorStartingConfig {
            cash: self.cash,
            bank: self.bank,
            virtual_arsenal: self.virtual_arsenal.clone(),
            virtual_garage: self.virtual_garage.clone(),
        }
    }
}

/// The organization an actor belongs to when none is given.
pub fn default_organization() -> (r: String)
    ensures
        r@ == "default"@,
{
    String::from_str("default")
}

/// The starting amount when none is given.
pub fn default_money_amount() -> (r: String)
    ensures
        r@ == "0.00"@,
{
    String::from_str("0.00")
}

#[derive(Debug, Clone, Copy, PartialEq, Eq, Structural)]
pub enum ActorStance {
    Stand,
    Crouch,
    Prone,
    Undefined,
}

impl Default for ActorStance {
    fn default() -> (r: Self)
        ensures
            r == ActorStance::Stand,
    {
        ActorStance::Stand
    }
}

#[derive(Debug, Clone, Copy, PartialEq, Eq, Structural)]
pub enum ActorRank {
    Private,
    Corporal,
    Sergeant,
    Lieutenant,
    Captain,
    Major,
    Colonel,
}

impl Default for ActorRank {
    fn default() -> (r: Self)
        ensures
            r == ActorRank::Private,
    {
        ActorRank::Private
    }
}

#[derive(Debug, Clone, Copy, PartialEq, Eq, Structural)]
pub enum ActorLifeState {
    Healthy,
    Injured,
    Incapacitated,
    Dead,
}

impl Default for ActorLifeState {
    fn default() -> (r: Self)
        ensures
            r == ActorLifeState::Healthy,
    {
        ActorLifeState::Healthy
    }
}

/// An actor as the library keeps it.
///
/// Coordinates and direction are floats in the game; they are carried here
/// as the bits of each `f64` (`f64::to_bits`), and only copied.
#[derive(Debug, PartialEq)]
pub struct Actor {
    pub uid: String,
    pub name: String,
    pub loadout: serde_json::Value,
    pub position: [u64; 3],
    pub direction: u64,
    pub stance: ActorStance,
    pub rank: ActorRank,
    pub life_state: ActorLifeState,
    pub organization: String,
    pub holster: bool,
    pub schema_version: u16,
    /// Milliseconds since the Unix epoch.
    pub created_at: i64,
    /// Milliseconds since the Unix epoch.
    pub updated_at: i64,
}

pub struct ActorModel {
    pub uid: Seq<char>,
    pub name: Seq<char>,
    pub loadout: serde_json::Value,
    pub position: [u64; 3],
    pub direction: u64,
    pub stance: ActorStance,
    pub rank: ActorRank,
    pub life_state: ActorLifeState,
    pub organization: Seq<char>,
    pub holster: bool,
    pub schema_version: u16,
    pub created_at: int,
    pub updated_at: int,
}

impl View for Actor {
    type V = ActorModel;

    open spec fn view(&self) -> ActorModel {
        ActorModel {
            uid: self.uid@,
            name: self.name@,
            loadout: self.loadout,
            position: self.position,
            direction: self.direction,
            stance: self.stance,
            rank: self.rank,
            life_state: self.life_state,
            organization: self.organization@,
            holster: self.holster,
            schema_version: self.schema_version,
            created_at: self.created_at as int,
            updated_at: self.updated_at as int,
        }
    }
}

impl Clone for Actor {
    fn clone(&self) -> (r: Self)
        ensures
            r@ == self@,
    {
        Actor {
            uid: self.uid.clone(),
            name: self.name.clone(),
            loadout: self.loadout.clone(),
            position: self.position,
            direction: self.direction,
            stance: self.stance,
            rank: self.rank,
            life_state: self.life_state,
            organization: self.organization.clone(),
            holster: self.holster,
            schema_version: self.schema_version,
            created_at: self.created_at,
            updated_at: self.updated_at,
        }
    }
}

/// What the game sends of an actor when its player joins. The
/// `persist_*` flags say whether its loadout and position replace the
/// stored ones.
#[derive(Debug, Clone, PartialEq)]
pub struct ActorSnapshot {
    pub uid: String,
    pub name: String,
    pub loadout: serde_json::Value,
    pub persist_loadout: bool,
    /// Each coordinate as the bits of an `f64`.
    pub position: [u64; 3],
    pub persist_position: bool,
    /// The bits of an `f64`.
    pub direction: u64,
    pub stance: ActorStance,
    pub rank: ActorRank,
    pub life_state: ActorLifeState,
    pub organization: String,
    pub holster: bool,
    pub starting: ActorStartingConfig,
}

/// The holster state of an actor when none is given.
pub fn default_holster() -> (r: bool)
    ensures
        r,
{
    true
}

/// Whether a snapshot's loadout and position are kept when none is said.
pub fn default_enabled() -> (r: bool)
    ensures
        r,
{
    true
}

impl ActorSnapshot {
    /// A snapshot of a fresh actor: empty loadout, at the origin, facing
    /// 0, standing, a healthy private of the default organization with the
    /// holster on, and the default starting config.
    pub fn new(uid: &str, name: &str) -> (r: Self)
        ensures
            r.uid@ == uid@,
            r.name@ == name@,
            r.persist_loadout,
            r.position == [0u64, 0u64, 0u64],
            r.persist_position,
            r.direction == 0,
            r.stance == ActorStance::Stand,
            r.rank == ActorRank::Private,
            r.life_state == ActorLifeState::Healthy,
            r.organization@ == "default"@,
            r.holster,
            r.starting@.cash == Some(0int),
            r.starting@.bank == Some(0int),
            r.starting@.virtual_arsenal == VLockerModel::empty(),
            r.starting@.virtual_garage == VGarageModel::empty(),
    {
        ActorSnapshot {
            uid: String::from_str(uid),
            name: String::from_str(name),
            loadout: empty_loadout(),
            persist_loadout: default_enabled(),
            position: [0u64, 0u64, 0u64],
            persist_position: default_enabled(),
            direction: 0,
            stance: ActorStance::default(),
            rank: ActorRank::default(),
            life_state: ActorLifeState::default(),
            organization: default_organization(),
            holster: default_holster(),
            starting: ActorStartingConfig::default(),
        }
    }
}

/// `a` is the actor first made from `s`: its fields are the snapshot's, in
/// the current layout, created and last updated at the same moment.
pub open spec fn made_from(a: ActorModel, s: ActorSnapshot) -> bool {
    &&& a.uid == s.uid@
    &&& a.name == s.name@
    &&& a.loadout == s.loadout
    &&& a.position == s.position
    &&& a.direction == s.direction
    &&& a.stance == s.stance
    &&& a.rank == s.rank
    &&& a.life_state == s.life_state
    &&& a.organization == s.organization@
    &&& a.holster == s.holster
    &&& a.schema_version == Actor::CURRENT_SCHEMA_VERSION
    &&& a.created_at == a.updated_at
}

/// `after` is `before` brought up to date by `s`: name, direction, stance,
/// rank, life state and holster come from the snapshot, loadout and
/// position too where the snapshot says to keep them; uid, organization and
/// creation time stay.
pub open spec fn updated_by(before: ActorModel, after: ActorModel, s: ActorSnapshot) -> bool {
    &&& after.uid == before.uid
    &&& after.name == s.name@
    &&& after.loadout == (if s.persist_loadout {
        s.loadout
    } else {
        before.loadout
    })
    &&& after.position == (if s.persist_position {
        s.position
    } else {
        before.position
    })
    &&& after.direction == s.direction
    &&& after.stance == s.stance
    &&& after.rank == s.rank
    &&& after.life_state == s.life_state
    &&& after.organization == before.organization
    &&& after.holster == s.holster
    &&& after.schema_version == Actor::CURRENT_SCHEMA_VERSION
    &&& after.created_at == before.created_at
}

impl Actor {
    /// The version of the stored actor layout.
    pub const CURRENT_SCHEMA_VERSION: u16 = 1;

    /// The actor first made from a snapshot, created now.
    pub fn from_snapshot(snapshot: ActorSnapshot) -> (r: Self)
        ensures
            made_from(r@, snapshot),
    {
        let now = now_millis();
        Actor {
            uid: snapshot.uid,
            name: snapshot.name,
            loadout: snapshot.loadout,
            position: snapshot.position,
            direction: snapshot.direction,
            stance: snapshot.stance,
            rank: snapshot.rank,
            life_state: snapshot.life_state,
            organization: snapshot.organization,
            holster: snapshot.holster,
            schema_version: Self::CURRENT_SCHEMA_VERSION,
            created_at: now,
            updated_at: now,
        }
    }

    /// Brings the actor up to date with a snapshot, updated now.
    pub fn apply_snapshot(&mut self, snapshot: ActorSnapshot)
        ensures
            updated_by(old(self)@, final(self)@, snapshot),
    {
        self.name = snapshot.name;
        if snapshot.persist_loadout {
            self.loadout = snapshot.loadout;
        }
        if snapshot.persist_position {
            self.position = snapshot.position;
        }
        self.direction = snapshot.direction;
        self.stance = snapshot.stance;
        self.rank = snapshot.rank;
        self.life_state = snapshot.life_state;
        self.holster = snapshot.holster;
        self.schema_version = Self::CURRENT_SCHEMA_VERSION;
        self.updated_at = now_millis();
    }
}

} // verus!
