//! Actors joining: stored on first sight, brought up to date afterwards.
use vstd::prelude::*;
use crate::models::actor::{made_from, updated_by, Actor, ActorModel, ActorSnapshot};
use crate::models::actor_event::ActorCreated;
use crate::models::domain_event::DomainEvent;
use crate::repositories::actor::ActorRepository;
use crate::shared::error::ActorError;
use crate::text::{blank, is_blank};

verus! {

/// What joining did: the actor as stored, whether it was new, and the
/// events that followed.
#[derive(Debug, Clone)]
pub struct ActorInitResult {
    pub actor: Actor,
    pub created: bool,
    pub events: Vec<DomainEvent>,
}

/// Why a snapshot is refused, if it is: a blank uid, or else a blank name.
pub open spec fn snapshot_error(s: ActorSnapshot) -> Option<ActorError> {
    if blank(s.uid@) {
        Some(ActorError::InvalidUid)
    } else if blank(s.name@) {
        Some(ActorError::InvalidName)
    } else {
        None
    }
}

fn validate_uid(uid: &str) -> (r: Result<(), ActorError>)
    ensures
        r == (if blank(uid@) {
            Err(ActorError::InvalidUid)
        } else {
            Ok(())
        }),
{
    if is_blank(uid) {
        return Err(ActorError::InvalidUid);
    }
    Ok(())
}

fn validate_name(name: &str) -> (r: Result<(), ActorError>)
    ensures
        r == (if blank(name@) {
            Err(ActorError::InvalidName)
        } else {
            Ok(())
        }),
{
    if is_blank(name) {
        return Err(ActorError::InvalidName);
    }
    Ok(())
}

fn validate_snapshot(snapshot: &ActorSnapshot) -> (r: Result<(), ActorError>)
    ensures
        r == (match snapshot_error(*snapshot) {
            Some(e) => Err(e),
            None => Ok(()),
        }),
{
    validate_uid(snapshot.uid.as_str())?;
    validate_name(snapshot.name.as_str())?;
    Ok(())
}

pub struct ActorService<R> {
    repository: R,
}

impl<R: ActorRepository> ActorService<R> {
    /// The actors stored, by uid.
    pub closed spec fn actors(&self) -> Map<Seq<char>, ActorModel> {
        self.repository.actors()
    }

    pub closed spec fn inv(&self) -> bool {
        self.repository.inv()
    }

    pub fn new(repository: R) -> (r: Self)
        ensures
            r.actors() == repository.actors(),
            r.inv() == repository.inv(),
    {
        ActorService { repository }
    }

    /// A player joined with `snapshot`. An actor already stored is brought up
    /// to date; otherwise one is made from the snapshot, stored, and an
    /// `ActorCreated` event with the snapshot's starting config follows.
    pub fn init_or_create(&mut self, snapshot: ActorSnapshot) -> (r: Result<
        ActorInitResult,
        ActorError,
    >)
        requires
            old(self).inv(),
        ensures
            final(self).inv(),
            match snapshot_error(snapshot) {
                Some(e) => r == Err::<ActorInitResult, ActorError>(e) && final(self).actors() == old(self).actors(),
                None => if old(self).actors().contains_key(snapshot.uid@) {
                    r matches Ok(res) && !res.created && res.events@.len() == 0 && updated_by(
                        old(self).actors()[snapshot.uid@],
                        res.actor@,
                        snapshot,
                    ) && final(self).actors() == old(self).actors().insert(
                        snapshot.uid@,
                        res.actor@,
                    )
                } else {
                    r matches Ok(res) && res.created && made_from(res.actor@, snapshot) && final(self).actors() == old(self).actors().insert(snapshot.uid@, res.actor@)
                        && res.events@.len() == 1 && (res.events@[0] matches DomainEvent::ActorCreated(
                        c,
                    ) && c.actor@ == res.actor@ && c.starting@ == snapshot.starting@)
                },
            },
    {
        validate_snapshot(&snapshot)?;
        let ghost uid = snapshot.uid@;
        if let Some(mut actor) = self.repository.find_by_uid(snapshot.uid.as_str())? {
            proof {
                self.repository.lemma_consistent();
            }
            actor.apply_snapshot(snapshot);
            let actor = self.repository.save(actor)?;
            return Ok(ActorInitResult { actor, created: false, events: Vec::new() });
        }
        let starting = snapshot.starting.clone();
        let actor = self.repository.save(Actor::from_snapshot(snapshot))?;
        let event = DomainEvent::ActorCreated(ActorCreated::new(actor.clone(), starting));
        let mut events: Vec<DomainEvent> = Vec::new();
        events.push(event);
        Ok(ActorInitResult { actor, created: true, events })
    }

    /// The stored actor with this uid.
    pub fn get(&self, uid: &str) -> (r: Result<Option<Actor>, ActorError>)
        requires
            self.inv(),
        ensures
            blank(uid@) ==> r == Err::<Option<Actor>, ActorError>(ActorError::InvalidUid),
            !blank(uid@) ==> match r {
                Ok(Some(a)) => self.actors().contains_key(uid@) && a@ == self.actors()[uid@],
                Ok(None) => !self.actors().contains_key(uid@),
                Err(_) => false,
            },
    {
        validate_uid(uid)?;
        self.repository.find_by_uid(uid)
    }

    /// Stores an actor whose uid and name are not blank.
    pub fn save(&mut self, actor: Actor) -> (r: Result<Actor, ActorError>)
        requires
            old(self).inv(),
        ensures
            final(self).inv(),
            blank(actor@.uid) ==> r == Err::<Actor, ActorError>(ActorError::InvalidUid) && final(self).actors() == old(self).actors(),
            !blank(actor@.uid) && blank(actor@.name) ==> r == Err::<Actor, ActorError>(
                ActorError::InvalidName,
            ) && final(self).actors() == old(self).actors(),
            !blank(actor@.uid) && !blank(actor@.name) ==> (r matches Ok(a) && a@ == actor@)
                && final(self).actors() == old(self).actors().insert(actor@.uid, actor@),
    {
        validate_uid(actor.uid.as_str())?;
        validate_name(actor.name.as_str())?;
        self.repository.save(actor)
    }

    /// Removes the actor with this uid.
    pub fn delete(&mut self, uid: &str) -> (r: Result<(), ActorError>)
        requires
            old(self).inv(),
        ensures
            final(self).inv(),
            blank(uid@) ==> r == Err::<(), ActorError>(ActorError::InvalidUid) && final(self).actors()
                == old(self).actors(),
            !blank(uid@) ==> r is Ok && final(self).actors() == old(self).actors().remove(uid@),
    {
        validate_uid(uid)?;
        self.repository.delete(uid)
    }
}

} // verus!
