use vstd::prelude::*;
use crate::nonce::next_nonce;
use crate::owned::without;

verus! {

/// Identifier of a kitty.
pub type Dna = u64;

/// An account that can own kitties.
pub type AccountId = u64;

/// A point in time, as the host's clock reports it.
pub type Moment = u64;

#[derive(Clone, Copy, Debug, PartialEq, Eq, Structural)]
pub enum Gender {
    Male,
    Female,
}

impl Default for Gender {
    /// `Male` is the default gender.
    fn default() -> (r: Gender)
        ensures
            r == Gender::Male,
    {
        Gender::Male
    }
}

/// A registered kitty. Only `owner` changes after creation.
#[derive(Clone, Copy, Debug, PartialEq, Eq, Structural)]
pub struct Kitty {
    pub dna: Dna,
    pub price: u32,
    pub owner: AccountId,
    pub gender: Gender,
    pub created_date: Moment,
}

/// Notifications that the registry deposits.
#[derive(Clone, Copy, Debug, PartialEq, Eq, Structural)]
pub enum Event {
    /// A kitty with this DNA was created for this owner.
    KittyCreated(Dna, AccountId),
    /// A kitty moved from the first account to the second.
    KittyChangeOwner(Dna, AccountId, AccountId),
    /// A fresh random seed, published for auditability only.
    DnaGenerated(Dna),
}

/// Why a call was refused. A refused call changes nothing.
#[derive(Clone, Copy, Debug, PartialEq, Eq, Structural)]
pub enum Error {
    /// The kitty that the call names does not exist.
    NoneValue,
    /// The kitty counter is at its maximum.
    StorageOverflow,
    /// The new owner is the account making the call.
    DuplicatedOwner,
    /// The receiving owner already holds as many kitties as the limit allows.
    ExceedLimit,
    /// The account making the call does not hold the kitty it would move.
    MoveValueNotExist,
    /// Reserved; no call returns it.
    MoveValueAlreadyExist,
}

/// The capabilities that the host supplies: a source of randomness and a clock.
pub trait Config {
    /// A random value that depends on no input.
    fn random_seed(&self) -> Dna;

    /// A random value derived from `subject`.
    fn random(&self, subject: &Vec<u8>) -> Dna;

    /// The current time.
    fn now(&self) -> Moment;
}

/// The abstract state of the registry.
pub struct KittyState {
    /// Counter mixed into each identifier derivation.
    pub nonce: u32,
    /// Number of kitties ever created.
    pub quantity: u32,
    /// Every kitty, by its DNA.
    pub kitties: Map<Dna, Kitty>,
    /// For each owner, the DNAs it holds, oldest first.
    pub owners: Map<AccountId, Seq<Dna>>,
    /// Largest length that an owner's list may have.
    pub limit: u32,
    /// Notifications deposited so far, oldest first.
    pub events: Seq<Event>,
}

impl KittyState {
    /// No owner holds more than `limit` kitties, and `limit` is at least one.
    pub open spec fn wf(self) -> bool {
        &&& self.limit >= 1
        &&& forall|a: AccountId| #[trigger]
            self.owners.contains_key(a) ==> self.owners[a].len() <= self.limit
    }

    /// Every listed DNA names a kitty whose owner is the account that lists it.
    pub open spec fn sound(self) -> bool {
        forall|a: AccountId, i: int|
            #![trigger self.owners[a][i]]
            self.owners.contains_key(a) && 0 <= i < self.owners[a].len() ==> {
                &&& self.kitties.contains_key(self.owners[a][i])
                &&& self.kitties[self.owners[a][i]].owner == a
            }
    }

    /// Whether the owner's list may take one more DNA.
    pub open spec fn has_room(self, a: AccountId) -> bool {
        !self.owners.contains_key(a) || self.owners[a].len() < self.limit
    }

    /// The lists after `d` is appended to the list of `a`; an owner without a
    /// list gets a list of `d` alone.
    pub open spec fn owners_add(self, a: AccountId, d: Dna) -> Map<AccountId, Seq<Dna>> {
        if self.owners.contains_key(a) {
            self.owners.insert(a, self.owners[a].push(d))
        } else {
            self.owners.insert(a, seq![d])
        }
    }

    /// The lists after every occurrence of `d` leaves the list of `a`, if `a`
    /// has one.
    pub open spec fn owners_remove(self, a: AccountId, d: Dna) -> Map<AccountId, Seq<Dna>> {
        if self.owners.contains_key(a) {
            self.owners.insert(a, without(self.owners[a], d))
        } else {
            self.owners
        }
    }

    /// The state after a DNA was drawn: the nonce moved on and `seed` was
    /// published.
    pub open spec fn after_gen_dna(self, seed: Dna) -> KittyState {
        KittyState {
            nonce: next_nonce(self.nonce),
            events: self.events.push(Event::DnaGenerated(seed)),
            ..self
        }
    }

    /// The refusal that a creation by `owner` meets, if any.
    pub open spec fn create_error(self, owner: AccountId) -> Option<Error> {
        if self.quantity == u32::MAX {
            Some(Error::StorageOverflow)
        } else if !self.has_room(owner) {
            Some(Error::ExceedLimit)
        } else {
            None
        }
    }

    /// The state after a creation by `owner` succeeded with DNA `dna`, where
    /// `seed` is the published seed and `created` the time of creation.
    pub open spec fn after_create(
        self,
        owner: AccountId,
        price: u32,
        dna: Dna,
        seed: Dna,
        created: Moment,
    ) -> KittyState {
        KittyState {
            nonce: next_nonce(self.nonce),
            quantity: (self.quantity + 1) as u32,
            kitties: self.kitties.insert(
                dna,
                Kitty { dna, price, gender: Gender::Male, owner, created_date: created },
            ),
            owners: self.owners_add(owner, dna),
            limit: self.limit,
            events: self.events.push(Event::DnaGenerated(seed)).push(
                Event::KittyCreated(dna, owner),
            ),
        }
    }

    /// The refusal that a move of `dna` from `owner` to `new_owner` meets,
    /// checked in this order, if any.
    pub open spec fn change_owner_error(
        self,
        owner: AccountId,
        dna: Dna,
        new_owner: AccountId,
    ) -> Option<Error> {
        if owner == new_owner {
            Some(Error::DuplicatedOwner)
        } else if !self.kitties.contains_key(dna) {
            Some(Error::NoneValue)
        } else if !self.owners.contains_key(owner) {
            Some(Error::MoveValueNotExist)
        } else if self.kitties[dna].owner != owner {
            Some(Error::MoveValueNotExist)
        } else if !self.has_room(new_owner) {
            Some(Error::ExceedLimit)
        } else {
            None
        }
    }

    /// The state after `dna` moved from `owner` to `new_owner`.
    pub open spec fn after_change_owner(
        self,
        owner: AccountId,
        dna: Dna,
        new_owner: AccountId,
    ) -> KittyState {
        let moved = KittyState { owners: self.owners_remove(owner, dna), ..self };
        KittyState {
            kitties: self.kitties.insert(dna, Kitty { owner: new_owner, ..self.kitties[dna] }),
            owners: moved.owners_add(new_owner, dna),
            events: self.events.push(Event::KittyChangeOwner(dna, owner, new_owner)),
            ..self
        }
    }
}

} // verus!
