use std::collections::HashMap;
use vstd::prelude::*;
use crate::nonce::{encode_nonce, nonce_bytes, next_nonce};
use crate::laws::lemma_change_owner_keeps_sound;
use crate::owned::{copy_vec, lemma_without, retain_other};
use crate::types::{AccountId, Config, Dna, Error, Event, Gender, Kitty, KittyState};

verus! {

broadcast use vstd::std_specs::hash::group_hash_axioms;

/// The registry: its counters, the kitties by DNA, the owners' lists, and the
/// host capabilities it was assembled with.
pub struct Pallet<T: Config> {
    config: T,
    nonce: u32,
    quantity: u32,
    kitties: HashMap<Dna, Kitty>,
    kitty_owner: HashMap<AccountId, Vec<Dna>>,
    limit: u32,
    events: Vec<Event>,
}

impl<T: Config> View for Pallet<T> {
    type V = KittyState;

    closed spec fn view(&self) -> KittyState {
        KittyState {
            nonce: self.nonce,
            quantity: self.quantity,
            kitties: self.kitties@,
            owners: self.kitty_owner@.map_values(|l: Vec<Dna>| l@),
            limit: self.limit,
            events: self.events@,
        }
    }
}

impl<T: Config> Pallet<T> {
    /// An empty registry whose owners may each hold up to `limit` kitties.
    pub fn new(config: T, limit: u32) -> (r: Self)
        requires
            limit >= 1,
        ensures
            r@ == (KittyState {
                nonce: 0,
                quantity: 0,
                kitties: Map::empty(),
                owners: Map::empty(),
                limit,
                events: Seq::empty(),
            }),
            r@.wf(),
            r@.sound(),
    {
        let r = Pallet {
            config,
            nonce: 0,
            quantity: 0,
            kitties: HashMap::new(),
            kitty_owner: HashMap::new(),
            limit,
            events: Vec::new(),
        };
        assert(r@.owners =~= Map::empty());
        r
    }

    /// Whether `a` may receive one more kitty.
    fn has_room(&self, a: AccountId) -> (r: bool)
        ensures
            r == self@.has_room(a),
    {
        match self.kitty_owner.get(&a) {
            Some(l) => l.len() < self.limit as usize,
            None => true,
        }
    }

    /// Appends `d` to the list of `a`, making the list if `a` has none.
    fn add_owned(&mut self, a: AccountId, d: Dna)
        requires
            old(self)@.has_room(a),
        ensures
            final(self)@ == (KittyState { owners: old(self)@.owners_add(a, d), ..old(self)@ }),
    {
        let ghost before = self@;
        let list = match self.kitty_owner.remove(&a) {
            Some(l) => {
                let mut l = l;
                l.push(d);
                l
            },
            None => {
                let mut l: Vec<Dna> = Vec::new();
                l.push(d);
                assert(l@ =~= seq![d]);
                l
            },
        };
        assert(before.owners.contains_key(a) ==> list@ == before.owners[a].push(d));
        assert(!before.owners.contains_key(a) ==> list@ == seq![d]);
        self.kitty_owner.insert(a, list);
        assert(self@.owners =~= before.owners_add(a, d));
    }

    /// Takes `d` out of the list of `a`; nothing happens where `a` has no list.
    fn remove_owned(&mut self, a: AccountId, d: Dna)
        ensures
            final(self)@ == (KittyState { owners: old(self)@.owners_remove(a, d), ..old(self)@ }),
    {
        let ghost before = self@;
        match self.kitty_owner.remove(&a) {
            Some(l) => {
                let mut l = l;
                retain_other(&mut l, d);
                self.kitty_owner.insert(a, l);
                assert(self@.owners =~= before.owners_remove(a, d));
            },
            None => {
                assert(self@.owners =~= before.owners);
            },
        }
    }

    /// The encoding of the current nonce; the stored nonce moves on by one,
    /// wrapping at `u32::MAX`.
    fn encode_and_update_nonce(&mut self) -> (r: Vec<u8>)
        ensures
            r@ == nonce_bytes(old(self)@.nonce),
            final(self)@ == (KittyState { nonce: next_nonce(old(self)@.nonce), ..old(self)@ }),
    {
        let nonce = self.nonce;
        self.nonce = if nonce == u32::MAX {
            0
        } else {
            nonce + 1
        };
        encode_nonce(nonce)
    }

    /// The gender of a new kitty.
    fn gen_gender() -> (r: Result<Gender, Error>)
        ensures
            r == Ok::<Gender, Error>(Gender::Male),
    {
        Ok(Gender::Male)
    }

    /// A new DNA, drawn from the randomness source with the encoded nonce as
    /// subject. A fresh seed that plays no part in the DNA is published.
    fn gen_dna(&mut self) -> (r: Result<Dna, Error>)
        ensures
            r is Ok,
            exists|seed: Dna| final(self)@ == #[trigger] old(self)@.after_gen_dna(seed),
    {
        let subject = self.encode_and_update_nonce();
        let seed = self.config.random_seed();
        let dna = self.config.random(&subject);
        self.events.push(Event::DnaGenerated(seed));
        assert(self@ == old(self)@.after_gen_dna(seed));
        Ok(dna)
    }

    /// Creates a kitty for `owner` at `price` and returns its DNA.
    ///
    /// Refused with `StorageOverflow` when the kitty counter is at its maximum,
    /// else with `ExceedLimit` when `owner` already holds `limit` kitties.
    /// Identifiers are not checked for collisions: a DNA that is already
    /// registered is overwritten.
    pub fn create_kitty(&mut self, owner: AccountId, price: u32) -> (r: Result<Dna, Error>)
        requires
            old(self)@.wf(),
        ensures
            final(self)@.wf(),
            match r {
                Ok(dna) => {
                    &&& old(self)@.create_error(owner) is None
                    &&& exists|seed: Dna, created: u64|
                        final(self)@ == #[trigger] old(self)@.after_create(
                            owner,
                            price,
                            dna,
                            seed,
                            created,
                        )
                },
                Err(e) => {
                    &&& old(self)@.create_error(owner) == Some(e)
                    &&& final(self)@ == old(self)@
                },
            },
    {
        if self.quantity == u32::MAX {
            return Err(Error::StorageOverflow);
        }
        if !self.has_room(owner) {
            return Err(Error::ExceedLimit);
        }
        let ghost start = self@;
        let dna = self.gen_dna()?;
        let gender = Self::gen_gender()?;
        let ghost seed = choose|seed: Dna| self@ == #[trigger] start.after_gen_dna(seed);
        let kitty = Kitty { dna, owner, price, gender, created_date: self.config.now() };
        self.kitties.insert(dna, kitty);
        self.quantity = self.quantity + 1;
        self.add_owned(owner, dna);
        self.events.push(Event::KittyCreated(dna, owner));
        assert(self@ == start.after_create(owner, price, dna, seed, kitty.created_date));
        Ok(dna)
    }

    /// Moves the kitty `dna` to `new_owner`, on behalf of its owner `owner`.
    ///
    /// Refused, in this order: with `DuplicatedOwner` when `new_owner` is
    /// `owner`; with `NoneValue` when no kitty has this DNA; with
    /// `MoveValueNotExist` when `owner` has no list of kitties or does not
    /// own this one; with `ExceedLimit` when the list of `new_owner` is full.
    /// A full receiving list is refused with an error, as creation refuses
    /// it, rather than aborting the call. A move that is not refused keeps
    /// every listed kitty in the list of its owner alone.
    pub fn change_owner(&mut self, owner: AccountId, dna: Dna, new_owner: AccountId) -> (r: Result<
        (),
        Error,
    >)
        requires
            old(self)@.wf(),
        ensures
            final(self)@.wf(),
            old(self)@.sound() ==> final(self)@.sound(),
            match old(self)@.change_owner_error(owner, dna, new_owner) {
                Some(e) => r == Err::<(), Error>(e) && final(self)@ == old(self)@,
                None => r is Ok && final(self)@ == old(self)@.after_change_owner(
                    owner,
                    dna,
                    new_owner,
                ),
            },
    {
        if owner == new_owner {
            return Err(Error::DuplicatedOwner);
        }
        let kitty = match self.kitties.get(&dna) {
            Some(k) => *k,
            None => {
                return Err(Error::NoneValue);
            },
        };
        if !self.kitty_owner.contains_key(&owner) {
            return Err(Error::MoveValueNotExist);
        }
        if kitty.owner != owner {
            return Err(Error::MoveValueNotExist);
        }
        if !self.has_room(new_owner) {
            return Err(Error::ExceedLimit);
        }
        let ghost start = self@;
        let moved = Kitty { owner: new_owner, ..kitty };
        self.kitties.insert(dna, moved);
        self.remove_owned(owner, dna);
        proof {
            lemma_without(start.owners[owner], dna);
            assert(self@.wf());
        }
        assert(self@.has_room(new_owner));
        self.add_owned(new_owner, dna);
        self.events.push(Event::KittyChangeOwner(dna, owner, new_owner));
        assert(self@ == start.after_change_owner(owner, dna, new_owner));
        proof {
            if start.sound() {
                lemma_change_owner_keeps_sound(start, owner, dna, new_owner);
            }
        }
        Ok(())
    }

    /// The nonce that the next DNA draw will use.
    pub fn nonce(&self) -> (r: u32)
        ensures
            r == self@.nonce,
    {
        self.nonce
    }

    /// The number of kitties created so far.
    pub fn quantity(&self) -> (r: u32)
        ensures
            r == self@.quantity,
    {
        self.quantity
    }

    /// The largest number of kitties an owner may hold.
    pub fn kitty_limit(&self) -> (r: u32)
        ensures
            r == self@.limit,
    {
        self.limit
    }

    /// The kitty with this DNA, if there is one.
    pub fn kitties(&self, dna: Dna) -> (r: Option<Kitty>)
        ensures
            r == (if self@.kitties.contains_key(dna) {
                Some(self@.kitties[dna])
            } else {
                None
            }),
    {
        match self.kitties.get(&dna) {
            Some(k) => Some(*k),
            None => None,
        }
    }

    /// The DNAs that `owner` holds, oldest first, if it has a list.
    pub fn kitty_owner(&self, owner: AccountId) -> (r: Option<Vec<Dna>>)
        ensures
            match r {
                Some(l) => self@.owners.contains_key(owner) && l@ == self@.owners[owner],
                None => !self@.owners.contains_key(owner),
            },
    {
        match self.kitty_owner.get(&owner) {
            Some(l) => Some(copy_vec(l)),
            None => None,
        }
    }

    /// The notifications deposited so far, oldest first.
    pub fn events(&self) -> (r: Vec<Event>)
        ensures
            r@ == self@.events,
    {
        copy_vec(&self.events)
    }
}

} // verus!
