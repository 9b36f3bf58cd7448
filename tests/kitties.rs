use pallet_kitties::nonce::encode_nonce;
use pallet_kitties::{Config, Dna, Error, Event, Gender, Moment, Pallet};

/// A deterministic host: the DNA is the subject read as a little-endian
/// number plus 1000, the seed is fixed, and the clock stands still.
struct Host;

impl Config for Host {
    fn random_seed(&self) -> Dna {
        7
    }

    fn random(&self, subject: &Vec<u8>) -> Dna {
        let mut v: u64 = 0;
        for (i, b) in subject.iter().enumerate() {
            v += (*b as u64) << (8 * i);
        }
        v + 1000
    }

    fn now(&self) -> Moment {
        42
    }
}

const A: u64 = 1;
const B: u64 = 2;
const C: u64 = 3;

fn registry(limit: u32) -> Pallet<Host> {
    Pallet::new(Host, limit)
}

#[test]
fn create_round_trip() {
    let mut p = registry(3);
    let dna = p.create_kitty(A, 100).unwrap();
    let kitty = p.kitties(dna).unwrap();
    assert_eq!(kitty.dna, dna);
    assert_eq!(kitty.price, 100);
    assert_eq!(kitty.gender, Gender::default());
    assert_eq!(kitty.gender, Gender::Male);
    assert_eq!(kitty.owner, A);
    assert_eq!(kitty.created_date, 42);
    assert_eq!(p.quantity(), 1);
    assert_eq!(p.kitty_owner(A), Some(vec![dna]));
}

#[test]
fn create_uses_encoded_nonce_as_subject() {
    let mut p = registry(5);
    let d0 = p.create_kitty(A, 1).unwrap();
    let d1 = p.create_kitty(A, 1).unwrap();
    assert_eq!(d0, 1000);
    assert_eq!(d1, 1001);
    assert_eq!(p.nonce(), 2);
}

#[test]
fn created_ids_are_distinct() {
    let mut p = registry(10);
    let mut seen: Vec<Dna> = Vec::new();
    for price in 0..10u32 {
        let dna = p.create_kitty(A, price).unwrap();
        assert!(!seen.contains(&dna));
        seen.push(dna);
    }
    assert_eq!(p.quantity(), 10);
    assert_eq!(p.kitty_owner(A), Some(seen));
}

#[test]
fn create_events() {
    let mut p = registry(3);
    let dna = p.create_kitty(A, 5).unwrap();
    assert_eq!(p.events(), vec![Event::DnaGenerated(7), Event::KittyCreated(dna, A)]);
}

#[test]
fn create_beyond_limit_is_refused_without_change() {
    let mut p = registry(2);
    p.create_kitty(A, 1).unwrap();
    p.create_kitty(A, 2).unwrap();
    let before = (p.nonce(), p.quantity(), p.kitty_owner(A), p.events());
    assert_eq!(p.create_kitty(A, 3), Err(Error::ExceedLimit));
    assert_eq!((p.nonce(), p.quantity(), p.kitty_owner(A), p.events()), before);
    assert_eq!(p.kitty_limit(), 2);
}

#[test]
fn self_transfer_is_refused() {
    let mut p = registry(3);
    let dna = p.create_kitty(A, 10).unwrap();
    let events = p.events();
    assert_eq!(p.change_owner(A, dna, A), Err(Error::DuplicatedOwner));
    assert_eq!(p.kitties(dna).unwrap().owner, A);
    assert_eq!(p.kitty_owner(A), Some(vec![dna]));
    assert_eq!(p.events(), events);
}

#[test]
fn transfer_of_missing_id_is_refused() {
    let mut p = registry(3);
    let dna = p.create_kitty(A, 10).unwrap();
    let missing = dna + 1;
    assert_eq!(p.change_owner(A, missing, B), Err(Error::NoneValue));
    assert_eq!(p.kitties(missing), None);
    assert_eq!(p.kitty_owner(A), Some(vec![dna]));
    assert_eq!(p.kitty_owner(B), None);
}

#[test]
fn transfer_without_source_list_is_refused() {
    let mut p = registry(3);
    let dna = p.create_kitty(A, 10).unwrap();
    assert_eq!(p.change_owner(C, dna, B), Err(Error::MoveValueNotExist));
    assert_eq!(p.kitties(dna).unwrap().owner, A);
    assert_eq!(p.kitty_owner(B), None);
}

#[test]
fn transfer_success() {
    let mut p = registry(3);
    let dna = p.create_kitty(A, 50).unwrap();
    assert_eq!(p.kitty_owner(A).unwrap().len(), 1);
    assert_eq!(p.change_owner(A, dna, B), Ok(()));
    let kitty = p.kitties(dna).unwrap();
    assert_eq!(kitty.owner, B);
    assert_eq!(kitty.price, 50);
    assert!(!p.kitty_owner(A).unwrap().contains(&dna));
    assert_eq!(p.kitty_owner(A), Some(vec![]));
    assert!(p.kitty_owner(B).unwrap().contains(&dna));
    assert_eq!(p.events().last(), Some(&Event::KittyChangeOwner(dna, A, B)));
    assert_eq!(p.quantity(), 1);
}

#[test]
fn transfer_into_full_list_changes_nothing() {
    let mut p = registry(2);
    let b0 = p.create_kitty(B, 1).unwrap();
    let b1 = p.create_kitty(B, 2).unwrap();
    let a0 = p.create_kitty(A, 3).unwrap();
    let before = (p.kitty_owner(A), p.kitty_owner(B), p.kitties(a0), p.events());
    assert_eq!(p.change_owner(A, a0, B), Err(Error::ExceedLimit));
    assert_eq!((p.kitty_owner(A), p.kitty_owner(B), p.kitties(a0), p.events()), before);
    assert_eq!(p.kitty_owner(B), Some(vec![b0, b1]));
}

#[test]
fn lists_stay_within_limit() {
    let mut p = registry(2);
    let accounts = [A, B, C];
    let mut owned: Vec<(Dna, u64)> = Vec::new();
    for round in 0..6u32 {
        let who = accounts[(round % 3) as usize];
        if let Ok(dna) = p.create_kitty(who, round) {
            owned.push((dna, who));
        }
    }
    for (dna, from) in owned.clone() {
        let _ = p.change_owner(from, dna, A);
    }
    for who in accounts {
        if let Some(list) = p.kitty_owner(who) {
            assert!(list.len() <= 2);
        }
    }
}

#[test]
fn owner_transfers_keep_each_id_in_one_list() {
    let mut p = registry(3);
    let a0 = p.create_kitty(A, 1).unwrap();
    let b0 = p.create_kitty(B, 2).unwrap();
    p.change_owner(A, a0, C).unwrap();
    p.change_owner(C, a0, B).unwrap();
    p.change_owner(B, b0, A).unwrap();
    for dna in [a0, b0] {
        let holders: Vec<u64> = [A, B, C]
            .into_iter()
            .filter(|w| p.kitty_owner(*w).map_or(false, |l| l.contains(&dna)))
            .collect();
        assert_eq!(holders.len(), 1);
        assert_eq!(holders[0], p.kitties(dna).unwrap().owner);
    }
}

#[test]
fn transfer_by_non_owner_is_refused() {
    let mut p = registry(3);
    let c0 = p.create_kitty(C, 1).unwrap();
    let a0 = p.create_kitty(A, 2).unwrap();
    let events = p.events();
    assert_eq!(p.change_owner(A, c0, B), Err(Error::MoveValueNotExist));
    assert_eq!(p.kitties(c0).unwrap().owner, C);
    assert_eq!(p.kitty_owner(C), Some(vec![c0]));
    assert_eq!(p.kitty_owner(A), Some(vec![a0]));
    assert_eq!(p.kitty_owner(B), None);
    assert_eq!(p.events(), events);
}

#[test]
fn nonce_encoding_is_little_endian() {
    assert_eq!(encode_nonce(0x0102_0304), vec![4, 3, 2, 1]);
    assert_eq!(encode_nonce(0), vec![0, 0, 0, 0]);
    assert_eq!(encode_nonce(u32::MAX), vec![255, 255, 255, 255]);
}

#[test]
fn repeated_ids_are_removed_together() {
    let mut p = registry(3);
    let a0 = p.create_kitty(A, 1).unwrap();
    let a1 = p.create_kitty(A, 2).unwrap();
    p.change_owner(A, a0, B).unwrap();
    assert_eq!(p.kitty_owner(A), Some(vec![a1]));
    assert_eq!(p.kitty_owner(B), Some(vec![a0]));
}
