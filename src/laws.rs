use vstd::prelude::*;
use crate::nonce::{lemma_nonce_bytes_injective, next_nonce, nonce_bytes};
use crate::owned::{lemma_without, without};
use crate::types::{AccountId, Dna, Error, KittyState, Moment};

verus! {

/// The nonce after `k` draws, starting from `n`.
pub open spec fn nonce_after(n: u32, k: nat) -> u32
    decreases k,
{
    if k == 0 {
        n
    } else {
        next_nonce(nonce_after(n, (k - 1) as nat))
    }
}

/// After `k` draws the nonce is `n + k` modulo 2^32.
pub proof fn lemma_nonce_after(n: u32, k: nat)
    ensures
        nonce_after(n, k) as int == (n as int + k) % 0x1_0000_0000,
    decreases k,
{
    if k > 0 {
        lemma_nonce_after(n, (k - 1) as nat);
    }
}

/// Within 2^32 successive draws, no two draws hand the randomness source the
/// same subject. Whether the DNAs differ then rests on the source alone.
pub proof fn lemma_draw_subjects_distinct(n: u32, i: nat, j: nat)
    requires
        i < j < 0x1_0000_0000,
    ensures
        nonce_bytes(nonce_after(n, i)) != nonce_bytes(nonce_after(n, j)),
{
    lemma_nonce_after(n, i);
    lemma_nonce_after(n, j);
    assert(nonce_after(n, i) != nonce_after(n, j));
    lemma_nonce_bytes_injective(nonce_after(n, i), nonce_after(n, j));
}

/// In a sound state no DNA stands in the lists of two different owners.
pub proof fn lemma_sound_exclusive(s: KittyState, a: AccountId, b: AccountId, d: Dna)
    requires
        s.sound(),
        a != b,
        s.owners.contains_key(a),
        s.owners[a].contains(d),
    ensures
        !(s.owners.contains_key(b) && s.owners[b].contains(d)),
{
    let i = choose|i: int| 0 <= i < s.owners[a].len() && s.owners[a][i] == d;
    assert(s.kitties[s.owners[a][i]].owner == a);
    if s.owners.contains_key(b) && s.owners[b].contains(d) {
        let j = choose|j: int| 0 <= j < s.owners[b].len() && s.owners[b][j] == d;
        assert(s.kitties[s.owners[b][j]].owner == b);
    }
}

/// A creation whose DNA is new keeps the lists sound.
pub proof fn lemma_create_keeps_sound(
    s: KittyState,
    owner: AccountId,
    price: u32,
    dna: Dna,
    seed: Dna,
    created: Moment,
)
    requires
        s.wf(),
        s.sound(),
        s.create_error(owner) is None,
        !s.kitties.contains_key(dna),
    ensures
        s.after_create(owner, price, dna, seed, created).sound(),
{
    let t = s.after_create(owner, price, dna, seed, created);
    assert forall|a: AccountId, i: int|
        t.owners.contains_key(a) && 0 <= i < t.owners[a].len() implies {
        &&& t.kitties.contains_key(#[trigger] t.owners[a][i])
        &&& t.kitties[t.owners[a][i]].owner == a
    } by {
        if a != owner {
            assert(t.owners[a][i] == s.owners[a][i]);
            assert(s.kitties.contains_key(s.owners[a][i]));
        } else if s.owners.contains_key(owner) && i < s.owners[owner].len() {
            assert(t.owners[a][i] == s.owners[a][i]);
            assert(s.kitties.contains_key(s.owners[a][i]));
        }
    }
}

/// A move that is not refused keeps the lists sound.
pub proof fn lemma_change_owner_keeps_sound(
    s: KittyState,
    owner: AccountId,
    dna: Dna,
    new_owner: AccountId,
)
    requires
        s.wf(),
        s.sound(),
        s.change_owner_error(owner, dna, new_owner) is None,
    ensures
        s.after_change_owner(owner, dna, new_owner).sound(),
{
    let t = s.after_change_owner(owner, dna, new_owner);
    lemma_without(s.owners[owner], dna);
    assert forall|a: AccountId, i: int|
        t.owners.contains_key(a) && 0 <= i < t.owners[a].len() implies {
        &&& t.kitties.contains_key(#[trigger] t.owners[a][i])
        &&& t.kitties[t.owners[a][i]].owner == a
    } by {
        let x = t.owners[a][i];
        if a == new_owner {
            if s.owners.contains_key(a) && i < s.owners[a].len() {
                assert(x == s.owners[a][i]);
                assert(s.kitties.contains_key(x) && s.kitties[x].owner == a);
            }
        } else if a == owner {
            assert(without(s.owners[owner], dna).contains(x));
            assert(x != dna);
            assert(s.owners[owner].contains(x));
            let j = choose|j: int| 0 <= j < s.owners[owner].len() && s.owners[owner][j] == x;
            assert(s.kitties.contains_key(s.owners[owner][j]));
        } else {
            assert(x == s.owners[a][i]);
            assert(s.kitties.contains_key(x) && s.kitties[x].owner == a);
            assert(x != dna);
        }
    }
}

/// A move of a DNA that names no kitty, to an account other than the one
/// making the call, is refused as not found.
pub proof fn lemma_missing_kitty_refused(
    s: KittyState,
    owner: AccountId,
    dna: Dna,
    new_owner: AccountId,
)
    requires
        owner != new_owner,
        !s.kitties.contains_key(dna),
    ensures
        s.change_owner_error(owner, dna, new_owner) == Some(Error::NoneValue),
{
}

} // verus!
