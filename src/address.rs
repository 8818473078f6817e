//! Deterministic program addresses: the canonical salt ("bump") search.
use anchor_lang::solana_program::pubkey::Pubkey;
use vstd::prelude::*;

verus! {

/// A 32-byte ledger address (an account key or an application identity).
#[derive(Clone, Copy, Debug)]
pub struct Address {
    pub bytes: [u8; 32],
}

impl View for Address {
    type V = Seq<u8>;

    open spec fn view(&self) -> Seq<u8> {
        self.bytes@
    }
}

impl PartialEq for Address {
    fn eq(&self, other: &Address) -> (r: bool) {
        let mut i: usize = 0;
        while i < 32
            invariant
                i <= 32,
                forall|j: int| 0 <= j < i ==> self@[j] == other@[j],
            decreases 32 - i,
        {
            if self.bytes[i] != other.bytes[i] {
                return false;
            }
            i = i + 1;
        }
        proof {
            assert(self@ =~= other@);
        }
        true
    }
}

impl vstd::std_specs::cmp::PartialEqSpecImpl for Address {
    open spec fn obeys_eq_spec() -> bool {
        true
    }

    open spec fn eq_spec(&self, other: &Address) -> bool {
        self@ == other@
    }
}

impl Eq for Address {

}

/// The address that the host derives from `seeds` under `program_id`, or
/// `None` where the seeds are refused or the hash lies on the curve.
pub uninterp spec fn program_address(seeds: Seq<Seq<u8>>, program_id: Seq<u8>) -> Option<Seq<u8>>;

/// The seeds with a one-byte salt appended as a final seed.
pub open spec fn salted(seeds: Seq<Seq<u8>>, bump: u8) -> Seq<Seq<u8>> {
    seeds.push(seq![bump])
}

/// `bump` yields an off-curve address. Salt zero is never tried, as by the
/// host's own search.
pub open spec fn viable(seeds: Seq<Seq<u8>>, program_id: Seq<u8>, bump: u8) -> bool {
    1 <= bump && program_address(salted(seeds, bump), program_id) is Some
}

/// `r` is the outcome of the canonical search: the highest viable salt with
/// its address, or `None` where no salt is viable.
pub open spec fn is_canonical(
    seeds: Seq<Seq<u8>>,
    program_id: Seq<u8>,
    r: Option<(Seq<u8>, u8)>,
) -> bool {
    match r {
        Some((addr, bump)) => {
            &&& viable(seeds, program_id, bump)
            &&& program_address(salted(seeds, bump), program_id) == Some(addr)
            &&& forall|c: u8| bump < c ==> !viable(seeds, program_id, c)
        },
        None => forall|c: u8| !viable(seeds, program_id, c),
    }
}

/// The search's result over byte sequences.
pub open spec fn derivation_view(r: Option<(Address, u8)>) -> Option<(Seq<u8>, u8)> {
    match r {
        Some((a, b)) => Some((a@, b)),
        None => None,
    }
}

/// Relies on solana_program's `Pubkey::create_program_address` (re-exported by
/// anchor_lang): the SHA-256 of the seeds, the program id and a fixed marker,
/// refused when it is a curve point or the seeds are too many or too long.
/// The result depends on its arguments alone.
#[verifier::external_body]
fn create_program_address(seeds: &Vec<Vec<u8>>, bump: u8, program_id: &Address) -> (r:
    Option<Address>)
    ensures
        program_address(salted(seeds.deep_view(), bump), program_id@) == match r {
            Some(a) => Some(a@),
            None => None,
        },
{
    let salt = [bump];
    let mut refs: Vec<&[u8]> = seeds.iter().map(|s| s.as_slice()).collect();
    refs.push(&salt);
    let id = Pubkey::new_from_array(program_id.bytes);
    match Pubkey::create_program_address(&refs, &id) {
        Ok(k) => Some(Address { bytes: k.to_bytes() }),
        Err(_) => None,
    }
}

/// Searches salts from 255 downward and returns the first viable one with
/// its address: the canonical derivation of `seeds` under `program_id`.
pub fn find_program_address(seeds: &Vec<Vec<u8>>, program_id: &Address) -> (r:
    Option<(Address, u8)>)
    ensures
        is_canonical(seeds.deep_view(), program_id@, derivation_view(r)),
{
    let ghost sv = seeds.deep_view();
    let mut bump: u8 = 255;
    loop
        invariant
            1 <= bump,
            sv == seeds.deep_view(),
            forall|c: u8| bump < c ==> !viable(sv, program_id@, c),
        decreases bump,
    {
        match create_program_address(seeds, bump, program_id) {
            Some(a) => {
                return Some((a, bump));
            },
            None => {},
        }
        if bump == 1 {
            assert forall|c: u8| !viable(sv, program_id@, c) by {
                if 1 <= c && c <= 1 {
                    assert(c == bump);
                }
            }
            return None;
        }
        bump = bump - 1;
    }
}

/// The canonical derivation is deterministic: two outcomes of the search on
/// the same seeds and application identity are the same address and salt.
pub proof fn lemma_derivation_deterministic(
    seeds: Seq<Seq<u8>>,
    program_id: Seq<u8>,
    r1: Option<(Seq<u8>, u8)>,
    r2: Option<(Seq<u8>, u8)>,
)
    requires
        is_canonical(seeds, program_id, r1),
        is_canonical(seeds, program_id, r2),
    ensures
        r1 == r2,
{
    match (r1, r2) {
        (Some((a1, b1)), Some((a2, b2))) => {
            if b1 < b2 {
                assert(viable(seeds, program_id, b2));
            } else if b2 < b1 {
                assert(viable(seeds, program_id, b1));
            }
        },
        (Some((a1, b1)), None) => {
            assert(viable(seeds, program_id, b1));
        },
        (None, Some((a2, b2))) => {
            assert(viable(seeds, program_id, b2));
        },
        (None, None) => {},
    }
}

} // verus!
