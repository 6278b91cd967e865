//! Account addresses and program-derived addresses.
use anchor_lang::prelude::Pubkey;
use vstd::prelude::*;

use crate::error::InstructionError;

verus! {

/// A 32-byte account address (a public key or a program-derived address).
#[derive(Debug, Clone, Copy, PartialEq, Eq)]
pub struct Address {
    pub bytes: [u8; 32],
}

impl View for Address {
    type V = Seq<u8>;

    open spec fn view(&self) -> Seq<u8> {
        self.bytes@
    }
}

impl Address {
    /// The address with the given bytes.
    pub fn new(bytes: [u8; 32]) -> (r: Address)
        ensures
            r@ == bytes@,
    {
        Address { bytes }
    }

    /// Whether two addresses are the same, byte for byte.
    pub fn equals(&self, other: &Address) -> (r: bool)
        ensures
            r == (self@ == other@),
    {
        broadcast use vstd::array::group_array_axioms;

        let mut i: usize = 0;
        while i < 32
            invariant
                i <= 32,
                self.bytes@.len() == 32,
                other.bytes@.len() == 32,
                forall|j: int| 0 <= j < i ==> self.bytes@[j] == other.bytes@[j],
            decreases 32 - i,
        {
            if self.bytes[i] != other.bytes[i] {
                return false;
            }
            i = i + 1;
        }
        assert(self.bytes@ =~= other.bytes@);
        true
    }
}

/// The program address, with its bump seed, that the Solana runtime derives
/// from a list of seeds and a program id: the first bump, counting down from
/// 255, for which the hash of the seeds, the bump and the program id is not a
/// point on the ed25519 curve.
pub uninterp spec fn derived_program_address(seeds: Seq<Seq<u8>>, program_id: Seq<u8>) -> Option<(Seq<u8>, u8)>;

/// The plain value of a derivation result.
pub open spec fn located(r: Option<(Address, u8)>) -> Option<(Seq<u8>, u8)> {
    match r {
        Some((a, bump)) => Some((a@, bump)),
        None => None,
    }
}

/// The runtime's limits on seeds: at most 15 seeds besides the bump seed,
/// each at most 32 bytes long.
pub open spec fn seeds_within_limits(seeds: Seq<Seq<u8>>) -> bool {
    &&& seeds.len() <= 15
    &&& forall|i: int| 0 <= i < seeds.len() ==> #[trigger] seeds[i].len() <= 32
}

/// Whether `address` is the program address derived from `seeds` under
/// `program_id`; no address is derived from seeds that break the limits.
pub open spec fn derives(seeds: Seq<Seq<u8>>, program_id: Seq<u8>, address: Seq<u8>) -> bool {
    &&& seeds_within_limits(seeds)
    &&& match derived_program_address(seeds, program_id) {
        Some((a, _)) => a == address,
        None => false,
    }
}

/// Whether the seeds keep to the runtime's limits.
pub fn within_limits(seeds: &Vec<Vec<u8>>) -> (r: bool)
    ensures
        r == seeds_within_limits(seeds.deep_view()),
{
    if seeds.len() > 15 {
        return false;
    }
    let mut i: usize = 0;
    while i < seeds.len()
        invariant
            i <= seeds@.len(),
            seeds@.len() <= 15,
            forall|j: int| 0 <= j < i ==> #[trigger] seeds.deep_view()[j].len() <= 32,
        decreases seeds@.len() - i,
    {
        proof {
            assert(seeds.deep_view()[i as int] == seeds@[i as int].deep_view());
            assert(seeds@[i as int].deep_view() =~= seeds@[i as int]@);
        }
        if seeds[i].len() > 32 {
            return false;
        }
        i = i + 1;
    }
    true
}

/// Calls `Pubkey::try_find_program_address` of the Solana SDK (re-exported by
/// `anchor_lang`), only on seeds within the runtime's limits.  Trusted: the
/// result is the named derivation of the seeds and the program id.
#[verifier::external_body]
fn find_program_address(seeds: &Vec<Vec<u8>>, program_id: &Address) -> (r: Option<(Address, u8)>)
    requires
        seeds_within_limits(seeds.deep_view()),
    ensures
        located(r) == derived_program_address(seeds.deep_view(), program_id@),
{
    let refs: Vec<&[u8]> = seeds.iter().map(|s| s.as_slice()).collect();
    match Pubkey::try_find_program_address(&refs, &Pubkey::new_from_array(program_id.bytes)) {
        Some((key, bump)) => Some((Address { bytes: key.to_bytes() }, bump)),
        None => None,
    }
}

/// Compares a derivation result with the address an account was given: the
/// bump seed when they agree, `ConstraintSeeds` otherwise.
pub fn match_derived(derived: Option<(Address, u8)>, address: &Address) -> (r: Result<u8, InstructionError>)
    ensures
        match derived {
            Some((a, bump)) => if a@ == address@ {
                r == Ok::<u8, InstructionError>(bump)
            } else {
                r == Err::<u8, InstructionError>(InstructionError::ConstraintSeeds)
            },
            None => r == Err::<u8, InstructionError>(InstructionError::ConstraintSeeds),
        },
{
    match derived {
        Some((a, bump)) => {
            if a.equals(address) {
                Ok(bump)
            } else {
                Err(InstructionError::ConstraintSeeds)
            }
        },
        None => Err(InstructionError::ConstraintSeeds),
    }
}

/// Checks that `address` is the program address of `seeds` under
/// `program_id`, as an account declared with these seeds must be.  Seeds
/// beyond the runtime's limits are refused before any derivation.
pub fn check_program_address(seeds: &Vec<Vec<u8>>, program_id: &Address, address: &Address) -> (r:
    Result<u8, InstructionError>)
    ensures
        r is Ok <==> derives(seeds.deep_view(), program_id@, address@),
        r matches Ok(bump) ==> derived_program_address(seeds.deep_view(), program_id@) == Some(
            (address@, bump),
        ),
        r is Err ==> r == Err::<u8, InstructionError>(InstructionError::ConstraintSeeds),
{
    if !within_limits(seeds) {
        return Err(InstructionError::ConstraintSeeds);
    }
    let derived = find_program_address(seeds, program_id);
    match_derived(derived, address)
}

} // verus!
