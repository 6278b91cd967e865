//! The seeds from which the programs derive their account addresses.
use vstd::bytes::{spec_u64_to_le_bytes, u64_to_le_bytes};
use vstd::prelude::*;
use vstd::utf8::encode_utf8;

use crate::address::Address;

verus! {

/// The bytes of `"poll_seed"`.
pub open spec fn poll_tag() -> Seq<u8> {
    seq![112u8, 111, 108, 108, 95, 115, 101, 101, 100]
}

/// The bytes of `"candidate_seed"`.
pub open spec fn candidate_tag() -> Seq<u8> {
    seq![99u8, 97, 110, 100, 105, 100, 97, 116, 101, 95, 115, 101, 101, 100]
}

/// The bytes of `"vote_seed"`.
pub open spec fn vote_tag() -> Seq<u8> {
    seq![118u8, 111, 116, 101, 95, 115, 101, 101, 100]
}

/// The bytes of `"manager_seed"`.
pub open spec fn manager_tag() -> Seq<u8> {
    seq![109u8, 97, 110, 97, 103, 101, 114, 95, 115, 101, 101, 100]
}

/// The bytes of `"poll_counter"`.
pub open spec fn poll_counter_tag() -> Seq<u8> {
    seq![112u8, 111, 108, 108, 95, 99, 111, 117, 110, 116, 101, 114]
}

/// Seeds of the poll counter account: the tag alone.
pub open spec fn spec_poll_counter_seeds() -> Seq<Seq<u8>> {
    seq![poll_counter_tag()]
}

/// Seeds of a poll account: the tag and the poll id in little-endian order.
pub open spec fn spec_poll_seeds(poll_id: u64) -> Seq<Seq<u8>> {
    seq![poll_tag(), spec_u64_to_le_bytes(poll_id)]
}

/// Seeds of a candidate account: the tag, the poll id in little-endian order
/// and the UTF-8 bytes of the candidate's name.
pub open spec fn spec_candidate_seeds(poll_id: u64, name: Seq<char>) -> Seq<Seq<u8>> {
    seq![candidate_tag(), spec_u64_to_le_bytes(poll_id), encode_utf8(name)]
}

/// Seeds of a participant's vote record: the tag, the poll id in
/// little-endian order and the participant's address.
pub open spec fn spec_vote_seeds(poll_id: u64, participant: Seq<u8>) -> Seq<Seq<u8>> {
    seq![vote_tag(), spec_u64_to_le_bytes(poll_id), participant]
}

/// Seeds of an administrator's manager account: the tag and the
/// administrator's address.
pub open spec fn spec_manager_seeds(authority: Seq<u8>) -> Seq<Seq<u8>> {
    seq![manager_tag(), authority]
}

/// A byte vector's deep view is its view.
proof fn lemma_bytes_deep_view(v: Vec<u8>)
    ensures
        v.deep_view() == v@,
{
    assert(v.deep_view() =~= v@);
}

/// A copy of a byte slice.
fn copy_bytes(s: &[u8]) -> (r: Vec<u8>)
    ensures
        r@ == s@,
{
    let mut r: Vec<u8> = Vec::new();
    let mut i: usize = 0;
    while i < s.len()
        invariant
            i <= s@.len(),
            r@ == s@.subrange(0, i as int),
        decreases s@.len() - i,
    {
        r.push(s[i]);
        i = i + 1;
        assert(r@ =~= s@.subrange(0, i as int));
    }
    assert(s@.subrange(0, s@.len() as int) =~= s@);
    r
}

/// Seeds of the poll with the given id.
pub fn poll_seeds(poll_id: u64) -> (r: Vec<Vec<u8>>)
    ensures
        r.deep_view() == spec_poll_seeds(poll_id),
{
    let mut r: Vec<Vec<u8>> = Vec::new();
    r.push(vec![112u8, 111, 108, 108, 95, 115, 101, 101, 100]);
    r.push(u64_to_le_bytes(poll_id));
    proof {
        lemma_bytes_deep_view(r@[0]); lemma_bytes_deep_view(r@[1]);
    }
    assert(r.deep_view() =~= spec_poll_seeds(poll_id));
    r
}

/// Seeds of the candidate `name` of the poll with the given id.
pub fn candidate_seeds(poll_id: u64, name: &String) -> (r: Vec<Vec<u8>>)
    ensures
        r.deep_view() == spec_candidate_seeds(poll_id, name@),
{
    let mut r: Vec<Vec<u8>> = Vec::new();
    r.push(vec![99u8, 97, 110, 100, 105, 100, 97, 116, 101, 95, 115, 101, 101, 100]);
    r.push(u64_to_le_bytes(poll_id));
    r.push(copy_bytes(name.as_str().as_bytes()));
    proof {
        lemma_bytes_deep_view(r@[0]); lemma_bytes_deep_view(r@[1]); lemma_bytes_deep_view(r@[2]);
    }
    assert(r.deep_view() =~= spec_candidate_seeds(poll_id, name@));
    r
}

/// Seeds of the vote record of `participant` in the poll with the given id.
pub fn vote_seeds(poll_id: u64, participant: &Address) -> (r: Vec<Vec<u8>>)
    ensures
        r.deep_view() == spec_vote_seeds(poll_id, participant@),
{
    let mut r: Vec<Vec<u8>> = Vec::new();
    r.push(vec![118u8, 111, 116, 101, 95, 115, 101, 101, 100]);
    r.push(u64_to_le_bytes(poll_id));
    r.push(copy_bytes(&participant.bytes));
    proof {
        lemma_bytes_deep_view(r@[0]); lemma_bytes_deep_view(r@[1]); lemma_bytes_deep_view(r@[2]);
    }
    assert(r.deep_view() =~= spec_vote_seeds(poll_id, participant@));
    r
}

/// Seeds of the poll counter account.
pub fn poll_counter_seeds() -> (r: Vec<Vec<u8>>)
    ensures
        r.deep_view() == spec_poll_counter_seeds(),
{
    let mut r: Vec<Vec<u8>> = Vec::new();
    r.push(vec![112u8, 111, 108, 108, 95, 99, 111, 117, 110, 116, 101, 114]);
    proof {
        lemma_bytes_deep_view(r@[0]);
    }
    assert(r.deep_view() =~= spec_poll_counter_seeds());
    r
}

/// Seeds of the manager account of `authority`.
pub fn manager_seeds(authority: &Address) -> (r: Vec<Vec<u8>>)
    ensures
        r.deep_view() == spec_manager_seeds(authority@),
{
    let mut r: Vec<Vec<u8>> = Vec::new();
    r.push(vec![109u8, 97, 110, 97, 103, 101, 114, 95, 115, 101, 101, 100]);
    r.push(copy_bytes(&authority.bytes));
    proof {
        lemma_bytes_deep_view(r@[0]); lemma_bytes_deep_view(r@[1]);
    }
    assert(r.deep_view() =~= spec_manager_seeds(authority@));
    r
}

} // verus!
