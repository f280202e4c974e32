use vstd::prelude::*;
use crate::board::Coordinates;
use parity_scale_codec::Encode;
use sp_runtime::traits::BlakeTwo256;

verus! {

/// Secret that a player mixes into a bomb's coordinates.
pub type HashSalt = [u8; 32];

/// A bomb commitment: the digest that stands for a bomb's coordinates and salt.
pub type HashedCoordinates = [u8; 32];

/// What `sp_io::hashing::blake2_256` returns for `data`.
pub uninterp spec fn blake2_256_of(data: Seq<u8>) -> Seq<u8>;

/// What `BlakeTwo256::hash` returns for `data`, as bytes.
pub uninterp spec fn blake_two_256_of(data: Seq<u8>) -> Seq<u8>;

/// Relies on `sp_io::hashing::blake2_256`: the BLAKE2b-256 digest of `data`, a function of
/// the bytes alone.
#[verifier::external_body]
fn blake2_256(data: &[u8]) -> (r: [u8; 32])
    ensures
        r@ == blake2_256_of(data@),
{
    sp_io::hashing::blake2_256(data)
}

/// Relies on `parity_scale_codec`'s `Encode` for `[T; N]`: an array of bytes is encoded as
/// those bytes in order, without a length prefix.
#[verifier::external_body]
fn encode_digest(digest: &[u8; 32]) -> (r: Vec<u8>)
    ensures
        r@ == digest@,
{
    digest.encode()
}

/// Relies on `<BlakeTwo256 as Hash>::hash` from `sp_runtime`: a 32-byte digest of `data`,
/// a function of the bytes alone, read here from the `H256` it returns.
#[verifier::external_body]
fn blake_two_256(data: &[u8]) -> (r: [u8; 32])
    ensures
        r@ == blake_two_256_of(data@),
{
    <BlakeTwo256 as sp_runtime::traits::Hash>::hash(data).0
}

/// The salt with the row written into byte 30 and the column into byte 31.
pub open spec fn salted_coordinates(coordinates: Coordinates, salt: HashSalt) -> Seq<u8> {
    salt@.update(30, coordinates.row).update(31, coordinates.col)
}

/// The commitment that stands for a bomb at `coordinates` hidden with `salt`: the salted
/// coordinates hashed with BLAKE2b-256, and that digest hashed again through its encoding.
pub open spec fn commitment(coordinates: Coordinates, salt: HashSalt) -> Seq<u8> {
    blake_two_256_of(blake2_256_of(salted_coordinates(coordinates, salt)))
}

/// Computes the commitment for a bomb at `coordinates` hidden with `salt`.
pub fn hash_coordinates(coordinates: Coordinates, salt: HashSalt) -> (r: HashedCoordinates)
    ensures
        r@ == commitment(coordinates, salt),
{
    let mut hashed_coordinates = salt;
    hashed_coordinates[30] = coordinates.row;
    hashed_coordinates[31] = coordinates.col;
    assert(hashed_coordinates@ =~= salted_coordinates(coordinates, salt));
    let choice_hashed = blake2_256(hashed_coordinates.as_slice());
    let encoded = encode_digest(&choice_hashed);
    blake_two_256(encoded.as_slice())
}

} // verus!
