//! Principals and record addresses: 32-byte keys, and the deterministic
//! derivation of a record's address from its kind tag and identifying fields.

use vstd::bytes::{spec_u64_to_le_bytes, u64_to_le_bytes};
use vstd::prelude::*;
use vstd::utf8::encode_utf8;

verus! {

/// A 32-byte key. It names a principal (a farmer, a verifier, a validator), a
/// program, an identity token, or the place of a record in the store.
#[derive(Clone, Copy, Debug)]
pub struct Address {
    pub bytes: [u8; 32],
}

impl View for Address {
    type V = Seq<u8>;

    open spec fn view(&self) -> Seq<u8> {
        self.bytes@
    }
}

impl PartialEq for Address {
    /// Whether all 32 bytes agree.
    fn eq(&self, other: &Address) -> (r: bool) {
        let mut i: usize = 0;
        while i < 32
            invariant
                i <= 32,
                forall|j: int| 0 <= j < i ==> self.bytes[j] == other.bytes[j],
            decreases 32 - i,
        {
            if self.bytes[i] != other.bytes[i] {
                return false;
            }
            i += 1;
        }
        assert(self.bytes =~= other.bytes);
        true
    }
}

impl Eq for Address {

}

impl vstd::std_specs::cmp::PartialEqSpecImpl for Address {
    open spec fn obeys_eq_spec() -> bool {
        true
    }

    open spec fn eq_spec(&self, other: &Address) -> bool {
        *self == *other
    }
}

impl Address {
    /// The address made of the given bytes.
    pub fn new(bytes: [u8; 32]) -> (r: Address)
        ensures
            r.bytes == bytes,
    {
        Address { bytes }
    }

    /// The bytes of the address, as a seed for derivation.
    pub fn seed(&self) -> (r: Vec<u8>)
        ensures
            r@ == self@,
    {
        let mut out: Vec<u8> = Vec::new();
        let mut i: usize = 0;
        while i < 32
            invariant
                i <= 32,
                out@ == self@.subrange(0, i as int),
            decreases 32 - i,
        {
            out.push(self.bytes[i]);
            assert(out@ =~= self@.subrange(0, i + 1));
            i += 1;
        }
        assert(out@ =~= self@);
        out
    }

    /// The address in base-58 text.
    pub fn to_base58(&self) -> (r: String)
        ensures
            r@ == base58(self.bytes),
    {
        encode_base58(self)
    }
}

/// Two addresses with the same bytes are the same address.
pub proof fn lemma_address_by_bytes(a: Address, b: Address)
    ensures
        a@ == b@ <==> a == b,
{
    if a@ == b@ {
        assert(a.bytes =~= b.bytes);
    }
}

/// The address that the program `program_id` derives from `seeds`, with the
/// bump seed that was appended to reach it, or `None` where the seeds admit
/// no address.
pub uninterp spec fn program_address(seeds: Seq<Seq<u8>>, program_id: [u8; 32]) -> Option<
    ([u8; 32], u8),
>;

/// The base-58 text of 32 bytes.
pub uninterp spec fn base58(bytes: [u8; 32]) -> Seq<char>;

/// The seeds as sequences of bytes.
pub open spec fn seed_views(seeds: Seq<Vec<u8>>) -> Seq<Seq<u8>> {
    seeds.map_values(|seed: Vec<u8>| seed@)
}

/// Calls `Pubkey::try_find_program_address`, which searches the bump seeds
/// from 255 down for one with which the seeds and the program id hash to an
/// address off the curve. Taken on trust: that what it returns is
/// `program_address` of the seeds and the program id, which is to say that
/// it depends on these alone. Nothing is claimed of which address it is, nor
/// of when there is one.
#[verifier::external_body]
fn find_program_address(seeds: &Vec<Vec<u8>>, program_id: &Address) -> (r: Option<(Address, u8)>)
    ensures
        match r {
            Some((address, bump)) => program_address(seed_views(seeds@), program_id.bytes) == Some(
                (address.bytes, bump),
            ),
            None => program_address(seed_views(seeds@), program_id.bytes) is None,
        },
{
    let parts: Vec<&[u8]> = seeds.iter().map(|s| s.as_slice()).collect();
    let id = anchor_lang::prelude::Pubkey::new_from_array(program_id.bytes);
    match anchor_lang::prelude::Pubkey::try_find_program_address(&parts, &id) {
        Some((key, bump)) => Some((Address { bytes: key.to_bytes() }, bump)),
        None => None,
    }
}

/// Calls `Pubkey::to_string`, which writes the key's 32 bytes in base 58.
/// Taken on trust: that the text is `base58` of the bytes, which is to say
/// that it depends on the bytes alone.
#[verifier::external_body]
fn encode_base58(address: &Address) -> (r: String)
    ensures
        r@ == base58(address.bytes),
{
    anchor_lang::prelude::Pubkey::new_from_array(address.bytes).to_string()
}

/// Where a record with the given seeds stands under `program_id`: its address
/// and bump seed.
pub open spec fn derived(seeds: Seq<Seq<u8>>, program_id: Address) -> Option<(Address, u8)> {
    match program_address(seeds, program_id.bytes) {
        Some((bytes, bump)) => Some((Address { bytes }, bump)),
        None => None,
    }
}

/// Derives the address of a record from its seeds.
pub fn derive_address(seeds: &Vec<Vec<u8>>, program_id: &Address) -> (r: Option<(Address, u8)>)
    ensures
        r == derived(seed_views(seeds@), *program_id),
{
    find_program_address(seeds, program_id)
}

/// The bytes of a text seed: its UTF-8 encoding.
pub open spec fn text_seed(text: Seq<char>) -> Seq<u8> {
    encode_utf8(text)
}

/// The bytes of a timestamp seed: its eight bytes, least significant first.
pub open spec fn time_seed(timestamp: i64) -> Seq<u8> {
    spec_u64_to_le_bytes(timestamp as u64)
}

/// Kind tag of farm plot records.
pub const FARM_PLOT_TAG: &'static str = "farm_plot";

/// Kind tag of identity tokens.
pub const MINT_TAG: &'static str = "mint";

/// Kind tag of harvest batch records.
pub const HARVEST_BATCH_TAG: &'static str = "harvest_batch";

/// Kind tag of status update records.
pub const BATCH_UPDATE_TAG: &'static str = "batch_update";

/// Kind tag of verification records.
pub const VERIFICATION_TAG: &'static str = "verification";

/// Seeds of a record that one principal owns under an identifier of its own
/// choice: the kind tag, the identifier, the owner.
pub open spec fn owned_seeds(tag: Seq<char>, id: Seq<char>, owner: Address) -> Seq<Seq<u8>> {
    seq![text_seed(tag), text_seed(id), owner@]
}

/// Seeds of a farm plot record.
pub open spec fn farm_plot_seeds(plot_id: Seq<char>, farmer: Address) -> Seq<Seq<u8>> {
    owned_seeds(FARM_PLOT_TAG@, plot_id, farmer)
}

/// Seeds of the identity token of a plot.
pub open spec fn mint_seeds(plot_id: Seq<char>, farmer: Address) -> Seq<Seq<u8>> {
    owned_seeds(MINT_TAG@, plot_id, farmer)
}

/// Seeds of a harvest batch record.
pub open spec fn harvest_batch_seeds(batch_id: Seq<char>, farmer: Address) -> Seq<Seq<u8>> {
    owned_seeds(HARVEST_BATCH_TAG@, batch_id, farmer)
}

/// Seeds of a status update record.
pub open spec fn batch_update_seeds(batch_id: Seq<char>, update_timestamp: i64) -> Seq<Seq<u8>> {
    seq![text_seed(BATCH_UPDATE_TAG@), text_seed(batch_id), time_seed(update_timestamp)]
}

/// Seeds of a verification record.
pub open spec fn verification_seeds(
    farm_plot: Address,
    verifier: Address,
    verification_timestamp: i64,
) -> Seq<Seq<u8>> {
    seq![text_seed(VERIFICATION_TAG@), farm_plot@, verifier@, time_seed(verification_timestamp)]
}

/// Where the plot `plot_id` of `farmer` stands.
pub open spec fn farm_plot_address(program_id: Address, plot_id: Seq<char>, farmer: Address)
    -> Option<(Address, u8)> {
    derived(farm_plot_seeds(plot_id, farmer), program_id)
}

/// Where the identity token of the plot `plot_id` of `farmer` stands.
pub open spec fn mint_address(program_id: Address, plot_id: Seq<char>, farmer: Address)
    -> Option<(Address, u8)> {
    derived(mint_seeds(plot_id, farmer), program_id)
}

/// Where the batch `batch_id` of `farmer` stands.
pub open spec fn harvest_batch_address(program_id: Address, batch_id: Seq<char>, farmer: Address)
    -> Option<(Address, u8)> {
    derived(harvest_batch_seeds(batch_id, farmer), program_id)
}

/// Where the status update of the batch `batch_id` at `update_timestamp` stands.
pub open spec fn batch_update_address(
    program_id: Address,
    batch_id: Seq<char>,
    update_timestamp: i64,
) -> Option<(Address, u8)> {
    derived(batch_update_seeds(batch_id, update_timestamp), program_id)
}

/// Where the verification of `farm_plot` by `verifier` at
/// `verification_timestamp` stands.
pub open spec fn verification_address(
    program_id: Address,
    farm_plot: Address,
    verifier: Address,
    verification_timestamp: i64,
) -> Option<(Address, u8)> {
    derived(verification_seeds(farm_plot, verifier, verification_timestamp), program_id)
}

/// How many bytes a text takes as a seed.
pub fn text_len(text: &str) -> (r: usize)
    ensures
        r == text_seed(text@).len(),
{
    text.as_bytes().len()
}

/// The bytes of a text seed.
fn text_seed_of(text: &str) -> (r: Vec<u8>)
    ensures
        r@ == text_seed(text@),
{
    text.as_bytes_vec()
}

/// The bytes of a timestamp seed.
fn time_seed_of(timestamp: i64) -> (r: Vec<u8>)
    ensures
        r@ == time_seed(timestamp),
{
    u64_to_le_bytes(timestamp as u64)
}

/// Derives the address of a record that `owner` holds under `id`.
fn derive_owned(program_id: &Address, tag: &str, id: &str, owner: &Address) -> (r: Option<
    (Address, u8),
>)
    ensures
        r == derived(owned_seeds(tag@, id@, *owner), *program_id),
{
    let mut seeds: Vec<Vec<u8>> = Vec::new();
    seeds.push(text_seed_of(tag));
    seeds.push(text_seed_of(id));
    seeds.push(owner.seed());
    assert(seed_views(seeds@) =~= owned_seeds(tag@, id@, *owner));
    derive_address(&seeds, program_id)
}

/// Derives the address of the plot `plot_id` of `farmer`.
pub fn derive_farm_plot_address(program_id: &Address, plot_id: &str, farmer: &Address) -> (r:
    Option<(Address, u8)>)
    ensures
        r == farm_plot_address(*program_id, plot_id@, *farmer),
{
    derive_owned(program_id, FARM_PLOT_TAG, plot_id, farmer)
}

/// Derives the address of the identity token of the plot `plot_id` of `farmer`.
pub fn derive_mint_address(program_id: &Address, plot_id: &str, farmer: &Address) -> (r: Option<
    (Address, u8),
>)
    ensures
        r == mint_address(*program_id, plot_id@, *farmer),
{
    derive_owned(program_id, MINT_TAG, plot_id, farmer)
}

/// Derives the address of the batch `batch_id` of `farmer`.
pub fn derive_harvest_batch_address(program_id: &Address, batch_id: &str, farmer: &Address) -> (r:
    Option<(Address, u8)>)
    ensures
        r == harvest_batch_address(*program_id, batch_id@, *farmer),
{
    derive_owned(program_id, HARVEST_BATCH_TAG, batch_id, farmer)
}

/// Derives the address of the status update of the batch `batch_id` at
/// `update_timestamp`.
pub fn derive_batch_update_address(program_id: &Address, batch_id: &str, update_timestamp: i64)
    -> (r: Option<(Address, u8)>)
    ensures
        r == batch_update_address(*program_id, batch_id@, update_timestamp),
{
    let mut seeds: Vec<Vec<u8>> = Vec::new();
    seeds.push(text_seed_of(BATCH_UPDATE_TAG));
    seeds.push(text_seed_of(batch_id));
    seeds.push(time_seed_of(update_timestamp));
    assert(seed_views(seeds@) =~= batch_update_seeds(batch_id@, update_timestamp));
    derive_address(&seeds, program_id)
}

/// Derives the address of the verification of `farm_plot` by `verifier` at
/// `verification_timestamp`.
pub fn derive_verification_address(
    program_id: &Address,
    farm_plot: &Address,
    verifier: &Address,
    verification_timestamp: i64,
) -> (r: Option<(Address, u8)>)
    ensures
        r == verification_address(*program_id, *farm_plot, *verifier, verification_timestamp),
{
    let mut seeds: Vec<Vec<u8>> = Vec::new();
    seeds.push(text_seed_of(VERIFICATION_TAG));
    seeds.push(farm_plot.seed());
    seeds.push(verifier.seed());
    seeds.push(time_seed_of(verification_timestamp));
    assert(seed_views(seeds@) =~= verification_seeds(
        *farm_plot,
        *verifier,
        verification_timestamp,
    ));
    derive_address(&seeds, program_id)
}

} // verus!
