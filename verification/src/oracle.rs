use vstd::prelude::*;

verus! {

/// The 8-byte tag that opens a well-formed randomness account.
pub open spec fn randomness_discriminator() -> Seq<u8> {
    seq![10u8, 66u8, 229u8, 135u8, 220u8, 239u8, 217u8, 114u8]
}

/// The 64-bit little-endian value held at offset `off` of `data`.
pub open spec fn u64_le_at(data: Seq<u8>, off: int) -> u64 {
    (data[off] as int + data[off + 1] as int * 0x100 + data[off + 2] as int * 0x1_0000 + data[off
        + 3] as int * 0x100_0000 + data[off + 4] as int * 0x1_0000_0000 + data[off
        + 5] as int * 0x100_0000_0000 + data[off + 6] as int * 0x1_0000_0000_0000 + data[off
        + 7] as int * 0x100_0000_0000_0000) as u64
}

/// Whether raw account bytes are a well-formed randomness account: the
/// discriminator tag followed by the oracle's fixed 400-byte record.
pub open spec fn oracle_account_ok(data: Seq<u8>) -> bool {
    data.len() >= 408 && data.subrange(0, 8) == randomness_discriminator()
}

/// The slot at which the oracle committed its seed, read from well-formed
/// account bytes.
pub open spec fn oracle_seed_slot(data: Seq<u8>) -> u64 {
    u64_le_at(data, 104)
}

/// The slot at which the oracle revealed its value, read from well-formed
/// account bytes.
pub open spec fn oracle_reveal_slot(data: Seq<u8>) -> u64 {
    u64_le_at(data, 144)
}

/// The 32-byte revealed value, read from well-formed account bytes.
pub open spec fn oracle_value(data: Seq<u8>) -> Seq<u8> {
    data.subrange(152, 184)
}

/// What the oracle's randomness account exposes, as plain values.
pub struct OracleView {
    pub seed_slot: u64,
    pub reveal_slot: u64,
    pub value: Vec<u8>,
}

/// Relies on `switchboard_on_demand::accounts::RandomnessAccountData::parse`:
/// it accepts exactly the bytes that open with the discriminator tag and are
/// long enough for the fixed plain record behind it, in which `seed_slot`,
/// `reveal_slot` and the 32-byte revealed `value` sit at fixed little-endian
/// offsets (104, 144 and 152 counted from the start of the account). The
/// bytes are copied into 64-bit-aligned storage first, so that the outcome
/// depends on their values alone.
#[verifier::external_body]
pub fn parse_oracle_account(data: &Vec<u8>) -> (r: Option<OracleView>)
    ensures
        r is Some <==> oracle_account_ok(data@),
        (r matches Some(v) ==> v.seed_slot == oracle_seed_slot(data@) && v.reveal_slot
            == oracle_reveal_slot(data@) && v.value@ == oracle_value(data@)),
{
    let mut words: Vec<u64> = vec![0u64; (data.len() + 7) / 8];
    let bytes: &mut [u8] = bytemuck::cast_slice_mut(&mut words);
    bytes[..data.len()].copy_from_slice(data);
    let cell = std::cell::RefCell::new(&mut bytes[..data.len()]);
    let parsed = switchboard_on_demand::accounts::RandomnessAccountData::parse(
        cell.borrow(),
    ).ok()?;
    Some(
        OracleView {
            seed_slot: parsed.seed_slot,
            reveal_slot: parsed.reveal_slot,
            value: parsed.value.to_vec(),
        },
    )
}

} // verus!
