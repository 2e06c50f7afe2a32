//! Reading the price feed: the byte layout of the oracle's account, the median
//! of its three samples, and the rescaling of the price to the fixed-point scale.
//!
//! The account holds an 8-byte tag, the 32-byte identity of the feed's
//! authority, three 48-byte triplets (BTC, ETH, SOL), one byte of decimals and
//! one bump byte. A triplet holds three prices and then three timestamps, each
//! a signed 64-bit integer in little-endian order.

use vstd::prelude::*;
use vstd::slice::slice_subrange;
use vstd::arithmetic::power::pow;
use vstd::arithmetic::power::lemma_pow_increases;
use crate::address::Address;
use crate::error::ReaderError;
use crate::units::clamp_i64;
use crate::units::clamp_i64_spec;
use crate::units::div_toward_zero;
use crate::units::trunc_div;

verus! {

/// Oldest oracle sample, in seconds, that a snapshot or a settlement accepts.
pub const ORACLE_MAX_AGE_SECS: i64 = 90;

/// Bytes of the account's tag, skipped by every reader.
pub const ORACLE_TAG_LEN: usize = 8;

/// Bytes of the payload behind the tag.
pub const ORACLE_PAYLOAD_LEN: usize = 178;

/// Fewest bytes of an oracle account: tag and payload.
pub const ORACLE_ACCOUNT_LEN: usize = 186;

/// Three price samples and the three times at which they were taken.
#[derive(Clone, Copy, Debug)]
pub struct Triplet {
    pub param1: i64,
    pub param2: i64,
    pub param3: i64,
    pub ts1: i64,
    pub ts2: i64,
    pub ts3: i64,
}

/// The payload of the oracle's account.
#[derive(Clone, Copy, Debug)]
pub struct OracleStateMirror {
    pub update_authority: Address,
    pub btc: Triplet,
    pub eth: Triplet,
    pub sol: Triplet,
    pub decimals: u8,
    pub bump: u8,
}

/// The identity of the program that owns the oracle's account.
pub open spec fn oracle_program_id_spec() -> Seq<u8> {
    seq![
        91u8, 143u8, 177u8, 123u8, 160u8, 150u8, 153u8, 15u8, 32u8, 185u8, 160u8, 241u8, 67u8,
        237u8, 250u8, 65u8, 45u8, 121u8, 99u8, 167u8, 90u8, 149u8, 89u8, 187u8, 202u8, 63u8, 61u8,
        37u8, 91u8, 12u8, 24u8, 201u8,
    ]
}

/// The identity of the program that owns the oracle's account.
pub fn oracle_program_id() -> (id: Address)
    ensures
        id.bytes@ == oracle_program_id_spec(),
{
    let bytes: [u8; 32] = [
        91, 143, 177, 123, 160, 150, 153, 15, 32, 185, 160, 241, 67, 237, 250, 65, 45, 121, 99,
        167, 90, 149, 89, 187, 202, 63, 61, 37, 91, 12, 24, 201,
    ];
    assert(bytes@ =~= oracle_program_id_spec());
    Address { bytes }
}

/// The unsigned number that eight bytes spell in little-endian order.
pub open spec fn le_u64_spec(s: Seq<u8>) -> int {
    s[0] + 0x100 * (s[1] + 0x100 * (s[2] + 0x100 * (s[3] + 0x100 * (s[4] + 0x100 * (s[5] + 0x100
        * (s[6] + 0x100 * s[7]))))))
}

/// The signed number that eight bytes spell in little-endian two's complement.
pub open spec fn le_i64_spec(s: Seq<u8>) -> int {
    if le_u64_spec(s) >= 0x8000_0000_0000_0000 {
        le_u64_spec(s) - 0x1_0000_0000_0000_0000
    } else {
        le_u64_spec(s)
    }
}

/// The middle one of three values.
pub open spec fn median3_spec(a: i64, b: i64, c: i64) -> i64 {
    if (a <= b && b <= c) || (c <= b && b <= a) {
        b
    } else if (b <= a && a <= c) || (c <= a && a <= b) {
        a
    } else {
        c
    }
}

/// A raw price at `decimals` decimal places, brought to six places: the
/// quotient rounded toward zero and held to the range of `i64`.
pub open spec fn rescale_price_spec(p_raw: i64, decimals: u8) -> i64 {
    clamp_i64_spec(trunc_div(p_raw * 1_000_000, pow(10, decimals as nat)))
}

/// The triplet that starts at `offset` in `s`.
pub open spec fn triplet_at_spec(s: Seq<u8>, offset: int) -> Triplet {
    Triplet {
        param1: le_i64_spec(s.subrange(offset, offset + 8)) as i64,
        param2: le_i64_spec(s.subrange(offset + 8, offset + 16)) as i64,
        param3: le_i64_spec(s.subrange(offset + 16, offset + 24)) as i64,
        ts1: le_i64_spec(s.subrange(offset + 24, offset + 32)) as i64,
        ts2: le_i64_spec(s.subrange(offset + 32, offset + 40)) as i64,
        ts3: le_i64_spec(s.subrange(offset + 40, offset + 48)) as i64,
    }
}

/// The price and the time that an oracle account of at least
/// `ORACLE_ACCOUNT_LEN` bytes reports: the medians of the BTC samples, the
/// price brought to six decimal places.
pub open spec fn btc_price_spec(data: Seq<u8>) -> (i64, i64) {
    let btc = triplet_at_spec(data, 40);
    (
        rescale_price_spec(median3_spec(btc.param1, btc.param2, btc.param3), data[184]),
        median3_spec(btc.ts1, btc.ts2, btc.ts3),
    )
}

/// Whether a sample taken at `ts` is fresh at `now`.
pub open spec fn is_fresh_spec(now: i64, ts: i64) -> bool {
    now - ts <= ORACLE_MAX_AGE_SECS
}

/// The middle one of three values.
pub fn median3_i64(a: i64, b: i64, c: i64) -> (m: i64)
    ensures
        m == median3_spec(a, b, c),
        m == a || m == b || m == c,
        (a <= m && b <= m) || (a <= m && c <= m) || (b <= m && c <= m),
        (a >= m && b >= m) || (a >= m && c >= m) || (b >= m && c >= m),
{
    if (a <= b && b <= c) || (c <= b && b <= a) {
        b
    } else if (b <= a && a <= c) || (c <= a && a <= b) {
        a
    } else {
        c
    }
}

/// The middle one of three values.
pub fn median3(a: i64, b: i64, c: i64) -> (m: i64)
    ensures
        m == median3_spec(a, b, c),
{
    median3_i64(a, b, c)
}

/// Reads the signed 64-bit integer that starts at `offset`.
pub fn read_i64_le(data: &[u8], offset: usize) -> (v: i64)
    requires
        offset + 8 <= data.len(),
    ensures
        v == le_i64_spec(data@.subrange(offset as int, offset + 8)),
{
    let ghost s = data@.subrange(offset as int, offset + 8);
    assert(forall|k: int| 0 <= k < 8 ==> s[k] == data@[offset + k]);
    let mut u: u64 = data[offset + 7] as u64;
    u = u * 256 + data[offset + 6] as u64;
    u = u * 256 + data[offset + 5] as u64;
    u = u * 256 + data[offset + 4] as u64;
    u = u * 256 + data[offset + 3] as u64;
    u = u * 256 + data[offset + 2] as u64;
    u = u * 256 + data[offset + 1] as u64;
    u = u * 256 + data[offset] as u64;
    assert(u == le_u64_spec(s));
    if u >= 0x8000_0000_0000_0000 {
        let low: u64 = u - 0x8000_0000_0000_0000;
        (low as i64) + i64::MIN
    } else {
        u as i64
    }
}

/// Reads the triplet that starts at `offset`.
pub fn read_triplet(data: &[u8], offset: usize) -> (t: Triplet)
    requires
        offset + 48 <= data.len(),
    ensures
        t == triplet_at_spec(data@, offset as int),
{
    Triplet {
        param1: read_i64_le(data, offset),
        param2: read_i64_le(data, offset + 8),
        param3: read_i64_le(data, offset + 16),
        ts1: read_i64_le(data, offset + 24),
        ts2: read_i64_le(data, offset + 32),
        ts3: read_i64_le(data, offset + 40),
    }
}

proof fn lemma_pow10_26()
    ensures
        pow(10, 26) == 100_000_000_000_000_000_000_000_000,
{
    reveal_with_fuel(pow, 27);
}

/// Brings a raw price at `decimals` decimal places to six places.
pub fn rescale_price(p_raw: i64, decimals: u8) -> (price_e6: i64)
    ensures
        price_e6 == rescale_price_spec(p_raw, decimals),
{
    let num: i128 = (p_raw as i128) * 1_000_000;
    if decimals >= 26 {
        proof {
            lemma_pow10_26();
            lemma_pow_increases(10, 26, decimals as nat);
            let d = pow(10, decimals as nat);
            assert(d > num && d > -num);
            assert(trunc_div(num as int, d) == 0) by (nonlinear_arith)
                requires
                    d > num,
                    d > -num,
                    d > 0,
            ;
        }
        return 0;
    }
    let mut scale: i128 = 1;
    let mut i: u8 = 0;
    proof {
        reveal_with_fuel(pow, 1);
        lemma_pow10_26();
    }
    while i < decimals
        invariant
            i <= decimals < 26,
            scale == pow(10, i as nat),
            1 <= scale,
            pow(10, 26) == 100_000_000_000_000_000_000_000_000,
        decreases decimals - i,
    {
        proof {
            reveal_with_fuel(pow, 2);
            lemma_pow_increases(10, (i + 1) as nat, 26);
            assert(pow(10, (i + 1) as nat) == 10 * pow(10, i as nat));
        }
        scale = scale * 10;
        i += 1;
    }
    clamp_i64(div_toward_zero(num, scale))
}

/// Whether `state` is what `payload` spells, field by field.
pub open spec fn mirrors_payload_spec(state: OracleStateMirror, payload: Seq<u8>) -> bool {
    &&& state.update_authority.bytes@ == payload.subrange(0, 32)
    &&& state.btc == triplet_at_spec(payload, 32)
    &&& state.eth == triplet_at_spec(payload, 80)
    &&& state.sol == triplet_at_spec(payload, 128)
    &&& state.decimals == payload[176]
    &&& state.bump == payload[177]
}

/// Decodes the payload of the oracle's account: the bytes behind the tag.
/// It is refused unless it has exactly `ORACLE_PAYLOAD_LEN` bytes.
pub fn decode_oracle_state(payload: &[u8]) -> (r: Result<OracleStateMirror, ReaderError>)
    ensures
        payload.len() != ORACLE_PAYLOAD_LEN ==> r == Err::<OracleStateMirror, ReaderError>(
            ReaderError::DeserializeFail,
        ),
        payload.len() == ORACLE_PAYLOAD_LEN ==> r.is_ok() && mirrors_payload_spec(
            r.unwrap(),
            payload@,
        ),
{
    if payload.len() != ORACLE_PAYLOAD_LEN {
        return Err(ReaderError::DeserializeFail);
    }
    let mut bytes: [u8; 32] = [0u8; 32];
    let mut i: usize = 0;
    while i < 32
        invariant
            i <= 32,
            payload.len() == ORACLE_PAYLOAD_LEN,
            forall|k: int| 0 <= k < i ==> bytes@[k] == payload@[k],
        decreases 32 - i,
    {
        bytes[i] = payload[i];
        i += 1;
    }
    assert(bytes@ =~= payload@.subrange(0, 32));
    Ok(
        OracleStateMirror {
            update_authority: Address { bytes },
            btc: read_triplet(payload, 32),
            eth: read_triplet(payload, 80),
            sol: read_triplet(payload, 128),
            decimals: payload[176],
            bump: payload[177],
        },
    )
}

/// What reading the oracle's account for display yields: the account must
/// belong to the oracle program and hold its tag, and the payload behind the
/// tag must decode.
pub open spec fn log_oracle_check_spec(owner: Seq<u8>, data: Seq<u8>) -> Result<(), ReaderError> {
    if owner != oracle_program_id_spec() {
        Err(ReaderError::WrongOwner)
    } else if data.len() < ORACLE_TAG_LEN {
        Err(ReaderError::DataTooSmall)
    } else if data.len() != ORACLE_ACCOUNT_LEN {
        Err(ReaderError::DeserializeFail)
    } else {
        Ok(())
    }
}

/// Reads the oracle's account for display: the payload behind the tag, decoded.
pub fn log_oracle(owner: &Address, data: &[u8]) -> (r: Result<OracleStateMirror, ReaderError>)
    ensures
        match log_oracle_check_spec(owner.bytes@, data@) {
            Err(e) => r == Err::<OracleStateMirror, ReaderError>(e),
            Ok(()) => r.is_ok() && mirrors_payload_spec(r.unwrap(), data@.subrange(8, 186)),
        },
{
    if !owner.same(&oracle_program_id()) {
        return Err(ReaderError::WrongOwner);
    }
    if data.len() < ORACLE_TAG_LEN {
        return Err(ReaderError::DataTooSmall);
    }
    decode_oracle_state(slice_subrange(data, ORACLE_TAG_LEN, data.len()))
}

/// Reads the BTC price and its time from the oracle's account.
///
/// The account must belong to the oracle program and hold at least
/// `ORACLE_ACCOUNT_LEN` bytes. Price and time are the medians of their three
/// samples, taken independently; the price is brought to six decimal places.
pub fn read_btc_price_e6(owner: &Address, data: &[u8]) -> (r: Result<(i64, i64), ReaderError>)
    ensures
        r == read_btc_price_spec(owner.bytes@, data@),
{
    if !owner.same(&oracle_program_id()) {
        return Err(ReaderError::WrongOwner);
    }
    if data.len() < ORACLE_ACCOUNT_LEN {
        return Err(ReaderError::DataTooSmall);
    }
    let btc = read_triplet(data, 40);
    let decimals = data[184];
    let p_raw = median3_i64(btc.param1, btc.param2, btc.param3);
    let ts = median3_i64(btc.ts1, btc.ts2, btc.ts3);
    Ok((rescale_price(p_raw, decimals), ts))
}

/// What a read of the oracle's account yields: the refusal or the price and time.
pub open spec fn read_btc_price_spec(owner: Seq<u8>, data: Seq<u8>) -> Result<
    (i64, i64),
    ReaderError,
> {
    if owner != oracle_program_id_spec() {
        Err(ReaderError::WrongOwner)
    } else if data.len() < ORACLE_ACCOUNT_LEN {
        Err(ReaderError::DataTooSmall)
    } else {
        Ok(btc_price_spec(data))
    }
}

/// Refuses a sample that is older than `ORACLE_MAX_AGE_SECS` at `now`.
pub fn assert_fresh(now: i64, ts: i64) -> (r: Result<(), ReaderError>)
    ensures
        is_fresh_spec(now, ts) ==> r == Ok::<(), ReaderError>(()),
        !is_fresh_spec(now, ts) ==> r == Err::<(), ReaderError>(ReaderError::StaleOracle),
{
    if (now as i128) - (ts as i128) <= ORACLE_MAX_AGE_SECS as i128 {
        Ok(())
    } else {
        Err(ReaderError::StaleOracle)
    }
}

} // verus!
