//! The pool reserve record and its fixed 81-byte layout.

use crate::address::Address;
use crate::error::PoolError;
use vstd::prelude::*;

verus! {

/// The eight bytes of `value`, most significant first.
pub open spec fn spec_be_bytes(value: u64) -> Seq<u8> {
    let v1 = value / 256;
    let v2 = v1 / 256;
    let v3 = v2 / 256;
    let v4 = v3 / 256;
    let v5 = v4 / 256;
    let v6 = v5 / 256;
    let v7 = v6 / 256;
    seq![
        (v7 % 256) as u8,
        (v6 % 256) as u8,
        (v5 % 256) as u8,
        (v4 % 256) as u8,
        (v3 % 256) as u8,
        (v2 % 256) as u8,
        (v1 % 256) as u8,
        (value % 256) as u8,
    ]
}

/// The number that eight bytes spell, most significant first.
pub open spec fn spec_be_value(bytes: Seq<u8>) -> int
    recommends
        bytes.len() == 8,
{
    ((((((bytes[0] * 256 + bytes[1]) * 256 + bytes[2]) * 256 + bytes[3]) * 256 + bytes[4]) * 256
        + bytes[5]) * 256 + bytes[6]) * 256 + bytes[7]
}

/// Eight bytes always spell a number that fits 64 bits.
pub proof fn lemma_be_value_fits(bytes: Seq<u8>)
    requires
        bytes.len() == 8,
    ensures
        0 <= spec_be_value(bytes) <= u64::MAX,
{
}

/// Reading back the bytes of a number gives the number.
pub proof fn lemma_be_value_of_bytes(value: u64)
    ensures
        spec_be_bytes(value).len() == 8,
        spec_be_value(spec_be_bytes(value)) == value,
{
    let v1 = value / 256;
    let v2 = v1 / 256;
    let v3 = v2 / 256;
    let v4 = v3 / 256;
    let v5 = v4 / 256;
    let v6 = v5 / 256;
    let v7 = v6 / 256;
    assert(v7 < 256);
    assert(v6 == v7 * 256 + v6 % 256);
    assert(v5 == v6 * 256 + v5 % 256);
    assert(v4 == v5 * 256 + v4 % 256);
    assert(v3 == v4 * 256 + v3 % 256);
    assert(v2 == v3 * 256 + v2 % 256);
    assert(v1 == v2 * 256 + v1 % 256);
    assert(value == v1 * 256 + value % 256);
}

/// Writing out the number that eight bytes spell gives the bytes.
pub proof fn lemma_be_bytes_of_value(bytes: Seq<u8>)
    requires
        bytes.len() == 8,
    ensures
        spec_be_bytes(spec_be_value(bytes) as u64) == bytes,
{
    let h1 = bytes[0] * 256 + bytes[1];
    let h2 = h1 * 256 + bytes[2];
    let h3 = h2 * 256 + bytes[3];
    let h4 = h3 * 256 + bytes[4];
    let h5 = h4 * 256 + bytes[5];
    let h6 = h5 * 256 + bytes[6];
    let h7 = h6 * 256 + bytes[7];
    assert(h7 / 256 == h6 && h7 % 256 == bytes[7]);
    assert(h6 / 256 == h5 && h6 % 256 == bytes[6]);
    assert(h5 / 256 == h4 && h5 % 256 == bytes[5]);
    assert(h4 / 256 == h3 && h4 % 256 == bytes[4]);
    assert(h3 / 256 == h2 && h3 % 256 == bytes[3]);
    assert(h2 / 256 == h1 && h2 % 256 == bytes[2]);
    assert(h1 / 256 == bytes[0] && h1 % 256 == bytes[1]);
    assert(spec_be_bytes(h7 as u64) =~= bytes);
}

/// Reads a big-endian 64-bit number at `at`.
pub fn read_be_u64(src: &[u8], at: usize) -> (value: u64)
    requires
        at + 8 <= src@.len(),
    ensures
        value == spec_be_value(src@.subrange(at as int, at + 8)),
{
    let n = src.len();
    let ghost window = src@.subrange(at as int, at + 8);
    let mut value: u64 = src[at] as u64;
    assert(value == window[0]);
    value = value * 256 + src[at + 1] as u64;
    value = value * 256 + src[at + 2] as u64;
    value = value * 256 + src[at + 3] as u64;
    value = value * 256 + src[at + 4] as u64;
    value = value * 256 + src[at + 5] as u64;
    value = value * 256 + src[at + 6] as u64;
    value = value * 256 + src[at + 7] as u64;
    assert(src@[at + 1] == window[1] && src@[at + 2] == window[2] && src@[at + 3] == window[3]
        && src@[at + 4] == window[4] && src@[at + 5] == window[5] && src@[at + 6] == window[6]
        && src@[at + 7] == window[7]);
    value
}

/// Writes `value` as eight big-endian bytes at `at`.
pub fn write_be_u64(dst: &mut [u8], at: usize, value: u64)
    requires
        at + 8 <= old(dst)@.len(),
    ensures
        final(dst)@.len() == old(dst)@.len(),
        final(dst)@.subrange(at as int, at + 8) == spec_be_bytes(value),
        forall|j: int|
            0 <= j < old(dst)@.len() && !(at <= j < at + 8) ==> final(dst)@[j] == old(dst)@[j],
{
    let n = dst.len();
    let v1 = value / 256;
    let v2 = v1 / 256;
    let v3 = v2 / 256;
    let v4 = v3 / 256;
    let v5 = v4 / 256;
    let v6 = v5 / 256;
    let v7 = v6 / 256;
    dst[at] = (v7 % 256) as u8;
    dst[at + 1] = (v6 % 256) as u8;
    dst[at + 2] = (v5 % 256) as u8;
    dst[at + 3] = (v4 % 256) as u8;
    dst[at + 4] = (v3 % 256) as u8;
    dst[at + 5] = (v2 % 256) as u8;
    dst[at + 6] = (v1 % 256) as u8;
    dst[at + 7] = (value % 256) as u8;
    assert(dst@.subrange(at as int, at + 8) =~= spec_be_bytes(value));
}

/// Reads the 32-byte identity at `at`.
pub fn read_address(src: &[u8], at: usize) -> (address: Address)
    requires
        at + 32 <= src@.len(),
    ensures
        address@ == src@.subrange(at as int, at + 32),
{
    let n = src.len();
    let mut bytes = [0u8; 32];
    let mut i: usize = 0;
    while i < 32
        invariant
            i <= 32,
            at + 32 <= src@.len(),
            src@.len() == n,
            forall|j: int| 0 <= j < i ==> bytes@[j] == src@[at + j],
        decreases 32 - i,
    {
        bytes[i] = src[at + i];
        i += 1;
    }
    assert(bytes@ =~= src@.subrange(at as int, at + 32));
    Address::new(bytes)
}

/// Writes the 32 bytes of `address` at `at`.
pub fn write_address(dst: &mut [u8], at: usize, address: &Address)
    requires
        at + 32 <= old(dst)@.len(),
    ensures
        final(dst)@.len() == old(dst)@.len(),
        final(dst)@.subrange(at as int, at + 32) == address@,
        forall|j: int|
            0 <= j < old(dst)@.len() && !(at <= j < at + 32) ==> final(dst)@[j] == old(dst)@[j],
{
    let n = dst.len();
    let mut i: usize = 0;
    while i < 32
        invariant
            i <= 32,
            at + 32 <= dst@.len(),
            dst@.len() == n,
            dst@.len() == old(dst)@.len(),
            forall|j: int| 0 <= j < i ==> dst@[at + j] == address.bytes@[j],
            forall|j: int|
                0 <= j < dst@.len() && !(at <= j < at + 32) ==> dst@[j] == old(dst)@[j],
        decreases 32 - i,
    {
        dst[at + i] = address.bytes[i];
        i += 1;
    }
    assert(dst@.subrange(at as int, at + 32) =~= address@);
}

/// The pool reserve record: the two asset identities and their reserves.
#[derive(Debug, Clone, Copy, PartialEq, Eq)]
pub struct AMM {
    pub is_initialized: bool,
    pub x_mint: Address,
    pub x_amount: u64,
    pub y_mint: Address,
    pub y_amount: u64,
}

impl AMM {
    /// The size of the packed record in bytes.
    pub const LEN: usize = 81;

    /// A record pairs two different assets.
    pub open spec fn well_formed(self) -> bool {
        self.x_mint != self.y_mint
    }

    /// The packed record: the flag, then each identity followed by its
    /// reserve, big-endian.
    pub open spec fn spec_pack(self) -> Seq<u8> {
        seq![if self.is_initialized { 1u8 } else { 0u8 }] + self.x_mint@ + spec_be_bytes(
            self.x_amount,
        ) + self.y_mint@ + spec_be_bytes(self.y_amount)
    }

    /// The record that the first 81 bytes of `src` spell, or
    /// `InvalidAccountData` where the flag byte is neither 0 nor 1.
    pub open spec fn spec_unpack_from_slice(src: Seq<u8>) -> Result<AMM, PoolError>
        recommends
            src.len() >= 81,
    {
        if src[0] > 1 {
            Err(PoolError::InvalidAccountData)
        } else {
            Ok(
                AMM {
                    is_initialized: src[0] == 1,
                    x_mint: Address::spec_from_bytes(src.subrange(1, 33)),
                    x_amount: spec_be_value(src.subrange(33, 41)) as u64,
                    y_mint: Address::spec_from_bytes(src.subrange(41, 73)),
                    y_amount: spec_be_value(src.subrange(73, 81)) as u64,
                },
            )
        }
    }

    /// As `spec_unpack_from_slice`, for input of exactly 81 bytes; any
    /// other length is `InvalidAccountData`.
    pub open spec fn spec_unpack_unchecked(input: Seq<u8>) -> Result<AMM, PoolError> {
        if input.len() != 81 {
            Err(PoolError::InvalidAccountData)
        } else {
            AMM::spec_unpack_from_slice(input)
        }
    }

    /// As `spec_unpack_unchecked`, but a record whose flag is unset is
    /// `UninitializedAccount`.
    pub open spec fn spec_unpack(input: Seq<u8>) -> Result<AMM, PoolError> {
        match AMM::spec_unpack_unchecked(input) {
            Ok(record) => if record.is_initialized {
                Ok(record)
            } else {
                Err(PoolError::UninitializedAccount)
            },
            Err(e) => Err(e),
        }
    }

    /// Whether the record has been initialized.
    pub fn is_initialized(&self) -> (b: bool)
        ensures
            b == self.is_initialized,
    {
        self.is_initialized
    }

    /// Decodes the record that the first 81 bytes of `src` hold.
    pub fn unpack_from_slice(src: &[u8]) -> (r: Result<AMM, PoolError>)
        requires
            src@.len() >= 81,
        ensures
            r == AMM::spec_unpack_from_slice(src@),
    {
        let flag = src[0];
        if flag > 1 {
            return Err(PoolError::InvalidAccountData);
        }
        let x_mint = read_address(src, 1);
        let x_amount = read_be_u64(src, 33);
        let y_mint = read_address(src, 41);
        let y_amount = read_be_u64(src, 73);
        proof {
            Address::lemma_from_bytes_of_view(x_mint);
            Address::lemma_from_bytes_of_view(y_mint);
        }
        Ok(AMM { is_initialized: flag == 1, x_mint, x_amount, y_mint, y_amount })
    }

    /// Writes the packed record over the first 81 bytes of `dst` and leaves
    /// the rest as it was.
    pub fn pack_into_slice(&self, dst: &mut [u8])
        requires
            old(dst)@.len() >= 81,
        ensures
            final(dst)@.len() == old(dst)@.len(),
            final(dst)@.subrange(0, 81) == self.spec_pack(),
            final(dst)@.subrange(81, old(dst)@.len() as int) == old(dst)@.subrange(
                81,
                old(dst)@.len() as int,
            ),
    {
        dst[0] = if self.is_initialized { 1u8 } else { 0u8 };
        write_address(dst, 1, &self.x_mint);
        write_be_u64(dst, 33, self.x_amount);
        write_address(dst, 41, &self.y_mint);
        write_be_u64(dst, 73, self.y_amount);
        proof {
            let out = dst@;
            let packed = self.spec_pack();
            assert(spec_be_bytes(self.x_amount).len() == 8);
            assert(spec_be_bytes(self.y_amount).len() == 8);
            assert(packed.len() == 81);
            assert forall|j: int| 0 <= j < 81 implies out[j] == packed[j] by {
                if j == 0 {
                } else if j < 33 {
                    assert(out[j] == out.subrange(1, 33)[j - 1]);
                } else if j < 41 {
                    assert(out[j] == out.subrange(33, 41)[j - 33]);
                } else if j < 73 {
                    assert(out[j] == out.subrange(41, 73)[j - 41]);
                } else {
                    assert(out[j] == out.subrange(73, 81)[j - 73]);
                }
            }
            assert(out.subrange(0, 81) =~= packed);
            assert(out.subrange(81, out.len() as int) =~= old(dst)@.subrange(
                81,
                old(dst)@.len() as int,
            ));
        }
    }

    /// Decodes a record from exactly 81 bytes, initialized or not.
    pub fn unpack_unchecked(input: &[u8]) -> (r: Result<AMM, PoolError>)
        ensures
            r == AMM::spec_unpack_unchecked(input@),
    {
        if input.len() != AMM::LEN {
            return Err(PoolError::InvalidAccountData);
        }
        AMM::unpack_from_slice(input)
    }

    /// Decodes an initialized record from exactly 81 bytes.
    pub fn unpack(input: &[u8]) -> (r: Result<AMM, PoolError>)
        ensures
            r == AMM::spec_unpack(input@),
    {
        match AMM::unpack_unchecked(input) {
            Ok(record) => {
                if record.is_initialized {
                    Ok(record)
                } else {
                    Err(PoolError::UninitializedAccount)
                }
            },
            Err(e) => Err(e),
        }
    }

    /// Writes the packed record into `dst`, which must be exactly 81 bytes
    /// long; any other length is `InvalidAccountData` and leaves `dst`
    /// untouched.
    pub fn pack(src: AMM, dst: &mut [u8]) -> (r: Result<(), PoolError>)
        ensures
            old(dst)@.len() == 81 ==> r == Ok::<(), PoolError>(()) && final(dst)@ == src.spec_pack(),
            old(dst)@.len() != 81 ==> r == Err::<(), PoolError>(PoolError::InvalidAccountData)
                && final(dst)@ == old(dst)@,
    {
        if dst.len() != AMM::LEN {
            return Err(PoolError::InvalidAccountData);
        }
        src.pack_into_slice(dst);
        assert(dst@ =~= dst@.subrange(0, 81));
        Ok(())
    }

    /// Packing a record and decoding the bytes gives the record back.
    pub proof fn lemma_unpack_of_pack(record: AMM)
        ensures
            record.spec_pack().len() == 81,
            AMM::spec_unpack_from_slice(record.spec_pack()) == Ok::<AMM, PoolError>(record),
            AMM::spec_unpack_unchecked(record.spec_pack()) == Ok::<AMM, PoolError>(record),
            record.is_initialized ==> AMM::spec_unpack(record.spec_pack()) == Ok::<
                AMM,
                PoolError,
            >(record),
    {
        let packed = record.spec_pack();
        lemma_be_value_of_bytes(record.x_amount);
        lemma_be_value_of_bytes(record.y_amount);
        assert(packed.subrange(1, 33) =~= record.x_mint@);
        assert(packed.subrange(33, 41) =~= spec_be_bytes(record.x_amount));
        assert(packed.subrange(41, 73) =~= record.y_mint@);
        assert(packed.subrange(73, 81) =~= spec_be_bytes(record.y_amount));
        Address::lemma_from_bytes_of_view(record.x_mint);
        Address::lemma_from_bytes_of_view(record.y_mint);
    }

    /// Any 81 bytes whose flag is 0 or 1 decode to a record that packs to
    /// the same bytes.
    pub proof fn lemma_pack_of_unpack(bytes: Seq<u8>)
        requires
            bytes.len() == 81,
            bytes[0] <= 1,
        ensures
            AMM::spec_unpack_unchecked(bytes) is Ok,
            AMM::spec_unpack_unchecked(bytes).unwrap().spec_pack() == bytes,
    {
        let record = AMM::spec_unpack_unchecked(bytes).unwrap();
        lemma_be_bytes_of_value(bytes.subrange(33, 41));
        lemma_be_bytes_of_value(bytes.subrange(73, 81));
        Address::lemma_view_of_from_bytes(bytes.subrange(1, 33));
        Address::lemma_view_of_from_bytes(bytes.subrange(41, 73));
        assert(record.spec_pack() =~= bytes);
    }
}

} // verus!
