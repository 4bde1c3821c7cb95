//! The icon-file container: a six-byte directory header recording an
//! image count, one sixteen-byte directory entry per image with its byte
//! size and offset, followed by the concatenated image payloads.
//!
//! The renderer consumes extracted icon bytes in this layout; these
//! functions let a consumer check that a byte sequence is such a
//! container before handing it on.

use vstd::prelude::*;

verus! {

/// The little-endian sixteen-bit value at offset `i`.
pub open spec fn u16_le(b: Seq<u8>, i: int) -> int {
    b[i] + 256 * b[i + 1]
}

/// The little-endian thirty-two-bit value at offset `i`.
pub open spec fn u32_le(b: Seq<u8>, i: int) -> int {
    b[i] + 256 * b[i + 1] + 65536 * b[i + 2] + 16777216 * b[i + 3]
}

/// The declared image count of the container.
pub open spec fn ico_count(b: Seq<u8>) -> int {
    u16_le(b, 4)
}

/// The declared byte size of image `k`.
pub open spec fn entry_size(b: Seq<u8>, k: int) -> int {
    u32_le(b, 6 + 16 * k + 8)
}

/// The declared byte offset of image `k`.
pub open spec fn entry_offset(b: Seq<u8>, k: int) -> int {
    u32_le(b, 6 + 16 * k + 12)
}

/// The sum of the declared sizes of the first `n` images.
pub open spec fn sum_sizes(b: Seq<u8>, n: int) -> int
    decreases n,
{
    if n <= 0 {
        0
    } else {
        sum_sizes(b, n - 1) + entry_size(b, n - 1)
    }
}

/// A well-formed icon container: zero reserved field, icon type, a
/// directory that fits, every image placed directly after the one before
/// it starting right behind the directory, and a total length matching
/// the directory overhead plus the declared image sizes.
pub open spec fn ico_well_formed(b: Seq<u8>) -> bool {
    &&& b.len() >= 6
    &&& u16_le(b, 0) == 0
    &&& u16_le(b, 2) == 1
    &&& 6 + 16 * ico_count(b) <= b.len()
    &&& (forall|k: int|
        0 <= k < ico_count(b) ==> #[trigger] entry_offset(b, k)
            == 6 + 16 * ico_count(b) + sum_sizes(b, k))
    &&& b.len() == 6 + 16 * ico_count(b) + sum_sizes(b, ico_count(b))
}

/// Each declared size is under two to the thirty-second, so the sum of
/// `n` of them is bounded.
pub proof fn lemma_sum_sizes_bound(b: Seq<u8>, n: int)
    requires
        n >= 0,
    ensures
        0 <= sum_sizes(b, n) <= n * 0xFFFFFFFF,
    decreases n,
{
    if n > 0 {
        lemma_sum_sizes_bound(b, n - 1);
    }
}

/// The sixteen-bit read behind `u16_le`.
fn read_u16(data: &Vec<u8>, i: usize) -> (r: u16)
    requires
        i + 2 <= data@.len(),
    ensures
        r == u16_le(data@, i as int),
{
    let n = data.len();
    assert(i + 1 < n);
    data[i] as u16 + (data[i + 1] as u16) * 256
}

/// The thirty-two-bit read behind `u32_le`.
fn read_u32(data: &Vec<u8>, i: usize) -> (r: u32)
    requires
        i + 4 <= data@.len(),
    ensures
        r == u32_le(data@, i as int),
{
    let n = data.len();
    assert(i + 3 < n);
    data[i] as u32 + (data[i + 1] as u32) * 256 + (data[i + 2] as u32) * 65536
        + (data[i + 3] as u32) * 16777216
}

/// The image count a container declares, or nothing when the bytes are
/// shorter than the directory header.
pub fn ico_image_count(data: &Vec<u8>) -> (r: Option<u16>)
    ensures
        match r {
            Some(c) => data@.len() >= 6 && c == ico_count(data@),
            None => data@.len() < 6,
        },
{
    if data.len() < 6 {
        None
    } else {
        Some(read_u16(data, 4))
    }
}

/// Whether the bytes form a well-formed icon container.
pub fn ico_well_formed_check(data: &Vec<u8>) -> (r: bool)
    ensures
        r == ico_well_formed(data@),
{
    if data.len() < 6 {
        return false;
    }
    if read_u16(data, 0) != 0 {
        return false;
    }
    if read_u16(data, 2) != 1 {
        return false;
    }
    let count: usize = read_u16(data, 4) as usize;
    if data.len() < 6 + 16 * count {
        return false;
    }
    let mut expected: u64 = (6 + 16 * count) as u64;
    let mut k: usize = 0;
    while k < count
        invariant
            k <= count,
            count == ico_count(data@),
            count <= 0xFFFF,
            data@.len() >= 6 + 16 * count,
            u16_le(data@, 0) == 0,
            u16_le(data@, 2) == 1,
            expected == 6 + 16 * count + sum_sizes(data@, k as int),
            forall|j: int|
                0 <= j < k ==> #[trigger] entry_offset(data@, j)
                    == 6 + 16 * (count as int) + sum_sizes(data@, j),
        decreases count - k,
    {
        proof {
            lemma_sum_sizes_bound(data@, k as int);
        }
        let off = read_u32(data, 6 + 16 * k + 12);
        assert(off == entry_offset(data@, k as int));
        if off as u64 != expected {
            return false;
        }
        let size = read_u32(data, 6 + 16 * k + 8);
        assert(size == entry_size(data@, k as int));
        proof {
            lemma_sum_sizes_bound(data@, k as int + 1);
        }
        expected = expected + size as u64;
        k = k + 1;
    }
    proof {
        lemma_sum_sizes_bound(data@, count as int);
    }
    (data.len() as u64) == expected
}

} // verus!
