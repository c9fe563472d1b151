//! Packing of gray-level pixel buffers into the controller's one-bit RAM planes.
use vstd::prelude::*;

verus! {

/// Whether bit `k` of `byte` is set, counting from the most significant bit.
pub open spec fn bit_set(byte: u8, k: int) -> bool {
    byte & (0x80u8 >> (k as u8)) != 0
}

/// Whether the bit of pixel `i` is set in a packed plane: eight pixels per
/// byte, the first pixel in the most significant bit.
pub open spec fn plane_bit(plane: Seq<u8>, i: int) -> bool {
    bit_set(plane[i / 8], i % 8)
}

/// Number of bytes of a plane that holds `pixels` pixels.
pub open spec fn plane_len(pixels: nat) -> nat {
    (pixels + 7) / 8
}

/// Whether a pixel's bit is set: where `level & select` is zero when
/// `when_clear` holds, and where it is not zero otherwise.
pub open spec fn pixel_on(level: u8, select: u8, when_clear: bool) -> bool {
    (level & select == 0) == when_clear
}

/// `plane` packs one bit per pixel of `pixels`, set as `pixel_on` says, and
/// the bits past the last pixel are clear.
pub open spec fn packs(plane: Seq<u8>, pixels: Seq<u8>, select: u8, when_clear: bool) -> bool {
    &&& plane.len() == plane_len(pixels.len())
    &&& forall|i: int|
        0 <= i < plane.len() * 8 ==> #[trigger] plane_bit(plane, i) == (i < pixels.len()
            && pixel_on(pixels[i], select, when_clear))
}

/// The two planes of a four-level frame: register 1 has a pixel's bit set
/// where bit 0 of its level is clear, register 2 where bit 1 is clear.
pub open spec fn four_level_planes(pixels: Seq<u8>, plane1: Seq<u8>, plane2: Seq<u8>) -> bool {
    packs(plane1, pixels, 1, true) && packs(plane2, pixels, 2, true)
}

/// The plane of a two-level frame: a pixel's bit is set where its level is
/// odd (white) and clear where it is even (black).
pub open spec fn monochrome_plane(pixels: Seq<u8>, plane: Seq<u8>) -> bool {
    packs(plane, pixels, 1, false)
}

/// The level that the bits of pixel `i` in two planes select.
pub open spec fn level_at(plane1: Seq<u8>, plane2: Seq<u8>, i: int) -> u8 {
    ((if plane_bit(plane1, i) { 0u8 } else { 1u8 }) + (if plane_bit(plane2, i) { 0u8 } else { 2u8 })) as u8
}

proof fn lemma_set_bit(acc: u8, j: u8, k: u8)
    by (bit_vector)
    requires
        j < 8,
        k < 8,
    ensures
        ((acc | (0x80u8 >> j)) & (0x80u8 >> k) != 0) == (k == j || acc & (0x80u8 >> k) != 0),
{
}

proof fn lemma_zero_bits(k: u8)
    by (bit_vector)
    requires
        k < 8,
    ensures
        0u8 & (0x80u8 >> k) == 0,
{
}

fn pack(pixels: &Vec<u8>, select: u8, when_clear: bool) -> (plane: Vec<u8>)
    ensures
        packs(plane@, pixels@, select, when_clear),
{
    let n = pixels.len();
    let mut plane: Vec<u8> = Vec::new();
    let mut acc: u8 = 0;
    let mut i: usize = 0;
    assert forall|k: int| 0 <= k < 8 implies !#[trigger] bit_set(acc, k) by {
        lemma_zero_bits(k as u8);
    }
    while i < n
        invariant
            n == pixels@.len(),
            i <= n,
            plane@.len() == i / 8,
            forall|q: int|
                0 <= q < plane@.len() * 8 ==> #[trigger] plane_bit(plane@, q) == pixel_on(
                    pixels@[q],
                    select,
                    when_clear,
                ),
            forall|k: int|
                0 <= k < 8 ==> #[trigger] bit_set(acc, k) == (k < i % 8 && pixel_on(
                    pixels@[(i / 8) * 8 + k],
                    select,
                    when_clear,
                )),
        decreases n - i,
    {
        let j: u8 = (i % 8) as u8;
        let ghost old_acc = acc;
        if (pixels[i] & select == 0) == when_clear {
            acc = acc | (0x80u8 >> j);
            assert forall|k: int| 0 <= k < 8 implies #[trigger] bit_set(acc, k) == (k == j
                || bit_set(old_acc, k)) by {
                lemma_set_bit(old_acc, j, k as u8);
            }
        }
        assert(forall|k: int| 0 <= k < 8 ==> #[trigger] bit_set(acc, k) == (k <= j && pixel_on(
            pixels@[(i / 8) * 8 + k],
            select,
            when_clear,
        )));
        if j == 7 {
            let ghost old_plane = plane@;
            plane.push(acc);
            assert forall|q: int| 0 <= q < plane@.len() * 8 implies #[trigger] plane_bit(
                plane@,
                q,
            ) == pixel_on(pixels@[q], select, when_clear) by {
                if q < old_plane.len() * 8 {
                    assert(plane_bit(old_plane, q) == pixel_on(pixels@[q], select, when_clear));
                    assert(plane@[q / 8] == old_plane[q / 8]);
                } else {
                    assert(q / 8 == i / 8);
                    assert((i / 8) * 8 + q % 8 == q);
                    assert(plane@[q / 8] == acc);
                    assert(bit_set(acc, q % 8) == pixel_on(pixels@[q], select, when_clear));
                }
            }
            acc = 0;
            assert forall|k: int| 0 <= k < 8 implies !#[trigger] bit_set(acc, k) by {
                lemma_zero_bits(k as u8);
            }
        }
        i = i + 1;
    }
    let ghost full = plane@;
    if n % 8 != 0 {
        plane.push(acc);
    }
    assert forall|q: int| 0 <= q < plane@.len() * 8 implies #[trigger] plane_bit(plane@, q) == (q
        < pixels@.len() && pixel_on(pixels@[q], select, when_clear)) by {
        if q < full.len() * 8 {
            assert(plane_bit(full, q) == pixel_on(pixels@[q], select, when_clear));
            assert(plane@[q / 8] == full[q / 8]);
        } else {
            assert(q / 8 == n / 8);
            assert((n / 8) * 8 + q % 8 == q);
            assert(plane@[q / 8] == acc);
            assert(bit_set(acc, q % 8) == (q % 8 < n % 8 && pixel_on(
                pixels@[(n / 8) * 8 + q % 8],
                select,
                when_clear,
            )));
        }
    }
    plane
}

proof fn lemma_byte_from_bits(x: u8, y: u8)
    by (bit_vector)
    requires
        (x & (0x80u8 >> 0u8) != 0) == (y & (0x80u8 >> 0u8) != 0),
        (x & (0x80u8 >> 1u8) != 0) == (y & (0x80u8 >> 1u8) != 0),
        (x & (0x80u8 >> 2u8) != 0) == (y & (0x80u8 >> 2u8) != 0),
        (x & (0x80u8 >> 3u8) != 0) == (y & (0x80u8 >> 3u8) != 0),
        (x & (0x80u8 >> 4u8) != 0) == (y & (0x80u8 >> 4u8) != 0),
        (x & (0x80u8 >> 5u8) != 0) == (y & (0x80u8 >> 5u8) != 0),
        (x & (0x80u8 >> 6u8) != 0) == (y & (0x80u8 >> 6u8) != 0),
        (x & (0x80u8 >> 7u8) != 0) == (y & (0x80u8 >> 7u8) != 0),
    ensures
        x == y,
{
}

/// A plane is determined by the pixels it packs: two planes that pack the
/// same pixels under the same rule are equal.
pub proof fn lemma_packs_unique(
    a: Seq<u8>,
    b: Seq<u8>,
    pixels: Seq<u8>,
    select: u8,
    when_clear: bool,
)
    requires
        packs(a, pixels, select, when_clear),
        packs(b, pixels, select, when_clear),
    ensures
        a == b,
{
    assert forall|j: int| 0 <= j < a.len() implies a[j] == b[j] by {
        assert forall|k: int| 0 <= k < 8 implies bit_set(a[j], k) == bit_set(b[j], k) by {
            assert((8 * j + k) / 8 == j && (8 * j + k) % 8 == k);
            assert(plane_bit(a, 8 * j + k) == plane_bit(b, 8 * j + k));
        }
        assert(bit_set(a[j], 0) == bit_set(b[j], 0));
        assert(bit_set(a[j], 1) == bit_set(b[j], 1));
        assert(bit_set(a[j], 2) == bit_set(b[j], 2));
        assert(bit_set(a[j], 3) == bit_set(b[j], 3));
        assert(bit_set(a[j], 4) == bit_set(b[j], 4));
        assert(bit_set(a[j], 5) == bit_set(b[j], 5));
        assert(bit_set(a[j], 6) == bit_set(b[j], 6));
        assert(bit_set(a[j], 7) == bit_set(b[j], 7));
        lemma_byte_from_bits(a[j], b[j]);
    }
    assert(a =~= b);
}

/// Packs a four-level buffer (levels `0..4`, row-major) into the planes for
/// RAM register 1 and RAM register 2.
pub fn encode_four_level(pixels: &Vec<u8>) -> (planes: (Vec<u8>, Vec<u8>))
    ensures
        four_level_planes(pixels@, planes.0@, planes.1@),
{
    (pack(pixels, 1, true), pack(pixels, 2, true))
}

/// Packs a two-level buffer (levels `0..2`, row-major) into a single plane,
/// which is written to both RAM registers.
pub fn encode_monochrome(pixels: &Vec<u8>) -> (plane: Vec<u8>)
    ensures
        monochrome_plane(pixels@, plane@),
{
    pack(pixels, 1, false)
}

/// Reads back the level that two planes select for pixel `index`.
pub fn decode_level(plane1: &Vec<u8>, plane2: &Vec<u8>, index: usize) -> (level: u8)
    requires
        index / 8 < plane1@.len(),
        index / 8 < plane2@.len(),
    ensures
        level == level_at(plane1@, plane2@, index as int),
{
    let mask: u8 = 0x80u8 >> ((index % 8) as u8);
    let low: u8 = if plane1[index / 8] & mask != 0 { 0 } else { 1 };
    let high: u8 = if plane2[index / 8] & mask != 0 { 0 } else { 2 };
    low + high
}

proof fn lemma_level_bits(x: u8)
    by (bit_vector)
    requires
        x < 4,
    ensures
        (if x & 1 == 0 { 0u8 } else { 1u8 }) + (if x & 2 == 0 { 0u8 } else { 2u8 }) == x,
{
}

proof fn lemma_odd_bit(x: u8)
    by (bit_vector)
    requires
        x < 2,
    ensures
        (x & 1 != 0) == (x == 1),
{
}

/// Every four-level buffer survives encoding: the two planes have one byte for
/// each eight pixels, rounded up, and the bits of each pixel in them select
/// that pixel's level.
pub proof fn lemma_four_level_round_trip(pixels: Seq<u8>, plane1: Seq<u8>, plane2: Seq<u8>)
    requires
        forall|i: int| 0 <= i < pixels.len() ==> pixels[i] < 4,
        four_level_planes(pixels, plane1, plane2),
    ensures
        plane1.len() == plane_len(pixels.len()),
        plane2.len() == plane_len(pixels.len()),
        forall|i: int| 0 <= i < pixels.len() ==> #[trigger] level_at(plane1, plane2, i) == pixels[i],
{
    assert forall|i: int| 0 <= i < pixels.len() implies #[trigger] level_at(plane1, plane2, i)
        == pixels[i] by {
        assert(plane_bit(plane1, i) == (pixels[i] & 1 == 0));
        assert(plane_bit(plane2, i) == (pixels[i] & 2 == 0));
        lemma_level_bits(pixels[i]);
    }
}

/// Every two-level buffer survives encoding: the plane has one byte for each
/// eight pixels, rounded up, and a pixel's bit is set exactly where its level is 1.
pub proof fn lemma_monochrome_round_trip(pixels: Seq<u8>, plane: Seq<u8>)
    requires
        forall|i: int| 0 <= i < pixels.len() ==> pixels[i] < 2,
        monochrome_plane(pixels, plane),
    ensures
        plane.len() == plane_len(pixels.len()),
        forall|i: int| 0 <= i < pixels.len() ==> #[trigger] plane_bit(plane, i) == (pixels[i] == 1),
{
    assert forall|i: int| 0 <= i < pixels.len() implies #[trigger] plane_bit(plane, i) == (pixels[i]
        == 1) by {
        assert(plane_bit(plane, i) == (pixels[i] & 1 != 0));
        lemma_odd_bit(pixels[i]);
    }
}

} // verus!
