//! Host-side image frames: raw 8-bit pixel data with its dimensions, capture
//! time and frame number, and generated test patterns.

use vstd::prelude::*;
use std::collections::hash_map::DefaultHasher;
use std::hash::{Hash, Hasher};
use std::time::Instant;

verus! {

#[verifier::external_type_specification]
#[verifier::external_body]
pub struct ExInstant(Instant);

/// Calls `Instant::now`: the current instant; nothing is known of it.
#[verifier::external_body]
fn instant_now() -> Instant {
    Instant::now()
}

/// Calls `<usize as Hash>::hash`, feeding `value` into `state`. What it writes
/// depends on the machine's word size and byte order; nothing is stated of it.
#[verifier::external_body]
fn hash_usize(value: usize, state: &mut DefaultHasher) {
    value.hash(state)
}

/// A grayscale frame: `width * height` bytes of pixel data in row-major order,
/// the instant it was made and a frame number.
pub struct Frame {
    pub data: Vec<u8>,
    pub width: usize,
    pub height: usize,
    pub timestamp: Instant,
    pub frame_id: u32,
}

/// Kind of generated test image.
#[derive(Debug, Clone, Copy)]
pub enum TestPattern {
    Gradient,
    Checkerboard,
    Noise,
}

/// Gradient pixel at column `x`, row `y`: `(x + y) mod 256`.
pub open spec fn gradient_pixel(x: int, y: int) -> u8 {
    ((x + y) % 256) as u8
}

/// Checkerboard pixel at column `x`, row `y`: squares of 32 by 32 pixels,
/// white (255) where the square's column and row indices have an even sum and
/// black (0) elsewhere.
pub open spec fn checker_pixel(x: int, y: int) -> u8 {
    if (x / 32 + y / 32) % 2 == 0 {
        255
    } else {
        0
    }
}

/// Pixel `i` of a `width`-wide gradient image.
pub open spec fn gradient_at(i: int, width: int) -> u8 {
    gradient_pixel(i % width, i / width)
}

/// Pixel `i` of a `width`-wide checkerboard image.
pub open spec fn checker_at(i: int, width: int) -> u8 {
    checker_pixel(i % width, i / width)
}

/// Pixel data of a generated `width * height` image of a pattern that is fixed
/// by its inputs: the gradient or the checkerboard. (Noise pixels come from a
/// hash whose bytes depend on the machine, so they have no statement here.)
pub open spec fn pattern_pixels(width: nat, height: nat, pattern: TestPattern) -> Seq<u8> {
    match pattern {
        TestPattern::Checkerboard => Seq::new(width * height, |i: int| checker_at(i, width as int)),
        _ => Seq::new(width * height, |i: int| gradient_at(i, width as int)),
    }
}

proof fn lemma_pixel_coordinates(i: int, width: int, height: int)
    requires
        0 <= i < width * height,
        width > 0,
        height > 0,
    ensures
        0 <= i % width < width,
        0 <= i / width < height,
        i % width + i / width < width * height,
{
    assert(0 <= i % width < width) by (nonlinear_arith)
        requires
            width > 0,
    ;
    assert(0 <= i / width < height) by (nonlinear_arith)
        requires
            0 <= i < width * height,
            width > 0,
    ;
    assert(width + height - 1 <= width * height) by (nonlinear_arith)
        requires
            width > 0,
            height > 0,
    ;
}

/// Noise image from per-pixel hash values: each pixel is the low byte of its
/// hash.
pub fn noise_from_hashes(hashes: &Vec<u64>) -> (data: Vec<u8>)
    ensures
        data@.len() == hashes@.len(),
        forall|i: int| 0 <= i < hashes@.len() ==> #[trigger] data@[i] == (hashes@[i] % 256) as u8,
{
    let mut data: Vec<u8> = Vec::with_capacity(hashes.len());
    let mut i: usize = 0;
    while i < hashes.len()
        invariant
            i <= hashes@.len(),
            data@.len() == i,
            forall|k: int| 0 <= k < i ==> #[trigger] data@[k] == (hashes@[k] % 256) as u8,
        decreases hashes@.len() - i,
    {
        data.push((hashes[i] % 256) as u8);
        i = i + 1;
    }
    data
}

impl Frame {
    /// Black 640x480 frame with frame number 0.
    pub fn dummy() -> (f: Frame)
        ensures
            f.width == 640,
            f.height == 480,
            f.data@ == Seq::new(640 * 480, |i: int| 0u8),
            f.frame_id == 0,
    {
        let data = vec![0u8; 640 * 480];
        assert(data@ =~= Seq::new(640 * 480, |i: int| 0u8));
        Frame { data, width: 640, height: 480, timestamp: instant_now(), frame_id: 0 }
    }

    /// Frame of the given size holding `data`, with frame number 0.
    pub fn new_with_data(width: usize, height: usize, data: Vec<u8>) -> (f: Frame)
        ensures
            f.width == width,
            f.height == height,
            f.data == data,
            f.frame_id == 0,
    {
        Frame { data, width, height, timestamp: instant_now(), frame_id: 0 }
    }

    /// Generated test image of `width * height` pixels: a diagonal gradient, a
    /// checkerboard of 32-pixel squares, or noise from a hash of each pixel index.
    pub fn test_pattern(width: usize, height: usize, pattern_type: TestPattern) -> (f: Frame)
        requires
            width * height <= usize::MAX,
        ensures
            f.width == width,
            f.height == height,
            f.frame_id == 0,
            f.data@.len() == width * height,
            pattern_type is Gradient ==> forall|i: int|
                0 <= i < width * height ==> #[trigger] f.data@[i] == gradient_at(i, width as int),
            pattern_type is Checkerboard ==> forall|i: int|
                0 <= i < width * height ==> #[trigger] f.data@[i] == checker_at(i, width as int),
            !(pattern_type is Noise) ==> f.data@ == pattern_pixels(
                width as nat,
                height as nat,
                pattern_type,
            ),
    {
        let n = width * height;
        let data = match pattern_type {
            TestPattern::Gradient => {
                let mut data: Vec<u8> = Vec::with_capacity(n);
                let mut i: usize = 0;
                while i < n
                    invariant
                        n == width * height,
                        i <= n,
                        data@.len() == i,
                        forall|k: int| 0 <= k < i ==> #[trigger] data@[k] == gradient_at(k, width as int),
                    decreases n - i,
                {
                    proof {
                        lemma_pixel_coordinates(i as int, width as int, height as int);
                    }
                    let x = i % width;
                    let y = i / width;
                    data.push(((x + y) % 256) as u8);
                    i = i + 1;
                }
                data
            },
            TestPattern::Checkerboard => {
                let mut data: Vec<u8> = Vec::with_capacity(n);
                let mut i: usize = 0;
                while i < n
                    invariant
                        n == width * height,
                        i <= n,
                        data@.len() == i,
                        forall|k: int| 0 <= k < i ==> #[trigger] data@[k] == checker_at(k, width as int),
                    decreases n - i,
                {
                    proof {
                        lemma_pixel_coordinates(i as int, width as int, height as int);
                    }
                    let x = i % width;
                    let y = i / width;
                    let v: u8 = if (x / 32 + y / 32) % 2 == 0 {
                        255
                    } else {
                        0
                    };
                    data.push(v);
                    i = i + 1;
                }
                data
            },
            TestPattern::Noise => {
                let mut hashes: Vec<u64> = Vec::with_capacity(n);
                let mut i: usize = 0;
                while i < n
                    invariant
                        i <= n,
                        hashes@.len() == i,
                    decreases n - i,
                {
                    let mut hasher = DefaultHasher::new();
                    hash_usize(i, &mut hasher);
                    hashes.push(hasher.finish());
                    i = i + 1;
                }
                noise_from_hashes(&hashes)
            },
        };
        proof {
            if !(pattern_type is Noise) {
                assert(data@ =~= pattern_pixels(width as nat, height as nat, pattern_type));
            }
        }
        Frame { data, width, height, timestamp: instant_now(), frame_id: 0 }
    }

    /// This frame with frame number `frame_id`.
    pub fn with_frame_id(self, frame_id: u32) -> (f: Frame)
        ensures
            f.data == self.data,
            f.width == self.width,
            f.height == self.height,
            f.timestamp == self.timestamp,
            f.frame_id == frame_id,
    {
        let mut f = self;
        f.frame_id = frame_id;
        f
    }
}

} // verus!
