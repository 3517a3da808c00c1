//! Assembling a raw frame from the bytes of the RAW_DATA_GRAB register.
//!
//! Each pixel arrives in two reads. A byte tagged 0b01 in its top two bits
//! carries the pixel's upper six bits; a byte tagged 0b10 carries its lower two
//! bits (in its bits 3..2) and completes the pixel. Other bytes carry nothing.
use vstd::prelude::*;

verus! {

/// Size of the sensor: 35 x 35 pixels.
pub const FRAME_SIZE: usize = 1225;

/// The top two bits of a raw data byte, which tell what it carries.
pub const PART_MASK: u8 = 0b1100_0000;

/// Tag of a byte that carries a pixel's upper six bits.
pub const UPPER_PART: u8 = 0b0100_0000;

/// Tag of a byte that carries a pixel's lower two bits.
pub const LOWER_PART: u8 = 0b1000_0000;

/// The pixel after a raw data byte arrived for it.
pub open spec fn pixel_after(pixel: u8, value: u8) -> u8 {
    if value & PART_MASK == UPPER_PART {
        (pixel & 0b0000_0011) | (value << 2u8)
    } else if value & PART_MASK == LOWER_PART {
        (pixel & 0b1111_1100) | ((value & 0b0000_1100) >> 2u8)
    } else {
        pixel
    }
}

/// Whether a raw data byte completes the pixel it belongs to.
pub open spec fn completes_pixel(value: u8) -> bool {
    value & PART_MASK == LOWER_PART
}

/// The frame is 35 by 35 pixels.
pub proof fn lemma_frame_size()
    ensures
        FRAME_SIZE == 35 * 35,
{
}

/// What a raw data byte does to its pixel, by its value: bytes from 0x40 to 0x7F
/// put their low six bits into the pixel's upper six bits; bytes from 0x80 to 0xBF
/// put their bits 3..2 into the pixel's lower two bits and complete it; every
/// other byte leaves the pixel as it is.
pub proof fn lemma_raw_byte_effect(pixel: u8, value: u8)
    ensures
        0x40 <= value < 0x80 ==> pixel_after(pixel, value) == (pixel % 4) + 4 * (value % 64)
            && !completes_pixel(value),
        0x80 <= value < 0xC0 ==> pixel_after(pixel, value) == pixel - pixel % 4 + (value / 4) % 4
            && completes_pixel(value),
        (value < 0x40 || value >= 0xC0) ==> pixel_after(pixel, value) == pixel
            && !completes_pixel(value),
{
    assert(0x40 <= value < 0x80 ==> ((value & 0b1100_0000) == 0b0100_0000 && ((pixel
        & 0b0000_0011) | (value << 2u8)) == (pixel % 4) + 4 * (value % 64))) by (bit_vector);
    assert(0x80 <= value < 0xC0 ==> ((value & 0b1100_0000) == 0b1000_0000 && ((pixel
        & 0b1111_1100) | ((value & 0b0000_1100) >> 2u8)) == pixel - pixel % 4 + (value / 4) % 4))
        by (bit_vector);
    assert((value < 0x40 || value >= 0xC0) ==> ((value & 0b1100_0000) != 0b0100_0000 && (value
        & 0b1100_0000) != 0b1000_0000)) by (bit_vector);
}

/// An upper part followed by a lower part sets the pixel to the upper part's low
/// six bits, shifted up by two, joined with bits 3..2 of the lower part, whatever
/// the pixel held before.
pub proof fn lemma_pixel_from_parts(pixel: u8, upper: u8, lower: u8)
    requires
        upper & PART_MASK == UPPER_PART,
        lower & PART_MASK == LOWER_PART,
    ensures
        pixel_after(pixel_after(pixel, upper), lower) == ((upper & 0x3F) << 2u8) | ((lower >> 2u8)
            & 0x03),
        !completes_pixel(upper),
        completes_pixel(lower),
{
    let first = (pixel & 0b0000_0011) | (upper << 2u8);
    assert(upper & 0b1100_0000 == 0b0100_0000 ==> upper & 0b1100_0000 != 0b1000_0000)
        by (bit_vector);
    assert(pixel_after(pixel, upper) == first);
    assert(((first & 0b1111_1100) | ((lower & 0b0000_1100) >> 2u8)) == ((upper & 0x3F) << 2u8) | ((
    lower >> 2u8) & 0x03)) by (bit_vector)
        requires
            first == (pixel & 0b0000_0011) | (upper << 2u8),
    ;
}

/// How many bytes of `bytes` complete a pixel.
pub open spec fn completing_count(bytes: Seq<u8>) -> int
    decreases bytes.len(),
{
    if bytes.len() == 0 {
        0
    } else {
        completing_count(bytes.drop_last()) + if completes_pixel(bytes.last()) {
            1int
        } else {
            0int
        }
    }
}

/// The frame that the bytes of `bytes` assemble, in order, starting from an
/// all-zero frame: its pixels and how many of them are complete. Once every pixel
/// is complete, further bytes change nothing.
pub open spec fn assemble(bytes: Seq<u8>) -> (Seq<u8>, int)
    decreases bytes.len(),
{
    if bytes.len() == 0 {
        (Seq::new(FRAME_SIZE as nat, |i: int| 0u8), 0)
    } else {
        let (pixels, filled) = assemble(bytes.drop_last());
        let value = bytes.last();
        if filled < FRAME_SIZE {
            (
                pixels.update(filled, pixel_after(pixels[filled], value)),
                filled + if completes_pixel(value) {
                    1int
                } else {
                    0int
                },
            )
        } else {
            (pixels, filled)
        }
    }
}

/// An assembled frame always has FRAME_SIZE pixels, and the number of complete
/// pixels is the number of completing bytes, up to FRAME_SIZE.
pub proof fn lemma_assemble(bytes: Seq<u8>)
    ensures
        assemble(bytes).0.len() == FRAME_SIZE,
        0 <= completing_count(bytes) <= bytes.len(),
        assemble(bytes).1 == if completing_count(bytes) < FRAME_SIZE {
            completing_count(bytes)
        } else {
            FRAME_SIZE as int
        },
    decreases bytes.len(),
{
    if bytes.len() > 0 {
        lemma_assemble(bytes.drop_last());
    }
}

/// A stream ends the frame on its FRAME_SIZE-th completing byte: when a stream
/// holds FRAME_SIZE completing bytes and the stream without its last byte holds
/// fewer, its last byte completes a pixel, it is the FRAME_SIZE-th such byte, and
/// the stream is at least FRAME_SIZE bytes long.
pub proof fn lemma_frame_ends_on_last_pixel(bytes: Seq<u8>)
    requires
        bytes.len() > 0,
        completing_count(bytes) == FRAME_SIZE,
        completing_count(bytes.drop_last()) < FRAME_SIZE,
    ensures
        completes_pixel(bytes.last()),
        completing_count(bytes.drop_last()) == FRAME_SIZE - 1,
        bytes.len() >= FRAME_SIZE,
{
    lemma_assemble(bytes);
}

/// A frame being assembled: the pixels so far and how many are complete.
pub struct FrameBuffer {
    pixels: Vec<u8>,
    filled: usize,
}

impl FrameBuffer {
    pub closed spec fn pixels(&self) -> Seq<u8> {
        self.pixels@
    }

    /// How many pixels are complete; the next byte goes to this pixel.
    pub closed spec fn filled(&self) -> int {
        self.filled as int
    }

    pub closed spec fn wf(&self) -> bool {
        &&& self.pixels@.len() == FRAME_SIZE
        &&& self.filled <= FRAME_SIZE
    }

    pub open spec fn spec_is_complete(&self) -> bool {
        self.filled() == FRAME_SIZE
    }

    /// An empty frame: all pixels zero, none complete.
    pub fn new() -> (frame: FrameBuffer)
        ensures
            frame.wf(),
            frame.pixels() == Seq::new(FRAME_SIZE as nat, |i: int| 0u8),
            frame.filled() == 0,
    {
        let mut pixels: Vec<u8> = Vec::new();
        while pixels.len() < FRAME_SIZE
            invariant
                pixels.len() <= FRAME_SIZE,
                forall|i: int| 0 <= i < pixels.len() ==> pixels[i] == 0u8,
            decreases FRAME_SIZE - pixels.len(),
        {
            pixels.push(0);
        }
        assert(pixels@ =~= Seq::new(FRAME_SIZE as nat, |i: int| 0u8));
        FrameBuffer { pixels, filled: 0 }
    }

    pub fn is_complete(&self) -> (complete: bool)
        requires
            self.wf(),
        ensures
            complete == self.spec_is_complete(),
    {
        self.filled == FRAME_SIZE
    }

    /// Takes the next raw data byte.
    pub fn feed(&mut self, value: u8)
        requires
            old(self).wf(),
            !old(self).spec_is_complete(),
        ensures
            final(self).wf(),
            final(self).pixels() == old(self).pixels().update(
                old(self).filled(),
                pixel_after(old(self).pixels()[old(self).filled()], value),
            ),
            final(self).filled() == old(self).filled() + if completes_pixel(value) {
                1int
            } else {
                0int
            },
    {
        let index = self.filled;
        let pixel = self.pixels[index];
        let part = value & PART_MASK;
        if part == UPPER_PART {
            self.pixels.set(index, (pixel & 0b0000_0011) | (value << 2u8));
        } else if part == LOWER_PART {
            self.pixels.set(index, (pixel & 0b1111_1100) | ((value & 0b0000_1100) >> 2u8));
            self.filled = index + 1;
        } else {
            assert(self.pixels@ =~= old(self).pixels().update(index as int, pixel));
        }
    }

    /// The pixels, row by row.
    pub fn into_pixels(self) -> (pixels: Vec<u8>)
        ensures
            pixels@ == self.pixels(),
    {
        self.pixels
    }
}

} // verus!
