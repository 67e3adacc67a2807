//! Stream formats.
use vstd::arithmetic::power2::lemma2_to64;
use vstd::arithmetic::power2::lemma_pow2_strictly_increases;
use vstd::arithmetic::power2::pow2;
use vstd::bits::lemma_u64_shl_is_mul;
use vstd::prelude::*;

verus! {

/// A fraction, such as a frame rate.
#[derive(Debug, Clone, Copy, PartialEq, Eq, Structural)]
pub struct Fraction {
    pub numer: i32,
    pub denom: i32,
}

/// A video format, `video/x-raw`.
#[derive(Debug)]
pub struct VideoCaps {
    pub format: String,
    pub width: i32,
    pub height: i32,
    pub framerate: Fraction,
    pub interlace_mode: String,
    pub colorimetry: String,
}

/// An audio format, `audio/x-raw`.
#[derive(Debug)]
pub struct AudioCaps {
    pub format: String,
    pub rate: i32,
    pub channels: i32,
    pub layout: String,
    pub channel_mask: u64,
}

/// A stream format.
#[derive(Debug)]
pub enum Caps {
    Video(VideoCaps),
    Audio(AudioCaps),
}

/// The mask that stands for `channels` channels: one bit for each, up to the
/// sixty-four that there is room for.
pub open spec fn channel_mask(channels: u32) -> u64 {
    if channels >= 64 {
        u64::MAX
    } else {
        (pow2(channels as nat) - 1) as u64
    }
}

proof fn lemma_mask_is_shift(channels: u32)
    requires
        channels < 64,
    ensures
        (1u64 << channels) == pow2(channels as nat),
        1 <= pow2(channels as nat) <= u64::MAX,
{
    lemma2_to64();
    lemma_pow2_strictly_increases(channels as nat, 64);
    if channels > 0 {
        lemma_pow2_strictly_increases(0, channels as nat);
    }
    lemma_u64_shl_is_mul(1, channels as u64);
}

/// The mask that stands for `channels` channels.
pub fn generate_channel_mask_from_channels(channels: u32) -> (mask: u64)
    ensures
        mask == channel_mask(channels),
{
    if channels >= 64 {
        u64::MAX
    } else {
        proof {
            lemma_mask_is_shift(channels);
        }
        (1u64 << channels) - 1
    }
}

/// Channel `i` is in the mask exactly if it is one of the channels that the
/// mask stands for.
pub proof fn law_mask_has_a_bit_for_each_channel(channels: u32, i: u64)
    requires
        i < 64,
    ensures
        ((channel_mask(channels) >> i) & 1 == 1) == (i < channels),
{
    if channels >= 64 {
        assert((0xffff_ffff_ffff_ffffu64 >> i) & 1 == 1) by (bit_vector)
            requires
                i < 64,
        ;
    } else {
        lemma_mask_is_shift(channels);
        let power = 1u64 << channels;
        let mask = channel_mask(channels);
        assert(((mask >> i) & 1 == 1) == (i < channels)) by (bit_vector)
            requires
                i < 64,
                channels < 64,
                power == 1u64 << channels,
                mask == power - 1,
        ;
    }
}

} // verus!
