//! The boundary with the encoder engine.

use vstd::prelude::*;

verus! {

/// One context of the encoder engine.
///
/// A value of the implementing type is the live, exclusively owned handle
/// to the engine's internal state for one stream. Dropping the value
/// releases that state; since the handle cannot be copied, this happens
/// once, and nothing can reach the engine through it afterwards.
///
/// Every method is a direct, synchronous call into the engine and hands
/// back the engine's answer as its native integer. Nothing is promised
/// here about those answers. What they mean is decided in
/// [`crate::error`] and [`crate::native`], and [`crate::Lame`] puts the
/// two together.
pub trait Backend: Sized {
    /// Asks the engine for a new context with default parameters. `None`
    /// when the engine could not allocate one.
    fn create_context() -> Option<Self>;

    /// The sample rate of the input, in Hz.
    fn get_sample_rate(&self) -> i32;

    /// Sets the sample rate of the input. The answer is a status code.
    fn set_sample_rate(&mut self, sample_rate: i32) -> i32;

    /// The number of channels of the input.
    fn get_channels(&self) -> i32;

    /// Sets the number of channels of the input. The answer is a status
    /// code.
    fn set_channels(&mut self, channels: i32) -> i32;

    /// The quality level, from 0 (best, slowest) to 9 (worst, fastest).
    fn get_quality(&self) -> i32;

    /// Sets the quality level. The answer is a status code.
    fn set_quality(&mut self, quality: i32) -> i32;

    /// The target bitrate, in kilobits per second.
    fn get_bitrate(&self) -> i32;

    /// Sets the target bitrate. The answer is a status code.
    fn set_bitrate(&mut self, bitrate: i32) -> i32;

    /// Finalizes the engine's derived state from the parameters set so
    /// far. The answer is a status code.
    fn commit(&mut self) -> i32;

    /// Encodes `sample_count` samples of each channel into `out_buffer`,
    /// of which the engine may use `out_capacity` bytes. The answer is
    /// the number of bytes written, or a negative ordinal.
    ///
    /// The engine reads and writes by these two sizes without checking
    /// them against the buffers, so a caller must pass the buffers' true
    /// lengths.
    fn encode(
        &mut self,
        left_samples: &[i16],
        right_samples: &[i16],
        sample_count: i32,
        out_buffer: &mut [u8],
        out_capacity: i32,
    ) -> i32
        requires
            sample_count == left_samples@.len(),
            sample_count == right_samples@.len(),
            out_capacity == old(out_buffer)@.len(),
    ;
}

} // verus!
