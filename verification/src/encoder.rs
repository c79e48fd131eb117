//! The encoder context.
//!
//! Each operation of [`Lame`] is one call into the engine with a
//! conversion on either side. The contracts say so with `call_ensures`,
//! the relation between the arguments and the possible answers of a
//! [`Backend`] method: an operation's result is the reading of an answer
//! that the engine gave to exactly the stated call on the context's own
//! handle. What the engine answers is the engine's business; what is
//! handed to it and what is made of its answer is decided here.

use crate::backend::Backend;
use crate::error::{
    encode_result, handle_encode_result, handle_simple_error, simple_result, EncodeError, Error,
};
use crate::native::{
    byte_from_native, byte_of_native, byte_to_native, fits_int_size, int_size, native_of_rate,
    rate_from_native, rate_of_native, rate_to_native,
};
use vstd::prelude::*;

verus! {

/// Whether three buffer lengths can go into one encode call: both channels
/// hold the same number of samples, and that number and the length of the
/// output buffer fit the engine's native size type.
pub open spec fn buffers_fit(left: int, right: int, out: int) -> bool {
    left == right && left <= i32::MAX && out <= i32::MAX
}

/// Represents an encoder context.
///
/// The context owns its engine handle and nothing else: every parameter
/// lives in the engine, and each call here goes to the engine and comes
/// back with its answer. The order of calls is the caller's business; the
/// engine is the one to refuse a call that comes too early. The handle is
/// never handed out, and it is released when the context is dropped.
pub struct Lame<B: Backend> {
    backend: B,
}

impl<B: Backend> Lame<B> {
    /// The engine handle that the context owns.
    pub closed spec fn engine(&self) -> B {
        self.backend
    }

    /// Creates a new encoder context with default parameters.
    ///
    /// Returns `None` if the engine could not allocate its internal
    /// structures.
    pub fn new() -> (ctx: Option<Lame<B>>)
        ensures
            match ctx {
                Some(context) => call_ensures(B::create_context, (), Some(context.engine())),
                None => call_ensures(B::create_context, (), None::<B>),
            },
    {
        match B::create_context() {
            None => None,
            Some(backend) => Some(Lame { backend }),
        }
    }

    /// Sample rate of input PCM data. Defaults to 44100 Hz.
    pub fn sample_rate(&self) -> (rate: u32)
        ensures
            exists|raw: i32|
                call_ensures(B::get_sample_rate, (&self.engine(),), raw) && rate
                    == rate_of_native(raw),
    {
        rate_from_native(self.backend.get_sample_rate())
    }

    /// Sets sample rate of input PCM data.
    pub fn set_sample_rate(&mut self, sample_rate: u32) -> (res: Result<(), Error>)
        ensures
            exists|engine: &mut B, retn: i32|
                *engine == old(self).engine() && *final(engine) == final(self).engine()
                    && call_ensures(
                    B::set_sample_rate,
                    (engine, native_of_rate(sample_rate) as i32),
                    retn,
                ) && res == simple_result(retn),
    {
        handle_simple_error(self.backend.set_sample_rate(rate_to_native(sample_rate)))
    }

    /// Number of channels in input stream. Defaults to 2.
    pub fn channels(&self) -> (channels: u8)
        ensures
            exists|raw: i32|
                call_ensures(B::get_channels, (&self.engine(),), raw) && channels
                    == byte_of_native(raw),
    {
        byte_from_native(self.backend.get_channels())
    }

    /// Sets number of channels in input stream.
    pub fn set_channels(&mut self, channels: u8) -> (res: Result<(), Error>)
        ensures
            exists|engine: &mut B, retn: i32|
                *engine == old(self).engine() && *final(engine) == final(self).engine()
                    && call_ensures(B::set_channels, (engine, channels as i32), retn) && res
                    == simple_result(retn),
    {
        handle_simple_error(self.backend.set_channels(byte_to_native(channels)))
    }

    /// The quality parameter. See `set_quality` for more details.
    pub fn quality(&self) -> (quality: u8)
        ensures
            exists|raw: i32|
                call_ensures(B::get_quality, (&self.engine(),), raw) && quality == byte_of_native(
                    raw,
                ),
    {
        byte_from_native(self.backend.get_quality())
    }

    /// Sets the quality parameter. True quality is determined by the
    /// bitrate but this parameter affects quality by influencing whether
    /// the engine selects expensive or cheap algorithms.
    ///
    /// This is a number from 0 to 9 (inclusive), where 0 is the best and
    /// slowest and 9 is the worst and fastest. Other values are handed to
    /// the engine as they are, for the engine to refuse.
    pub fn set_quality(&mut self, quality: u8) -> (res: Result<(), Error>)
        ensures
            exists|engine: &mut B, retn: i32|
                *engine == old(self).engine() && *final(engine) == final(self).engine()
                    && call_ensures(B::set_quality, (engine, quality as i32), retn) && res
                    == simple_result(retn),
    {
        handle_simple_error(self.backend.set_quality(byte_to_native(quality)))
    }

    /// Returns the output bitrate in kilobits per second.
    pub fn kilobitrate(&self) -> (kilobitrate: i32)
        ensures
            call_ensures(B::get_bitrate, (&self.engine(),), kilobitrate),
    {
        self.backend.get_bitrate()
    }

    /// Sets the target output bitrate. This value is in kilobits per
    /// second, so passing 320 would select an output bitrate of 320kbps.
    pub fn set_kilobitrate(&mut self, kilobitrate: i32) -> (res: Result<(), Error>)
        ensures
            exists|engine: &mut B, retn: i32|
                *engine == old(self).engine() && *final(engine) == final(self).engine()
                    && call_ensures(B::set_bitrate, (engine, kilobitrate), retn) && res
                    == simple_result(retn),
    {
        handle_simple_error(self.backend.set_bitrate(kilobitrate))
    }

    /// Sets more internal parameters according to the other basic
    /// parameter settings. To be called after the last setter and before
    /// the first `encode`.
    pub fn init_params(&mut self) -> (res: Result<(), Error>)
        ensures
            exists|engine: &mut B, retn: i32|
                *engine == old(self).engine() && *final(engine) == final(self).engine()
                    && call_ensures(B::commit, (engine,), retn) && res == simple_result(retn),
    {
        handle_simple_error(self.backend.commit())
    }

    /// Encodes PCM data into MP3 frames, and returns the number of bytes
    /// written to `mp3_buffer`. Zero is a valid count: the engine may keep
    /// the samples for a later frame.
    ///
    /// The `pcm_left` and `pcm_right` buffers must be of the same length,
    /// and no buffer may be longer than the engine's native size type can
    /// say. The samples are left as they are.
    pub fn encode(
        &mut self,
        pcm_left: &mut [i16],
        pcm_right: &mut [i16],
        mp3_buffer: &mut [u8],
    ) -> (res: Result<usize, EncodeError>)
        requires
            buffers_fit(
                old(pcm_left)@.len() as int,
                old(pcm_right)@.len() as int,
                old(mp3_buffer)@.len() as int,
            ),
        ensures
            exists|engine: &mut B, out: &mut [u8], retn: i32|
                *engine == old(self).engine() && *final(engine) == final(self).engine() && out@
                    == old(mp3_buffer)@ && final(out)@ == final(mp3_buffer)@ && call_ensures(
                    B::encode,
                    (
                        engine,
                        &*old(pcm_left),
                        &*old(pcm_right),
                        old(pcm_left)@.len() as i32,
                        out,
                        old(mp3_buffer)@.len() as i32,
                    ),
                    retn,
                ) && res == encode_result(retn),
            final(pcm_left)@ == old(pcm_left)@,
            final(pcm_right)@ == old(pcm_right)@,
    {
        let sample_count: i32 = int_size(pcm_left.len());
        let out_capacity: i32 = int_size(mp3_buffer.len());
        let retn: i32 = self.backend.encode(
            &*pcm_left,
            &*pcm_right,
            sample_count,
            mp3_buffer,
            out_capacity,
        );
        handle_encode_result(retn)
    }

    /// Encodes like [`Lame::encode`] where the buffers fit one encode
    /// call. Where they do not, returns `None` and touches neither the
    /// engine nor the buffers.
    pub fn try_encode(
        &mut self,
        pcm_left: &mut [i16],
        pcm_right: &mut [i16],
        mp3_buffer: &mut [u8],
    ) -> (res: Option<Result<usize, EncodeError>>)
        ensures
            res is Some <==> buffers_fit(
                old(pcm_left)@.len() as int,
                old(pcm_right)@.len() as int,
                old(mp3_buffer)@.len() as int,
            ),
            res is Some ==> exists|engine: &mut B, out: &mut [u8], retn: i32|
                *engine == old(self).engine() && *final(engine) == final(self).engine() && out@
                    == old(mp3_buffer)@ && final(out)@ == final(mp3_buffer)@ && call_ensures(
                    B::encode,
                    (
                        engine,
                        &*old(pcm_left),
                        &*old(pcm_right),
                        old(pcm_left)@.len() as i32,
                        out,
                        old(mp3_buffer)@.len() as i32,
                    ),
                    retn,
                ) && res == Some(encode_result(retn)),
            res is None ==> *final(self) == *old(self) && final(mp3_buffer)@ == old(mp3_buffer)@,
            final(pcm_left)@ == old(pcm_left)@,
            final(pcm_right)@ == old(pcm_right)@,
    {
        if pcm_left.len() == pcm_right.len() && fits_int_size(pcm_left.len()) && fits_int_size(
            mp3_buffer.len(),
        ) {
            Some(self.encode(pcm_left, pcm_right, mp3_buffer))
        } else {
            None
        }
    }
}

/// With an engine that keeps the sample rate it accepts, the rate read
/// after a successful `set_sample_rate` is the rate that was set.
pub proof fn lemma_sample_rate_is_kept<B: Backend>(
    before: Lame<B>,
    sample_rate: u32,
    after: Lame<B>,
    res: Result<(), Error>,
    read: u32,
)
    requires
        forall|engine: &mut B, value: i32, raw: i32|
            call_ensures(B::set_sample_rate, (engine, value), 0i32) && call_ensures(
                B::get_sample_rate,
                (&*final(engine),),
                raw,
            ) ==> raw == value,
        exists|engine: &mut B, retn: i32|
            *engine == before.engine() && *final(engine) == after.engine() && call_ensures(
                B::set_sample_rate,
                (engine, native_of_rate(sample_rate) as i32),
                retn,
            ) && res == simple_result(retn),
        res is Ok,
        exists|raw: i32|
            call_ensures(B::get_sample_rate, (&after.engine(),), raw) && read == rate_of_native(
                raw,
            ),
    ensures
        read == sample_rate,
{
}

/// With an engine that keeps the channel count it accepts, the count
/// read after a successful `set_channels` is the count that was set.
pub proof fn lemma_channels_are_kept<B: Backend>(
    before: Lame<B>,
    channels: u8,
    after: Lame<B>,
    res: Result<(), Error>,
    read: u8,
)
    requires
        forall|engine: &mut B, value: i32, raw: i32|
            call_ensures(B::set_channels, (engine, value), 0i32) && call_ensures(
                B::get_channels,
                (&*final(engine),),
                raw,
            ) ==> raw == value,
        exists|engine: &mut B, retn: i32|
            *engine == before.engine() && *final(engine) == after.engine() && call_ensures(
                B::set_channels,
                (engine, channels as i32),
                retn,
            ) && res == simple_result(retn),
        res is Ok,
        exists|raw: i32|
            call_ensures(B::get_channels, (&after.engine(),), raw) && read == byte_of_native(raw),
    ensures
        read == channels,
{
}

/// With an engine that keeps the quality level it accepts, the level read
/// after a successful `set_quality` is the level that was set.
pub proof fn lemma_quality_is_kept<B: Backend>(
    before: Lame<B>,
    quality: u8,
    after: Lame<B>,
    res: Result<(), Error>,
    read: u8,
)
    requires
        forall|engine: &mut B, value: i32, raw: i32|
            call_ensures(B::set_quality, (engine, value), 0i32) && call_ensures(
                B::get_quality,
                (&*final(engine),),
                raw,
            ) ==> raw == value,
        exists|engine: &mut B, retn: i32|
            *engine == before.engine() && *final(engine) == after.engine() && call_ensures(
                B::set_quality,
                (engine, quality as i32),
                retn,
            ) && res == simple_result(retn),
        res is Ok,
        exists|raw: i32|
            call_ensures(B::get_quality, (&after.engine(),), raw) && read == byte_of_native(raw),
    ensures
        read == quality,
{
}

/// With an engine that keeps the bitrate it accepts, the bitrate read
/// after a successful `set_kilobitrate` is the bitrate that was set.
pub proof fn lemma_kilobitrate_is_kept<B: Backend>(
    before: Lame<B>,
    kilobitrate: i32,
    after: Lame<B>,
    res: Result<(), Error>,
    read: i32,
)
    requires
        forall|engine: &mut B, value: i32, raw: i32|
            call_ensures(B::set_bitrate, (engine, value), 0i32) && call_ensures(
                B::get_bitrate,
                (&*final(engine),),
                raw,
            ) ==> raw == value,
        exists|engine: &mut B, retn: i32|
            *engine == before.engine() && *final(engine) == after.engine() && call_ensures(
                B::set_bitrate,
                (engine, kilobitrate),
                retn,
            ) && res == simple_result(retn),
        res is Ok,
        call_ensures(B::get_bitrate, (&after.engine(),), read),
    ensures
        read == kilobitrate,
{
}

/// With an engine that refuses to encode on a handle that was never
/// committed, `encode` on a context that holds such a handle reports
/// `InitParamsNotCalled`. `uncommitted` says of which handles the engine
/// refuses so.
pub proof fn lemma_encode_before_commit_is_reported<B: Backend>(
    uncommitted: spec_fn(B) -> bool,
    before: Lame<B>,
    pcm_left: &[i16],
    pcm_right: &[i16],
    out_before: Seq<u8>,
    after: Lame<B>,
    out_after: Seq<u8>,
    res: Result<usize, EncodeError>,
)
    requires
        forall|
            engine: &mut B,
            left: &[i16],
            right: &[i16],
            count: i32,
            out: &mut [u8],
            capacity: i32,
            retn: i32,
        |
            uncommitted(*engine) && call_ensures(
                B::encode,
                (engine, left, right, count, out, capacity),
                retn,
            ) ==> retn == -3,
        uncommitted(before.engine()),
        exists|engine: &mut B, out: &mut [u8], retn: i32|
            *engine == before.engine() && *final(engine) == after.engine() && out@ == out_before
                && final(out)@ == out_after && call_ensures(
                B::encode,
                (
                    engine,
                    pcm_left,
                    pcm_right,
                    pcm_left@.len() as i32,
                    out,
                    out_before.len() as i32,
                ),
                retn,
            ) && res == encode_result(retn),
    ensures
        res == Err::<usize, EncodeError>(EncodeError::InitParamsNotCalled),
{
}

} // verus!
