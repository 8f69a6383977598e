//! A memory-safe, handle-based model of a native speech-synthesis engine's
//! wrapper layer: one-time engine initialization, owned voice and waveform
//! handles with deterministic release, text validation at the string
//! boundary, and a typed view of the synthesized sample buffer.

use vstd::prelude::*;

pub mod engine;
pub mod error;
pub mod lifecycle;
pub mod text;

verus! {

/// An owned voice resource. The engine hands out a raw resource address;
/// a `Voice` holds it as a plain integer and guarantees it is non-null for
/// as long as the `Voice` lives.
#[derive(Debug)]
pub struct Voice {
    handle: usize,
}

impl Voice {
    /// The resource address this voice owns.
    pub closed spec fn spec_handle(&self) -> usize {
        self.handle
    }

    /// A voice is well formed exactly when its resource address is non-null.
    pub open spec fn wf(&self) -> bool {
        self.spec_handle() != 0
    }

    /// Wraps the resource address returned by the engine's voice
    /// registration. A null address means the engine produced no usable
    /// resource, so no `Voice` is produced for it.
    pub fn from_handle(handle: usize) -> (r: Option<Voice>)
        ensures
            (r is Some) <==> handle != 0,
            r matches Some(v) ==> v.wf() && v.spec_handle() == handle,
    {
        if handle != 0 {
            Some(Voice { handle })
        } else {
            None
        }
    }

    /// The raw resource address, for the code that performs the engine call.
    pub fn handle(&self) -> (h: usize)
        ensures
            h == self.spec_handle(),
    {
        self.handle
    }
}

/// An owned synthesized audio buffer together with its format metadata.
/// The interleaved signed 16-bit samples and the three scalars are fixed
/// at construction; a `Wave` keeps no reference to the voice it was
/// synthesized from, so it outlives that voice freely.
pub struct Wave {
    samples: Vec<i16>,
    sample_rate: i32,
    num_samples: i32,
    num_channels: i32,
}

impl Wave {
    /// The interleaved sample data this wave owns.
    pub closed spec fn spec_samples(&self) -> Seq<i16> {
        self.samples@
    }

    /// The sample rate recorded for this wave.
    pub closed spec fn spec_sample_rate(&self) -> i32 {
        self.sample_rate
    }

    /// The per-channel sample count recorded for this wave.
    pub closed spec fn spec_num_samples(&self) -> i32 {
        self.num_samples
    }

    /// The channel count recorded for this wave.
    pub closed spec fn spec_num_channels(&self) -> i32 {
        self.num_channels
    }

    /// A wave is well formed exactly when its scalars are non-negative and
    /// its buffer holds `num_samples * num_channels` samples.
    pub open spec fn wf(&self) -> bool {
        &&& self.spec_sample_rate() >= 0
        &&& self.spec_num_samples() >= 0
        &&& self.spec_num_channels() >= 0
        &&& self.spec_samples().len() == self.spec_num_samples() * self.spec_num_channels()
    }

    /// Assembles a wave from the values read out of the engine's waveform
    /// structure. Succeeds exactly when those values are consistent: the
    /// scalars non-negative and the buffer of length
    /// `num_samples * num_channels`; an inconsistent reply yields no wave.
    pub fn from_parts(samples: Vec<i16>, sample_rate: i32, num_samples: i32, num_channels: i32) -> (r:
        Option<Wave>)
        ensures
            (r is Some) <==> (sample_rate >= 0 && num_samples >= 0 && num_channels >= 0
                && samples@.len() == num_samples * num_channels),
            r matches Some(w) ==> {
                &&& w.wf()
                &&& w.spec_samples() == samples@
                &&& w.spec_sample_rate() == sample_rate
                &&& w.spec_num_samples() == num_samples
                &&& w.spec_num_channels() == num_channels
            },
    {
        if sample_rate < 0 || num_samples < 0 || num_channels < 0 {
            return None;
        }
        assert((num_samples as u64) * (num_channels as u64) <= u64::MAX) by (nonlinear_arith)
            requires
                0 <= num_samples <= i32::MAX,
                0 <= num_channels <= i32::MAX,
        ;
        let expected: u64 = (num_samples as u64) * (num_channels as u64);
        if samples.len() as u64 == expected {
            Some(Wave { samples, sample_rate, num_samples, num_channels })
        } else {
            None
        }
    }

    /// A read-only view of the interleaved samples; its length is exactly
    /// `num_samples * num_channels`.
    pub fn samples(&self) -> (r: &[i16])
        requires
            self.wf(),
        ensures
            r@ == self.spec_samples(),
            r@.len() == self.spec_num_samples() * self.spec_num_channels(),
    {
        self.samples.as_slice()
    }

    /// The wave's sample rate.
    pub fn sample_rate(&self) -> (r: i32)
        ensures
            r == self.spec_sample_rate(),
    {
        self.sample_rate
    }

    /// The wave's per-channel sample count.
    pub fn num_samples(&self) -> (r: i32)
        ensures
            r == self.spec_num_samples(),
    {
        self.num_samples
    }

    /// The wave's channel count.
    pub fn num_channels(&self) -> (r: i32)
        ensures
            r == self.spec_num_channels(),
    {
        self.num_channels
    }
}

} // verus!
