//! Main data types that flow through pipelines.

use vstd::prelude::*;

verus! {

/// One stereo sample frame of linear PCM, one signed 32-bit sample per side.
///
/// The framework moves, aligns and compares frames; only concrete
/// instruments and mixers interpret them.  Implementations that render in
/// another sample format carry each sample's 32-bit encoding here.
#[derive(Clone, Copy, Debug, PartialEq, Eq, Structural, Hash)]
pub struct Frame {
    /// Left sample.
    pub left: i32,
    /// Right sample.
    pub right: i32,
}

/// Note, defined in abstract, platform-defined values.
#[derive(Clone, Copy, Debug, PartialEq, Eq, Structural, Hash)]
pub struct Note {
    /// Note length in ticks.  May be unspecified, in which case a channel
    /// falls back to its default length.
    pub len: Option<u8>,
    /// The note's pitch in semitones relative to C.  `None` marks a rest.
    pub pitch: Option<i8>,
    /// Additional detune; one cent is 1/100th of a semitone.
    pub cents: i8,
    /// The note is natural: its pitch must not be affected by the key
    /// signature.
    pub natural: bool,
    /// Velocity of the note.
    pub velocity: u8,
}

impl Default for Note {
    /// An unspecified, restful note with every field at zero.
    fn default() -> (r: Self)
        ensures
            r == (Note { len: None, pitch: None, cents: 0i8, natural: false, velocity: 0u8 }),
    {
        Note { len: None, pitch: None, cents: 0, natural: false, velocity: 0 }
    }
}

/// Note, resolved to physical units and ready to be rendered.
///
/// Lengths are in seconds and the pitch is in Hz; each is carried as the bit
/// pattern of an IEEE 754 single-precision number, which the framework moves
/// but never computes with.
#[derive(Clone, Copy, Debug, PartialEq, Eq, Structural, Hash)]
pub struct ReadyNote {
    /// Length of the note in seconds (bit pattern).
    pub len: u32,
    /// Length of the sound generated while it decays after release, in
    /// seconds (bit pattern).
    pub decay_time: u32,
    /// Pitch of the note in Hz (bit pattern).  `None` marks a rest.
    pub pitch: Option<u32>,
    /// Velocity of the note.
    pub velocity: u8,
}

impl Default for ReadyNote {
    /// A zero-length rest.
    fn default() -> (r: Self)
        ensures
            r == (ReadyNote { len: 0u32, decay_time: 0u32, pitch: None, velocity: 0u8 }),
    {
        ReadyNote { len: 0, decay_time: 0, pitch: None, velocity: 0 }
    }
}

/// The mathematical content of a [`Sound`]: its frames and sampling rate.
pub struct SoundView {
    /// The sample frames, in order.
    pub frames: Seq<Frame>,
    /// Number of frames per second.
    pub rate: u32,
}

/// Immutable buffer of PCM frames together with its sampling rate.
///
/// Frames are plain integers, so sounds compare, hash and deduplicate
/// structurally.
#[derive(Debug, Clone, PartialEq, Eq, Hash)]
pub struct Sound {
    data: Vec<Frame>,
    rate: u32,
}

impl View for Sound {
    type V = SoundView;

    closed spec fn view(&self) -> SoundView {
        SoundView { frames: self.data@, rate: self.rate }
    }
}

impl Sound {
    /// Create a new sound from its frames and sampling rate.
    pub fn new(data: Vec<Frame>, sampling_rate: u32) -> (s: Sound)
        ensures
            s@.frames == data@,
            s@.rate == sampling_rate,
    {
        Sound { data, rate: sampling_rate }
    }

    /// The sampling rate.
    pub fn sampling_rate(&self) -> (r: u32)
        ensures
            r == self@.rate,
    {
        self.rate
    }

    /// The sample frames.
    pub fn data(&self) -> (r: &[Frame])
        ensures
            r@ == self@.frames,
    {
        self.data.as_slice()
    }

    /// Number of frames in the sound.
    pub fn len(&self) -> (r: usize)
        ensures
            r == self@.frames.len(),
    {
        self.data.len()
    }
}

} // verus!
