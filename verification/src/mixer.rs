//! A mixer that combines the channels' common overlap and carries the rest.
//!
//! Channels are logically independent in length: one may play a whole note
//! while another plays a quarter.  Rather than forcing all channels onto a
//! common clock, each mix call consumes only the overlap that every channel
//! can fill and hands the remainder back, one leftover slot per channel, in
//! channel order.

use crate::builtin::{check_against_schema, schema_accepts, schema_err_msg};
use crate::resource::{
    leftover_view, premixed_view, LeftoverSound, Mixer, PremixedSound, Resource, StringError,
};
use crate::types::{Frame, Sound, SoundView};
use crate::values::{ResConfig, ResState};
use vstd::prelude::*;

verus! {

/// Saturating addition of two samples.
pub open spec fn sat_add_spec(a: i32, b: i32) -> i32 {
    if a + b > i32::MAX {
        i32::MAX
    } else if a + b < i32::MIN {
        i32::MIN
    } else {
        (a + b) as i32
    }
}

/// Add two samples, clamping at the representable range.
pub fn sat_add(a: i32, b: i32) -> (r: i32)
    ensures
        r == sat_add_spec(a, b),
{
    let s: i64 = a as i64 + b as i64;
    if s > i32::MAX as i64 {
        i32::MAX
    } else if s < i32::MIN as i64 {
        i32::MIN
    } else {
        s as i32
    }
}

/// The length of the shortest channel: the overlap one mix call consumes.
pub open spec fn min_len(channels: Seq<(bool, Seq<Frame>)>) -> int
    decreases channels.len(),
{
    if channels.len() == 0 {
        0
    } else if channels.len() == 1 {
        channels[0].1.len() as int
    } else {
        let m = min_len(channels.drop_last());
        if channels.last().1.len() < m {
            channels.last().1.len() as int
        } else {
            m
        }
    }
}

/// The overlap is never negative.
pub proof fn lemma_min_len_nonneg(channels: Seq<(bool, Seq<Frame>)>)
    ensures
        min_len(channels) >= 0,
    decreases channels.len(),
{
    if channels.len() > 1 {
        lemma_min_len_nonneg(channels.drop_last());
    }
}

/// No channel is shorter than the overlap.
pub proof fn lemma_min_len_le(channels: Seq<(bool, Seq<Frame>)>, i: int)
    requires
        0 <= i < channels.len(),
    ensures
        min_len(channels) <= channels[i].1.len(),
    decreases channels.len(),
{
    if channels.len() > 1 && i < channels.len() - 1 {
        lemma_min_len_le(channels.drop_last(), i);
    }
}

/// The mixed sample frame at position `j`: the saturating sum of every
/// channel's frame at that position.
pub open spec fn mix_frame(channels: Seq<(bool, Seq<Frame>)>, j: int) -> Frame
    decreases channels.len(),
{
    if channels.len() == 0 {
        Frame { left: 0, right: 0 }
    } else {
        let rest = mix_frame(channels.drop_last(), j);
        Frame {
            left: sat_add_spec(rest.left, channels.last().1[j].left),
            right: sat_add_spec(rest.right, channels.last().1[j].right),
        }
    }
}

/// The mixed frames of the overlap.
pub open spec fn mixed_frames(channels: Seq<(bool, Seq<Frame>)>) -> Seq<Frame> {
    Seq::new(min_len(channels) as nat, |j: int| mix_frame(channels, j))
}

/// The leftover of one channel: its frames beyond the overlap, or nothing if
/// the mix consumed it whole.
pub open spec fn leftover_slot(channels: Seq<(bool, Seq<Frame>)>, i: int) -> Option<Seq<Frame>> {
    if channels[i].1.len() > min_len(channels) {
        Some(channels[i].1.skip(min_len(channels)))
    } else {
        None
    }
}

/// The leftovers of all channels, in channel order.
pub open spec fn leftover_spec(channels: Seq<(bool, Seq<Frame>)>) -> Seq<Option<Seq<Frame>>> {
    Seq::new(channels.len(), |i: int| leftover_slot(channels, i))
}

/// Mixing consumes exactly the common overlap, channel by channel: each
/// channel's consumed prefix together with its leftover is the whole sound
/// it handed in, a channel as short as the overlap is consumed whole and
/// leaves nothing, and the leftovers keep the channels' order and count.  A
/// later call that passes a leftover in its channel's position therefore
/// continues precisely where this one stopped.
pub proof fn lemma_leftover_alignment(channels: Seq<(bool, Seq<Frame>)>, i: int)
    requires
        0 <= i < channels.len(),
    ensures
        leftover_spec(channels).len() == channels.len(),
        (leftover_spec(channels)[i] is None) == (channels[i].1.len() == min_len(channels)),
        leftover_spec(channels)[i] matches Some(t) ==> channels[i].1 == channels[i].1.take(
            min_len(channels),
        ) + t && t.len() == channels[i].1.len() - min_len(channels),
{
    lemma_min_len_nonneg(channels);
    lemma_min_len_le(channels, i);
    if channels[i].1.len() > min_len(channels) {
        assert(channels[i].1 =~= channels[i].1.take(min_len(channels)) + channels[i].1.skip(
            min_len(channels),
        ));
    }
}

/// A mixer that is easy to create and use: it overlays the channels'
/// overlap by saturating addition, sample by sample, and hands back each
/// channel's unconsumed tail.
///
/// It keeps no state of its own and needs no per-channel alignment
/// bookkeeping, so it ignores the freshness flags and the play time.
pub struct SimpleMixer {
    /// Display name.
    pub name: String,
    /// Unique id.
    pub id: String,
    /// Description.
    pub desc: String,
    /// Schema its configurations are checked against.
    pub schema: ResConfig,
    /// The platform values this mixer exposes.
    pub values: ResConfig,
    /// How many channels a mix call must hand in.
    pub channel_count: usize,
    /// Sampling rate of the mixed output.
    pub sampling_rate: u32,
}

impl Resource for SimpleMixer {
    open spec fn id_spec(&self) -> Seq<char> {
        self.id@
    }

    open spec fn config_ok(&self, conf: Seq<serde_json::Value>) -> bool {
        schema_accepts(self.schema@, conf)
    }

    open spec fn config_err_msg(&self, conf: Seq<serde_json::Value>) -> Seq<char> {
        schema_err_msg(self.schema@, conf)
    }

    open spec fn state_ok(&self, state: Seq<u8>) -> bool {
        true
    }

    fn orig_name(&self) -> Option<&str> {
        Some(self.name.as_str())
    }

    fn id(&self) -> (r: &str) {
        self.id.as_str()
    }

    fn check_config(&self, conf: &ResConfig) -> (r: Result<(), StringError>) {
        check_against_schema(&self.schema, conf)
    }

    fn check_state(&self, state: &ResState) -> (r: Option<()>) {
        Some(())
    }

    fn description(&self) -> &str {
        self.desc.as_str()
    }
}

impl Mixer for SimpleMixer {
    open spec fn values_spec(&self) -> Seq<serde_json::Value> {
        self.values@
    }

    open spec fn mix_ok(
        &self,
        channels: Seq<(bool, Seq<Frame>)>,
        play_time: u32,
        conf: Seq<serde_json::Value>,
        state: Seq<u8>,
    ) -> bool {
        channels.len() == self.channel_count
    }

    open spec fn mix_out(
        &self,
        channels: Seq<(bool, Seq<Frame>)>,
        play_time: u32,
        conf: Seq<serde_json::Value>,
        state: Seq<u8>,
    ) -> SoundView {
        SoundView { frames: mixed_frames(channels), rate: self.sampling_rate }
    }

    open spec fn mix_state(
        &self,
        channels: Seq<(bool, Seq<Frame>)>,
        play_time: u32,
        conf: Seq<serde_json::Value>,
        state: Seq<u8>,
    ) -> Seq<u8> {
        Seq::empty()
    }

    open spec fn mix_leftover(
        &self,
        channels: Seq<(bool, Seq<Frame>)>,
        play_time: u32,
        conf: Seq<serde_json::Value>,
        state: Seq<u8>,
    ) -> Seq<Option<Seq<Frame>>> {
        leftover_spec(channels)
    }

    open spec fn mix_err_msg(
        &self,
        channels: Seq<(bool, Seq<Frame>)>,
        play_time: u32,
        conf: Seq<serde_json::Value>,
        state: Seq<u8>,
    ) -> Seq<char> {
        "channel count mismatch"@
    }

    fn get_config(&self) -> (r: ResConfig) {
        self.values.clone()
    }

    fn mix(
        &self,
        channels: &PremixedSound,
        play_time: u32,
        conf: &ResConfig,
        state: &ResState,
    ) -> (r: Result<(Sound, ResState, LeftoverSound), StringError>) {
        proof {
            reveal_strlit("channel count mismatch");
        }
        let ghost cv = premixed_view(channels@);
        if channels.len() != self.channel_count {
            return Err(StringError("channel count mismatch".to_owned()));
        }
        let n = channels.len();

        // The overlap: the length of the shortest channel.
        let mut min_l: usize = 0;
        if n > 0 {
            min_l = channels[0].1.len();
            proof {
                assert(cv.take(1) =~= seq![cv[0]]);
            }
            let mut i: usize = 1;
            while i < n
                invariant
                    1 <= i <= n,
                    n == cv.len(),
                    cv == premixed_view(channels@),
                    n == channels@.len(),
                    min_l as int == min_len(cv.take(i as int)),
                decreases n - i,
            {
                if channels[i].1.len() < min_l {
                    min_l = channels[i].1.len();
                }
                i = i + 1;
                proof {
                    assert(cv.take(i as int).drop_last() =~= cv.take(i as int - 1));
                }
            }
            proof {
                assert(cv.take(n as int) =~= cv);
            }
        }
        proof {
            assert(min_l as int == min_len(cv));
            assert forall|i: int| 0 <= i < cv.len() implies min_l <= cv[i].1.len() by {
                lemma_min_len_le(cv, i);
            }
        }

        // Overlay the overlap, frame by frame.
        let mut frames: Vec<Frame> = Vec::new();
        let mut j: usize = 0;
        while j < min_l
            invariant
                j <= min_l,
                n == cv.len(),
                cv == premixed_view(channels@),
                n == channels@.len(),
                min_l as int == min_len(cv),
                forall|i: int| 0 <= i < cv.len() ==> min_l <= #[trigger] cv[i].1.len(),
                frames@ == Seq::new(j as nat, |q: int| mix_frame(cv, q)),
            decreases min_l - j,
        {
            let mut left: i32 = 0;
            let mut right: i32 = 0;
            let mut i: usize = 0;
            while i < n
                invariant
                    i <= n,
                    j < min_l,
                    n == cv.len(),
                    cv == premixed_view(channels@),
                    n == channels@.len(),
                    min_l as int == min_len(cv),
                    forall|q: int| 0 <= q < cv.len() ==> min_l <= #[trigger] cv[q].1.len(),
                    mix_frame(cv.take(i as int), j as int) == (Frame { left, right }),
                decreases n - i,
            {
                proof {
                    lemma_min_len_le(cv, i as int);
                    assert(cv[i as int].1 == channels@[i as int].1@);
                }
                left = sat_add(left, channels[i].1[j].left);
                right = sat_add(right, channels[i].1[j].right);
                i = i + 1;
                proof {
                    assert(cv.take(i as int).drop_last() =~= cv.take(i as int - 1));
                    assert(cv.take(i as int).last() == cv[i as int - 1]);
                }
            }
            proof {
                assert(cv.take(n as int) =~= cv);
            }
            frames.push(Frame { left, right });
            j = j + 1;
            proof {
                assert(frames@ =~= Seq::new(j as nat, |q: int| mix_frame(cv, q)));
            }
        }
        proof {
            assert(frames@ =~= mixed_frames(cv));
        }

        // Hand back each channel's unconsumed tail, in channel order.
        let mut leftover: LeftoverSound = Vec::new();
        let mut i: usize = 0;
        while i < n
            invariant
                i <= n,
                n == cv.len(),
                cv == premixed_view(channels@),
                n == channels@.len(),
                min_l as int == min_len(cv),
                forall|q: int| 0 <= q < cv.len() ==> min_l <= #[trigger] cv[q].1.len(),
                leftover@.len() == i,
                leftover_view(leftover@) =~= leftover_spec(cv).take(i as int),
            decreases n - i,
        {
            proof {
                assert(cv[i as int].1 == channels@[i as int].1@);
            }
            if channels[i].1.len() > min_l {
                let mut tail: Vec<Frame> = Vec::new();
                let mut j2: usize = min_l;
                while j2 < channels[i].1.len()
                    invariant
                        i < n,
                        n == cv.len(),
                        cv == premixed_view(channels@),
                        n == channels@.len(),
                        min_l <= j2 <= cv[i as int].1.len(),
                        cv[i as int].1 == channels@[i as int].1@,
                        tail@ == cv[i as int].1.skip(min_l as int).take(j2 - min_l),
                    decreases channels@[i as int].1@.len() - j2,
                {
                    tail.push(channels[i].1[j2]);
                    j2 = j2 + 1;
                    proof {
                        assert(cv[i as int].1.skip(min_l as int).take(j2 - min_l)
                            =~= cv[i as int].1.skip(min_l as int).take(j2 - min_l - 1).push(
                            cv[i as int].1[j2 - 1],
                        ));
                    }
                }
                proof {
                    assert(tail@ =~= cv[i as int].1.skip(min_l as int));
                }
                leftover.push(Some(tail));
            } else {
                leftover.push(None);
            }
            i = i + 1;
            proof {
                assert(leftover_view(leftover@) =~= leftover_spec(cv).take(i as int));
            }
        }
        proof {
            assert(leftover_view(leftover@) =~= leftover_spec(cv));
        }

        Ok((Sound::new(frames, self.sampling_rate), Vec::new(), leftover))
    }
}

} // verus!
