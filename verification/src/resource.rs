//! The resource contract: Mod, Mixer and Channel traits.
//!
//! A resource is a stateless unit of behaviour.  It has a stable, unique id,
//! a display name and a description, and it validates the configuration and
//! the opaque state that every call hands it.  All of a resource's functions
//! are pure: everything they depend on is an explicit argument, and every
//! state change is returned to the caller, who owns persistence.

use crate::types::{Frame, SoundView, Note, ReadyNote, Sound};
use crate::values::{ResConfig, ResState};
use vstd::prelude::*;

verus! {

/// Arbitrary error message from a resource.
#[derive(Debug, Clone)]
pub struct StringError(pub String);

impl Default for StringError {
    /// An empty message.
    fn default() -> (r: Self)
        ensures
            r.0@ == Seq::<char>::empty(),
    {
        StringError(String::new())
    }
}

/// Configuration error, reported with the offending position.
#[derive(Debug, Clone, Copy, PartialEq, Eq, Structural)]
pub enum ConfigError {
    /// A value has an unexpected type: position, expected tag, given tag.
    BadValue(u32, crate::values::ValueKind, crate::values::ValueKind),
    /// The configuration has an incorrect length: expected, given.
    BadLength(u32, u32),
}

/// Tag for the kinds of data that mods can process.
///
/// Pipeline stages are only known to be compatible at run time, so data
/// carries an explicit variant identity, and compatibility is equality of
/// these tags.
#[derive(Clone, Copy, Debug, PartialEq, Eq, Structural, Hash)]
pub enum DataKind {
    /// Plain text.
    String,
    /// An abstract note.
    Note,
    /// A note resolved to physical units.
    ReadyNote,
    /// A rendered sound buffer.
    Sound,
}

/// The data variants that flow through pipelines.
#[derive(Debug, PartialEq)]
pub enum ModData {
    /// Plain text.
    String(String),
    /// An abstract note.
    Note(Note),
    /// A note resolved to physical units.
    ReadyNote(ReadyNote),
    /// A rendered sound buffer.
    Sound(Sound),
}

/// The mathematical content of a [`ModData`] value.
pub enum ModDataView {
    /// Plain text.
    String(Seq<char>),
    /// An abstract note.
    Note(Note),
    /// A note resolved to physical units.
    ReadyNote(ReadyNote),
    /// A rendered sound buffer.
    Sound(SoundView),
}

impl ModDataView {
    /// The variant identity of the data.
    pub open spec fn kind(self) -> DataKind {
        match self {
            ModDataView::String(_) => DataKind::String,
            ModDataView::Note(_) => DataKind::Note,
            ModDataView::ReadyNote(_) => DataKind::ReadyNote,
            ModDataView::Sound(_) => DataKind::Sound,
        }
    }
}

impl View for ModData {
    type V = ModDataView;

    open spec fn view(&self) -> ModDataView {
        match self {
            ModData::String(s) => ModDataView::String(s@),
            ModData::Note(n) => ModDataView::Note(*n),
            ModData::ReadyNote(n) => ModDataView::ReadyNote(*n),
            ModData::Sound(s) => ModDataView::Sound(s@),
        }
    }
}

impl ModData {
    /// The variant identity of the data; two pieces of data can stand at the
    /// same place in a pipeline exactly when their kinds are equal.
    pub fn kind(&self) -> (k: DataKind)
        ensures
            k == self@.kind(),
    {
        match self {
            ModData::String(_) => DataKind::String,
            ModData::Note(_) => DataKind::Note,
            ModData::ReadyNote(_) => DataKind::ReadyNote,
            ModData::Sound(_) => DataKind::Sound,
        }
    }

    /// Returns `true` if the mod data is [`String`][ModData::String].
    pub fn is_string(&self) -> (r: bool)
        ensures
            r == (self@ is String),
    {
        matches!(self, ModData::String(..))
    }

    /// Returns `true` if the mod data is [`Note`][ModData::Note].
    pub fn is_note(&self) -> (r: bool)
        ensures
            r == (self@ is Note),
    {
        matches!(self, ModData::Note(..))
    }

    /// Returns `true` if the mod data is [`ReadyNote`][ModData::ReadyNote].
    pub fn is_ready_note(&self) -> (r: bool)
        ensures
            r == (self@ is ReadyNote),
    {
        matches!(self, ModData::ReadyNote(..))
    }

    /// Returns `true` if the mod data is [`Sound`][ModData::Sound].
    pub fn is_sound(&self) -> (r: bool)
        ensures
            r == (self@ is Sound),
    {
        matches!(self, ModData::Sound(..))
    }

    /// If the value is a String, returns it, otherwise returns None.
    pub fn as_string(&self) -> (r: Option<&str>)
        ensures
            (r is Some) == (self@ is String),
            r matches Some(s) ==> self@ == ModDataView::String(s@),
    {
        if let ModData::String(v) = self {
            Some(v.as_str())
        } else {
            None
        }
    }

    /// If the value is a Note, returns it, otherwise returns None.
    pub fn as_note(&self) -> (r: Option<&Note>)
        ensures
            (r is Some) == (self@ is Note),
            r matches Some(n) ==> self@ == ModDataView::Note(*n),
    {
        if let ModData::Note(v) = self {
            Some(v)
        } else {
            None
        }
    }

    /// If the value is a ReadyNote, returns it, otherwise returns None.
    pub fn as_ready_note(&self) -> (r: Option<&ReadyNote>)
        ensures
            (r is Some) == (self@ is ReadyNote),
            r matches Some(n) ==> self@ == ModDataView::ReadyNote(*n),
    {
        if let ModData::ReadyNote(v) = self {
            Some(v)
        } else {
            None
        }
    }

    /// If the value is a Sound, returns it, otherwise returns None.
    pub fn as_sound(&self) -> (r: Option<&Sound>)
        ensures
            (r is Some) == (self@ is Sound),
            r matches Some(s) ==> self@ == ModDataView::Sound(s@),
    {
        if let ModData::Sound(v) = self {
            Some(v)
        } else {
            None
        }
    }
}

/// Base trait for any resource.
///
/// A resource's behaviour is pinned down by the spec functions of this trait
/// and its subtraits: every executable method returns exactly what the
/// corresponding spec function says, so two calls on identical arguments
/// yield identical results.
pub trait Resource {
    /// The resource's unique identity.  Two resources are the same resource
    /// exactly when their ids match, whatever their display names say.
    spec fn id_spec(&self) -> Seq<char>;

    /// Which configurations this resource accepts.
    spec fn config_ok(&self, conf: Seq<serde_json::Value>) -> bool;

    /// The message reported for a rejected configuration.
    spec fn config_err_msg(&self, conf: Seq<serde_json::Value>) -> Seq<char>;

    /// Which opaque states are structurally valid for this resource.
    spec fn state_ok(&self, state: Seq<u8>) -> bool;

    /// The resource's original, human-readable name; for display only.
    fn orig_name(&self) -> Option<&str>;

    /// The unique ID of the resource.
    fn id(&self) -> (r: &str)
        ensures
            r@ == self.id_spec(),
    ;

    /// Verify that the given config can be used by the resource.
    fn check_config(&self, conf: &ResConfig) -> (r: Result<(), StringError>)
        ensures
            (r is Ok) == self.config_ok(conf@),
            r matches Err(e) ==> e.0@ == self.config_err_msg(conf@),
    ;

    /// Verify that the given state can be used by the resource.
    fn check_state(&self, state: &ResState) -> (r: Option<()>)
        ensures
            (r is Some) == self.state_ok(state@),
    ;

    /// The resource's description; for display only.
    fn description(&self) -> &str;
}

/// A resource that is used in data transformations.
///
/// A mod is one pure function from `(input, config, state)` to an output and
/// a new state, or to a descriptive error.  Its input and output variants
/// are fixed per instance, not per call, and input of any other variant is
/// rejected before any work is done.
pub trait Mod: Resource {
    /// The variant this mod expects to receive.
    spec fn input_type_spec(&self) -> DataKind;

    /// The variant this mod produces.
    spec fn output_type_spec(&self) -> DataKind;

    /// On which calls `apply` succeeds.
    spec fn apply_ok(&self, input: ModDataView, conf: Seq<serde_json::Value>, state: Seq<u8>) -> bool;

    /// The data a successful `apply` produces.
    spec fn apply_out(&self, input: ModDataView, conf: Seq<serde_json::Value>, state: Seq<u8>) -> ModDataView;

    /// The new state a successful `apply` produces.
    spec fn apply_state(&self, input: ModDataView, conf: Seq<serde_json::Value>, state: Seq<u8>) -> Seq<u8>;

    /// The message a failing `apply` reports.
    spec fn apply_err_msg(&self, input: ModDataView, conf: Seq<serde_json::Value>, state: Seq<u8>) -> Seq<char>;

    /// Pure transformation function.
    ///
    /// The result is a function of the explicit arguments alone, with no
    /// hidden dependency on time, counters or prior calls; this is what
    /// makes deterministic replay possible.
    fn apply(&self, input: &ModData, conf: &ResConfig, state: &ResState) -> (r: Result<
        (ModData, ResState),
        StringError,
    >)
        ensures
            (r is Ok) == self.apply_ok(input@, conf@, state@),
            input@.kind() != self.input_type_spec() ==> r is Err,
            r matches Ok(p) ==> p.0@ == self.apply_out(input@, conf@, state@) && p.1@
                == self.apply_state(input@, conf@, state@) && p.0@.kind()
                == self.output_type_spec(),
            r matches Err(e) ==> e.0@ == self.apply_err_msg(input@, conf@, state@),
    ;

    /// The variant of data that this mod expects to receive.
    fn input_type(&self) -> (k: DataKind)
        ensures
            k == self.input_type_spec(),
    ;

    /// The variant of data that this mod will produce.
    fn output_type(&self) -> (k: DataKind)
        ensures
            k == self.output_type_spec(),
    ;
}

/// Sound handed to a mixer: per channel, a flag that says whether the sound
/// is newly produced (as opposed to a leftover carried over from an earlier
/// mix), and its frames.
pub type PremixedSound = Vec<(bool, Vec<Frame>)>;

/// Unconsumed bits of sound handed back by a mixer, one slot per input
/// channel, in the same order.
pub type LeftoverSound = Vec<Option<Vec<Frame>>>;

/// The mathematical content of a [`PremixedSound`].
pub open spec fn premixed_view(channels: Seq<(bool, Vec<Frame>)>) -> Seq<(bool, Seq<Frame>)> {
    channels.map_values(|p: (bool, Vec<Frame>)| (p.0, p.1@))
}

/// The mathematical content of a [`LeftoverSound`].
pub open spec fn leftover_view(leftover: Seq<Option<Vec<Frame>>>) -> Seq<Option<Seq<Frame>>> {
    leftover.map_values(
        |o: Option<Vec<Frame>>|
            match o {
                Some(v) => Some(v@),
                None => None,
            },
    )
}

/// A mixer combines the sound produced by multiple channels into one,
/// returning it together with the unconsumed tail of every channel.
///
/// The leftover slots keep the order and position of the input channels —
/// they are never reordered, since a mixer may depend on a leftover's
/// position to preserve phase or pending-envelope continuity.  The flag on
/// each input distinguishes the start of a fresh note, which may reset
/// per-channel bookkeeping, from a carried-over tail, which continues where
/// the previous mix left off.
pub trait Mixer: Resource {
    /// The platform values this mixer exposes.
    spec fn values_spec(&self) -> Seq<serde_json::Value>;

    /// On which calls `mix` succeeds.
    spec fn mix_ok(
        &self,
        channels: Seq<(bool, Seq<Frame>)>,
        play_time: u32,
        conf: Seq<serde_json::Value>,
        state: Seq<u8>,
    ) -> bool;

    /// The sound a successful `mix` produces.
    spec fn mix_out(
        &self,
        channels: Seq<(bool, Seq<Frame>)>,
        play_time: u32,
        conf: Seq<serde_json::Value>,
        state: Seq<u8>,
    ) -> SoundView;

    /// The new state a successful `mix` produces.
    spec fn mix_state(
        &self,
        channels: Seq<(bool, Seq<Frame>)>,
        play_time: u32,
        conf: Seq<serde_json::Value>,
        state: Seq<u8>,
    ) -> Seq<u8>;

    /// The leftovers a successful `mix` hands back.
    spec fn mix_leftover(
        &self,
        channels: Seq<(bool, Seq<Frame>)>,
        play_time: u32,
        conf: Seq<serde_json::Value>,
        state: Seq<u8>,
    ) -> Seq<Option<Seq<Frame>>>;

    /// The message a failing `mix` reports.
    spec fn mix_err_msg(
        &self,
        channels: Seq<(bool, Seq<Frame>)>,
        play_time: u32,
        conf: Seq<serde_json::Value>,
        state: Seq<u8>,
    ) -> Seq<char>;

    /// Get the platform values as a JSON array.
    fn get_config(&self) -> (r: ResConfig)
        ensures
            r@ == self.values_spec(),
    ;

    /// Mix the provided sound samples.
    ///
    /// `play_time` is the number of ticks elapsed since the start of
    /// playback, for mixers that must align channels that start notes at
    /// different offsets.
    fn mix(
        &self,
        channels: &PremixedSound,
        play_time: u32,
        conf: &ResConfig,
        state: &ResState,
    ) -> (r: Result<(Sound, ResState, LeftoverSound), StringError>)
        ensures
            (r is Ok) == self.mix_ok(premixed_view(channels@), play_time, conf@, state@),
            r matches Ok(t) ==> t.0@ == self.mix_out(premixed_view(channels@), play_time, conf@, state@)
                && t.1@ == self.mix_state(premixed_view(channels@), play_time, conf@, state@)
                && leftover_view(t.2@) == self.mix_leftover(premixed_view(channels@), play_time, conf@, state@)
                && t.2@.len() == channels@.len(),
            r matches Err(e) ==> e.0@ == self.mix_err_msg(premixed_view(channels@), play_time, conf@, state@),
    ;
}

/// Every newly created state, in stage order, from one use of a pipeline.
pub type PipelineStateChanges = Vec<ResState>;

/// A channel passes its input through a pipeline of mods, producing sound.
pub trait Channel: Resource {
    /// The variant this channel accepts.
    spec fn input_type_spec(&self) -> DataKind;

    /// The variant this channel returns.
    spec fn output_type_spec(&self) -> DataKind;

    /// On which calls `play` succeeds.
    spec fn play_ok(&self, item: ModDataView, state: Seq<u8>, config: Seq<serde_json::Value>) -> bool;

    /// The data a successful `play` produces.
    spec fn play_out(&self, item: ModDataView, state: Seq<u8>, config: Seq<serde_json::Value>) -> ModDataView;

    /// The per-stage state changes a successful `play` produces.
    spec fn play_state_changes(
        &self,
        item: ModDataView,
        state: Seq<u8>,
        config: Seq<serde_json::Value>,
    ) -> Seq<Seq<u8>>;

    /// The channel's own new state after a successful `play`.
    spec fn play_state(&self, item: ModDataView, state: Seq<u8>, config: Seq<serde_json::Value>) -> Seq<u8>;

    /// The message a failing `play` reports.
    spec fn play_err_msg(&self, item: ModDataView, state: Seq<u8>, config: Seq<serde_json::Value>) -> Seq<char>;

    /// Pass the data through the channel.
    ///
    /// On success the caller receives the produced data, one new state per
    /// pipeline stage — to persist positionally against the channel's mod
    /// list — and the channel's own new state.  On failure nothing is
    /// partially applied: state changes are returned together or not at all.
    fn play(&self, item: ModData, state: &ResState, config: &ResConfig) -> (r: Result<
        (ModData, PipelineStateChanges, ResState),
        StringError,
    >)
        ensures
            (r is Ok) == self.play_ok(item@, state@, config@),
            item@.kind() != self.input_type_spec() ==> r is Err,
            r matches Ok(t) ==> t.0@ == self.play_out(item@, state@, config@) && t.1@.map_values(
                |s: Vec<u8>| s@,
            ) == self.play_state_changes(item@, state@, config@) && t.2@ == self.play_state(
                item@,
                state@,
                config@,
            ) && t.0@.kind() == self.output_type_spec(),
            r matches Err(e) ==> e.0@ == self.play_err_msg(item@, state@, config@),
    ;

    /// The variant of data that the channel accepts.
    fn input_type(&self) -> (k: DataKind)
        ensures
            k == self.input_type_spec(),
    ;

    /// The variant of data that the channel returns.
    fn output_type(&self) -> (k: DataKind)
        ensures
            k == self.output_type_spec(),
    ;
}

/// Any two results that `apply`'s contract admits for one and the same
/// arguments agree completely: they succeed or fail together, successes
/// carry identical output and identical new state, and failures carry the
/// same message.  A mod that meets its contract is pure, so replaying a call
/// can never diverge.
pub proof fn lemma_mod_purity<M: Mod>(
    m: &M,
    input: ModDataView,
    conf: Seq<serde_json::Value>,
    state: Seq<u8>,
    ok1: bool,
    out1: ModDataView,
    new1: Seq<u8>,
    msg1: Seq<char>,
    ok2: bool,
    out2: ModDataView,
    new2: Seq<u8>,
    msg2: Seq<char>,
)
    requires
        ok1 == m.apply_ok(input, conf, state),
        ok1 ==> out1 == m.apply_out(input, conf, state) && new1 == m.apply_state(
            input,
            conf,
            state,
        ),
        !ok1 ==> msg1 == m.apply_err_msg(input, conf, state),
        ok2 == m.apply_ok(input, conf, state),
        ok2 ==> out2 == m.apply_out(input, conf, state) && new2 == m.apply_state(
            input,
            conf,
            state,
        ),
        !ok2 ==> msg2 == m.apply_err_msg(input, conf, state),
    ensures
        ok1 == ok2,
        ok1 ==> out1 == out2 && new1 == new2,
        !ok1 ==> msg1 == msg2,
{
}

} // verus!
