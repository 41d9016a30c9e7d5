//! A configured channel that renders one note into one sound.
//!
//! A channel is bound to one instrument mod, an ordered list of note mods
//! and an ordered list of sound mods, each with its own bound configuration
//! and current opaque state.  Playing a note folds it through the note mods,
//! converts it into physical units, applies the instrument, folds the result
//! through the sound mods, and returns the sound together with every new
//! per-stage state, for the caller to persist positionally.

use crate::resource::{
    Channel, DataKind, Mod, ModData, ModDataView, Resource, StringError,
};
use crate::text::{decimal_of, format_u128, format_usize};
use crate::types::Note;
use crate::values::{
    clone_value, int_value, is_container, is_f64_number, is_i64_number, json_int, value_is_f64,
    value_is_i64, JsonArray, ResConfig, ResState,
};
use std::rc::Rc;
use vstd::prelude::*;

verus! {

use vstd::string::StringExecFns;

/// One checked stage of a channel's pipeline, numbered `stage` for error
/// reports: the data's variant must match the mod's declared input, and then
/// the mod is applied.
pub open spec fn staged_step<M: Mod>(
    m: Rc<M>,
    item: ModDataView,
    conf: Seq<serde_json::Value>,
    state: Seq<u8>,
    stage: int,
) -> Result<(ModDataView, Seq<u8>), Seq<char>> {
    if item.kind() != m.input_type_spec() {
        Err("pipeline broken at "@ + decimal_of(stage) + " (type mismatch)"@)
    } else if !m.apply_ok(item, conf, state) {
        Err("mod error at "@ + decimal_of(stage) + ": "@ + m.apply_err_msg(item, conf, state))
    } else {
        Ok((m.apply_out(item, conf, state), m.apply_state(item, conf, state)))
    }
}

/// One unchecked stage: the mod is applied directly, and its own contract
/// rejects input of the wrong variant.
pub open spec fn direct_step<M: Mod>(
    m: Rc<M>,
    item: ModDataView,
    conf: Seq<serde_json::Value>,
    state: Seq<u8>,
    stage: int,
) -> Result<(ModDataView, Seq<u8>), Seq<char>> {
    if !m.apply_ok(item, conf, state) {
        Err("mod error at "@ + decimal_of(stage) + ": "@ + m.apply_err_msg(item, conf, state))
    } else {
        Ok((m.apply_out(item, conf, state), m.apply_state(item, conf, state)))
    }
}

/// Fold `item` through the first `upto` of the given mods, carrying forward
/// each mod's new state and collecting all of them; stages are numbered from
/// `offset`.  Stops at the first failing stage.
pub open spec fn staged_fold<M: Mod>(
    mods: Seq<Rc<M>>,
    configs: Seq<JsonArray>,
    states: Seq<ResState>,
    item: ModDataView,
    upto: int,
    offset: int,
) -> Result<(ModDataView, Seq<Seq<u8>>), Seq<char>>
    decreases upto,
{
    if upto <= 0 {
        Ok((item, Seq::empty()))
    } else {
        match staged_fold(mods, configs, states, item, upto - 1, offset) {
            Err(e) => Err(e),
            Ok(p) => match staged_step(
                mods[upto - 1],
                p.0,
                configs[upto - 1]@,
                states[upto - 1]@,
                offset + upto - 1,
            ) {
                Err(e) => Err(e),
                Ok(q) => Ok((q.0, p.1.push(q.1))),
            },
        }
    }
}

/// Whether `conf` is a channel configuration: the frequency of C-1, the
/// length of one tick, the number of ticks in one whole note, the ticks per
/// beat, and the maximum volume setting.
pub open spec fn channel_config_ok(conf: Seq<serde_json::Value>) -> bool {
    &&& conf.len() == 5
    &&& is_f64_number(conf[0])
    &&& is_f64_number(conf[1])
    &&& is_i64_number(conf[2])
    &&& is_f64_number(conf[3])
    &&& is_i64_number(conf[4])
}

/// The message reported for a rejected channel configuration: the first
/// requirement that fails, in order.
pub open spec fn channel_config_err_msg(conf: Seq<serde_json::Value>) -> Seq<char> {
    if conf.len() != 5 {
        "incorrect config length"@
    } else if !is_f64_number(conf[0]) {
        "argument 1 (frequency of C-1) is not float"@
    } else if !is_f64_number(conf[1]) {
        "argument 2 (Length of one tick) is not float"@
    } else if !is_i64_number(conf[2]) {
        "argument 3 (number of ticks in one whole note) is not integer"@
    } else if !is_f64_number(conf[3]) {
        "argument 4 (ticks per beat) is not float"@
    } else {
        "argument 5 (maximum volume setting) is not integer"@
    }
}

/// A channel that renders notes through note mods, a note converter, one
/// instrument and sound mods, and auto-configures the converter from its own
/// parameters and the channel configuration.
pub struct SimpleChannel<M: Mod> {
    /// Name of the channel.
    pub name: String,
    /// ID of the channel.
    pub id: String,
    /// Volume of the sound in the platform's units.
    pub volume: u8,
    /// Number of octaves above C-1.
    pub octave: u8,
    /// Default length for a note, in ticks; used if a note's length is
    /// unspecified.
    pub length: u8,
    /// Duration of the sound after the note has been released, in ticks.
    pub post_release: u8,
    /// Note mods, applied first, in order.
    pub note_mods: Vec<Rc<M>>,
    /// Configurations bound to the note mods, positionally.
    pub note_configs: Vec<ResConfig>,
    /// Current opaque states of the note mods, positionally.
    pub note_states: Vec<ResState>,
    /// The converter that turns the folded note into physical units; it is
    /// configured automatically from the channel configuration, `octave` and
    /// `post_release`.
    pub converter: Rc<M>,
    /// Current opaque state of the converter.
    pub converter_state: ResState,
    /// The single instrument that renders the converted note into sound.
    pub instrument: Rc<M>,
    /// Configuration bound to the instrument.
    pub instrument_config: ResConfig,
    /// Current opaque state of the instrument.
    pub instrument_state: ResState,
    /// Sound mods, applied last, in order.
    pub sound_mods: Vec<Rc<M>>,
    /// Configurations bound to the sound mods, positionally.
    pub sound_configs: Vec<ResConfig>,
    /// Current opaque states of the sound mods, positionally.
    pub sound_states: Vec<ResState>,
}

/// What note to play on what channel.
#[derive(Debug, Clone, Copy, PartialEq, Eq, Structural)]
pub struct ChannelNumberAndNote {
    /// Channel number to play the note on.
    pub channel_number: usize,
    /// Note to play.
    pub note: Note,
}

impl<M: Mod> SimpleChannel<M> {
    /// Create a new channel from its parts.
    pub fn new(
        name: String,
        id: String,
        volume: u8,
        octave: u8,
        length: u8,
        post_release: u8,
        note_mods: Vec<Rc<M>>,
        note_configs: Vec<ResConfig>,
        note_states: Vec<ResState>,
        converter: Rc<M>,
        converter_state: ResState,
        instrument: Rc<M>,
        instrument_config: ResConfig,
        instrument_state: ResState,
        sound_mods: Vec<Rc<M>>,
        sound_configs: Vec<ResConfig>,
        sound_states: Vec<ResState>,
    ) -> (r: Self)
        ensures
            r == (SimpleChannel {
                name,
                id,
                volume,
                octave,
                length,
                post_release,
                note_mods,
                note_configs,
                note_states,
                converter,
                converter_state,
                instrument,
                instrument_config,
                instrument_state,
                sound_mods,
                sound_configs,
                sound_states,
            }),
    {
        SimpleChannel {
            name,
            id,
            volume,
            octave,
            length,
            post_release,
            note_mods,
            note_configs,
            note_states,
            converter,
            converter_state,
            instrument,
            instrument_config,
            instrument_state,
            sound_mods,
            sound_configs,
            sound_states,
        }
    }

    /// Each mod list is as long as its configuration and state lists; a
    /// mismatch is a fatal configuration error, checked before any
    /// processing.
    pub open spec fn lists_consistent(&self) -> bool {
        &&& self.note_mods@.len() == self.note_configs@.len()
        &&& self.note_mods@.len() == self.note_states@.len()
        &&& self.sound_mods@.len() == self.sound_configs@.len()
        &&& self.sound_mods@.len() == self.sound_states@.len()
    }

    /// The note with an unspecified length replaced by the channel's default
    /// length.
    pub open spec fn defaulted(&self, n: Note) -> Note {
        Note {
            len: if n.len is Some {
                n.len
            } else {
                Some(self.length)
            },
            pitch: n.pitch,
            cents: n.cents,
            natural: n.natural,
            velocity: n.velocity,
        }
    }

    /// The configuration handed to the converter: the frequency of C-1 and
    /// the tick length from the channel configuration, then the channel's
    /// octave, its post-release length, and zero added cents.
    pub open spec fn converter_config_view(&self, config: Seq<serde_json::Value>) -> Seq<
        serde_json::Value,
    > {
        seq![
            config[0],
            config[1],
            json_int(self.octave as i64),
            json_int(self.post_release as i64),
            json_int(0),
        ]
    }

    /// Everything `play` does: list-consistency and input checks, the
    /// default length, the fold through note mods, the converter, the
    /// instrument, the fold through sound mods, and the final variant check.
    /// Stages are numbered through all four sections in order.
    pub open spec fn play_result(
        &self,
        item: ModDataView,
        state: Seq<u8>,
        config: Seq<serde_json::Value>,
    ) -> Result<(ModDataView, Seq<Seq<u8>>), Seq<char>> {
        let nm = self.note_mods@.len() as int;
        if !self.lists_consistent() {
            Err("number of mods, configs and states is not equal"@)
        } else if !(item is Note) {
            Err("channel expects a Note"@)
        } else if !channel_config_ok(config) {
            Err(channel_config_err_msg(config))
        } else {
            let start = ModDataView::Note(self.defaulted(item->Note_0));
            match staged_fold(self.note_mods@, self.note_configs@, self.note_states@, start, nm, 0) {
                Err(e) => Err(e),
                Ok(p) => match direct_step(
                    self.converter,
                    p.0,
                    self.converter_config_view(config),
                    self.converter_state@,
                    nm,
                ) {
                    Err(e) => Err(e),
                    Ok(q) => match direct_step(
                        self.instrument,
                        q.0,
                        self.instrument_config@,
                        self.instrument_state@,
                        nm + 1,
                    ) {
                        Err(e) => Err(e),
                        Ok(w) => match staged_fold(
                            self.sound_mods@,
                            self.sound_configs@,
                            self.sound_states@,
                            w.0,
                            self.sound_mods@.len() as int,
                            nm + 2,
                        ) {
                            Err(e) => Err(e),
                            Ok(z) => if !(z.0 is Sound) {
                                Err("pipeline produced incorrect type"@)
                            } else {
                                Ok((z.0, p.1.push(q.1).push(w.1) + z.1))
                            },
                        },
                    },
                },
            }
        }
    }
}

/// If a fold fails after `k` stages, folding further changes nothing: the
/// first failing stage decides.
proof fn lemma_staged_fold_err_persists<M: Mod>(
    mods: Seq<Rc<M>>,
    configs: Seq<JsonArray>,
    states: Seq<ResState>,
    item: ModDataView,
    k: int,
    n: int,
    offset: int,
)
    requires
        0 <= k <= n,
        staged_fold(mods, configs, states, item, k, offset) is Err,
    ensures
        staged_fold(mods, configs, states, item, n, offset) == staged_fold(
            mods,
            configs,
            states,
            item,
            k,
            offset,
        ),
    decreases n - k,
{
    if n > k {
        lemma_staged_fold_err_persists(mods, configs, states, item, k, n - 1, offset);
    }
}

impl<M: Mod> Resource for SimpleChannel<M> {
    open spec fn id_spec(&self) -> Seq<char> {
        self.id@
    }

    open spec fn config_ok(&self, conf: Seq<serde_json::Value>) -> bool {
        channel_config_ok(conf)
    }

    open spec fn config_err_msg(&self, conf: Seq<serde_json::Value>) -> Seq<char> {
        channel_config_err_msg(conf)
    }

    open spec fn state_ok(&self, state: Seq<u8>) -> bool {
        true
    }

    fn orig_name(&self) -> Option<&str> {
        Some(self.name.as_str())
    }

    fn id(&self) -> (r: &str) {
        self.id.as_str()
    }

    fn check_config(&self, conf: &ResConfig) -> (r: Result<(), StringError>) {
        proof {
            reveal_strlit("incorrect config length");
            reveal_strlit("argument 1 (frequency of C-1) is not float");
            reveal_strlit("argument 2 (Length of one tick) is not float");
            reveal_strlit("argument 3 (number of ticks in one whole note) is not integer");
            reveal_strlit("argument 4 (ticks per beat) is not float");
            reveal_strlit("argument 5 (maximum volume setting) is not integer");
        }
        if conf.len() != 5 {
            return Err(StringError("incorrect config length".to_owned()));
        }
        if !value_is_f64(conf.get(0)) {
            return Err(StringError("argument 1 (frequency of C-1) is not float".to_owned()));
        }
        if !value_is_f64(conf.get(1)) {
            return Err(StringError("argument 2 (Length of one tick) is not float".to_owned()));
        }
        if !value_is_i64(conf.get(2)) {
            return Err(
                StringError(
                    "argument 3 (number of ticks in one whole note) is not integer".to_owned(),
                ),
            );
        }
        if !value_is_f64(conf.get(3)) {
            return Err(StringError("argument 4 (ticks per beat) is not float".to_owned()));
        }
        if !value_is_i64(conf.get(4)) {
            return Err(StringError("argument 5 (maximum volume setting) is not integer".to_owned()));
        }
        Ok(())
    }

    fn check_state(&self, state: &ResState) -> (r: Option<()>) {
        Some(())
    }

    fn description(&self) -> &str {
        "A simple channel that auto-configures a builtin Note -> ResNote converter."
    }
}

impl<M: Mod> Channel for SimpleChannel<M> {
    open spec fn input_type_spec(&self) -> DataKind {
        DataKind::Note
    }

    open spec fn output_type_spec(&self) -> DataKind {
        DataKind::Sound
    }

    open spec fn play_ok(
        &self,
        item: ModDataView,
        state: Seq<u8>,
        config: Seq<serde_json::Value>,
    ) -> bool {
        self.play_result(item, state, config) is Ok
    }

    open spec fn play_out(
        &self,
        item: ModDataView,
        state: Seq<u8>,
        config: Seq<serde_json::Value>,
    ) -> ModDataView {
        self.play_result(item, state, config)->Ok_0.0
    }

    open spec fn play_state_changes(
        &self,
        item: ModDataView,
        state: Seq<u8>,
        config: Seq<serde_json::Value>,
    ) -> Seq<Seq<u8>> {
        self.play_result(item, state, config)->Ok_0.1
    }

    open spec fn play_state(
        &self,
        item: ModDataView,
        state: Seq<u8>,
        config: Seq<serde_json::Value>,
    ) -> Seq<u8> {
        Seq::empty()
    }

    open spec fn play_err_msg(
        &self,
        item: ModDataView,
        state: Seq<u8>,
        config: Seq<serde_json::Value>,
    ) -> Seq<char> {
        self.play_result(item, state, config)->Err_0
    }

    fn play(&self, item: ModData, state: &ResState, config: &ResConfig) -> (r: Result<
        (ModData, crate::resource::PipelineStateChanges, ResState),
        StringError,
    >) {
        proof {
            reveal_strlit("number of mods, configs and states is not equal");
            reveal_strlit("channel expects a Note");
            reveal_strlit("pipeline broken at ");
            reveal_strlit(" (type mismatch)");
            reveal_strlit("mod error at ");
            reveal_strlit(": ");
            reveal_strlit("pipeline produced incorrect type");
        }
        let ghost nm = self.note_mods@.len() as int;
        if self.note_mods.len() != self.note_configs.len() || self.note_mods.len()
            != self.note_states.len() || self.sound_mods.len() != self.sound_configs.len()
            || self.sound_mods.len() != self.sound_states.len() {
            return Err(
                StringError("number of mods, configs and states is not equal".to_owned()),
            );
        }
        let note = match &item {
            ModData::Note(n) => *n,
            _ => {
                return Err(StringError("channel expects a Note".to_owned()));
            },
        };
        match self.check_config(config) {
            Ok(_) => {},
            Err(e) => {
                return Err(e);
            },
        }
        // Fall back to the channel's default length where the note leaves
        // its own unspecified.
        let note = Note {
            len: match note.len {
                Some(l) => Some(l),
                None => Some(self.length),
            },
            pitch: note.pitch,
            cents: note.cents,
            natural: note.natural,
            velocity: note.velocity,
        };
        let mut cur: ModData = ModData::Note(note);
        let mut changes: Vec<ResState> = Vec::new();
        let ghost start = cur@;
        proof {
            assert(start == ModDataView::Note(self.defaulted(item@->Note_0)));
            assert(changes@.map_values(|s: ResState| s@) =~= Seq::<Seq<u8>>::empty());
        }

        // Fold the note through the note mods, in order.
        let mut i: usize = 0;
        while i < self.note_mods.len()
            invariant
                i <= self.note_mods@.len(),
                self.lists_consistent(),
                nm == self.note_mods@.len() as int,
                item@ is Note,
                channel_config_ok(config@),
                start == ModDataView::Note(self.defaulted(item@->Note_0)),
                changes@.len() == i,
                staged_fold(
                    self.note_mods@,
                    self.note_configs@,
                    self.note_states@,
                    start,
                    i as int,
                    0,
                ) == Ok::<_, Seq<char>>((cur@, changes@.map_values(|s: ResState| s@))),
            decreases self.note_mods@.len() - i,
        {
            let ghost pre = (cur@, changes@.map_values(|s: ResState| s@));
            if self.note_mods[i].input_type() != cur.kind() {
                let mut m: String = "pipeline broken at ".to_owned();
                m.append(format_usize(i).as_str());
                m.append(" (type mismatch)");
                proof {
                    assert(staged_fold(
                        self.note_mods@,
                        self.note_configs@,
                        self.note_states@,
                        start,
                        i as int + 1,
                        0,
                    ) == Err::<(ModDataView, Seq<Seq<u8>>), _>(m@));
                    lemma_staged_fold_err_persists(
                        self.note_mods@,
                        self.note_configs@,
                        self.note_states@,
                        start,
                        i as int + 1,
                        nm,
                        0,
                    );
                    assert(self.play_result(item@, state@, config@) == Err::<
                        (ModDataView, Seq<Seq<u8>>),
                        _,
                    >(m@));
                }
                return Err(StringError(m));
            }
            match self.note_mods[i].apply(&cur, &self.note_configs[i], &self.note_states[i]) {
                Ok((out, st)) => {
                    proof {
                        assert(staged_fold(
                            self.note_mods@,
                            self.note_configs@,
                            self.note_states@,
                            start,
                            i as int + 1,
                            0,
                        ) == Ok::<_, Seq<char>>((out@, pre.1.push(st@))));
                    }
                    cur = out;
                    changes.push(st);
                    proof {
                        assert(changes@.map_values(|s: ResState| s@) =~= pre.1.push(
                            changes@.last()@,
                        ));
                    }
                },
                Err(e) => {
                    let mut m: String = "mod error at ".to_owned();
                    m.append(format_usize(i).as_str());
                    m.append(": ");
                    m.append(e.0.as_str());
                    proof {
                        assert(staged_fold(
                            self.note_mods@,
                            self.note_configs@,
                            self.note_states@,
                            start,
                            i as int + 1,
                            0,
                        ) == Err::<(ModDataView, Seq<Seq<u8>>), _>(m@));
                        lemma_staged_fold_err_persists(
                            self.note_mods@,
                            self.note_configs@,
                            self.note_states@,
                            start,
                            i as int + 1,
                            nm,
                            0,
                        );
                        assert(self.play_result(item@, state@, config@) == Err::<
                            (ModDataView, Seq<Seq<u8>>),
                            _,
                        >(m@));
                    }
                    return Err(StringError(m));
                },
            }
            i = i + 1;
        }
        let ghost note_phase = (cur@, changes@.map_values(|s: ResState| s@));

        // Configure the converter from the channel configuration and the
        // channel's own parameters.
        let mut conv_conf = JsonArray::new();
        proof {
            assert(!is_container(config@[0]));
            assert(!is_container(config@[1]));
        }
        let _ = conv_conf.push(clone_value(config.get(0)));
        let _ = conv_conf.push(clone_value(config.get(1)));
        let _ = conv_conf.push(int_value(self.octave as i64));
        let _ = conv_conf.push(int_value(self.post_release as i64));
        let _ = conv_conf.push(int_value(0));
        proof {
            assert(conv_conf@ =~= self.converter_config_view(config@));
        }

        // Convert the folded note into physical units.
        let stage_u: u128 = self.note_mods.len() as u128;
        let ghost conv_st: Seq<u8>;
        match self.converter.apply(&cur, &conv_conf, &self.converter_state) {
            Ok((out, st)) => {
                proof {
                    conv_st = st@;
                    assert(direct_step(
                        self.converter,
                        note_phase.0,
                        self.converter_config_view(config@),
                        self.converter_state@,
                        nm,
                    ) == Ok::<_, Seq<char>>((out@, st@)));
                }
                cur = out;
                changes.push(st);
                proof {
                    assert(changes@.map_values(|s: ResState| s@) =~= note_phase.1.push(conv_st));
                }
            },
            Err(e) => {
                let mut m: String = "mod error at ".to_owned();
                m.append(format_u128(stage_u).as_str());
                m.append(": ");
                m.append(e.0.as_str());
                proof {
                    assert(direct_step(
                        self.converter,
                        note_phase.0,
                        self.converter_config_view(config@),
                        self.converter_state@,
                        nm,
                    ) == Err::<(ModDataView, Seq<u8>), _>(m@));
                    assert(self.play_result(item@, state@, config@) == Err::<
                        (ModDataView, Seq<Seq<u8>>),
                        _,
                    >(m@));
                }
                return Err(StringError(m));
            },
        }
        let ghost conv_out = cur@;

        // Render the converted note with the instrument.
        let ghost inst_st: Seq<u8>;
        match self.instrument.apply(&cur, &self.instrument_config, &self.instrument_state) {
            Ok((out, st)) => {
                proof {
                    inst_st = st@;
                    assert(direct_step(
                        self.instrument,
                        conv_out,
                        self.instrument_config@,
                        self.instrument_state@,
                        nm + 1,
                    ) == Ok::<_, Seq<char>>((out@, st@)));
                }
                cur = out;
                changes.push(st);
                proof {
                    assert(changes@.map_values(|s: ResState| s@) =~= note_phase.1.push(
                        conv_st,
                    ).push(inst_st));
                }
            },
            Err(e) => {
                let mut m: String = "mod error at ".to_owned();
                m.append(format_u128(stage_u + 1).as_str());
                m.append(": ");
                m.append(e.0.as_str());
                proof {
                    assert(direct_step(
                        self.instrument,
                        conv_out,
                        self.instrument_config@,
                        self.instrument_state@,
                        nm + 1,
                    ) == Err::<(ModDataView, Seq<u8>), _>(m@));
                    assert(self.play_result(item@, state@, config@) == Err::<
                        (ModDataView, Seq<Seq<u8>>),
                        _,
                    >(m@));
                }
                return Err(StringError(m));
            },
        }

        // Fold the sound through the sound mods, in order.
        let ghost sound_start = cur@;
        proof {
            assert(changes@.len() == nm + 2);
            assert(changes@.map_values(|s: ResState| s@).skip(nm + 2) =~= Seq::<Seq<u8>>::empty());
        }
        let mut j: usize = 0;
        while j < self.sound_mods.len()
            invariant
                j <= self.sound_mods@.len(),
                self.lists_consistent(),
                nm == self.note_mods@.len() as int,
                item@ is Note,
                channel_config_ok(config@),
                start == ModDataView::Note(self.defaulted(item@->Note_0)),
                staged_fold(
                    self.note_mods@,
                    self.note_configs@,
                    self.note_states@,
                    start,
                    nm,
                    0,
                ) == Ok::<_, Seq<char>>(note_phase),
                direct_step(
                    self.converter,
                    note_phase.0,
                    self.converter_config_view(config@),
                    self.converter_state@,
                    nm,
                ) == Ok::<_, Seq<char>>((conv_out, conv_st)),
                direct_step(
                    self.instrument,
                    conv_out,
                    self.instrument_config@,
                    self.instrument_state@,
                    nm + 1,
                ) == Ok::<_, Seq<char>>((sound_start, inst_st)),
                changes@.len() == nm + 2 + j,
                changes@.map_values(|s: ResState| s@).take(nm + 2) == note_phase.1.push(
                    conv_st,
                ).push(inst_st),
                staged_fold(
                    self.sound_mods@,
                    self.sound_configs@,
                    self.sound_states@,
                    sound_start,
                    j as int,
                    nm + 2,
                ) == Ok::<_, Seq<char>>(
                    (cur@, changes@.map_values(|s: ResState| s@).skip(nm + 2)),
                ),
            decreases self.sound_mods@.len() - j,
        {
            let ghost pre = (cur@, changes@.map_values(|s: ResState| s@).skip(nm + 2));
            if self.sound_mods[j].input_type() != cur.kind() {
                let mut m: String = "pipeline broken at ".to_owned();
                let stage: u128 = self.note_mods.len() as u128 + 2 + j as u128;
                m.append(format_u128(stage).as_str());
                m.append(" (type mismatch)");
                proof {
                    assert(staged_fold(
                        self.sound_mods@,
                        self.sound_configs@,
                        self.sound_states@,
                        sound_start,
                        j as int + 1,
                        nm + 2,
                    ) == Err::<(ModDataView, Seq<Seq<u8>>), _>(m@));
                    lemma_staged_fold_err_persists(
                        self.sound_mods@,
                        self.sound_configs@,
                        self.sound_states@,
                        sound_start,
                        j as int + 1,
                        self.sound_mods@.len() as int,
                        nm + 2,
                    );
                    assert(self.play_result(item@, state@, config@) == Err::<
                        (ModDataView, Seq<Seq<u8>>),
                        _,
                    >(m@));
                }
                return Err(StringError(m));
            }
            match self.sound_mods[j].apply(&cur, &self.sound_configs[j], &self.sound_states[j]) {
                Ok((out, st)) => {
                    proof {
                        assert(staged_fold(
                            self.sound_mods@,
                            self.sound_configs@,
                            self.sound_states@,
                            sound_start,
                            j as int + 1,
                            nm + 2,
                        ) == Ok::<_, Seq<char>>((out@, pre.1.push(st@))));
                    }
                    cur = out;
                    changes.push(st);
                    proof {
                        assert(changes@.map_values(|s: ResState| s@).skip(nm + 2) =~= pre.1.push(
                            changes@.last()@,
                        ));
                        assert(changes@.map_values(|s: ResState| s@).take(nm + 2)
                            =~= note_phase.1.push(conv_st).push(inst_st));
                    }
                },
                Err(e) => {
                    let mut m: String = "mod error at ".to_owned();
                    let stage: u128 = self.note_mods.len() as u128 + 2 + j as u128;
                    m.append(format_u128(stage).as_str());
                    m.append(": ");
                    m.append(e.0.as_str());
                    proof {
                        assert(staged_fold(
                            self.sound_mods@,
                            self.sound_configs@,
                            self.sound_states@,
                            sound_start,
                            j as int + 1,
                            nm + 2,
                        ) == Err::<(ModDataView, Seq<Seq<u8>>), _>(m@));
                        lemma_staged_fold_err_persists(
                            self.sound_mods@,
                            self.sound_configs@,
                            self.sound_states@,
                            sound_start,
                            j as int + 1,
                            self.sound_mods@.len() as int,
                            nm + 2,
                        );
                        assert(self.play_result(item@, state@, config@) == Err::<
                            (ModDataView, Seq<Seq<u8>>),
                            _,
                        >(m@));
                    }
                    return Err(StringError(m));
                },
            }
            j = j + 1;
        }

        if !cur.is_sound() {
            proof {
                assert(self.play_result(item@, state@, config@) == Err::<
                    (ModDataView, Seq<Seq<u8>>),
                    _,
                >("pipeline produced incorrect type"@));
            }
            return Err(StringError("pipeline produced incorrect type".to_owned()));
        }
        proof {
            let full = changes@.map_values(|s: ResState| s@);
            assert(full =~= full.take(nm + 2) + full.skip(nm + 2));
            assert(self.play_result(item@, state@, config@) == Ok::<_, Seq<char>>((cur@, full)));
        }
        Ok((cur, changes, Vec::new()))
    }

    fn input_type(&self) -> (k: DataKind) {
        DataKind::Note
    }

    fn output_type(&self) -> (k: DataKind) {
        DataKind::Sound
    }
}

} // verus!
