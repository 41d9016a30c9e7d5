use mleml::builtin::SimpleMod;
use mleml::channel::SimpleChannel;
use mleml::resource::{Channel, DataKind, ModData, Resource};
use mleml::types::{Note, ReadyNote, Sound};
use mleml::values::JsonArray;
use serde_json::Value;
use std::rc::Rc;

fn mk(id: &str, input: DataKind, output: DataKind) -> Rc<SimpleMod> {
    Rc::new(SimpleMod::new(
        id.to_owned(),
        id.to_owned(),
        "test mod".to_owned(),
        JsonArray::new(),
        input,
        output,
    ))
}

fn channel_config() -> JsonArray {
    let mut conf = JsonArray::new();
    conf.push(Value::from(8.175799)).unwrap();
    conf.push(Value::from(0.125)).unwrap();
    conf.push(Value::from(96)).unwrap();
    conf.push(Value::from(2.0)).unwrap();
    conf.push(Value::from(255)).unwrap();
    conf
}

fn test_channel() -> SimpleChannel<SimpleMod> {
    SimpleChannel {
        name: "Lead".to_owned(),
        id: "LEAD".to_owned(),
        volume: 15,
        octave: 4,
        length: 4,
        post_release: 2,
        note_mods: vec![mk("NOTE_SHAPER", DataKind::Note, DataKind::Note)],
        note_configs: vec![JsonArray::new()],
        note_states: vec![Vec::new()],
        converter: mk("TO_READY", DataKind::Note, DataKind::ReadyNote),
        converter_state: Vec::new(),
        instrument: mk("TO_SOUND", DataKind::ReadyNote, DataKind::Sound),
        instrument_config: JsonArray::new(),
        instrument_state: Vec::new(),
        sound_mods: vec![mk("SOUND_SHAPER", DataKind::Sound, DataKind::Sound)],
        sound_configs: vec![JsonArray::new()],
        sound_states: vec![Vec::new()],
    }
}

#[test]
fn playing_a_note_runs_every_stage_in_order() {
    let ch = test_channel();
    assert_eq!(ch.input_type(), DataKind::Note);
    assert_eq!(ch.output_type(), DataKind::Sound);

    let note = Note { len: Some(2), pitch: Some(0), cents: 0, natural: false, velocity: 100 };
    let state: Vec<u8> = Vec::new();
    let (out, changes, own_state) = ch
        .play(ModData::Note(note), &state, &channel_config())
        .unwrap();
    //The placeholder instrument renders an empty sound
    assert_eq!(out, ModData::Sound(Sound::new(Vec::new(), 0)));
    //One state per stage: one note mod, the converter, the instrument, one sound mod
    assert_eq!(changes.len(), 4);
    assert!(own_state.is_empty());
}

#[test]
fn playing_a_note_with_unspecified_length_uses_the_default() {
    //The channel falls back to its default length before converting, so an
    //unspecified note behaves exactly like one with the default length.
    let ch = test_channel();
    let state: Vec<u8> = Vec::new();
    let unspecified = Note { len: None, pitch: Some(0), cents: 0, natural: false, velocity: 100 };
    let explicit = Note { len: Some(4), pitch: Some(0), cents: 0, natural: false, velocity: 100 };
    let r1 = ch.play(ModData::Note(unspecified), &state, &channel_config()).unwrap();
    let r2 = ch.play(ModData::Note(explicit), &state, &channel_config()).unwrap();
    assert_eq!(r1.0, r2.0);
    assert_eq!(r1.1, r2.1);
}

#[test]
fn playing_rejects_data_that_is_not_a_note() {
    let ch = test_channel();
    let state: Vec<u8> = Vec::new();
    let e = ch
        .play(
            ModData::ReadyNote(ReadyNote::default()),
            &state,
            &channel_config(),
        )
        .unwrap_err();
    assert_eq!(e.0, "channel expects a Note");
}

#[test]
fn playing_rejects_inconsistent_stage_lists() {
    let mut ch = test_channel();
    ch.note_states.push(Vec::new());
    let state: Vec<u8> = Vec::new();
    let note = Note { len: Some(2), pitch: Some(0), cents: 0, natural: false, velocity: 100 };
    let e = ch.play(ModData::Note(note), &state, &channel_config()).unwrap_err();
    assert_eq!(e.0, "number of mods, configs and states is not equal");
}

#[test]
fn playing_rejects_an_invalid_channel_config() {
    let ch = test_channel();
    let state: Vec<u8> = Vec::new();
    let note = Note { len: Some(2), pitch: Some(0), cents: 0, natural: false, velocity: 100 };
    let mut conf = JsonArray::new();
    conf.push(Value::from(8)).unwrap();
    conf.push(Value::from(0.125)).unwrap();
    conf.push(Value::from(96)).unwrap();
    conf.push(Value::from(2.0)).unwrap();
    conf.push(Value::from(255)).unwrap();
    let e = ch.play(ModData::Note(note), &state, &conf).unwrap_err();
    assert_eq!(e.0, "argument 1 (frequency of C-1) is not float");
}

#[test]
fn playing_reports_the_stage_that_breaks_the_pipeline() {
    let mut ch = test_channel();
    //A note mod that expects sound can never follow the note input
    ch.note_mods = vec![mk("MISFIT", DataKind::Sound, DataKind::Sound)];
    let state: Vec<u8> = Vec::new();
    let note = Note { len: Some(2), pitch: Some(0), cents: 0, natural: false, velocity: 100 };
    let e = ch.play(ModData::Note(note), &state, &channel_config()).unwrap_err();
    assert_eq!(e.0, "pipeline broken at 0 (type mismatch)");
}

#[test]
fn playing_annotates_a_failing_stage_with_its_position() {
    let mut ch = test_channel();
    //A converter that expects something other than a note fails inside apply
    ch.converter = mk("MISFIT_CONVERTER", DataKind::ReadyNote, DataKind::ReadyNote);
    let state: Vec<u8> = Vec::new();
    let note = Note { len: Some(2), pitch: Some(0), cents: 0, natural: false, velocity: 100 };
    let e = ch.play(ModData::Note(note), &state, &channel_config()).unwrap_err();
    assert_eq!(e.0, "mod error at 1: incorrect input type");
}

#[test]
fn playing_rejects_a_pipeline_that_does_not_end_in_sound() {
    let mut ch = test_channel();
    ch.instrument = mk("HALF_INSTRUMENT", DataKind::ReadyNote, DataKind::ReadyNote);
    ch.sound_mods = vec![mk("READY_SHAPER", DataKind::ReadyNote, DataKind::ReadyNote)];
    let state: Vec<u8> = Vec::new();
    let note = Note { len: Some(2), pitch: Some(0), cents: 0, natural: false, velocity: 100 };
    let e = ch.play(ModData::Note(note), &state, &channel_config()).unwrap_err();
    assert_eq!(e.0, "pipeline produced incorrect type");
}

#[test]
fn channel_validates_its_own_config() {
    let ch = test_channel();
    assert!(ch.check_config(&channel_config()).is_ok());
    let e = ch.check_config(&JsonArray::new()).unwrap_err();
    assert_eq!(e.0, "incorrect config length");
    assert_eq!(ch.id(), "LEAD");
    assert_eq!(ch.orig_name(), Some("Lead"));
}
