use mleml::builtin::{ConvertNote, FourOpFm, SimpleMod};
use mleml::resource::{DataKind, Mod, Resource};
use mleml::values::JsonArray;
use serde_json::Value;

#[test]
fn schema_rejection_names_the_offending_index() {
    //Schema of two numbers, config of a number and a string
    let mut schema = JsonArray::new();
    schema.push(Value::from(0)).unwrap();
    schema.push(Value::from(0)).unwrap();
    let checker = SimpleMod::new(
        "Checker".to_owned(),
        "CHECKER".to_owned(),
        "Schema demonstration".to_owned(),
        schema,
        DataKind::Note,
        DataKind::Note,
    );

    let mut conf = JsonArray::new();
    conf.push(Value::from(5)).unwrap();
    conf.push(Value::from("six")).unwrap();

    let e = checker.check_config(&conf).unwrap_err();
    assert_eq!(e.0, "type mismatch at index 1");
}

#[test]
fn simple_mod_emits_the_default_of_its_output_variant() {
    let m = SimpleMod::new(
        "To ready".to_owned(),
        "TO_READY".to_owned(),
        "Turns notes into silence placeholders".to_owned(),
        JsonArray::new(),
        DataKind::Note,
        DataKind::ReadyNote,
    );
    assert_eq!(m.input_type(), DataKind::Note);
    assert_eq!(m.output_type(), DataKind::ReadyNote);

    let note = mleml::types::Note::default();
    let conf = JsonArray::new();
    let state: Vec<u8> = Vec::new();
    let (out, new_state) = m
        .apply(&mleml::resource::ModData::Note(note), &conf, &state)
        .unwrap();
    assert_eq!(out, mleml::resource::ModData::ReadyNote(mleml::types::ReadyNote::default()));
    assert!(new_state.is_empty());

    let wrong = m.apply(&mleml::resource::ModData::String("hum".to_owned()), &conf, &state);
    assert_eq!(wrong.unwrap_err().0, "incorrect input type");
}

#[test]
fn applying_a_mod_twice_gives_identical_results() {
    let m = SimpleMod::new(
        "To sound".to_owned(),
        "TO_SOUND".to_owned(),
        "Renders placeholders".to_owned(),
        JsonArray::new(),
        DataKind::ReadyNote,
        DataKind::Sound,
    );
    let input = mleml::resource::ModData::ReadyNote(mleml::types::ReadyNote::default());
    let conf = JsonArray::new();
    let state: Vec<u8> = vec![4, 5, 6];
    let first = m.apply(&input, &conf, &state).unwrap();
    let second = m.apply(&input, &conf, &state).unwrap();
    assert_eq!(first, second);
}

fn convert_note_config() -> JsonArray {
    let mut conf = JsonArray::new();
    conf.push(Value::from(8.175799)).unwrap();
    conf.push(Value::from(0.00028)).unwrap();
    conf.push(Value::from(4)).unwrap();
    conf.push(Value::from(2)).unwrap();
    conf.push(Value::from(0)).unwrap();
    conf
}

#[test]
fn convert_note_accepts_its_configuration_shape() {
    let c = ConvertNote();
    assert_eq!(c.id(), "BUILTIN_CONVERT_NOTE");
    assert!(c.check_config(&convert_note_config()).is_ok());
}

#[test]
fn convert_note_rejects_wrong_length() {
    let c = ConvertNote();
    let mut conf = JsonArray::new();
    conf.push(Value::from(8.175799)).unwrap();
    let e = c.check_config(&conf).unwrap_err();
    assert_eq!(e.0, "incorrect config length");
}

#[test]
fn convert_note_rejects_integer_where_float_is_needed() {
    let c = ConvertNote();
    let mut conf = JsonArray::new();
    conf.push(Value::from(8)).unwrap();
    conf.push(Value::from(0.00028)).unwrap();
    conf.push(Value::from(4)).unwrap();
    conf.push(Value::from(2)).unwrap();
    conf.push(Value::from(0)).unwrap();
    let e = c.check_config(&conf).unwrap_err();
    assert_eq!(e.0, "argument 1 (frequency of C-1) is not float");
}

#[test]
fn convert_note_rejects_negative_octave() {
    let c = ConvertNote();
    let mut conf = JsonArray::new();
    conf.push(Value::from(8.175799)).unwrap();
    conf.push(Value::from(0.00028)).unwrap();
    conf.push(Value::from(-1)).unwrap();
    conf.push(Value::from(2)).unwrap();
    conf.push(Value::from(0)).unwrap();
    let e = c.check_config(&conf).unwrap_err();
    assert_eq!(e.0, "argument 3 (octave) is not nonnegative integer");
}

fn fm_config() -> JsonArray {
    let mut conf = JsonArray::new();
    conf.push(Value::from(0)).unwrap();
    conf.push(Value::Bool(false)).unwrap();
    for _ in 0..32 {
        conf.push(Value::from(0)).unwrap();
    }
    conf
}

#[test]
fn fm_accepts_a_full_configuration() {
    let fm = FourOpFm();
    assert_eq!(fm.id(), "FOUR_OPERATOR_FM");
    assert!(fm.check_config(&fm_config()).is_ok());
}

#[test]
fn fm_rejects_wrong_slot_count() {
    let fm = FourOpFm();
    let mut conf = JsonArray::new();
    conf.push(Value::from(0)).unwrap();
    conf.push(Value::Bool(false)).unwrap();
    conf.push(Value::from(0)).unwrap();
    let e = fm.check_config(&conf).unwrap_err();
    assert_eq!(e.0, "wrong number of values: expected 34, got 3");
}

#[test]
fn fm_rejects_a_rate_outside_its_range() {
    let fm = FourOpFm();
    let mut conf = fm_config();
    //Slot 2 is the first operator's attack rate, capped at 511
    conf.remove(2);
    conf.insert(2, Value::from(512)).unwrap();
    let e = fm.check_config(&conf).unwrap_err();
    assert_eq!(e.0, "value 512 is outside of range 0 - 511");
}

#[test]
fn fm_reports_negative_bounds_for_detune() {
    let fm = FourOpFm();
    let mut conf = fm_config();
    //Slot 9 is the first operator's detune, bounded by -511 and 511
    conf.remove(9);
    conf.insert(9, Value::from(-600)).unwrap();
    let e = fm.check_config(&conf).unwrap_err();
    assert_eq!(e.0, "value -600 is outside of range -511 - 511");
}

#[test]
fn fm_rejects_a_missing_boolean() {
    let fm = FourOpFm();
    let mut conf = fm_config();
    conf.remove(1);
    conf.insert(1, Value::from(1)).unwrap();
    let e = fm.check_config(&conf).unwrap_err();
    assert_eq!(e.0, "extracted value is not bool");
}

#[test]
fn fm_rejects_a_float_where_an_integer_is_needed() {
    let fm = FourOpFm();
    let mut conf = fm_config();
    conf.remove(4);
    conf.insert(4, Value::from(1.5)).unwrap();
    let e = fm.check_config(&conf).unwrap_err();
    assert_eq!(e.0, "extracted value is not integer");
}
