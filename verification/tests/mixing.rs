use mleml::mixer::SimpleMixer;
use mleml::resource::{Mixer, Resource};
use mleml::types::Frame;
use mleml::values::JsonArray;

fn mixer(channel_count: usize) -> SimpleMixer {
    SimpleMixer {
        name: "Overlay mixer".to_owned(),
        id: "OVERLAY_MIXER".to_owned(),
        desc: "Overlays the common overlap and carries the rest.".to_owned(),
        schema: JsonArray::new(),
        values: JsonArray::new(),
        channel_count,
        sampling_rate: 48000,
    }
}

fn f(v: i32) -> Frame {
    Frame { left: v, right: v }
}

#[test]
fn mixing_consumes_the_overlap_and_returns_aligned_leftovers() {
    let m = mixer(2);
    let conf = JsonArray::new();
    let state: Vec<u8> = Vec::new();

    //Channel A is fresh and has four samples, channel B two
    let channels = vec![
        (true, vec![f(1), f(2), f(3), f(4)]),
        (true, vec![f(10), f(20)]),
    ];
    let (sound, _new_state, leftover) = m.mix(&channels, 0, &conf, &state).unwrap();

    //Only the two-sample overlap is consumed
    assert_eq!(sound.data(), &[f(11), f(22)]);
    assert_eq!(sound.sampling_rate(), 48000);
    //The remainder of A comes back in A's position; B was consumed whole
    assert_eq!(leftover, vec![Some(vec![f(3), f(4)]), None]);

    //The next call carries A's leftover and a fresh buffer for B
    let channels2 = vec![
        (false, vec![f(3), f(4)]),
        (true, vec![f(30), f(40)]),
    ];
    let (sound2, _st, leftover2) = m.mix(&channels2, 1, &conf, &state).unwrap();
    assert_eq!(sound2.data(), &[f(33), f(44)]);
    //The leftover was consumed exactly
    assert_eq!(leftover2, vec![None, None]);
}

#[test]
fn mixing_wrong_channel_count_fails() {
    let m = mixer(2);
    let conf = JsonArray::new();
    let state: Vec<u8> = Vec::new();
    let channels = vec![(true, vec![f(1)])];
    let e = m.mix(&channels, 0, &conf, &state).unwrap_err();
    assert_eq!(e.0, "channel count mismatch");
}

#[test]
fn mixing_saturates_instead_of_wrapping() {
    let m = mixer(2);
    let conf = JsonArray::new();
    let state: Vec<u8> = Vec::new();
    let channels = vec![
        (true, vec![Frame { left: i32::MAX, right: i32::MIN }]),
        (true, vec![Frame { left: 1, right: -1 }]),
    ];
    let (sound, _st, leftover) = m.mix(&channels, 0, &conf, &state).unwrap();
    assert_eq!(sound.data(), &[Frame { left: i32::MAX, right: i32::MIN }]);
    assert_eq!(leftover, vec![None, None]);
}

#[test]
fn mixer_validates_its_config_against_the_schema() {
    let mut schema = JsonArray::new();
    schema.push(serde_json::Value::from(0)).unwrap();
    let m = SimpleMixer { schema, ..mixer(2) };

    let mut good = JsonArray::new();
    good.push(serde_json::Value::from(17)).unwrap();
    assert!(m.check_config(&good).is_ok());

    let mut bad = JsonArray::new();
    bad.push(serde_json::Value::from("seventeen")).unwrap();
    assert_eq!(m.check_config(&bad).unwrap_err().0, "type mismatch at index 0");

    let e = m.check_config(&JsonArray::new()).unwrap_err();
    assert_eq!(e.0, "length mismatch: expected 1, got 0");
}
