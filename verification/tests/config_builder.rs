use mleml::builder::{ConfBuilding, ConfigBuilder, ConfigBuilderError};
use mleml::values::{JsonArray, ValueKind};
use serde_json::Value;

fn example_json_array() -> JsonArray {
    let mut arr = JsonArray::new();
    arr.push(Value::from(22.5)).unwrap();
    arr.push(Value::from("precacious")).unwrap();
    arr.push(Value::Bool(true)).unwrap();
    arr
}

#[test]
fn config_builder_json_array_good_types_are_pushed() {
    let mut arr = JsonArray::new();
    arr.push(Value::from(22.5)).unwrap();
    arr.push(Value::from("precacious")).unwrap();
    arr.push(Value::Bool(true)).unwrap();
}

#[test]
fn config_builder_json_array_push_keeps_flatness() {
    let mut arr = example_json_array();
    assert!(arr.push(Value::Array(vec![])).is_none());
    let mut obj = serde_json::Map::new();
    obj.insert("a".to_string(), Value::Bool(true));
    assert!(arr.push(Value::Object(obj)).is_none());
}

#[test]
fn config_builder_json_array_as_slice() {
    let arr = example_json_array();
    let sliced = [Value::from(22.5), Value::from("precacious"), Value::Bool(true)];
    assert_eq!(arr.as_slice(), &sliced)
}

#[test]
fn config_builder_json_array_as_byte_vec() {
    let arr = example_json_array();
    assert_eq!(arr.as_byte_vec(), r#"[22.5,"precacious",true]"#.as_bytes());
}

#[test]
fn config_builder_config_builder_returns_empty_config_on_empty_schema() {
    let schema = JsonArray::new();
    let builder = ConfigBuilder::new(&schema);
    if let ConfigBuilder::Builder(_) = builder {
        panic!("Schema is empty but the builder did not immediately return")
    }
}

#[test]
fn append_to_config_builder_works() {
    let schema = example_json_array();
    let mut conf_building = ConfBuilding::new(&schema);
    //Correct type is Number, and this is not the last element
    assert!(conf_building.append(&Value::from(30.3)).is_ok_and(|x| !x));
    //Correct type is String, and this is not the last element
    assert!(conf_building.append(&Value::from("Very silent")).is_ok_and(|x| !x));
    //Correct type is Bool, and this is the last element of the config
    assert!(conf_building.append(&Value::Bool(false)).is_ok_and(|x| x));
}

#[test]
fn append_to_config_builder_extra() {
    let schema = example_json_array();
    let mut conf_builder = ConfigBuilder::new(&schema);

    //Correct type is Number, and this is not the last element
    assert!(conf_builder.append(&Value::from(30.3)).is_ok_and(|x| !x));
    //Correct type is String, and this is not the last element
    assert!(conf_builder.append(&Value::from("Very silent")).is_ok_and(|x| !x));
    //Correct type is Bool, and this is the last element of the config
    assert!(conf_builder.append(&Value::Bool(false)).is_ok_and(|x| x));
    assert!(conf_builder
        .append(&Value::from("extra"))
        .is_err_and(|x| x == ConfigBuilderError::ValueOutsideSchema));
}

#[test]
fn config_builder_append_to_config_building_type_mismatch() {
    let schema = example_json_array();
    let mut conf_builder = ConfigBuilder::new(&schema);

    let given_disc = ValueKind::String;
    let expected_disc = ValueKind::Number;
    assert!(conf_builder
        .append(&Value::from("teehee"))
        .is_err_and(|x| x == ConfigBuilderError::TypeMismatch(0, expected_disc, given_disc)));
}

#[test]
fn config_builder_config_builder_inject_typical_use() {
    let schema = example_json_array();
    let mut conf_build = ConfigBuilder::new(&schema);
    let items = vec![Value::from(2500), Value::from("merged"), Value::Bool(false)];

    match conf_build.inject(&items) {
        Ok(count) => {
            //Count has to be three because 3 items were inserted
            assert_eq!(count, 3);
            //Builder has to be finished
            assert!(conf_build.is_config())
        }
        //Provided items match the schema, so Err(_) is impossible
        Err(_) => unreachable!(),
    }
}

#[test]
fn config_builder_config_builder_inject_longer() {
    let schema = example_json_array();
    let mut conf_build = ConfigBuilder::new(&schema);
    //There are more items than needed
    let items = vec![
        Value::from(2500),
        Value::from("merged"),
        Value::Bool(false),
        Value::from("extra"),
    ];

    match conf_build.inject(&items) {
        Ok(count) => {
            //Count has to be three because 3 items were inserted
            assert_eq!(count, 3);
            //Builder has to be finished
            assert!(conf_build.is_config())
        }
        //Provided items match the schema (the last one is dropped), so Err(_) is impossible
        Err(_) => unreachable!(),
    }
}

#[test]
fn config_builder_config_builder_inject_two_small() {
    let schema = example_json_array();
    let mut conf_build = ConfigBuilder::new(&schema);
    //Both vectors are smaller than schema
    let it1 = vec![Value::from(2500), Value::from("merged")];
    let it2 = vec![Value::Bool(false), Value::from("extra")];

    match conf_build.inject(&it1) {
        Ok(count) => {
            assert_eq!(count, 2);
            //Builder has to be unfinished
            assert!(conf_build.is_builder())
        }
        Err(_) => unreachable!(),
    }

    match conf_build.inject(&it2) {
        Ok(count) => {
            //Schema is of length 3 and two items were inserted earlier, only one
            //needs to be taken.
            assert_eq!(count, 1);
            assert!(conf_build.is_config())
        }
        Err(_) => unreachable!(),
    }
}

#[test]
fn config_builder_config_builder_inject_wrong() {
    let schema = example_json_array();
    let mut conf_build = ConfigBuilder::new(&schema);
    //Second value is not a string
    let items = vec![Value::from(7), Value::from(0xF00F), Value::Bool(false)];
    let given_disc = ValueKind::Number;
    let expected_disc = ValueKind::String;

    match conf_build.inject(&items) {
        Ok(_) => panic!("config builder created a config that does not match the schema"),
        //Other test proves that extra values will not be accepted,
        //eliminating ValueOutsideSchema possibility.
        Err(e) => {
            assert_eq!(
                e,
                ConfigBuilderError::TypeMismatch(1, expected_disc, given_disc)
            );
        }
    }
}

#[test]
fn config_builder_config_builder_inject_into_full() {
    let schema = example_json_array();
    let mut conf_build = ConfigBuilder::new(&schema);
    let it1 = vec![Value::from(2500), Value::from("merged"), Value::Bool(false)];
    let it2 = vec![Value::from("extra")];

    //Other test proves that this does not panic.
    conf_build.inject(&it1).unwrap();
    match conf_build.inject(&it2) {
        Ok(_) => panic!("config builder accepted a value that does not fit into the schema"),
        Err(e) => assert_eq!(e, ConfigBuilderError::ValueOutsideSchema),
    }
}
