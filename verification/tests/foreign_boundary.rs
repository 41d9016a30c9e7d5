use mleml::boundary::{interpret_return, interpret_unit_return, RawReturn};

#[test]
fn a_foreign_failure_becomes_an_error_with_the_decoded_message() {
    let ret: RawReturn<u8> = RawReturn {
        is_ok: false,
        item: None,
        msg: "no such configuration".as_bytes().to_vec(),
    };
    let e = interpret_return(ret).unwrap_err();
    assert_eq!(e.0, "no such configuration");
}

#[test]
fn a_foreign_success_hands_back_the_item_and_the_new_state() {
    let ret: RawReturn<u8> = RawReturn { is_ok: true, item: Some(7), msg: vec![1, 2, 3] };
    let (item, state) = interpret_return(ret).unwrap();
    assert_eq!(item, 7);
    assert_eq!(state, vec![1, 2, 3]);
}

#[test]
fn a_success_without_an_item_is_a_contract_violation() {
    let ret: RawReturn<u8> = RawReturn { is_ok: true, item: None, msg: vec![] };
    let e = interpret_return(ret).unwrap_err();
    assert_eq!(e.0, "foreign resource returned success without an item");
}

#[test]
fn a_unit_shaped_return_follows_the_flag() {
    assert!(interpret_unit_return(true, vec![]).is_ok());
    let e = interpret_unit_return(false, "bad state shape".as_bytes().to_vec()).unwrap_err();
    assert_eq!(e.0, "bad state shape");
}
