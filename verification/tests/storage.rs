use mleml::storage::SetRc;
use mleml::types::{Frame, Sound};
use std::ptr;
use std::rc::Rc;

#[test]
fn forgotten_items_are_trimmed() {
    let s1: &str = "One";
    let s2: &str = "Two";
    let s3: &str = "Three";
    let s4: &str = "Four";
    let s5: &str = "Five";

    //All Rc's have strong count of 1
    let rc1: Rc<String> = Rc::new(s1.to_owned());
    let rc2: Rc<String> = Rc::new(s2.to_owned());
    let rc3: Rc<String> = Rc::new(s3.to_owned());
    let rc4: Rc<String> = Rc::new(s4.to_owned());
    let rc5: Rc<String> = Rc::new(s5.to_owned());

    //Cloned Rc's now have strong count of 2
    let _rc11: Rc<String> = rc1.clone();
    let _rc33: Rc<String> = rc3.clone();
    let _rc55: Rc<String> = rc5.clone();

    let mut set: Vec<Rc<String>> = vec![rc1, rc2, rc3, rc4, rc5];
    assert_eq!(set.len(), 5);
    //Should remove rc2 and rc4
    set.trim();
    //Only rc1, rc3 and rc5 remain as their strong count is 2
    assert_eq!(set.len(), 3);
}

#[test]
fn wrapping_does_not_insert_duplicate_data() {
    let s1: &str = "One";
    let s2: &str = "One";
    let b1: String = s1.to_owned();
    let b2: String = s2.to_owned();
    //We need the pointers to be different
    assert_ne!(b1.as_ptr(), b2.as_ptr());

    let mut set: Vec<Rc<String>> = Vec::new();
    let r1 = set.wrap(b1);
    assert_eq!(set.len(), 1);
    //attempt to insert duplicate data
    let r2 = set.wrap(b2);
    //Duplicate was not inserted
    assert_eq!(set.len(), 1);
    //The RC has to be the same one
    assert!(ptr::eq(r1.as_ref(), r2.as_ref()));
    //The RC has to have 3 instances (r1, r2 and in the set)
    assert_eq!(Rc::strong_count(&r2), 3);
}

#[test]
fn trimmed_store_keeps_shared_values_intact() {
    let mut set: Vec<Rc<String>> = Vec::new();
    let kept = set.wrap("keep me".to_owned());
    let _gone = set.wrap("drop me".to_owned());
    assert_eq!(set.len(), 2);
    //`_gone` was dropped immediately, so only the store holds it
    drop(_gone);
    set.trim();
    assert_eq!(set.len(), 1);
    assert_eq!(set[0].as_str(), "keep me");
    assert_eq!(kept.as_str(), "keep me");
}

#[test]
fn equal_sounds_share_one_allocation() {
    let mut sounds: Vec<Rc<Sound>> = Vec::new();
    let frame = Frame { left: 7, right: -7 };
    let s1 = Sound::new(vec![frame, frame], 48000);
    let s2 = Sound::new(vec![frame, frame], 48000);
    let s3 = Sound::new(vec![frame], 48000);

    let r1 = sounds.wrap(s1);
    let r2 = sounds.wrap(s2);
    let r3 = sounds.wrap(s3);

    //Identical data is stored once
    assert!(ptr::eq(r1.as_ref(), r2.as_ref()));
    assert!(!ptr::eq(r1.as_ref(), r3.as_ref()));
    assert_eq!(sounds.len(), 2);
}
