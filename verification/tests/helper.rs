use lminc::helper::case_insensitive::{Char, Str};
use lminc::helper::{try_collect_into_array, CollectIntoArrayError};

#[test]
fn case_insensitive_chars() {
    let char_1: Char = 'a'.into();
    let char_2: Char = 'A'.into();

    assert!(char_1 == char_2);
    assert!(char_2 == char_1);

    let char_3: Char = 'B'.into();

    assert!(char_1 != char_3);
    assert!(char_1 == 'A');
    assert!(char_1 == 'a');
    assert!(char_1 != 'b');
    assert!(Char::from('1') == '1');
    assert!(Char::from('@') != '`');
    assert!(Char::from('[') != '{');
    assert!(Char::from('z') == 'Z');
    assert!(Char::from('Z') == 'z');
    assert!(Char::from('é') == 'é');
    assert!(Char::from('é') != 'É');
}

#[test]
fn case_insensitive_strs() {
    let str_1: Str = "HeLlO, WoRlD!".into();
    let str_2: Str = "hello, world!".into();

    assert!(str_1 == str_2);
    assert!(str_2 == str_1);

    let str_3: Str = "Goodbye".into();

    assert!(str_1 != str_3);
    assert!(str_1 == "HELLO, WORLD!");
    assert!(str_1 != "HELLO, WORLD");
    assert!(Str::from("") == "");
    assert!(Str::from("runAssembly") == "runassembly");
    assert!(Str::from("aé") != "aXY");
}

#[test]
fn collect_into_array() {
    assert_eq!(
        try_collect_into_array::<3, u8>(&vec![1, 2]),
        Ok([Some(1), Some(2), None])
    );
    assert_eq!(
        try_collect_into_array::<3, u8>(&vec![1, 2, 3]),
        Ok([Some(1), Some(2), Some(3)])
    );
    assert_eq!(try_collect_into_array::<2, u8>(&vec![]), Ok([None, None]));
    assert_eq!(
        try_collect_into_array::<3, u8>(&vec![1, 2, 3, 4]),
        Err(CollectIntoArrayError::ArrayNotLargeEnough)
    );
    assert_eq!(try_collect_into_array::<0, u8>(&vec![]), Ok([]));
}
