use workspaces::codec::{encode_state_items, into_state_map, state_round_trip, StateItem};
use workspaces::Error;

#[test]
fn decodes_base64_pairs() {
    let items = vec![
        StateItem { key: String::from("YWxpY2U="), value: String::from("AAEC") },
        StateItem { key: String::from("Ym9i"), value: String::from("") },
    ];
    let pairs = into_state_map(&items).unwrap();
    assert_eq!(pairs.len(), 2);
    assert_eq!(pairs[0].0, "alice");
    assert_eq!(pairs[0].1, vec![0u8, 1, 2]);
    assert_eq!(pairs[1].0, "bob");
    assert_eq!(pairs[1].1, Vec::<u8>::new());
}

#[test]
fn empty_state_decodes_to_empty_map() {
    let items: Vec<StateItem> = Vec::new();
    let pairs = into_state_map(&items).unwrap();
    assert!(pairs.is_empty());
}

#[test]
fn invalid_base64_key_fails_whole_operation() {
    let items = vec![
        StateItem { key: String::from("YWxpY2U="), value: String::from("AAEC") },
        StateItem { key: String::from("!!!"), value: String::from("AAEC") },
    ];
    assert_eq!(into_state_map(&items), Err(Error::InvalidBase64));
}

#[test]
fn invalid_utf8_key_fails_whole_operation() {
    // "/w==" decodes to the single byte 0xff, which is not valid UTF-8.
    let items = vec![StateItem { key: String::from("/w=="), value: String::from("AAEC") }];
    assert_eq!(into_state_map(&items), Err(Error::InvalidUtf8));
}

#[test]
fn invalid_base64_value_fails_whole_operation() {
    let items = vec![StateItem { key: String::from("YWxpY2U="), value: String::from("x") }];
    assert_eq!(into_state_map(&items), Err(Error::InvalidBase64));
}

#[test]
fn state_round_trips_through_base64() {
    let pairs = vec![
        (String::from("alice"), vec![1u8, 2, 3]),
        (String::from("key with spaces"), Vec::new()),
        (String::from("unicode-\u{00e9}\u{4e16}"), vec![255u8, 0]),
    ];
    let items = encode_state_items(&pairs);
    let decoded = into_state_map(&items).unwrap();
    assert_eq!(decoded, pairs);
}

#[test]
fn round_trip_law_on_concrete_values() {
    let pairs = vec![
        (String::from("counter"), vec![42u8]),
        (String::from(""), vec![]),
    ];
    assert_eq!(state_round_trip(&pairs).unwrap(), pairs);
}

#[test]
fn encoding_produces_base64_text() {
    let pairs = vec![(String::from("alice"), vec![0u8, 1, 2])];
    let items = encode_state_items(&pairs);
    assert_eq!(items.len(), 1);
    assert_eq!(items[0].key, "YWxpY2U=");
    assert_eq!(items[0].value, "AAEC");
}
