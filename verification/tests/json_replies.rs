use manderrow::json::{array_reply, map_to_json, query_reply};

fn items(texts: &[&str]) -> Vec<Vec<u8>> {
    texts.iter().map(|t| t.as_bytes().to_vec()).collect()
}

#[test]
fn map_to_json_separates_with_commas() {
    let mut buf = b"[".to_vec();
    map_to_json(&mut buf, &items(&["1", "{\"a\":2}", "\"x\""]));
    assert_eq!(buf, b"[1,{\"a\":2},\"x\"".to_vec());
}

#[test]
fn map_to_json_of_nothing_appends_nothing() {
    let mut buf = b"ab".to_vec();
    map_to_json(&mut buf, &[]);
    assert_eq!(buf, b"ab".to_vec());
}

#[test]
fn map_to_json_of_one_item_has_no_comma() {
    let mut buf = Vec::new();
    map_to_json(&mut buf, &items(&["{}"]));
    assert_eq!(buf, b"{}".to_vec());
}

#[test]
fn array_reply_frames_items() {
    assert_eq!(array_reply(&items(&["1", "2"])), b"[1,2]".to_vec());
    assert_eq!(array_reply(&[]), b"[]".to_vec());
}

#[test]
fn query_reply_without_window() {
    let r = query_reply(&items(&["1", "2", "3"]), None, None);
    assert_eq!(String::from_utf8(r).unwrap(), "{\"count\":3,\"mods\":[1,2,3]}");
}

#[test]
fn query_reply_skip_and_limit() {
    let all = items(&["1", "2", "3", "4", "5"]);
    let r = query_reply(&all, Some(1), Some(2));
    assert_eq!(String::from_utf8(r).unwrap(), "{\"count\":5,\"mods\":[2,3]}");
    let r = query_reply(&all, Some(0), Some(10));
    assert_eq!(String::from_utf8(r).unwrap(), "{\"count\":5,\"mods\":[1,2,3,4,5]}");
    let r = query_reply(&all, Some(3), None);
    assert_eq!(String::from_utf8(r).unwrap(), "{\"count\":5,\"mods\":[4,5]}");
    let r = query_reply(&all, None, Some(1));
    assert_eq!(String::from_utf8(r).unwrap(), "{\"count\":5,\"mods\":[1]}");
}

#[test]
fn query_reply_skip_past_end() {
    let r = query_reply(&items(&["1", "2"]), Some(7), Some(3));
    assert_eq!(String::from_utf8(r).unwrap(), "{\"count\":2,\"mods\":[]}");
}

#[test]
fn query_reply_count_is_decimal() {
    let many: Vec<Vec<u8>> = (0..1234).map(|_| b"0".to_vec()).collect();
    let r = query_reply(&many, Some(1234), None);
    assert_eq!(String::from_utf8(r).unwrap(), "{\"count\":1234,\"mods\":[]}");
    let r = query_reply(&[], None, None);
    assert_eq!(String::from_utf8(r).unwrap(), "{\"count\":0,\"mods\":[]}");
}
