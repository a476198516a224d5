use deemix_bot::json::{joined_names, object_of, object_of_two, parse, Json};
use deemix_bot::table::Table;

#[test]
fn missing_fields_read_as_null() {
    let v = parse(r#"{"a": {"b": [1, "x", true, null, -2, 1.5]}}"#).unwrap();
    let list = v.field("a").field("b");
    assert_eq!(list.item(0).as_u64(), Some(1));
    assert_eq!(list.item(1).as_str(), Some("x"));
    assert_eq!(list.item(2).as_bool(), Some(true));
    assert!(list.item(3).is_null());
    assert_eq!(list.item(4).as_i64(), Some(-2));
    assert_eq!(list.item(4).as_u64(), None);
    assert_eq!(list.item(5).as_i64(), None);
    assert!(list.item(6).is_null());
    assert!(v.field("zz").field("b").item(0).is_null());
    assert_eq!(v.field("zz").str_or("?"), "?");
    assert_eq!(v.field("a").u64_or(7), 7);
}

#[test]
fn big_numbers_keep_their_range() {
    let v = parse("[18446744073709551615, 9223372036854775807, -9223372036854775808]").unwrap();
    assert_eq!(v.item(0).as_u64(), Some(u64::MAX));
    assert_eq!(v.item(0).as_i64(), None);
    assert_eq!(v.item(1).as_i64(), Some(i64::MAX));
    assert_eq!(v.item(2).as_i64(), Some(i64::MIN));
}

#[test]
fn the_last_of_two_equal_keys_counts() {
    let v = parse(r#"{"a": 1, "a": 2}"#).unwrap();
    assert_eq!(v.field("a").as_u64(), Some(2));
}

#[test]
fn what_is_no_document_is_refused() {
    assert!(parse("").is_none());
    assert!(parse("{").is_none());
    assert!(parse("{} x").is_none());
    assert!(parse(" {} ").is_some());
}

#[test]
fn items_and_entries() {
    let v = parse(r#"[1,2,3]"#).unwrap();
    assert_eq!(v.first_items(2).len(), 2);
    assert_eq!(v.first_items(9).len(), 3);
    assert_eq!(v.all_items().len(), 3);
    assert!(v.as_object().is_none());
    let o = parse(r#"{"x": 1, "y": 2}"#).unwrap();
    let names: Vec<&str> = o.as_object().unwrap().iter().map(|e| e.0.as_str()).collect();
    assert_eq!(names, vec!["x", "y"]);
    assert!(o.as_array().is_none());
    assert!(o.all_items().is_empty());
}

#[test]
fn built_objects_read_back() {
    let one = object_of("arl", Json::text("abc"));
    assert_eq!(one.field("arl").as_str(), Some("abc"));
    let two = object_of_two("url", Json::text("u"), "bitrate", Json::number(9));
    assert_eq!(two.field("url").as_str(), Some("u"));
    assert_eq!(two.field("bitrate").as_u64(), Some(9));
    assert_eq!(two.clone().field("bitrate").as_i64(), Some(9));
}

#[test]
fn names_are_joined_with_commas() {
    let v = parse(r#"[{"name": "A"}, {"nick": "B"}, {"name": 3}, {"name": "C"}]"#).unwrap();
    assert_eq!(joined_names(&v), "A, C");
    assert_eq!(joined_names(&parse("null").unwrap()), "");
}

#[test]
fn a_table_holds_one_value_per_key() {
    let mut t: Table<u32> = Table::new();
    assert!(t.get("a").is_none());
    t.insert("a".to_string(), 1);
    t.insert("b".to_string(), 2);
    t.insert("a".to_string(), 3);
    assert_eq!(t.get("a"), Some(&3));
    assert_eq!(t.get("b"), Some(&2));
    assert_eq!(t.entries().len(), 2);
    t.remove("a");
    t.remove("missing");
    assert!(t.get("a").is_none());
    assert_eq!(t.get("b"), Some(&2));
    assert_eq!(t.entries().len(), 1);
}
