use proto::reactor::text::{rank, same_text, Rank};
use proto::FieldMap;

fn pairs(fields: &FieldMap) -> Vec<(&str, &str)> {
    fields.entries().iter().map(|(name, value)| (name.as_str(), value.as_str())).collect()
}

fn put(fields: &mut FieldMap, name: &str, value: &str) {
    fields.insert(name.to_owned(), value.to_owned());
}

#[test]
fn a_new_field_map_is_empty() {
    let fields = FieldMap::new();
    assert_eq!(fields.len(), 0);
    assert!(fields.entries().is_empty());
    assert_eq!(fields.get("a"), None);
}

#[test]
fn fields_are_kept_in_the_order_of_their_names() {
    let mut fields = FieldMap::new();
    for name in ["op", "id", "content", "author", "z", "a"] {
        put(&mut fields, name, name);
    }
    assert_eq!(
        pairs(&fields),
        vec![("a", "a"), ("author", "author"), ("content", "content"), ("id", "id"), ("op", "op"), ("z", "z")]
    );
    assert_eq!(fields.len(), 6);
}

#[test]
fn a_name_is_kept_once_with_its_last_value() {
    let mut fields = FieldMap::new();
    put(&mut fields, "b", "1");
    put(&mut fields, "a", "2");
    put(&mut fields, "b", "3");
    put(&mut fields, "a", "4");
    put(&mut fields, "c", "5");
    put(&mut fields, "c", "6");
    assert_eq!(pairs(&fields), vec![("a", "4"), ("b", "3"), ("c", "6")]);
}

#[test]
fn a_value_is_found_under_its_name_only() {
    let mut fields = FieldMap::new();
    put(&mut fields, "count", "100");
    put(&mut fields, "op", "createLorem");
    assert_eq!(fields.get("count").map(String::as_str), Some("100"));
    assert_eq!(fields.get("op").map(String::as_str), Some("createLorem"));
    assert_eq!(fields.get("coun"), None);
    assert_eq!(fields.get("counts"), None);
    assert_eq!(fields.get(""), None);
}

#[test]
fn inserting_in_any_order_gives_the_same_map() {
    let names = ["d", "b", "a", "c", "e"];
    let mut forward = FieldMap::new();
    for name in names {
        put(&mut forward, name, "v");
    }
    let mut backward = FieldMap::new();
    for name in names.iter().rev() {
        put(&mut backward, name, "v");
    }
    assert_eq!(forward, backward);
    assert_eq!(forward.into_entries(), backward.into_entries());
}

#[test]
fn strings_rank_by_their_bytes() {
    assert_eq!(rank("a", "b"), Rank::Before);
    assert_eq!(rank("b", "a"), Rank::After);
    assert_eq!(rank("a", "a"), Rank::Same);
    assert_eq!(rank("", ""), Rank::Same);
    assert_eq!(rank("", "a"), Rank::Before);
    assert_eq!(rank("a", ""), Rank::After);
    assert_eq!(rank("a", "ab"), Rank::Before);
    assert_eq!(rank("ab", "a"), Rank::After);
    assert_eq!(rank("B", "a"), Rank::Before);
    assert_eq!(rank("z", "é"), Rank::Before);
    assert_eq!(rank("10", "9"), Rank::Before);
}

#[test]
fn rank_agrees_with_the_order_of_std() {
    let words = ["", "a", "A", "ab", "abc", "b", "é", "e", "zz", "🦀", "0", "10", "9"];
    for a in words {
        for b in words {
            let expected = if a < b {
                Rank::Before
            } else if a == b {
                Rank::Same
            } else {
                Rank::After
            };
            assert_eq!(rank(a, b), expected);
            assert_eq!(same_text(a, b), a == b);
        }
    }
}
