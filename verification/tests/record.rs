use ui_bridge::record::{Field, Record};
use ui_bridge::text::same_text;

#[test]
fn new_record_is_empty() {
    let record = Record::new();
    assert_eq!(record.len(), 0);
    assert_eq!(record.get("mail"), None);
}

#[test]
fn with_appends_in_order() {
    let record = Record::new().with("mail", "a@b.c").with("pass", "secret");
    assert_eq!(record.len(), 2);
    assert_eq!(
        record.fields,
        vec![
            Field { name: String::from("mail"), value: String::from("a@b.c") },
            Field { name: String::from("pass"), value: String::from("secret") },
        ]
    );
}

#[test]
fn get_finds_each_field() {
    let record = Record::new().with("mail", "a@b.c").with("pass", "secret");
    assert_eq!(record.get("mail"), Some(&String::from("a@b.c")));
    assert_eq!(record.get("pass"), Some(&String::from("secret")));
    assert_eq!(record.get("message"), None);
    assert_eq!(record.get("Mail"), None);
}

#[test]
fn get_takes_the_first_of_two_fields_with_one_name() {
    let record = Record::new().with("k", "first").with("k", "second");
    assert_eq!(record.get("k"), Some(&String::from("first")));
}

#[test]
fn get_tells_an_empty_text_from_none() {
    let record = Record::new().with("mail", "");
    assert_eq!(record.get("mail"), Some(&String::new()));
}

#[test]
fn clone_of_a_record_is_equal() {
    let record = Record::new().with("mail", "a@b.c").with("pass", "secret");
    let copy = record.clone();
    assert_eq!(copy, record);
    let field = Field { name: String::from("n"), value: String::from("v") };
    assert_eq!(field.clone(), field);
}

#[test]
fn same_text_compares_characters() {
    assert!(same_text("goto", "goto"));
    assert!(same_text("", ""));
    assert!(!same_text("goto", "Goto"));
    assert!(!same_text("goto", "goto "));
    assert!(!same_text("héllo", "hello"));
    assert!(same_text("héllo", "héllo"));
}
