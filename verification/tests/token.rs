use web_demo::token::{Field, Keys};

#[test]
fn keys_keep_the_secret() {
    assert_eq!(Keys::new(b"secret").secret(), b"secret");
    assert_eq!(Keys::new(&[0u8, 255u8, 7u8]).secret(), &[0u8, 255u8, 7u8]);
}

#[test]
fn keys_take_an_empty_secret() {
    assert!(Keys::new(b"").secret().is_empty());
}

#[test]
fn fields_compare_by_kind_and_value() {
    assert_eq!(Field::Text("1".to_string()), Field::Text("1".to_string()));
    assert_ne!(Field::Text("1".to_string()), Field::Count(1));
    assert_ne!(Field::Count(1), Field::Count(2));
}
