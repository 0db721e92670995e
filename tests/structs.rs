use rust_basics::structs::{build_user, build_user2, Color, Point, User};

#[test]
fn build_user_sets_fields() {
    let user = build_user(
        String::from("someone@example.com"),
        String::from("someusername123"),
    );
    assert!(user.active);
    assert_eq!(user.email, "someone@example.com");
    assert_eq!(user.username, "someusername123");
    assert_eq!(user.sign_in_count, 1);
}

#[test]
fn build_user2_sets_fields() {
    let user = build_user2(String::from("a@x.com"), String::from("name"));
    assert!(user.active);
    assert_eq!(user.email, "a@x.com");
    assert_eq!(user.username, "name");
    assert_eq!(user.sign_in_count, 1);
}

#[test]
fn struct_update_replaces_only_email() {
    let source = User {
        active: false,
        username: String::from("someusername123"),
        email: String::from("a@x.com"),
        sign_in_count: 7,
    };
    let derived = source.with_email(String::from("b@x.com"));
    assert_eq!(derived.email, "b@x.com");
    assert!(!derived.active);
    assert_eq!(derived.username, "someusername123");
    assert_eq!(derived.sign_in_count, 7);
}

#[test]
fn fields_can_be_set_independently() {
    let mut user = build_user(String::from("someone@example.com"), String::from("u"));
    user.email = String::from("anotheremail@example.com");
    assert_eq!(user.email, "anotheremail@example.com");
    assert_eq!(user.username, "u");
}

#[test]
fn positional_records_read_by_position() {
    let black = Color(0, 0, 0);
    let p = Point(1, 2, 3);
    assert_eq!((black.0, black.1, black.2), (0, 0, 0));
    assert_eq!((p.0, p.1, p.2), (1, 2, 3));
}
