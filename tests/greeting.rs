use tauri_axum_app::greeting::{greet, hello_message, user_name_or_fallback};

#[test]
fn greet_formats_name() {
    assert_eq!(greet("Ada"), "Hello, Ada! You've been greeted from Rust!");
}

#[test]
fn greet_empty_name() {
    assert_eq!(greet(""), "Hello, ! You've been greeted from Rust!");
}

#[test]
fn greet_keeps_markup_verbatim() {
    let name = "<b>\"Zoë\"</b> & 名前";
    let g = greet(name);
    assert_eq!(&g[7..7 + name.len()], name);
}

#[test]
fn hello_message_without_store() {
    assert_eq!(hello_message("World", None), "Hello, World! You've been greeted from Rust!");
}

#[test]
fn hello_message_with_store_user() {
    assert_eq!(
        hello_message("World", Some("Test User")),
        "Hello, World! You've been greeted from Rust! User from DB: Test User"
    );
}

#[test]
fn fallback_when_no_row() {
    assert_eq!(user_name_or_fallback(None), "No user");
}

#[test]
fn row_name_when_present() {
    assert_eq!(user_name_or_fallback(Some("Grace".to_string())), "Grace");
}
