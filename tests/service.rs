use tauri_axum_app::json::{frame_object, string_field_object_json};
use tauri_axum_app::service::{
    hello_request, hello_with_user, service_config, status_response, HelloStep, Response,
    UserLookup,
};
use tauri_axum_app::store::seed_user_name;

#[test]
fn config_is_loopback_3030() {
    let c = service_config();
    assert_eq!(c.address, (127, 0, 0, 1));
    assert_eq!(c.port, 3030);
    assert!(c.permissive_cors);
}

#[test]
fn status_route_reports_running() {
    let r = status_response();
    assert_eq!(r.status, 200);
    assert!(r.json);
    assert_eq!(r.body, "{\"status\":\"running\"}");
}

#[test]
fn status_route_is_stable() {
    assert_eq!(status_response(), status_response());
}

#[test]
fn frame_object_puts_braces_and_colon() {
    assert_eq!(frame_object("\"k\"", "1"), "{\"k\":1}");
}

#[test]
fn object_escapes_quotes_and_backslashes() {
    assert_eq!(
        string_field_object_json("message", "say \"hi\" \\ now"),
        "{\"message\":\"say \\\"hi\\\" \\\\ now\"}"
    );
}

#[test]
fn object_escapes_control_characters() {
    assert_eq!(string_field_object_json("a\nb", "\t"), "{\"a\\nb\":\"\\t\"}");
}

#[test]
fn hello_without_name_is_client_error() {
    for wired in [false, true] {
        match hello_request(None, wired) {
            HelloStep::Reply(r) => {
                assert_eq!(r.status, 400);
                assert!(!r.json);
                assert_eq!(r.body, "Failed to deserialize query string: missing field `name`");
            }
            HelloStep::LookUpUser(_) => panic!("no lookup without a name"),
        }
    }
}

#[test]
fn hello_without_store_replies_at_once() {
    let step = hello_request(Some("World".to_string()), false);
    assert_eq!(
        step,
        HelloStep::Reply(Response {
            status: 200,
            body: "{\"message\":\"Hello, World! You've been greeted from Rust!\"}".to_string(),
            json: true,
        })
    );
}

#[test]
fn hello_with_store_asks_for_lookup() {
    let step = hello_request(Some("World".to_string()), true);
    assert_eq!(step, HelloStep::LookUpUser("World".to_string()));
}

#[test]
fn hello_on_fresh_seeded_store() {
    let name = match hello_request(Some("World".to_string()), true) {
        HelloStep::LookUpUser(n) => n,
        HelloStep::Reply(_) => panic!("expected a lookup"),
    };
    let r = hello_with_user(&name, UserLookup::Found(seed_user_name().to_string()));
    assert_eq!(r.status, 200);
    assert_eq!(
        r.body,
        "{\"message\":\"Hello, World! You've been greeted from Rust! User from DB: Test User\"}"
    );
}

#[test]
fn hello_with_no_row_uses_fallback() {
    let r = hello_with_user("World", UserLookup::NoRow);
    assert_eq!(r.status, 200);
    assert_eq!(
        r.body,
        "{\"message\":\"Hello, World! You've been greeted from Rust! User from DB: No user\"}"
    );
}

#[test]
fn hello_with_failed_store_is_server_error() {
    let r = hello_with_user("World", UserLookup::Failed);
    assert_eq!(r.status, 500);
    assert!(!r.json);
    assert_eq!(r.body, "Failed to read the user store");
}

#[test]
fn hello_keeps_name_verbatim_in_message() {
    let name = "Zoë & <friends>";
    let r = hello_with_user(name, UserLookup::Found("Ann".to_string()));
    assert_eq!(r.status, 200);
    assert_eq!(
        r.body,
        "{\"message\":\"Hello, Zoë & <friends>! You've been greeted from Rust! User from DB: Ann\"}"
    );
}
