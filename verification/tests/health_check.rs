use actix_template::routes::{health_check, ReplyBody};

#[test]
fn health_check_works() {
    let response = health_check();

    // the health check always returns a 200;
    // the health check's response has no body;
    assert!((200..300).contains(&response.status));
    assert_eq!(response.status, 200);
    assert!(matches!(response.body, ReplyBody::Empty));
}
