use sqlx_pg::chat::handler::{login_notice, login_reply};
use sqlx_pg::chat::model::CHANNEL_NAME;
use sqlx_pg::post::handler::require_found;
use sqlx_pg::post::model::Post;
use sqlx_pg::query::{sql, QueryPart};
use sqlx_pg::Error;

#[test]
fn error_texts() {
    assert_eq!(Error::new("用户已存在").message(), "用户已存在");
    assert!(matches!(Error::new("x"), Error::Message(m) if m == "x"));
    let e = Error::database("broken pipe".to_string());
    assert!(matches!(&e, Error::Database(d) if d == "broken pipe"));
    assert_eq!(e.message(), "broken pipe");
}

#[test]
fn chat_messages() {
    assert_eq!(login_notice("小明"), "欢迎 小明 进入聊天室");
    assert_eq!(login_reply("小明"), "你好，小明");
    assert_eq!(login_notice(""), "欢迎  进入聊天室");
    assert_eq!(CHANNEL_NAME, "CHAT_ROOM");
}

#[test]
fn found_post_is_returned() {
    let p = Post { id: 3, content: "hi".to_string(), images: vec!["a.png".to_string()] };
    match require_found(Some(p)) {
        Ok(p) => {
            assert_eq!(p.id, 3);
            assert_eq!(p.content, "hi");
            assert_eq!(p.images, vec!["a.png".to_string()]);
        }
        Err(e) => panic!("unexpected error {}", e.message()),
    }
}

#[test]
fn missing_post_is_refused() {
    match require_found(None) {
        Err(e) => assert_eq!(e.message(), "不存在的记录"),
        Ok(p) => panic!("unexpected post {}", p.id),
    }
}

#[test]
fn sql_piece() {
    assert!(matches!(sql("SELECT 1"), QueryPart::Sql(s) if s == "SELECT 1"));
}
