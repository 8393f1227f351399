use blog_auth::config::{DatabaseConfig, JWTConfig, S3Config};
use blog_auth::env::{env_entries_from_text, find_key_from_parser};
use blog_auth::error::Error;
use blog_auth::form::{article_body_field, parse_bool, parse_string_from_u8};
use blog_auth::identity::Identity;
use blog_auth::image::{Image, ImageType};
use blog_auth::models::{ArticleForCreate, Comment, CommentForCreate, Timestamp, User, UserForCreate};
use blog_auth::storage::{
    article_folder, article_object_key, comment_folder, image_object_key, placeholder_html,
    profile_folder,
};
use blog_auth::update::{merge_comment_update, merge_user_update};

#[test]
fn error_statuses_follow_the_error_kinds() {
    assert_eq!(Error::JWTTokenNotFoundOnHeader.status_code(), 401);
    assert_eq!(Error::ServerUnauthorizedUser.status_code(), 401);
    assert_eq!(Error::JWTTokenError("expired".to_string()).status_code(), 401);
    assert_eq!(Error::JWTInvalidAuthHeader.status_code(), 400);
    assert_eq!(Error::ServerPermissionDenied("x".to_string()).status_code(), 403);
    assert_eq!(Error::DBAuthenticationFailed("x".to_string()).status_code(), 403);
    assert_eq!(Error::DBCouldNotSelectRecord("user:1".to_string(), "gone".to_string()).status_code(), 404);
    assert_eq!(Error::ServerEmptyFormFromUser.status_code(), 400);
    assert_eq!(Error::ServerUnsupportedMediaType("image/bmp".to_string()).status_code(), 415);
    assert_eq!(Error::JWTTokenCreationError("x".to_string()).status_code(), 500);
    assert_eq!(Error::DBDuplicateUserEmail.status_code(), 500);
}

#[test]
fn error_messages_and_reasons() {
    let e = Error::DBCouldNotSelectRecord("user:1".to_string(), "gone".to_string());
    assert_eq!(e.message(), "Could not find record with id: `user:1`");
    assert_eq!(e.reason(), "gone");
    let e = Error::ServerPermissionDenied("Could not perform action(s)".to_string());
    assert_eq!(e.message(), "Could not perform action(s)");
    assert_eq!(Error::ServerUnauthorizedUser.message(), "Unauthorized user");
    assert_eq!(Error::ServerUnauthorizedUser.reason(), "");
    assert_eq!(Error::JWTInvalidAuthHeader.message(), "Invalid JWT token");
    assert_eq!(Error::DBCouldNotOpenWebSocket("db:8000".to_string(), "refused".to_string()).message(), "Could not connect to database server at: db:8000");
    assert_eq!(Error::ServerUnsupportedMediaType("image/bmp".to_string()).message(), "Unsupported media type: `image/bmp`");
}

#[test]
fn image_types_from_content_types() {
    assert_eq!(ImageType::from_str("image/png"), ImageType::Png);
    assert_eq!(ImageType::from_str("image/jpg"), ImageType::Jpg);
    assert_eq!(ImageType::from_str("image/jpeg"), ImageType::Jpeg);
    assert_eq!(ImageType::from_str("image/gif"), ImageType::Gif);
    assert_eq!(ImageType::from_str("image/bmp"), ImageType::Unsupported);
    assert_eq!(ImageType::from_str("IMAGE/PNG"), ImageType::Unsupported);
    assert_eq!(ImageType::Jpeg.extension(), "jpeg");
    assert_eq!(ImageType::Unsupported.extension(), "???");
}

#[test]
fn new_image_is_unsupported_and_empty() {
    let mut image = Image::new();
    assert_eq!(image.file_type, ImageType::Unsupported);
    assert!(image.file_name.is_empty() && image.data.is_empty());
    assert!(!image.is_supported_image_type());
    image.file_type = ImageType::Gif;
    assert!(image.is_supported_image_type());
}

#[test]
fn folders_of_stored_media() {
    let u = Identity::new("user", "1");
    let a = Identity::new("article", "9");
    assert_eq!(profile_folder(&u), "user:1/user_profile_pictures");
    assert_eq!(article_folder(&u, &a), "user:1/articles/article:9");
    assert_eq!(comment_folder(&u, &a), "user:1/articles/article:9/comments");
}

#[test]
fn image_key_is_digest_prefix_with_extension() {
    let image = Image { file_type: ImageType::Png, file_name: "cat.png".to_string(), data: vec![1, 2, 3] };
    let key = image_object_key("pics", &image, "2024-01-01 00:00:00 UTC");
    let digest = sha256::digest("cat.png/2024-01-01 00:00:00 UTC");
    assert_eq!(key, format!("pics/{}.png", &digest[..32]));
    assert_eq!(key.len(), "pics/".len() + 32 + ".png".len());
    assert!(key[5..37].chars().all(|c| c.is_ascii_hexdigit()));
}

#[test]
fn digest_of_known_text() {
    let image = Image { file_type: ImageType::Gif, file_name: "hel".to_string(), data: vec![] };
    let key = image_object_key("f", &image, "lo");
    // SHA-256 of "hel/lo" differs from the seed itself, and the key keeps 32 hex digits.
    assert_ne!(&key[2..34], "hel/lo");
    assert_eq!(sha256::digest("hello"), "2cf24dba5fb0a30e26e83b2ac5b9e29e1b161e5c1fa7425e73043362938b9824");
    assert_eq!(key, format!("f/{}.gif", &sha256::digest("hel/lo")[..32]));
}

#[test]
fn article_key_and_placeholder_body() {
    let author = Identity::new("user", "42");
    let key = article_object_key("user:42/articles", &author, "Hello", "t0");
    let digest = sha256::digest("user:42/Hello/t0");
    assert_eq!(key, format!("user:42/articles/{}.html", &digest[..32]));
    assert_eq!(
        placeholder_html("Hello"),
        "<!doctype html><html><head><title>Hello</title></head><body><p>Placeholder</p></body></html>"
    );
}

#[test]
fn env_text_is_parsed_and_looked_up() {
    let env = env_entries_from_text("./.env", "DB_HOST=localhost\nDB_PORT=8000\n").unwrap();
    assert_eq!(find_key_from_parser("DB_HOST", &env).unwrap(), "localhost");
    assert_eq!(find_key_from_parser("DB_PORT", &env).unwrap(), "8000");
    match find_key_from_parser("DB_USER", &env) {
        Err(Error::ParseEnvFailedNoSuchKey(k)) => assert_eq!(k, "DB_USER"),
        _ => panic!("missing key must be reported"),
    }
}

#[test]
fn lookup_on_given_entries() {
    let env = vec![("A".to_string(), "1".to_string()), ("B".to_string(), "2".to_string())];
    assert_eq!(find_key_from_parser("B", &env).unwrap(), "2");
    assert!(find_key_from_parser("", &env).is_err());
    assert!(find_key_from_parser("A", &Vec::new()).is_err());
}

#[test]
fn jwt_config_reads_lifetime() {
    let c = JWTConfig::from_values(b"s3cret".to_vec(), "60").unwrap();
    assert_eq!(c.expriation, 60);
    assert_eq!(c.secret, b"s3cret".to_vec());
    assert_eq!(JWTConfig::from_values(vec![], "-5").unwrap().expriation, -5);
    assert_eq!(JWTConfig::from_values(vec![], "+5").unwrap().expriation, 5);
    for bad in ["", "abc", "6 0", "60m", "99999999999999999999", "-", "+"] {
        assert!(matches!(JWTConfig::from_values(vec![], bad), Err(Error::ParseEnvFailedWrongFormat(_))), "{:?}", bad);
    }
}

#[test]
fn database_and_store_configs() {
    let d = DatabaseConfig::from_values("db", "8000", "root".to_string(), "pw".to_string(), "ns".to_string(), "blog".to_string());
    assert_eq!(d.address, "db:8000");
    assert_eq!(d.database, "blog");
    let s = S3Config::from_values("1.2.3.4".to_string(), "b".to_string(), "9001", "9000", "u".to_string(), "p".to_string(), "false").unwrap();
    assert_eq!((s.console_port, s.api_port, s.https), (9001, 9000, false));
    let s = S3Config::from_values("h".to_string(), "b".to_string(), "1", "2", "u".to_string(), "p".to_string(), "no").unwrap();
    assert!(s.https);
    let bad = S3Config::from_values("h".to_string(), "b".to_string(), "1", "port", "u".to_string(), "p".to_string(), "true");
    assert!(matches!(bad, Err(Error::ParseEnvFailedWrongFormat(_))));
}

fn stored_user() -> User {
    User {
        id: Identity::new("user", "1"),
        articles: None,
        first_name: "Ada".to_string(),
        username: "ada".to_string(),
        last_name: "Lovelace".to_string(),
        email: "ada@example.com".to_string(),
        is_admin: true,
        deleted: false,
        profile_pic_uri: Some("old.png".to_string()),
        created_at: Timestamp { secs: 100, nanos: 5 },
        updated_at: None,
        deleted_at: None,
    }
}

#[test]
fn empty_user_edit_is_refused() {
    let r = merge_user_update(&UserForCreate::new(), &stored_user(), None, Timestamp { secs: 200, nanos: 0 });
    assert!(matches!(r, Err(Error::ServerEmptyFormFromUser)));
}

#[test]
fn user_edit_keeps_unset_fields() {
    let mut edit = UserForCreate::new();
    edit.last_name = "Byron".to_string();
    let now = Timestamp { secs: 200, nanos: 0 };
    let m = merge_user_update(&edit, &stored_user(), None, now).unwrap();
    assert_eq!(m.first_name, "Ada");
    assert_eq!(m.last_name, "Byron");
    assert_eq!(m.profile_pic_uri.as_deref(), Some("old.png"));
    assert!(m.is_admin && !m.deleted);
    assert_eq!(m.created_at, Timestamp { secs: 100, nanos: 5 });
    assert_eq!(m.updated_at, Some(now));
    assert!(m.username.is_empty() && m.email.is_empty() && m.avatar.is_none());
}

#[test]
fn user_edit_with_avatar_takes_uploaded_key() {
    let mut edit = UserForCreate::new();
    edit.avatar = Some(Image::new());
    let m = merge_user_update(&edit, &stored_user(), Some("new.png".to_string()), Timestamp { secs: 1, nanos: 0 }).unwrap();
    assert_eq!(m.profile_pic_uri.as_deref(), Some("new.png"));
    assert_eq!(m.first_name, "Ada");
    assert_eq!(m.last_name, "Lovelace");
}

fn stored_comment() -> Comment {
    Comment {
        id: Identity::new("comment", "c1"),
        user_id: Identity::new("user", "1"),
        article_id: Identity::new("article", "a1"),
        deleted: false,
        reply: None,
        content: Some("first".to_string()),
        media_uri: Some("m.png".to_string()),
        liked_by: None,
        created_at: Timestamp { secs: 10, nanos: 0 },
        updated_at: None,
    }
}

#[test]
fn empty_comment_edit_is_refused_and_untouched() {
    let mut edit = CommentForCreate::new();
    let r = merge_comment_update(&stored_comment(), &mut edit, None, Timestamp { secs: 20, nanos: 0 });
    assert!(matches!(r, Err(Error::ServerEmptyFormFromUser)));
    assert!(edit.content.is_none() && edit.media_uri.is_none() && edit.updated_at.is_none());
}

#[test]
fn comment_edit_with_empty_content_keeps_stored_content() {
    let mut edit = CommentForCreate::new();
    edit.content = Some(String::new());
    let now = Timestamp { secs: 20, nanos: 0 };
    merge_comment_update(&stored_comment(), &mut edit, None, now).unwrap();
    assert_eq!(edit.content.as_deref(), Some("first"));
    assert_eq!(edit.media_uri.as_deref(), Some("m.png"));
    assert_eq!(edit.updated_at, Some(now));
}

#[test]
fn comment_edit_with_media_only() {
    let mut edit = CommentForCreate::new();
    edit.image = Some(Image::new());
    merge_comment_update(&stored_comment(), &mut edit, Some("n.gif".to_string()), Timestamp { secs: 20, nanos: 0 }).unwrap();
    assert_eq!(edit.content.as_deref(), Some("first"));
    assert_eq!(edit.media_uri.as_deref(), Some("n.gif"));
    let mut edit = CommentForCreate::new();
    edit.content = Some("second".to_string());
    merge_comment_update(&stored_comment(), &mut edit, None, Timestamp { secs: 20, nanos: 0 }).unwrap();
    assert_eq!(edit.content.as_deref(), Some("second"));
}

#[test]
fn user_form_fields() {
    let mut u = UserForCreate::new();
    u.apply_field("first_name", None, None, b"Grace".to_vec()).unwrap();
    u.apply_field("email", None, None, b"g@example.com".to_vec()).unwrap();
    u.apply_field("is_admin", None, None, b"true".to_vec()).unwrap();
    u.apply_field("unknown", None, None, b"whatever".to_vec()).unwrap();
    u.apply_field("avatar", Some("me.jpg"), Some("image/jpeg"), vec![9, 9]).unwrap();
    assert_eq!(u.first_name, "Grace");
    assert_eq!(u.email, "g@example.com");
    assert!(u.is_admin);
    let avatar = u.avatar.as_ref().unwrap();
    assert_eq!(avatar.file_type, ImageType::Jpeg);
    assert_eq!(avatar.file_name, "me.jpg");
    assert_eq!(avatar.data, vec![9, 9]);
}

#[test]
fn user_form_field_errors() {
    let mut u = UserForCreate::new();
    let r = u.apply_field("avatar", Some("x.bmp"), Some("image/bmp"), vec![1]);
    match r {
        Err(Error::ServerUnsupportedMediaType(t)) => assert_eq!(t, "image/bmp"),
        _ => panic!("bmp must be refused"),
    }
    assert!(u.avatar.is_none());
    assert!(matches!(u.apply_field("is_admin", None, None, b"yes".to_vec()), Err(Error::ServerCouldNotParseForm(_))));
    assert!(matches!(u.apply_field("username", None, None, vec![0xff, 0xfe]), Err(Error::ServerCouldNotParseForm(_))));
    assert!(u.username.is_empty());
    u.apply_field("avatar", None, None, vec![]).unwrap();
    assert_eq!(u.avatar.as_ref().unwrap().file_type, ImageType::Unsupported);
}

#[test]
fn comment_and_article_form_fields() {
    let mut c = CommentForCreate::new();
    c.apply_field("content", None, None, "héllo".as_bytes().to_vec()).unwrap();
    c.apply_field("media", Some("p.png"), Some("image/png"), vec![7]).unwrap();
    assert_eq!(c.content.as_deref(), Some("héllo"));
    assert_eq!(c.image.as_ref().unwrap().file_type, ImageType::Png);
    match c.apply_field("media", None, Some("text/plain"), vec![]) {
        Err(Error::ServerUnsupportedMediaType(t)) => assert_eq!(t, "text/plain"),
        _ => panic!("text/plain media must be refused"),
    }
    let mut a = ArticleForCreate::new();
    assert_eq!(a.user_id, Identity::new("user", ""));
    a.apply_field("title", b"On Engines".to_vec()).unwrap();
    a.apply_field("body", b"ignored".to_vec()).unwrap();
    assert_eq!(a.title, "On Engines");
}

#[test]
fn article_body_upload_fields() {
    assert_eq!(article_body_field("file", Some("text/html")).unwrap(), true);
    assert_eq!(article_body_field("file", None).unwrap(), true);
    assert_eq!(article_body_field("other", Some("image/png")).unwrap(), false);
    assert!(matches!(article_body_field("file", Some("text/plain")), Err(Error::ServerUnsupportedMediaType(_))));
}

#[test]
fn text_and_bool_fields() {
    assert_eq!(parse_string_from_u8(b"plain").unwrap(), "plain");
    assert!(matches!(parse_string_from_u8(&[0xc3]), Err(Error::ServerCouldNotParseForm(_))));
    assert_eq!(parse_bool("false").unwrap(), false);
    assert!(parse_bool("True").is_err());
}

#[test]
fn env_text_that_does_not_parse_names_the_file() {
    match env_entries_from_text("./broken.env", "=no key here") {
        Err(Error::ParseEnvFailedNoSuchFile(path, _)) => assert_eq!(path, "./broken.env"),
        Ok(entries) => panic!("unexpected entries {:?}", entries),
        Err(e) => panic!("unexpected error {:?}", e),
    }
}
