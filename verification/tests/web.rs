use homedrive::system::{disk_gb, get_network_stats, memory_kb, status_text, uptime_from_text};
use homedrive::schema::LoginRequest;
use homedrive::web::{
    asset_path, cors_origins, status_for_code, validation_failure_message, AllowedOrigins,
    AssetAnswer, Payload, StaticFile,
};

#[test]
fn any_origin_for_star_or_nothing_valid() {
    let any = cors_origins("*");
    assert!(matches!(any, AllowedOrigins::Any));
    assert!(!any.allow_credentials());
    match cors_origins(" , ") {
        AllowedOrigins::List(v) => assert_eq!(v, vec!["", ""]),
        AllowedOrigins::Any => panic!("empty origins are valid header values"),
    }
    assert!(matches!(cors_origins("bad\u{7f}origin"), AllowedOrigins::Any));
}

#[test]
fn listed_origins_are_trimmed_and_filtered() {
    match cors_origins("https://a.example, https://b.example ,bad\u{1}x") {
        AllowedOrigins::List(v) => assert_eq!(v, vec!["https://a.example", "https://b.example"]),
        AllowedOrigins::Any => panic!("expected a list"),
    }
    let one = cors_origins("http://localhost:5173");
    assert!(one.allow_credentials());
}

#[test]
fn empty_pieces_between_commas_are_kept_when_valid() {
    match cors_origins("a,,b") {
        AllowedOrigins::List(v) => assert_eq!(v, vec!["a", "", "b"]),
        AllowedOrigins::Any => panic!("expected a list"),
    }
}

#[test]
fn front_end_paths() {
    assert_eq!(asset_path("/"), "index.html");
    assert_eq!(asset_path(""), "index.html");
    assert_eq!(asset_path("//assets/app.js"), "assets/app.js");
    assert_eq!(asset_path("/build/assets/build/x.css"), "assets/x.css");
    assert_eq!(asset_path("/build/"), "index.html");
    assert_eq!(asset_path("/about/build/x"), "about/build/x");
}

#[test]
fn front_end_answers() {
    assert_eq!(StaticFile::<String>::answer("app.js", true, true), AssetAnswer::Asset);
    assert_eq!(StaticFile::<String>::answer("app.js", false, true), AssetAnswer::NotFound);
    assert_eq!(StaticFile::<String>::answer("settings", false, true), AssetAnswer::Index);
    assert_eq!(StaticFile::<String>::answer("settings", false, false), AssetAnswer::IndexMissing);
}

#[test]
fn payload_envelopes() {
    let p: Payload<u8> = Payload::default();
    assert_eq!((p.code, p.message.as_str(), p.data), (200, "", None));
    let p = Payload::ok(5u8);
    assert_eq!((p.code, p.data), (200, Some(5)));
    let p: Payload<u8> = Payload::bad_request("nope".to_string());
    assert_eq!((p.code, p.message.as_str()), (400, "nope"));
    assert_eq!(p.status(), 400);
    let p: Payload<u8> = Payload::no_permission("no".to_string()).with_code(401);
    assert_eq!(p.status(), 401);
    let mut p: Payload<u8> = Payload::err("x".to_string());
    assert_eq!(p.code, 200);
    p.set_code(418);
    p.set_message("teapot".to_string());
    p.set_data(1);
    assert_eq!((p.code, p.message.as_str(), p.data), (418, "teapot", Some(1)));
    assert_eq!(p.status(), 200);
    let p = p.with_message("m".to_string()).with_data(2);
    assert_eq!((p.message.as_str(), p.data), ("m", Some(2)));
    assert_eq!(status_for_code(500), 500);
    assert_eq!(status_for_code(302), 200);
}

#[test]
fn system_figures() {
    let n = get_network_stats();
    assert_eq!((n.upload_bytes, n.download_bytes), (0, 0));
    assert_eq!(uptime_from_text("12345 678\n"), 12345);
    assert_eq!(uptime_from_text("  77\t1"), 77);
    assert_eq!(uptime_from_text("12345.67 890.12\n"), 0);
    assert_eq!(uptime_from_text(""), 0);
    assert_eq!(status_text(3), "online");
    assert_eq!(status_text(0), "offline");
    assert_eq!(memory_kb(4096, 2048, 1023), (4, 2, 0));
    let gib = 1u64 << 30;
    assert_eq!(disk_gb(10 * gib, 4 * gib), (10, 6, 4));
    assert_eq!(disk_gb(gib, 2 * gib), (1, 0, 2));
}

#[test]
fn validation_refusal_lists_broken_rules() {
    let errors = LoginRequest { username: String::new(), password: "x".to_string() }.validate().err().unwrap();
    assert_eq!(validation_failure_message(&errors), "验证失败: username: 用户名不能为空且不能超过50个字符");
}
