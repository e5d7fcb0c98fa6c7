use zenoh_sandbox::json::{json_eq, number_eq, Json, JsonNumber};
use zenoh_sandbox::ts::config::{is_kept, json_diff, ZenohConfigEdit, ZenohConfigJson};

fn s(text: &str) -> Json {
    Json::String(text.to_string())
}

fn n(value: u64) -> Json {
    Json::Number(JsonNumber::PosInt(value))
}

fn obj(members: Vec<(&str, Json)>) -> Json {
    Json::Object(members.into_iter().map(|(k, v)| (k.to_string(), v)).collect())
}

#[test]
fn get_finds_a_member() {
    let doc = obj(vec![("a", n(1)), ("b", s("x"))]);
    assert_eq!(doc.get("a"), Some(&n(1)));
    assert_eq!(doc.get("b"), Some(&s("x")));
    assert_eq!(doc.get("c"), None);
    assert_eq!(n(1).get("a"), None);
    assert_eq!(Json::Array(vec![n(1)]).get("0"), None);
}

#[test]
fn later_member_replaces_an_earlier_one() {
    let doc = obj(vec![("a", n(1)), ("a", n(2))]);
    assert_eq!(doc.get("a"), Some(&n(2)));
    assert_eq!(doc, obj(vec![("a", n(2))]));
}

#[test]
fn accessors() {
    assert_eq!(s("x").as_str(), Some("x"));
    assert_eq!(n(1).as_str(), None);
    assert_eq!(n(7).as_u64(), Some(7));
    assert_eq!(Json::Number(JsonNumber::NegInt(-7)).as_u64(), None);
    assert_eq!(Json::Number(JsonNumber::Float("7.0".to_string())).as_u64(), None);
    assert_eq!(s("7").as_u64(), None);
}

#[test]
fn single_member() {
    assert_eq!(obj(vec![("a", n(1))]).single_member(), Some(("a", &n(1))));
    assert_eq!(
        obj(vec![("a", n(1)), ("a", n(2))]).single_member(),
        Some(("a", &n(2)))
    );
    assert_eq!(obj(vec![("a", n(1)), ("b", n(2))]).single_member(), None);
    assert_eq!(obj(vec![]).single_member(), None);
    assert_eq!(s("a").single_member(), None);
    assert_eq!(Json::tagged("t", Json::Null), obj(vec![("t", Json::Null)]));
}

#[test]
fn equality_ignores_the_order_of_members() {
    let a = obj(vec![("x", n(1)), ("y", obj(vec![("p", s("q")), ("r", Json::Null)]))]);
    let b = obj(vec![("y", obj(vec![("r", Json::Null), ("p", s("q"))])), ("x", n(1))]);
    assert!(json_eq(&a, &b));
    assert_eq!(a, b);
    let c = obj(vec![("x", n(1))]);
    assert!(!json_eq(&a, &c));
    assert!(!json_eq(&c, &a));
    assert!(!json_eq(&obj(vec![("x", n(1))]), &obj(vec![("x", n(2))])));
    assert!(!json_eq(&obj(vec![("x", n(1))]), &obj(vec![("z", n(1))])));
}

#[test]
fn equality_keeps_the_order_of_items() {
    let a = Json::Array(vec![n(1), n(2)]);
    let b = Json::Array(vec![n(2), n(1)]);
    assert!(!json_eq(&a, &b));
    assert!(json_eq(&a, &a.clone()));
    assert!(!json_eq(&a, &Json::Array(vec![n(1)])));
    assert!(!json_eq(&Json::Array(vec![]), &obj(vec![])));
}

#[test]
fn equality_of_scalars() {
    assert!(json_eq(&Json::Null, &Json::Null));
    assert!(json_eq(&Json::Bool(true), &Json::Bool(true)));
    assert!(!json_eq(&Json::Bool(true), &Json::Bool(false)));
    assert!(!json_eq(&Json::Null, &Json::Bool(false)));
    assert!(json_eq(&s("a"), &s("a")));
    assert!(!json_eq(&s("a"), &s("b")));
    assert!(!json_eq(&s("1"), &n(1)));
}

#[test]
fn equality_of_numbers() {
    let float = |t: &str| JsonNumber::Float(t.to_string());
    assert!(number_eq(&JsonNumber::PosInt(1), &JsonNumber::PosInt(1)));
    assert!(!number_eq(&JsonNumber::PosInt(1), &JsonNumber::PosInt(2)));
    assert!(number_eq(&JsonNumber::NegInt(-1), &JsonNumber::NegInt(-1)));
    assert!(!number_eq(&JsonNumber::PosInt(1), &float("1.0")));
    assert!(number_eq(&float("1.5"), &float("1.5")));
    assert!(!number_eq(&float("1.5"), &float("2.5")));
    assert!(number_eq(&float("0.0"), &float("-0.0")));
    assert!(number_eq(&float("-0.0"), &float("0.0")));
    assert!(number_eq(&float("-0.0"), &float("-0.0")));
    assert_eq!(float("0.0"), float("-0.0"));
}

#[test]
fn clone_is_equal() {
    let a = obj(vec![
        ("x", Json::Array(vec![n(1), s("two"), Json::Null, Json::Bool(true)])),
        ("y", obj(vec![("z", Json::Number(JsonNumber::Float("1e10".to_string())))])),
    ]);
    assert_eq!(a.clone(), a);
}

#[test]
fn diff_of_equal_documents() {
    assert_eq!(json_diff(&n(1), &n(1)), Json::Null);
    assert_eq!(json_diff(&s("a"), &s("a")), Json::Null);
    let arr = Json::Array(vec![n(1), n(2)]);
    assert_eq!(json_diff(&arr, &arr), Json::Null);
    let doc = obj(vec![("a", n(1)), ("b", obj(vec![("c", s("x"))]))]);
    assert_eq!(json_diff(&doc, &doc), obj(vec![]));
}

#[test]
fn diff_of_scalars_and_arrays() {
    assert_eq!(json_diff(&n(1), &n(2)), n(2));
    assert_eq!(json_diff(&n(1), &s("1")), s("1"));
    assert_eq!(json_diff(&n(1), &Json::Null), Json::Null);
    assert_eq!(
        json_diff(&Json::Array(vec![n(1)]), &Json::Array(vec![n(1), n(2)])),
        Json::Array(vec![n(1), n(2)])
    );
    assert_eq!(json_diff(&obj(vec![("a", n(1))]), &n(3)), n(3));
    assert_eq!(
        json_diff(&n(3), &obj(vec![("a", n(1))])),
        obj(vec![("a", n(1))])
    );
}

#[test]
fn diff_of_objects() {
    let base = obj(vec![
        ("mode", s("peer")),
        ("same", n(1)),
        ("gone", Json::Bool(true)),
        (
            "plugins",
            obj(vec![("remote_api", obj(vec![("websocket_port", n(10000)), ("keep", n(1))]))]),
        ),
        ("untouched", obj(vec![("deep", obj(vec![("x", n(1))]))])),
    ]);
    let modified = obj(vec![
        ("mode", s("router")),
        ("same", n(1)),
        (
            "plugins",
            obj(vec![("remote_api", obj(vec![("websocket_port", n(10001)), ("keep", n(1))]))]),
        ),
        ("untouched", obj(vec![("deep", obj(vec![("x", n(1))]))])),
        ("added", Json::Array(vec![n(1)])),
    ]);
    let expected = obj(vec![
        ("mode", s("router")),
        (
            "plugins",
            obj(vec![("remote_api", obj(vec![("websocket_port", n(10001))]))]),
        ),
        ("added", Json::Array(vec![n(1)])),
        ("gone", Json::Null),
    ]);
    assert_eq!(json_diff(&base, &modified), expected);
}

#[test]
fn diff_drops_a_member_set_to_null() {
    let base = obj(vec![("a", n(1)), ("b", n(2))]);
    let modified = obj(vec![("a", Json::Null), ("b", n(2))]);
    assert_eq!(json_diff(&base, &modified), obj(vec![]));
}

#[test]
fn diff_keeps_a_nested_deletion() {
    let base = obj(vec![("a", obj(vec![("x", n(1)), ("y", n(2))]))]);
    let modified = obj(vec![("a", obj(vec![("x", n(1))]))]);
    assert_eq!(
        json_diff(&base, &modified),
        obj(vec![("a", obj(vec![("y", Json::Null)]))])
    );
}

#[test]
fn kept_differences() {
    assert!(!is_kept(&Json::Null));
    assert!(!is_kept(&obj(vec![])));
    assert!(is_kept(&obj(vec![("a", Json::Null)])));
    assert!(is_kept(&n(0)));
    assert!(is_kept(&Json::Array(vec![])));
    assert!(is_kept(&Json::Bool(false)));
}

#[test]
fn validated_configuration() {
    let doc = obj(vec![("mode", s("peer"))]);
    let config = ZenohConfigJson::from_json(doc.clone(), Ok(())).unwrap();
    assert_eq!(config.as_json(), &doc);
    assert_eq!(config.clone().into_json(), doc);
    assert_eq!(
        ZenohConfigJson::from_json(doc, Err("unknown field".to_string())),
        Err("Invalid zenoh config JSON: unknown field".to_string())
    );
}

#[test]
fn websocket_port_of_a_configuration() {
    let with = |port: Json| {
        ZenohConfigJson::from_json(
            obj(vec![(
                "plugins",
                obj(vec![("remote_api", obj(vec![("websocket_port", port)]))]),
            )]),
            Ok(()),
        )
        .unwrap()
    };
    assert_eq!(with(n(10000)).get_websocket_port(), Some(10000));
    assert_eq!(with(n(65535)).get_websocket_port(), Some(65535));
    assert_eq!(with(n(65536)).get_websocket_port(), Some(0));
    assert_eq!(with(n(70000)).get_websocket_port(), Some(4464));
    assert_eq!(with(s("10000")).get_websocket_port(), None);
    assert_eq!(with(s("10000")).get_websocket_port_text(), Some("10000".to_string()));
    assert_eq!(with(n(10000)).get_websocket_port_text(), None);
    assert_eq!(
        with(Json::Number(JsonNumber::NegInt(-1))).get_websocket_port(),
        None
    );
    let without = ZenohConfigJson::from_json(obj(vec![("plugins", obj(vec![]))]), Ok(())).unwrap();
    assert_eq!(without.get_websocket_port(), None);
    assert_eq!(without.get_websocket_port_text(), None);
    assert_eq!(without.get_mode(), None);
    let scalar = ZenohConfigJson::from_json(n(1), Ok(())).unwrap();
    assert_eq!(scalar.get_websocket_port(), None);
}

#[test]
fn edited_content() {
    let edit = |text: &str| ZenohConfigEdit { content: text.to_string() };
    assert_eq!(ZenohConfigEdit::default().content, "{}");
    assert!(ZenohConfigEdit::default().wants_default());
    assert!(edit("").wants_default());
    assert!(edit("   ").wants_default());
    assert!(edit("\n\t {} \r\n").wants_default());
    assert!(edit("\u{3000}{}\u{a0}").wants_default());
    assert!(!edit("{ }").wants_default());
    assert!(!edit("{}x").wants_default());
    assert!(!edit("{\"mode\":\"peer\"}").wants_default());
    assert!(!edit("[]").wants_default());
    assert!(!edit("}{").wants_default());
    assert_eq!(edit("{\"a\":1}").to_config(Ok(())), Ok("{\"a\":1}".to_string()));
    assert_eq!(
        edit("{").to_config(Err("EOF".to_string())),
        Err("Invalid JSON config: EOF".to_string())
    );
    assert_eq!(ZenohConfigEdit::from_config("{}".to_string()), edit("{}"));
}
