use rocket_json::json::merge;
use rocket_json::Json;

fn num(t: &str) -> Json {
    Json::Number(t.to_string())
}

fn text(t: &str) -> Json {
    Json::String(t.to_string())
}

fn obj(members: Vec<(&str, Json)>) -> Json {
    Json::Object(members.into_iter().map(|(k, v)| (k.to_string(), v)).collect())
}

#[test]
fn merge_arrays_concatenate() {
    let base = Json::Array(vec![num("1"), num("2")]);
    let overlay = Json::Array(vec![num("3"), num("4")]);
    let r = merge(&base, &overlay);
    assert_eq!(r, Json::Array(vec![num("1"), num("2"), num("3"), num("4")]));
}

#[test]
fn merge_scalar_override() {
    let base = obj(vec![("a", num("1"))]);
    let overlay = obj(vec![("a", num("2"))]);
    assert_eq!(merge(&base, &overlay), obj(vec![("a", num("2"))]));
}

#[test]
fn merge_type_mismatch_override() {
    let base = obj(vec![("a", num("1"))]);
    let overlay = obj(vec![("a", Json::Array(vec![num("1"), num("2")]))]);
    assert_eq!(
        merge(&base, &overlay),
        obj(vec![("a", Json::Array(vec![num("1"), num("2")]))])
    );
}

#[test]
fn merge_disjoint_objects_unites_keys() {
    let base = obj(vec![("a", num("1")), ("b", text("x"))]);
    let overlay = obj(vec![("c", Json::Bool(true)), ("d", Json::Null)]);
    assert_eq!(
        merge(&base, &overlay),
        obj(vec![
            ("a", num("1")),
            ("b", text("x")),
            ("c", Json::Bool(true)),
            ("d", Json::Null)
        ])
    );
}

#[test]
fn merge_nested_objects_recursively() {
    let base = obj(vec![
        ("a", obj(vec![("x", num("1")), ("y", Json::Array(vec![num("1")]))])),
        ("b", num("2")),
    ]);
    let overlay = obj(vec![
        ("a", obj(vec![("y", Json::Array(vec![num("2")])), ("z", text("new"))])),
        ("c", Json::Null),
    ]);
    assert_eq!(
        merge(&base, &overlay),
        obj(vec![
            (
                "a",
                obj(vec![
                    ("x", num("1")),
                    ("y", Json::Array(vec![num("1"), num("2")])),
                    ("z", text("new"))
                ])
            ),
            ("b", num("2")),
            ("c", Json::Null)
        ])
    );
}

#[test]
fn merge_object_over_scalar_replaces_it() {
    let base = num("7");
    let overlay = obj(vec![("k", text("v"))]);
    assert_eq!(merge(&base, &overlay), obj(vec![("k", text("v"))]));
}

#[test]
fn merge_array_over_object_replaces_it() {
    let base = obj(vec![("k", text("v"))]);
    let overlay = Json::Array(vec![]);
    assert_eq!(merge(&base, &overlay), Json::Array(vec![]));
}

#[test]
fn merge_null_over_value_replaces_it() {
    let base = Json::Array(vec![num("1")]);
    assert_eq!(merge(&base, &Json::Null), Json::Null);
}

#[test]
fn merge_empty_overlay_object_keeps_base() {
    let base = obj(vec![("a", num("1"))]);
    assert_eq!(merge(&base, &obj(vec![])), obj(vec![("a", num("1"))]));
}

#[test]
fn merge_is_not_commutative() {
    let a = obj(vec![("k", num("1"))]);
    let b = obj(vec![("k", num("2"))]);
    assert_ne!(merge(&a, &b), merge(&b, &a));
}

#[test]
fn merge_leaves_arguments_unchanged() {
    let base = Json::Array(vec![num("1")]);
    let overlay = Json::Array(vec![num("2")]);
    let _ = merge(&base, &overlay);
    assert_eq!(base, Json::Array(vec![num("1")]));
    assert_eq!(overlay, Json::Array(vec![num("2")]));
}

#[test]
fn copy_gives_equal_value() {
    let v = obj(vec![
        ("a", Json::Array(vec![num("1"), text("s"), Json::Bool(false)])),
        ("b", obj(vec![("c", Json::Null)])),
    ]);
    assert_eq!(v.copy(), v);
}
