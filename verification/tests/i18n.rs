use healthdesk::i18n::{
    deep_merge, duplicate, find, flatten_json, set_nested, store, I18n, Leaf, Node,
};

fn text(s: &str) -> Node {
    Node::Value(Leaf::Text(s.to_string()))
}

fn other(s: &str) -> Node {
    Node::Value(Leaf::Other(s.to_string()))
}

fn obj(members: Vec<(&str, Node)>) -> Node {
    Node::Object(members.into_iter().map(|(k, v)| (k.to_string(), v)).collect())
}

fn flat(entries: Vec<(&str, Leaf)>) -> Vec<(String, Leaf)> {
    entries.into_iter().map(|(k, v)| (k.to_string(), v)).collect()
}

fn t(s: &str) -> Leaf {
    Leaf::Text(s.to_string())
}

fn bundle() -> Node {
    obj(vec![
        ("app", obj(vec![("name", text("HealthDesk")), ("version", other("2"))])),
        ("tray", obj(vec![("open", text("Open")), ("quit", text("Quit"))])),
    ])
}

#[test]
fn keyed_list_store_and_find() {
    let mut m: Vec<(String, Leaf)> = Vec::new();
    assert_eq!(find(&m, "a"), 0);
    store(&mut m, "m".to_string(), t("1"));
    store(&mut m, "c".to_string(), t("2"));
    store(&mut m, "x".to_string(), t("3"));
    store(&mut m, "d".to_string(), t("4"));
    assert_eq!(m, flat(vec![("c", t("2")), ("d", t("4")), ("m", t("1")), ("x", t("3"))]));
    store(&mut m, "m".to_string(), t("5"));
    assert_eq!(m, flat(vec![("c", t("2")), ("d", t("4")), ("m", t("5")), ("x", t("3"))]));
    assert_eq!(find(&m, "c"), 0);
    assert_eq!(find(&m, "x"), 3);
    assert_eq!(find(&m, "y"), 4);
    assert_eq!(find(&m, ""), 4);
}

#[test]
fn copies_are_equal() {
    let b = bundle();
    assert_eq!(duplicate(&b), bundle());
    assert_eq!(duplicate(&text("x")), text("x"));
    assert_eq!(duplicate(&obj(vec![])), obj(vec![]));
}

#[test]
fn overlay_merges_into_objects_member_by_member() {
    let overlay = obj(vec![
        ("tray", obj(vec![("open", text("Otwórz")), ("hide", text("Ukryj"))])),
        ("about", text("O programie")),
    ]);
    assert_eq!(
        deep_merge(bundle(), overlay),
        obj(vec![
            ("about", text("O programie")),
            ("app", obj(vec![("name", text("HealthDesk")), ("version", other("2"))])),
            (
                "tray",
                obj(vec![("hide", text("Ukryj")), ("open", text("Otwórz")), ("quit", text("Quit"))])
            ),
        ])
    );
}

#[test]
fn overlay_replaces_what_is_no_object() {
    assert_eq!(deep_merge(text("a"), text("b")), text("b"));
    assert_eq!(deep_merge(bundle(), text("b")), text("b"));
    assert_eq!(deep_merge(text("a"), bundle()), bundle());
    assert_eq!(deep_merge(bundle(), other("null")), other("null"));
    assert_eq!(deep_merge(bundle(), obj(vec![])), bundle());
    assert_eq!(
        deep_merge(obj(vec![("a", text("1")), ("b", obj(vec![("c", text("2"))]))]),
            obj(vec![("a", obj(vec![("x", text("3"))])), ("b", text("4"))])),
        obj(vec![("a", obj(vec![("x", text("3"))])), ("b", text("4"))])
    );
}

#[test]
fn flattening_gives_dotted_keys() {
    assert_eq!(
        flatten_json(bundle(), ""),
        flat(vec![
            ("app.name", t("HealthDesk")),
            ("app.version", Leaf::Other("2".to_string())),
            ("tray.open", t("Open")),
            ("tray.quit", t("Quit")),
        ])
    );
    assert_eq!(
        flatten_json(bundle(), "ui"),
        flat(vec![
            ("ui.app.name", t("HealthDesk")),
            ("ui.app.version", Leaf::Other("2".to_string())),
            ("ui.tray.open", t("Open")),
            ("ui.tray.quit", t("Quit")),
        ])
    );
}

#[test]
fn flattening_edge_cases() {
    // A leaf at the top is kept only under a prefix.
    assert_eq!(flatten_json(text("x"), ""), flat(vec![]));
    assert_eq!(flatten_json(text("x"), "p"), flat(vec![("p", t("x"))]));
    assert_eq!(flatten_json(other("null"), ""), flat(vec![]));
    // Empty objects leave nothing behind.
    assert_eq!(flatten_json(obj(vec![("a", obj(vec![])), ("b", text("1"))]), ""),
        flat(vec![("b", t("1"))]));
    // A member with an empty key keeps it.
    assert_eq!(flatten_json(obj(vec![("", text("1"))]), ""), flat(vec![("", t("1"))]));
    assert_eq!(flatten_json(obj(vec![("", text("1"))]), "p"), flat(vec![("p.", t("1"))]));
    // Where two paths give the same key, the later member wins.
    assert_eq!(
        flatten_json(obj(vec![("a", obj(vec![("b", text("inner"))])), ("a.b", text("outer"))]), ""),
        flat(vec![("a.b", t("outer"))])
    );
}

#[test]
fn nested_store_by_dotted_key() {
    let mut root: Vec<(String, Node)> = Vec::new();
    set_nested(&mut root, "tray.open", text("Open"));
    set_nested(&mut root, "app", text("HealthDesk"));
    set_nested(&mut root, "tray.menu.quit", text("Quit"));
    set_nested(&mut root, "tray.open", text("Open!"));
    assert_eq!(
        Node::Object(root),
        obj(vec![
            ("app", text("HealthDesk")),
            ("tray", obj(vec![("menu", obj(vec![("quit", text("Quit"))])), ("open", text("Open!"))])),
        ])
    );
    // Below a member that is no object nothing is stored.
    let mut root: Vec<(String, Node)> = Vec::new();
    set_nested(&mut root, "app", text("HealthDesk"));
    set_nested(&mut root, "app.name", text("lost"));
    assert_eq!(Node::Object(root), obj(vec![("app", text("HealthDesk"))]));
    // Dots at the ends make empty keys.
    let mut root: Vec<(String, Node)> = Vec::new();
    set_nested(&mut root, ".a", text("1"));
    set_nested(&mut root, "b.", text("2"));
    set_nested(&mut root, "", text("3"));
    assert_eq!(
        Node::Object(root),
        obj(vec![("", text("3")), ("b", obj(vec![("", text("2"))]))])
    );
}

#[test]
fn translations_without_an_overlay_are_empty() {
    // A missing overlay counts as null, and null replaces the bundle.
    let i = I18n::new("pl", Some(bundle()), None);
    assert_eq!(i.current_lang(), "pl");
    assert_eq!(i.get_all(), obj(vec![]));
    assert_eq!(i.t("tray.open"), "tray.open");
    let i = I18n::new("pl", None, None);
    assert_eq!(i.get_all(), obj(vec![]));
}

#[test]
fn translations_lookup_and_rebuild() {
    let overlay = obj(vec![("tray", obj(vec![("open", text("Otwórz"))]))]);
    let mut i = I18n::new("pl", Some(bundle()), Some(overlay));
    assert_eq!(i.t("tray.open"), "Otwórz");
    assert_eq!(i.t("tray.quit"), "Quit");
    assert_eq!(i.t("app.version"), "2");
    assert_eq!(i.t("app"), "app");
    assert_eq!(i.t("no.such.key"), "no.such.key");
    assert_eq!(i.t(""), "");
    assert_eq!(
        i.get_all(),
        obj(vec![
            ("app", obj(vec![("name", text("HealthDesk")), ("version", other("2"))])),
            ("tray", obj(vec![("open", text("Otwórz")), ("quit", text("Quit"))])),
        ])
    );
    i.load_language("en", None, Some(obj(vec![("hello", text("Hello"))])));
    assert_eq!(i.current_lang(), "en");
    assert_eq!(i.t("hello"), "Hello");
    assert_eq!(i.t("tray.quit"), "tray.quit");
    assert_eq!(i.get_all(), obj(vec![("hello", text("Hello"))]));
}
