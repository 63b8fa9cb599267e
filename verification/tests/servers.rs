use garlemald_client::app::main_view::server_item;
use garlemald_client::servers::definitions::{
    RawEntry, ServerDefinition, ServerDefinitions, ServersError,
};

#[test]
fn parses_default_servers() {
    let defs = ServerDefinitions::load_default().unwrap();
    let local = defs.get("Localhost").expect("Localhost present");
    assert_eq!(local.address, "127.0.0.1");
    assert_eq!(local.login_url, "http://127.0.0.1:54993/login");
    // Bahamut (main) is deliberately first: file order is the dropdown
    // order and the fresh-install default selection.
    let first = defs.iter().next().expect("at least one server");
    assert_eq!(first.name, "Bahamut (main)");

    // Project Meteor's PHP login_su runs at 8080, not 54993 (which is
    // the Map Server's game-protocol TCP listener in that codebase).
    let meteor = defs.get("Project Meteor").expect("Project Meteor present");
    assert_eq!(meteor.login_url, "http://127.0.0.1:8080/login.php");
}

#[test]
fn parses_multiple_servers() {
    let toml_text = r#"
[[server]]
name = "A"
address = "a.example"
login_url = "https://a/login"

[[server]]
name = "B"
address = "b.example"
login_url = "https://b/login"
"#;
    let defs = ServerDefinitions::parse(toml_text).unwrap();
    assert_eq!(defs.len(), 2);
    assert_eq!(defs.get("A").unwrap().address, "a.example");
    assert_eq!(defs.get("B").unwrap().login_url, "https://b/login");
}

#[test]
fn empty_document_is_empty_set() {
    let defs = ServerDefinitions::parse("").unwrap();
    assert!(defs.is_empty());
}

#[test]
fn iteration_preserves_file_order() {
    let toml_text = r#"
[[server]]
name = "Zeta"
address = "z.example"
login_url = "https://z/login"

[[server]]
name = "Alpha"
address = "a.example"
login_url = "https://a/login"
"#;
    let defs = ServerDefinitions::parse(toml_text).unwrap();
    let names: Vec<&str> = defs.iter().map(|s| s.name.as_str()).collect();
    assert_eq!(names, ["Zeta", "Alpha"]);
}

#[test]
fn bahamut_main_is_default_and_uses_the_native_json_login() {
    let defs = ServerDefinitions::load_default().unwrap();
    let entry = defs.get("Bahamut (main)").expect("Bahamut (main) present");
    assert_eq!(entry.address, "bahamut.stegall.me");
    // The bahamut auth service is a JSON API with no web login page:
    // empty login_url plus an api_url routes the Login button to the
    // native login/sign-up form. https because the client refuses to
    // send passwords over plain http to non-loopback hosts.
    assert_eq!(entry.login_url, "");
    assert_eq!(entry.api_url, "https://bahamut.stegall.me/api/v1");
}

#[test]
fn api_url_defaults_to_empty_for_webview_servers() {
    let defs = ServerDefinitions::load_default().unwrap();
    assert_eq!(defs.get("Localhost").unwrap().api_url, "");
}

#[test]
fn aetherxiv_13_entry_points_at_docker_login() {
    let defs = ServerDefinitions::load_default().unwrap();
    let entry = defs
        .get("AetherXIV 1.3 (Docker Local)")
        .expect("AetherXIV 1.3 present");
    assert_eq!(entry.address, "127.0.0.1");
    assert_eq!(entry.login_url, "http://127.0.0.1:8080/login/index.php");
}

#[test]
fn later_definitions_take_the_place_of_earlier_ones() {
    let toml_text = r#"
[[server]]
name = "A"
address = "first"
login_url = ""

[[server]]
name = ""
address = "nameless"
login_url = ""

[[server]]
name = "B"
address = "b"
login_url = ""

[[server]]
name = "A"
address = "second"
login_url = ""
api_url = "https://x"
unknown = 3
"#;
    let defs = ServerDefinitions::parse(toml_text).unwrap();
    let seen: Vec<(&str, &str)> =
        defs.iter().map(|s| (s.name.as_str(), s.address.as_str())).collect();
    assert_eq!(seen, [("A", "second"), ("B", "b")]);
    assert_eq!(defs.get("A").unwrap().api_url, "https://x");
    assert!(defs.get("C").is_none());
    assert_eq!(defs.first().unwrap().name, "A");
    assert_eq!(server_item(defs.get("B").unwrap()), "b (B)");
}

#[test]
fn documents_of_another_form_are_refused() {
    for (text, error) in [
        ("[[server", ServersError::Syntax),
        ("server = 1", ServersError::Shape),
        ("server = [1]", ServersError::Shape),
        ("[[server]]\nname = \"A\"\naddress = \"a\"", ServersError::Shape),
        ("[[server]]\nname = 1\naddress = \"a\"\nlogin_url = \"l\"", ServersError::Shape),
        (
            "[[server]]\nname = \"A\"\naddress = \"a\"\nlogin_url = \"l\"\napi_url = true",
            ServersError::Shape,
        ),
        ("server = [[\"A\", \"a\"]]", ServersError::Shape),
        ("server = [[\"A\", \"a\", \"l\", 4]]", ServersError::Shape),
    ] {
        let refused = ServerDefinitions::parse(text).unwrap_err();
        assert_eq!(refused, error, "{text}");
        assert_eq!(refused.message(), "parsing servers TOML");
    }
}

#[test]
fn rows_and_empty_lists_are_read_too() {
    let defs =
        ServerDefinitions::parse("other = 1\nserver = [[\"A\", \"a\", \"l\"], [\"B\", \"b\", \"m\", \"u\", 9]]")
            .unwrap();
    assert_eq!(
        defs.get("A").unwrap(),
        &ServerDefinition {
            name: "A".to_string(),
            address: "a".to_string(),
            login_url: "l".to_string(),
            api_url: String::new(),
        }
    );
    assert_eq!(defs.get("B").unwrap().api_url, "u");
    assert!(ServerDefinitions::parse("server = []").unwrap().is_empty());
}

#[test]
fn read_documents_become_servers() {
    assert!(ServerDefinitions::from_entries(None).unwrap().is_empty());
    assert!(ServerDefinitions::from_entries(Some(None)).is_err());
    let text = |t: &str| Some(Some(t.to_string()));
    let entry = RawEntry {
        table: Some(vec![text("A"), text("a"), text("l"), None]),
        row: None,
    };
    let defs = ServerDefinitions::from_entries(Some(Some(vec![entry]))).unwrap();
    assert_eq!(defs.len(), 1);
    let neither = RawEntry { table: None, row: None };
    assert!(ServerDefinitions::from_entries(Some(Some(vec![neither]))).is_err());
}
