use pixi_pfx::commands::describe::{describe_arg, describe_command, describe_commands, describe_full, ArgInfo, CommandInfo};
use pixi_pfx::json_text::to_json_string;

fn arg(id: &str, long: Option<&str>, global: bool) -> ArgInfo {
    ArgInfo {
        id: id.to_string(),
        long: long.map(|s| s.to_string()),
        short: None,
        max_values: None,
        required: false,
        default_values: vec![],
        env: None,
        help: None,
        global,
    }
}

fn cmd(name: &str, about: Option<&str>, args: Vec<ArgInfo>, subs: Vec<CommandInfo>) -> CommandInfo {
    CommandInfo { name: name.to_string(), about: about.map(|s| s.to_string()), args, subcommands: subs }
}

fn program() -> CommandInfo {
    let mut token = arg("token", Some("token"), true);
    token.help = Some("API authentication token".to_string());
    token.env = Some("PREFIX_DEV_API_TOKEN".to_string());
    let mut endpoint = arg("endpoint", Some("endpoint"), true);
    endpoint.default_values = vec!["https://prefix.dev/api/graphql".to_string()];
    let mut name = arg("name", None, false);
    name.required = true;
    name.help = Some("Channel name".to_string());
    let get = cmd("get", Some("Get channel details by name"), vec![name, arg("help", Some("help"), false)], vec![]);
    let channel = cmd("channel", Some("Manage channels"), vec![], vec![get, cmd("help", None, vec![], vec![])]);
    let whoami = cmd("whoami", None, vec![], vec![]);
    let auth = cmd("auth", Some("Authentication"), vec![], vec![whoami]);
    cmd(
        "pixi-pfx",
        Some("prefix.dev GraphQL API client for pixi"),
        vec![token, endpoint, arg("help", Some("help"), true), arg("local", Some("local"), false)],
        vec![channel, auth, cmd("help", None, vec![], vec![])],
    )
}

#[test]
fn describes_an_argument() {
    let mut a = arg("public", Some("public"), false);
    a.max_values = Some(0);
    a.help = Some("Make it public".to_string());
    assert_eq!(
        to_json_string(&describe_arg(&a)),
        r#"{"description":"Make it public","name":"--public","required":false,"type":"bool"}"#
    );
    let mut b = arg("level", None, false);
    b.short = Some('l');
    b.default_values = vec!["info".to_string(), "warning".to_string()];
    b.env = Some("LEVEL".to_string());
    b.max_values = Some(1);
    assert_eq!(
        to_json_string(&describe_arg(&b)),
        r#"{"default":"info","description":null,"env":"LEVEL","name":"-l","required":false,"type":"string"}"#
    );
    let c = arg("path", None, false);
    assert_eq!(
        to_json_string(&describe_arg(&c)),
        r#"{"description":null,"name":"path","required":false,"type":"string"}"#
    );
}

#[test]
fn describes_the_whole_program() {
    let text = to_json_string(&describe_full(&program()));
    assert_eq!(
        text,
        [
            r#"{"commands":{"auth":{"description":"Authentication","subcommands":{"whoami":{"args":[],"description":null}}},"#,
            r#""channel":{"description":"Manage channels","subcommands":{"get":{"args":[{"description":"Channel name","name":"name","required":true,"type":"string"}],"description":"Get channel details by name"}}}},"#,
            r#""description":"prefix.dev GraphQL API client for pixi","#,
            r#""global_flags":[{"description":"API authentication token","env":"PREFIX_DEV_API_TOKEN","name":"--token","required":false,"type":"string"},"#,
            r#"{"default":"https://prefix.dev/api/graphql","description":null,"name":"--endpoint","required":false,"type":"string"}],"#,
            r#""name":"pixi-pfx"}"#,
        ]
        .concat()
    );
}

#[test]
fn describes_a_command_at_a_path() {
    let root = program();
    let path = vec!["channel".to_string(), "get".to_string()];
    assert_eq!(
        to_json_string(&describe_commands(&root, &path)),
        r#"{"args":[{"description":"Channel name","name":"name","required":true,"type":"string"}],"description":"Get channel details by name"}"#
    );
    assert_eq!(to_json_string(&describe_commands(&root, &[])), to_json_string(&describe_full(&root)));
}

#[test]
fn unknown_command_path_is_reported() {
    let root = program();
    let path = vec!["channel".to_string(), "frobnicate".to_string()];
    assert_eq!(
        to_json_string(&describe_commands(&root, &path)),
        r#"{"error":"Unknown command: channel frobnicate"}"#
    );
}

#[test]
fn subcommands_are_sorted_and_later_names_win() {
    let subs = vec![
        cmd("zeta", Some("last"), vec![], vec![]),
        cmd("alpha", Some("first"), vec![], vec![]),
        cmd("mid", Some("old"), vec![], vec![]),
        cmd("help", None, vec![], vec![]),
        cmd("mid", Some("new"), vec![], vec![]),
        cmd("Beta", Some("capital"), vec![], vec![]),
    ];
    let group = cmd("group", None, vec![], subs);
    assert_eq!(
        to_json_string(&describe_command(&group)),
        [
            r#"{"description":null,"subcommands":{"Beta":{"args":[],"description":"capital"},"#,
            r#""alpha":{"args":[],"description":"first"},"mid":{"args":[],"description":"new"},"#,
            r#""zeta":{"args":[],"description":"last"}}}"#,
        ]
        .concat()
    );
}

#[test]
fn only_help_subcommand_makes_a_leaf() {
    let mut a = arg("x", Some("x"), false);
    a.required = true;
    let c = cmd("leaf", Some("A leaf"), vec![a, arg("version", Some("version"), false), arg("g", Some("g"), true)], vec![cmd("help", None, vec![], vec![])]);
    assert_eq!(
        to_json_string(&describe_command(&c)),
        r#"{"args":[{"description":null,"name":"--x","required":true,"type":"string"}],"description":"A leaf"}"#
    );
}

#[test]
fn one_command_is_described_as_in_the_whole() {
    let root = program();
    let full: serde_json::Value = serde_json::from_str(&to_json_string(&describe_full(&root))).unwrap();
    for name in ["channel", "auth"] {
        let one: serde_json::Value =
            serde_json::from_str(&to_json_string(&describe_commands(&root, &[name.to_string()]))).unwrap();
        assert_eq!(one, full["commands"][name]);
    }
}
