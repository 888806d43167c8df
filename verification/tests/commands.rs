use irc_bot_core::bot_cmd::{
    arg_result, parse_arg, ArgError, BotCmdAuthLvl, BotCmdResult, BotCommand, ARG_LABEL,
};
use irc_bot_core::irc_msgs::{MsgDest, MsgMetadata, MsgPrefix, ServerId};
use std::borrow::Cow;
use std::sync::Arc;
use yaml_rust::{ScanError, Yaml, YamlLoader};

type Outcome = Result<Yaml, BotCmdResult<String, String>>;

fn scan_error(text: &str) -> ScanError {
    match YamlLoader::load_from_str(text) {
        Ok(_) => panic!("the text scans"),
        Err(e) => e,
    }
}

/// Scans the text as YAML and holds the node, or the default where there is
/// none, to a syntax that names the kind of node that it wants.
fn validate(text: &str, syntax: &Yaml, label: &str, dflt: Yaml) -> Result<Yaml, ArgError<String>> {
    let node = match YamlLoader::load_from_str(text) {
        Ok(mut docs) => docs.pop().unwrap_or(dflt),
        Err(e) => return Err(ArgError::Scan(e)),
    };
    let fits = match (syntax.as_str(), &node) {
        (Some("integer"), Yaml::Integer(n)) => 0 <= *n && *n <= 100,
        (Some("string"), Yaml::String(_)) => true,
        (Some("mapping"), Yaml::Hash(_)) => true,
        _ => false,
    };
    if fits {
        Ok(node)
    } else {
        Err(ArgError::Other(format!("{} does not fit", label)))
    }
}

#[test]
fn reaction_converts_to_success() {
    let r: BotCmdResult<&str, ()> = BotCmdResult::from("say hello");
    assert!(matches!(r, BotCmdResult::Okay("say hello")));
    let r: BotCmdResult<u32, ()> = 7.into();
    assert!(matches!(r, BotCmdResult::Okay(7)));
}

#[test]
fn accepted_argument_is_passed_on() {
    let r: Outcome = arg_result(Ok(Yaml::Integer(7)));
    assert!(matches!(r, Ok(Yaml::Integer(7))));
}

#[test]
fn scan_error_is_a_syntax_error() {
    let r: Outcome = arg_result(Err(ArgError::Scan(scan_error("\"abc"))));
    assert!(matches!(r, Err(BotCmdResult::SyntaxErr)));
}

#[test]
fn other_error_is_a_library_error() {
    let r: Outcome = arg_result(Err(ArgError::Other("out of range".to_string())));
    match r {
        Err(BotCmdResult::LibErr(e)) => assert_eq!(e, "out of range"),
        _ => panic!("not a library error"),
    }
}

#[test]
fn parse_arg_gives_the_parsed_value() {
    let r: Outcome = parse_arg(&Yaml::String("integer".to_string()), "42", validate);
    assert_eq!(r.ok(), Some(Yaml::Integer(42)));
    let r: Outcome = parse_arg(&Yaml::String("string".to_string()), "abc", validate);
    assert_eq!(r.ok(), Some(Yaml::String("abc".to_string())));
}

#[test]
fn parse_arg_text_that_fails_lexically_is_a_syntax_error() {
    let r: Outcome = parse_arg(&Yaml::String("integer".to_string()), "\"abc", validate);
    assert!(matches!(r, Err(BotCmdResult::SyntaxErr)));
    let r: Outcome = parse_arg(&Yaml::String("integer".to_string()), "[1, 2", validate);
    assert!(matches!(r, Err(BotCmdResult::SyntaxErr)));
}

#[test]
fn parse_arg_value_that_does_not_fit_is_a_library_error() {
    let r: Outcome = parse_arg(&Yaml::String("integer".to_string()), "abc", validate);
    match r {
        Err(BotCmdResult::LibErr(e)) => assert_eq!(e, "<argument> does not fit"),
        _ => panic!("not a library error"),
    }
    let r: Outcome = parse_arg(&Yaml::String("integer".to_string()), "1000", validate);
    assert!(matches!(r, Err(BotCmdResult::LibErr(_))));
}

#[test]
fn parse_arg_hands_the_validator_its_inputs() {
    let syntax = Yaml::String("mapping".to_string());
    let r: Outcome = parse_arg(&syntax, "some text", |text: &str, s: &Yaml, label: &str, dflt: Yaml| {
        assert_eq!(text, "some text");
        assert_eq!(s, &Yaml::String("mapping".to_string()));
        assert_eq!(label, "<argument>");
        assert_eq!(dflt, Yaml::Hash(yaml_rust::yaml::Hash::new()));
        Ok(dflt)
    });
    assert_eq!(r.ok(), Some(Yaml::Hash(yaml_rust::yaml::Hash::new())));
}

#[test]
fn parse_arg_of_no_text_is_the_empty_mapping() {
    let r: Outcome = parse_arg(&Yaml::String("mapping".to_string()), "", validate);
    assert_eq!(r.ok(), Some(Yaml::Hash(yaml_rust::yaml::Hash::new())));
    let r: Outcome = parse_arg(&Yaml::String("integer".to_string()), "", validate);
    assert!(matches!(r, Err(BotCmdResult::LibErr(_))));
}

#[test]
fn argument_label() {
    assert_eq!(ARG_LABEL, "<argument>");
}

#[test]
fn admin_satisfies_every_level() {
    assert!(BotCmdAuthLvl::Admin.satisfies(&BotCmdAuthLvl::Admin));
    assert!(BotCmdAuthLvl::Admin.satisfies(&BotCmdAuthLvl::Public));
}

#[test]
fn public_satisfies_only_public() {
    assert!(BotCmdAuthLvl::Public.satisfies(&BotCmdAuthLvl::Public));
    assert!(!BotCmdAuthLvl::Public.satisfies(&BotCmdAuthLvl::Admin));
}

#[test]
fn levels_compare_equal_to_themselves_only() {
    assert_eq!(BotCmdAuthLvl::Admin, BotCmdAuthLvl::Admin);
    assert_eq!(BotCmdAuthLvl::Public.clone(), BotCmdAuthLvl::Public);
    assert_ne!(BotCmdAuthLvl::Public, BotCmdAuthLvl::Admin);
}

#[test]
fn command_holds_what_it_was_registered_with() {
    let cmd: BotCommand<String, dyn Fn(&MsgMetadata, &Yaml) -> BotCmdResult<String, String>> =
        BotCommand {
            name: Cow::Borrowed("echo"),
            provider: Arc::new("default".to_string()),
            auth_lvl: BotCmdAuthLvl::Public,
            handler: Arc::new(|meta: &MsgMetadata, arg: &Yaml| match arg.as_str() {
                Some(s) => BotCmdResult::from(format!("{}: {}", meta.dest.target, s)),
                None => BotCmdResult::ArgMissing(Cow::Borrowed("text")),
            }),
            usage_str: Cow::Borrowed("<text>"),
            usage_yaml: Yaml::String("string".to_string()),
            help_msg: Cow::Borrowed("Says the text back."),
        };
    let meta = MsgMetadata {
        dest: MsgDest { server_id: ServerId { raw: 1 }, target: "#chan" },
        prefix: MsgPrefix { nick: Some("bob"), user: None, host: None },
    };
    assert_eq!(cmd.name, "echo");
    assert_eq!(*cmd.provider, "default");
    assert!(BotCmdAuthLvl::Public.satisfies(&cmd.auth_lvl));
    let arg: Outcome = parse_arg(&cmd.usage_yaml, "hello", validate);
    match arg {
        Ok(arg) => assert!(matches!((cmd.handler)(&meta, &arg), BotCmdResult::Okay(s) if s == "#chan: hello")),
        Err(_) => panic!("the argument was turned down"),
    }
    assert!(matches!(
        (cmd.handler)(&meta, &Yaml::Integer(1)),
        BotCmdResult::ArgMissing(name) if name == "text"
    ));
}

#[test]
fn destinations_compare_by_connection_and_target() {
    let a = MsgDest { server_id: ServerId { raw: 1 }, target: "#chan" };
    let b = MsgDest { server_id: ServerId { raw: 1 }, target: "#chan" };
    let c = MsgDest { server_id: ServerId { raw: 2 }, target: "#chan" };
    let d = MsgDest { server_id: ServerId { raw: 1 }, target: "bob" };
    assert_eq!(a, b);
    assert_ne!(a, c);
    assert_ne!(a, d);
}
