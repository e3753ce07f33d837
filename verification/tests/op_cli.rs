use op_cli::error::Error;
use op_cli::item::{item_of_json, parse_item, OpItem, OpItemDetails, OpItemField, OpItemOverview};
use op_cli::run::{CmdOutput, ExitStatus};
use op_cli::tool::{EnvLookup, Op};

fn field(designation: Option<&str>, name: &str, field_type: &str, value: &str) -> OpItemField {
    OpItemField {
        designation: designation.map(|d| d.to_string()),
        name: name.to_string(),
        field_type: field_type.to_string(),
        value: value.to_string(),
    }
}

fn item_with(details: OpItemDetails) -> OpItem {
    OpItem {
        uuid: "u1".to_string(),
        vault_uuid: "v1".to_string(),
        changer_uuid: "c1".to_string(),
        overview: OpItemOverview { ainfo: "a".to_string(), title: "t".to_string() },
        details,
    }
}

#[test]
fn it_works() {
    assert_eq!(2 + 2, 4);
}

#[test]
fn password_direct_shape() {
    let item = item_with(OpItemDetails::Password { password: "secret".to_string() });
    assert_eq!(item.password(), Some("secret".to_string()));
}

#[test]
fn password_field_list_found() {
    let item = item_with(OpItemDetails::Login {
        fields: vec![
            field(Some("username"), "user", "T", "alice"),
            field(None, "note", "T", "x"),
            field(Some("password"), "pass", "P", "hunter2"),
        ],
    });
    assert_eq!(item.password(), Some("hunter2".to_string()));
}

#[test]
fn password_field_list_first_of_duplicates() {
    let item = item_with(OpItemDetails::Login {
        fields: vec![
            field(Some("password"), "one", "P", "first"),
            field(Some("password"), "two", "P", "second"),
        ],
    });
    assert_eq!(item.password(), Some("first".to_string()));
}

#[test]
fn password_field_list_absent() {
    let item = item_with(OpItemDetails::Login {
        fields: vec![field(Some("username"), "user", "T", "alice"), field(None, "n", "T", "v")],
    });
    assert_eq!(item.password(), None);
}

#[test]
fn password_field_list_empty() {
    let item = item_with(OpItemDetails::Login { fields: vec![] });
    assert_eq!(item.password(), None);
}

#[test]
fn env_session_zero_vars() {
    let op = Op::new("/bin/op");
    let r = op.env_session(vec![("PATH".to_string(), "/bin".to_string())]);
    assert!(matches!(r, Err(Error::MissingSessionVariable)));
}

#[test]
fn env_session_one_var() {
    let op = Op::new("/bin/op");
    let r = op.env_session(vec![
        ("PATH".to_string(), "/bin".to_string()),
        ("OP_SESSION_acme".to_string(), "tok".to_string()),
        ("HOME".to_string(), "/root".to_string()),
    ]);
    let session = r.unwrap();
    assert_eq!(session.session, "tok");
    assert_eq!(session.config.command, "/bin/op");
}

#[test]
fn env_session_two_vars() {
    let op = Op::new("/bin/op");
    let r = op.env_session(vec![
        ("OP_SESSION_acme".to_string(), "tok1".to_string()),
        ("PATH".to_string(), "/bin".to_string()),
        ("OP_SESSION_beta".to_string(), "tok2".to_string()),
    ]);
    match r {
        Err(Error::MultipleSessionVariables(names)) => {
            assert_eq!(names, vec!["OP_SESSION_acme".to_string(), "OP_SESSION_beta".to_string()]);
        },
        other => panic!("expected the ambiguity error, got {:?}", other),
    }
}

#[test]
fn session_var_name_is_prefixed() {
    assert_eq!(Op::session_var_name("acme"), "OP_SESSION_acme");
}

#[test]
fn env_account_session_present() {
    let op = Op::new("/bin/op");
    let r = op.env_account_session(EnvLookup::Present("tok".to_string()));
    let session = r.unwrap();
    assert_eq!(session.session, "tok");
    assert_eq!(session.config.command, "/bin/op");
}

#[test]
fn env_account_session_missing() {
    let op = Op::new("/bin/op");
    let r = op.env_account_session(EnvLookup::Missing);
    assert!(matches!(r, Err(Error::MissingSessionVariable)));
}

#[test]
fn env_account_session_not_unicode() {
    let op = Op::new("/bin/op");
    let r = op.env_account_session(EnvLookup::NotUnicode);
    assert!(matches!(r, Err(Error::SessionVarNotUnicode)));
}

#[test]
fn round_trip_password_shape() {
    let item = item_with(OpItemDetails::Password { password: "secret".to_string() });
    let j = item.to_json();
    assert_eq!(item_of_json(&j).unwrap(), item);
}

#[test]
fn round_trip_field_list_shape() {
    let item = item_with(OpItemDetails::Login {
        fields: vec![
            field(Some("password"), "pass", "P", "hunter2"),
            field(None, "note", "T", "x"),
        ],
    });
    let j = item.to_json();
    assert_eq!(item_of_json(&j).unwrap(), item);
}

#[test]
fn round_trip_through_serde_text() {
    let item = item_with(OpItemDetails::Login {
        fields: vec![field(Some("password"), "pass", "P", "hunter2")],
    });

    let mut f = serde_json::Map::new();
    f.insert("designation".to_string(), serde_json::Value::String("password".to_string()));
    f.insert("name".to_string(), serde_json::Value::String("pass".to_string()));
    f.insert("type".to_string(), serde_json::Value::String("P".to_string()));
    f.insert("value".to_string(), serde_json::Value::String("hunter2".to_string()));
    let mut details = serde_json::Map::new();
    details.insert(
        "fields".to_string(),
        serde_json::Value::Array(vec![serde_json::Value::Object(f)]),
    );
    let mut overview = serde_json::Map::new();
    overview.insert("ainfo".to_string(), serde_json::Value::String("a".to_string()));
    overview.insert("title".to_string(), serde_json::Value::String("t".to_string()));
    let mut root = serde_json::Map::new();
    root.insert("uuid".to_string(), serde_json::Value::String("u1".to_string()));
    root.insert("vaultUuid".to_string(), serde_json::Value::String("v1".to_string()));
    root.insert("changerUuid".to_string(), serde_json::Value::String("c1".to_string()));
    root.insert("overview".to_string(), serde_json::Value::Object(overview));
    root.insert("details".to_string(), serde_json::Value::Object(details));
    let bytes = serde_json::to_vec(&serde_json::Value::Object(root)).unwrap();

    assert_eq!(parse_item(&bytes).unwrap(), item);
}

#[test]
fn get_item_success_scenario() {
    let op = Op::new("/bin/op");
    let session = op.session("tok");
    let stdout = br#"{"uuid":"u1","vaultUuid":"v1","changerUuid":"c1","overview":{"ainfo":"a","title":"t"},"details":{"password":"secret"}}"#;
    let out = CmdOutput {
        status: ExitStatus { code: Some(0) },
        stdout: stdout.to_vec(),
        stderr: Vec::new(),
    };
    let item = session.get_item_output("u1", out).unwrap();
    assert_eq!(item.uuid, "u1");
    assert_eq!(item.vault_uuid, "v1");
    assert_eq!(item.changer_uuid, "c1");
    assert_eq!(item.overview.title, "t");
    assert_eq!(item.password(), Some("secret".to_string()));
}

#[test]
fn get_item_failure_scenario() {
    let op = Op::new("/bin/op");
    let session = op.session("tok");
    let out = CmdOutput {
        status: ExitStatus { code: Some(1) },
        stdout: Vec::new(),
        stderr: b"not found".to_vec(),
    };
    match session.get_item_output("missing", out) {
        Err(Error::GetCommand { uuid, stderr, status }) => {
            assert_eq!(uuid, "missing");
            assert_eq!(stderr, "not found");
            assert_eq!(status, ExitStatus { code: Some(1) });
        },
        other => panic!("expected the lookup error, got {:?}", other),
    }
}

#[test]
fn get_item_bad_json() {
    let op = Op::new("/bin/op");
    let session = op.session("tok");
    let out = CmdOutput {
        status: ExitStatus { code: Some(0) },
        stdout: b"no json here".to_vec(),
        stderr: Vec::new(),
    };
    assert!(matches!(session.get_item_output("u1", out), Err(Error::JsonParse(_))));
}

#[test]
fn get_item_wrong_schema() {
    let op = Op::new("/bin/op");
    let session = op.session("tok");
    let out = CmdOutput {
        status: ExitStatus { code: Some(0) },
        stdout: b"{\"uuid\":\"u1\"}".to_vec(),
        stderr: Vec::new(),
    };
    assert!(matches!(session.get_item_output("u1", out), Err(Error::InvalidItem)));
}

#[test]
fn get_item_stderr_not_utf8() {
    let op = Op::new("/bin/op");
    let session = op.session("tok");
    let out = CmdOutput {
        status: ExitStatus { code: Some(2) },
        stdout: Vec::new(),
        stderr: vec![0xff, 0xfe],
    };
    assert!(matches!(session.get_item_output("u1", out), Err(Error::OutputNotUtf8)));
}

#[test]
fn details_password_shape_wins_over_fields() {
    let bytes = br#"{"uuid":"u","vaultUuid":"v","changerUuid":"c","overview":{"ainfo":"a","title":"t"},"details":{"password":"direct","fields":[{"designation":"password","name":"n","type":"T","value":"listed"}]}}"#;
    let item = parse_item(bytes).unwrap();
    assert_eq!(item.password(), Some("direct".to_string()));
}

#[test]
fn details_non_string_password_falls_back_to_fields() {
    let bytes = br#"{"uuid":"u","vaultUuid":"v","changerUuid":"c","overview":{"ainfo":"a","title":"t"},"details":{"password":5,"fields":[]}}"#;
    let item = parse_item(bytes).unwrap();
    assert!(matches!(item.details, OpItemDetails::Login { ref fields } if fields.is_empty()));
    assert_eq!(item.password(), None);
}

#[test]
fn field_with_null_designation() {
    let bytes = br#"{"uuid":"u","vaultUuid":"v","changerUuid":"c","overview":{"ainfo":"a","title":"t"},"details":{"fields":[{"designation":null,"name":"n","type":"T","value":"x"}]}}"#;
    let item = parse_item(bytes).unwrap();
    match &item.details {
        OpItemDetails::Login { fields } => {
            assert_eq!(fields.len(), 1);
            assert_eq!(fields[0].designation, None);
            assert_eq!(fields[0].value, "x");
        },
        other => panic!("expected the field-list shape, got {:?}", other),
    }
}

#[test]
fn field_missing_value_rejected() {
    let bytes = br#"{"uuid":"u","vaultUuid":"v","changerUuid":"c","overview":{"ainfo":"a","title":"t"},"details":{"fields":[{"designation":"password","name":"n","type":"T"}]}}"#;
    assert!(matches!(parse_item(bytes), Err(Error::InvalidItem)));
}

#[test]
fn version_trims_stdout() {
    let op = Op::new("/bin/op");
    let out = CmdOutput {
        status: ExitStatus { code: Some(1) },
        stdout: b"0.5.5\n".to_vec(),
        stderr: Vec::new(),
    };
    assert_eq!(op.version_from_output(out).unwrap(), "0.5.5");
}

#[test]
fn version_unexpected_status() {
    let op = Op::new("/bin/op");
    let out = CmdOutput {
        status: ExitStatus { code: Some(0) },
        stdout: b"0.5.5\n".to_vec(),
        stderr: b"boom".to_vec(),
    };
    match op.version_from_output(out) {
        Err(Error::VersionCommand { stderr, status }) => {
            assert_eq!(stderr, "boom");
            assert_eq!(status, ExitStatus { code: Some(0) });
        },
        other => panic!("expected the version error, got {:?}", other),
    }
}

#[test]
fn version_stdout_not_utf8() {
    let op = Op::new("/bin/op");
    let out = CmdOutput {
        status: ExitStatus { code: Some(1) },
        stdout: vec![0xff],
        stderr: Vec::new(),
    };
    assert!(matches!(op.version_from_output(out), Err(Error::OutputNotUtf8)));
}

#[test]
fn version_args_shape() {
    let op = Op::new("/bin/op");
    assert_eq!(op.version_args(), vec!["--version".to_string()]);
}

#[test]
fn get_item_args_shape() {
    let op = Op::new("/bin/op");
    let session = op.session("tok");
    assert_eq!(
        session.get_item_args("u1"),
        vec![
            "get".to_string(),
            "item".to_string(),
            "--session".to_string(),
            "tok".to_string(),
            "u1".to_string(),
        ]
    );
}

#[test]
fn new_and_command() {
    let op = Op::new("/usr/local/bin/op");
    assert_eq!(op.command(), "/usr/local/bin/op");
}

#[test]
fn from_search_results() {
    match Op::from_search(Some("/somewhere/op".to_string())) {
        Ok(op) => assert_eq!(op.command(), "/somewhere/op"),
        Err(e) => panic!("expected a handle, got {:?}", e),
    }
    assert!(matches!(Op::from_search(None), Err(Error::MissingOpCommand)));
}

#[test]
fn which_finds_or_reports_missing() {
    match Op::which() {
        Ok(op) => assert!(!op.command().is_empty()),
        Err(e) => assert!(matches!(e, Error::MissingOpCommand)),
    }
}
