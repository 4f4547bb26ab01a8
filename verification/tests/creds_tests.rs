use rasta::creds::{hexdigest, Credentials};
use rasta::wire::WireValue;

fn to_json(v: &WireValue) -> serde_json::Value {
    match v {
        WireValue::Null => serde_json::Value::Null,
        WireValue::Bool(b) => serde_json::Value::Bool(*b),
        WireValue::Int(n) => serde_json::Value::Number(serde_json::Number::from(*n)),
        WireValue::Str(s) => serde_json::Value::String(s.clone()),
        WireValue::Arr(items) => serde_json::Value::Array(items.iter().map(to_json).collect()),
        WireValue::Obj(members) => serde_json::Value::Object(
            members.iter().map(|(k, v)| (k.clone(), to_json(v))).collect(),
        ),
    }
}

#[test]
fn clear_credentials_split_at_first_colon() {
    match Credentials::from("alice:s3cr:et".to_string()) {
        Credentials::Clear { user, password } => {
            assert_eq!(user, "alice");
            assert_eq!(password, "s3cr:et");
        }
        other => panic!("expected a clear pair, got {:?}", other),
    }
}

#[test]
fn colonless_credential_is_a_token() {
    match Credentials::from("SECRET-REDACTED".to_string()) {
        Credentials::Token(t) => assert_eq!(t, "SECRET-REDACTED"),
        other => panic!("expected a token, got {:?}", other),
    }
}

#[test]
fn login_payload_hashes_the_password() {
    // sha-256 of "secret", in hex
    let expected =
        r#"{"password":{"algorithm":"sha-256","digest":"2bb80d537b1da3e38bd30361aa855686bde0eacd7162fef6a25fe97bf527a25b"},"user":{"username":"alice"}}"#;
    let payload = Credentials::Clear {
        user: "alice".to_string(),
        password: "secret".to_string(),
    }
    .json();
    assert_eq!(serde_json::to_string(&to_json(&payload)).unwrap(), expected);
}

#[test]
fn token_payload_resumes_verbatim() {
    let payload = Credentials::Token("tok123".to_string()).json();
    assert_eq!(
        serde_json::to_string(&to_json(&payload)).unwrap(),
        r#"{"resume":"tok123"}"#
    );
}

#[test]
fn hexdigest_pads_every_byte_to_two_digits() {
    assert_eq!(hexdigest(&vec![0x00, 0x0f, 0xa0, 0xff]), "000fa0ff");
    assert_eq!(hexdigest(&vec![]), "");
}

#[test]
fn digest_matches_reference_vectors() {
    // an empty and a known input, against the published sha-256 values
    let empty = Credentials::Clear { user: "u".to_string(), password: String::new() }.json();
    let text = serde_json::to_string(&to_json(&empty)).unwrap();
    assert!(text.contains("e3b0c44298fc1c149afbf4c8996fb92427ae41e4649b934ca495991b7852b855"));
    let abc = Credentials::Clear { user: "u".to_string(), password: "abc".to_string() }.json();
    let text = serde_json::to_string(&to_json(&abc)).unwrap();
    assert!(text.contains("ba7816bf8f01cfea414140de5dae2223b00361a396177a9cb410ff61f20015ad"));
}
