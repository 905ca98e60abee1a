use mistralrs_gateway::payload::Payload;
use mistralrs_gateway::payload::decode_payload;
use mistralrs_gateway::payload::encode_payload;

#[test]
fn encode_plain_text() {
    let p = Payload { text: "Hello".to_string() };
    assert_eq!(encode_payload(&p), "{\"text\":\"Hello\"}");
}

#[test]
fn encode_escapes_quotes_and_backslashes() {
    let p = Payload { text: "a\"b\\".to_string() };
    assert_eq!(encode_payload(&p), "{\"text\":\"a\\\"b\\\\\"}");
}

#[test]
fn encode_empty_text() {
    let p = Payload { text: String::new() };
    assert_eq!(encode_payload(&p), "{\"text\":\"\"}");
}

#[test]
fn decode_inverts_encode() {
    let texts = [
        "",
        "Hello",
        "He said \"hi\" \\ and left",
        "\\\\\"\"",
        "unicode: \u{1F600} \u{00e9}",
        "newline\nand tab\t",
    ];
    for t in texts {
        let p = Payload { text: t.to_string() };
        let encoded = encode_payload(&p);
        match decode_payload(&encoded) {
            Some(q) => assert_eq!(q.text, t),
            None => panic!("an encoded payload must decode"),
        }
    }
}

#[test]
fn decode_rejects_malformed_text() {
    assert!(decode_payload("").is_none());
    assert!(decode_payload("{\"text\":\"unterminated").is_none());
    assert!(decode_payload("{\"data\":\"x\"}").is_none());
    assert!(decode_payload("{\"text\":\"x\"} trailing").is_none());
    assert!(decode_payload("{\"text\":\"bad \\x escape\"}").is_none());
    assert!(decode_payload("{\"text\":\"x\"").is_none());
}

#[test]
fn encoding_is_valid_json() {
    // For payload texts free of control characters the transport string is
    // also plain JSON: a JSON parser reads the text back out of it.
    let p = Payload { text: "He said \"hi\" \\ and left".to_string() };
    let encoded = encode_payload(&p);
    let value: serde_json::Value = serde_json::from_str(&encoded).unwrap();
    assert_eq!(value.get("text").and_then(|v| v.as_str()), Some(p.text.as_str()));
}
