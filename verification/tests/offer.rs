use arda_live_media_server::routes::offer::{decode_offer_body, offer_json, remote_offer};

fn offer_value_text(sdp: &str) -> String {
    let mut map = serde_json::Map::new();
    map.insert("type".to_string(), serde_json::Value::String("offer".to_string()));
    map.insert("sdp".to_string(), serde_json::Value::String(sdp.to_string()));
    serde_json::Value::Object(map).to_string()
}

#[test]
fn body_in_utf8_is_the_offer() {
    assert_eq!(decode_offer_body(b"v=0\r\n".to_vec()), Some("v=0\r\n".to_string()));
    assert_eq!(decode_offer_body("caf\u{e9}".as_bytes().to_vec()), Some("caf\u{e9}".to_string()));
    assert_eq!(decode_offer_body(Vec::new()), Some(String::new()));
}

#[test]
fn body_not_in_utf8_is_refused() {
    assert_eq!(decode_offer_body(vec![0xff, 0xfe]), None);
    assert_eq!(decode_offer_body(vec![b'a', 0xc3]), None);
}

#[test]
fn offer_json_is_what_serde_json_writes_for_the_offer() {
    for sdp in ["", "v=0", "v=0\r\no=- 1 2 IN IP4 0.0.0.0\r\n", "quote \" and \\ slash", "caf\u{e9}"] {
        assert_eq!(offer_json(sdp), offer_value_text(sdp));
    }
}

#[test]
fn offer_json_exact_text() {
    assert_eq!(offer_json("v=0\r\n"), "{\"sdp\":\"v=0\\r\\n\",\"type\":\"offer\"}");
}

#[test]
fn remote_offer_carries_the_sdp() {
    let description = remote_offer("v=0\r\n").expect("the offer reads back");
    assert_eq!(description.sdp, "v=0\r\n");
    assert_eq!(description.sdp_type.to_string(), "offer");
}

#[test]
fn offer_json_escapes_control_characters() {
    let sdp = "a\u{0}b\u{1}\u{8}\t\n\u{b}\u{c}\r\u{1f} \u{7f}/";
    assert_eq!(offer_json(sdp), offer_value_text(sdp));
    assert_eq!(
        offer_json("\u{1}\u{1f}"),
        "{\"sdp\":\"\\u0001\\u001f\",\"type\":\"offer\"}"
    );
}

#[test]
fn remote_offer_reads_back_every_text() {
    for sdp in ["", "\"", "\\", "a\r\nb", "\u{1}\u{1f}", "caf\u{e9} \u{1f600}"] {
        let description = remote_offer(sdp).expect("the offer reads back");
        assert_eq!(description.sdp, sdp);
        assert_eq!(description.sdp_type.to_string(), "offer");
    }
}
