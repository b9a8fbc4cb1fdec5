//! Bytes on the wire.
use stage_forward_lab::bytes_b64;
use stage_forward_lab::bytes_b64::{Base64Fault, ReadBytes, WrittenBytes};
use stage_forward_lab::hidden::{decode_hidden_state, encode_hidden_state};
use stage_forward_lab::{encode_stage_tensor_bytes, stage_tensor_byte_sections};

/// The bit patterns of numbers.
fn bits(values: &[f32]) -> Vec<u32> {
    values.iter().map(|value| value.to_bits()).collect()
}

#[test]
fn stage_tensor_bytes_base64_json_roundtrip() {
    let mut raw = vec![0u8; 8 * 1024];
    for (i, b) in raw.iter_mut().enumerate() {
        *b = (i & 0xff) as u8;
    }
    let text = match bytes_b64::serialize(&raw, true) {
        WrittenBytes::Text(text) => text,
        WrittenBytes::Raw(_) => panic!("bytes must be written as text"),
    };
    let mut fields = serde_json::Map::new();
    fields.insert("request_id".into(), serde_json::Value::from("req"));
    fields.insert("hidden_dim".into(), serde_json::Value::from(2048));
    fields.insert("bytes".into(), serde_json::Value::from(text));
    let json = serde_json::to_string(&serde_json::Value::Object(fields)).expect("serialize json");
    assert!(
        !json.contains("[0,1,2,3,4,5,6,7,8,9,10"),
        "bytes must not serialize as json number array"
    );
    assert!(
        json.contains("AAECAwQFBgcICQoL"),
        "expected base64 prefix of 0..11 in json payload"
    );
    assert!(
        json.len() < raw.len() * 2,
        "base64 json ({}) should be < 2x raw ({}); number-array was ~4x",
        json.len(),
        raw.len()
    );

    let back: serde_json::Value = serde_json::from_str(&json).expect("deserialize json");
    let text = back.get("bytes").and_then(|bytes| bytes.as_str()).unwrap();
    let bytes = bytes_b64::deserialize(ReadBytes::Text(text.into())).unwrap();
    assert_eq!(bytes, raw, "json roundtrip must preserve bytes");
}

#[test]
fn bytes_are_written_as_padded_base64() {
    let written = |bytes: &[u8]| bytes_b64::serialize(&bytes.to_vec(), true);
    assert_eq!(written(b""), WrittenBytes::Text("".into()));
    assert_eq!(written(b"f"), WrittenBytes::Text("Zg==".into()));
    assert_eq!(written(b"fo"), WrittenBytes::Text("Zm8=".into()));
    assert_eq!(written(b"foo"), WrittenBytes::Text("Zm9v".into()));
    assert_eq!(written(&[0xfb, 0xff]), WrittenBytes::Text("+/8=".into()));
    assert_eq!(
        bytes_b64::serialize(&vec![1, 2], false),
        WrittenBytes::Raw(vec![1, 2])
    );
}

#[test]
fn bytes_are_read_in_every_form() {
    assert_eq!(bytes_b64::deserialize(ReadBytes::Text("Zm8=".into())).unwrap(), b"fo");
    assert_eq!(bytes_b64::deserialize(ReadBytes::Raw(vec![9])).unwrap(), [9]);
    assert_eq!(bytes_b64::deserialize(ReadBytes::List(vec![7, 8])).unwrap(), [7, 8]);
}

#[test]
fn faults_in_base64_are_told() {
    let told = |text: &str| {
        bytes_b64::deserialize(ReadBytes::Text(text.into())).unwrap_err().to_string()
    };
    let expected = |text: &str| {
        base64::Engine::decode(&base64::engine::general_purpose::STANDARD, text)
            .unwrap_err()
            .to_string()
    };
    for text in ["Zm8!", "Zm8=Z", "Zg", "Zm8==", "Zh==", "Z", "====", "é"] {
        assert_eq!(told(text), expected(text), "{text}");
    }
    assert_eq!(Base64Fault::InvalidPadding.to_error().to_string(), "Invalid padding");
    assert_eq!(Base64Fault::InvalidLength(5).to_error().to_string(), "Invalid input length: 5");
    assert_eq!(
        Base64Fault::InvalidByte(3, 33).to_error().to_string(),
        "Invalid symbol 33, offset 3."
    );
    assert_eq!(
        Base64Fault::InvalidLastSymbol(1, 104).to_error().to_string(),
        "Invalid last symbol 104, offset 1."
    );
}

#[test]
fn framed_bytes_fall_apart_as_they_were_put_together() {
    let framed = encode_stage_tensor_bytes(&[1, 2, 3], Some(&[4, 5]));
    assert_eq!(framed, [b's', b't', b'b', b'1', 3, 0, 0, 0, 2, 0, 0, 0, 1, 2, 3, 4, 5]);
    let sections = stage_tensor_byte_sections(&framed).unwrap();
    assert_eq!(sections.hidden_bytes, [1, 2, 3]);
    assert_eq!(sections.aux_bytes, Some(&[4u8, 5][..]));
}

#[test]
fn bytes_without_a_frame_are_left_alone() {
    assert_eq!(encode_stage_tensor_bytes(&[1, 2, 3], None), [1, 2, 3]);
    assert_eq!(encode_stage_tensor_bytes(&[1, 2, 3], Some(&[])), [1, 2, 3]);
    assert_eq!(stage_tensor_byte_sections(&[1, 2, 3]), None);
    let mut framed = encode_stage_tensor_bytes(&[1, 2, 3], Some(&[4, 5]));
    framed.push(6);
    assert_eq!(stage_tensor_byte_sections(&framed), None);
    let empty = [b's', b't', b'b', b'1', 1, 0, 0, 0, 0, 0, 0, 0, 9];
    let sections = stage_tensor_byte_sections(&empty).unwrap();
    assert_eq!((sections.hidden_bytes, sections.aux_bytes), (&[9u8][..], None));
}

#[test]
fn a_hidden_state_is_read_back_as_it_was_written() {
    let state = bits(&[0.5, -1.25, f32::NAN, f32::INFINITY, -0.0]);
    let bytes = encode_hidden_state(&state);
    assert_eq!(bytes[..4], 0.5f32.to_le_bytes());
    assert_eq!(decode_hidden_state(&bytes, 5).unwrap(), state);
}

#[test]
fn a_hidden_state_of_another_width_is_refused() {
    assert_eq!(
        decode_hidden_state(&[0; 8], 3).unwrap_err().to_string(),
        "Hidden-state byte length 8 does not match hidden_dim 3"
    );
    assert!(decode_hidden_state(&[0; 8], usize::MAX).is_err());
    assert!(decode_hidden_state(&[], 0).unwrap().is_empty());
}
