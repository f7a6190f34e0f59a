use ciborium::value::Value;
use ed25519_dalek::{Signer, SigningKey};
use rand::rngs::OsRng;
use room_state::configuration::{AuthorizedConfigurationV1, Configuration};
use room_state::encoding::Canonical;
use room_state::member::MemberId;
use room_state::message::{AuthorizedMessage, Message, Timestamp};

fn text(s: &str) -> Value {
    Value::Text(s.to_string())
}

fn cbor(v: &Value) -> Vec<u8> {
    let mut out = Vec::new();
    ciborium::ser::into_writer(v, &mut out).unwrap();
    out
}

fn configuration_map(c: &Configuration) -> Value {
    Value::Map(vec![
        (text("owner_member_id"), Value::Integer(c.owner_member_id.0.into())),
        (text("configuration_version"), Value::Integer(c.configuration_version.into())),
        (text("name"), text(&c.name)),
        (text("max_recent_messages"), Value::Integer((c.max_recent_messages as u64).into())),
        (text("max_user_bans"), Value::Integer((c.max_user_bans as u64).into())),
        (text("max_message_size"), Value::Integer((c.max_message_size as u64).into())),
        (text("max_nickname_size"), Value::Integer((c.max_nickname_size as u64).into())),
        (text("max_members"), Value::Integer((c.max_members as u64).into())),
    ])
}

fn message_map(m: &Message) -> Value {
    Value::Map(vec![
        (
            text("time"),
            Value::Map(vec![
                (text("secs_since_epoch"), Value::Integer(m.time.secs_since_epoch.into())),
                (text("nanos_since_epoch"), Value::Integer(m.time.nanos_since_epoch.into())),
            ]),
        ),
        (text("content"), text(&m.content)),
    ])
}

#[test]
fn configuration_encodes_as_field_map() {
    let mut c = Configuration::default();
    c.owner_member_id = MemberId(-5);
    c.configuration_version = 70_000;
    c.max_members = 1 << 40;
    assert_eq!(c.encode(), cbor(&configuration_map(&c)));
    assert_eq!(c.encode()[0], 0xa8);
}

#[test]
fn configuration_signature_covers_field_map() {
    let signing_key = SigningKey::generate(&mut OsRng);
    let c = Configuration::default();
    let signed = AuthorizedConfigurationV1::new(c.clone(), &signing_key.to_bytes());
    let expected = signing_key.sign(&cbor(&configuration_map(&c))).to_bytes();
    assert_eq!(signed.signature, expected);
}

#[test]
fn message_signature_covers_room_message_author() {
    let signing_key = SigningKey::generate(&mut OsRng);
    let m = Message {
        time: Timestamp {
            secs_since_epoch: 1_234_567,
            nanos_since_epoch: 890,
        },
        content: "Test message".to_string(),
    };
    assert_eq!(m.encode(), cbor(&message_map(&m)));
    let signed = AuthorizedMessage::new(-3, m.clone(), MemberId(9), &signing_key.to_bytes());
    let mut data = (-3i32).to_le_bytes().to_vec();
    data.extend_from_slice(&cbor(&message_map(&m)));
    data.extend_from_slice(&9i32.to_le_bytes());
    assert_eq!(signed.signature, signing_key.sign(&data).to_bytes());
}

#[test]
fn text_encodes_as_cbor_string() {
    assert_eq!(String::from("ab").encode(), vec![0x62, b'a', b'b']);
    assert_eq!(String::new().encode(), vec![0x60]);
}
