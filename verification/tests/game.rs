use demosuperimpose_goldsrc::types::{EngineMessageType, MessageType};
use demosuperimpose_goldsrc::utils::{
    decode_buttons, decode_cs_weapon, decode_edict_flags, decode_movetype, encode_buttons,
    encode_edict_flags, Buttons, CSWeapon, EdictFlags, MoveType,
};

#[test]
fn decode_buttons_lists_the_set_bits_in_order() {
    let decoded = decode_buttons(0b1000_0000_0010_0101);
    let bits: Vec<u16> = decoded.iter().map(|b| b.bit()).collect();
    assert_eq!(bits, vec![1u16, 4, 32, 0x8000]);
    assert!(matches!(decoded[0], Buttons::Attack));
    assert!(matches!(decoded[1], Buttons::Duck));
    assert!(matches!(decoded[2], Buttons::Use));
    assert!(matches!(decoded[3], Buttons::Score));
    assert!(decode_buttons(0).is_empty());
    assert_eq!(decode_buttons(0xffff).len(), 16);
}

#[test]
fn encode_buttons_ors_the_bits() {
    assert_eq!(encode_buttons(vec![Buttons::Jump, Buttons::Reload]), 0b0010_0000_0000_0010);
    assert_eq!(encode_buttons(vec![]), 0);
    assert_eq!(encode_buttons(vec![Buttons::Run, Buttons::Run]), 1 << 12);
}

#[test]
fn buttons_encode_what_they_decode() {
    for word in [0u16, 1, 0x1234, 0x8001, 0xffff, 0b0101_0101_0101_0101] {
        assert_eq!(encode_buttons(decode_buttons(word)), word);
    }
}

#[test]
fn decode_edict_flags_lists_the_set_bits_in_order() {
    let decoded = decode_edict_flags((1 << 0) | (1 << 9) | (1 << 31));
    let bits: Vec<u32> = decoded.iter().map(|f| f.bit()).collect();
    assert_eq!(bits, vec![1u32, 1 << 9, 1 << 31]);
    assert!(matches!(decoded[0], EdictFlags::Fly));
    assert!(matches!(decoded[1], EdictFlags::Onground));
    assert!(matches!(decoded[2], EdictFlags::Dormant));
    assert!(decode_edict_flags(0).is_empty());
}

#[test]
fn encode_edict_flags_ors_the_bits() {
    assert_eq!(encode_edict_flags(vec![EdictFlags::Client, EdictFlags::CustomEntity]), (1 << 3) | (1 << 29));
    assert_eq!(encode_edict_flags(vec![]), 0);
}

#[test]
fn edict_flags_encode_what_they_decode() {
    for word in [0u32, 1, 0x0123_4567, 0xe7ff_ffff, 1 << 31] {
        assert_eq!(encode_edict_flags(decode_edict_flags(word)), word);
    }
}

#[test]
fn decode_movetype_by_number() {
    assert!(matches!(decode_movetype(0), MoveType::NoMove));
    assert!(matches!(decode_movetype(3), MoveType::Walk));
    assert!(matches!(decode_movetype(8), MoveType::Noclip));
    assert!(matches!(decode_movetype(13), MoveType::Pushstep));
}

#[test]
fn decode_cs_weapon_by_number() {
    assert!(matches!(decode_cs_weapon(0), CSWeapon::NoWeapon));
    assert!(matches!(decode_cs_weapon(1), CSWeapon::P228));
    assert!(matches!(decode_cs_weapon(18), CSWeapon::Awp));
    assert!(matches!(decode_cs_weapon(28), CSWeapon::Ak47));
    assert!(matches!(decode_cs_weapon(30), CSWeapon::P90));
    assert!(matches!(decode_cs_weapon(99), CSWeapon::ShieldGun));
}

#[test]
fn message_type_from_its_number() {
    assert!(matches!(MessageType::from(0), MessageType::EngineMessageType(EngineMessageType::SvcBad)));
    assert!(matches!(MessageType::from(7), MessageType::EngineMessageType(EngineMessageType::SvcTime)));
    assert!(matches!(MessageType::from(23), MessageType::EngineMessageType(EngineMessageType::SvcTempEntity)));
    assert!(matches!(MessageType::from(58), MessageType::EngineMessageType(EngineMessageType::SvcSendCvarValue2)));
    assert!(matches!(MessageType::from(60), MessageType::EngineMessageType(EngineMessageType::SvcBad)));
    assert!(matches!(MessageType::from(64), MessageType::UserMessage));
    assert!(matches!(MessageType::from(255), MessageType::UserMessage));
}

#[test]
fn message_type_numbers_come_back() {
    for n in 0u8..=58 {
        match MessageType::from(n) {
            MessageType::EngineMessageType(t) => assert_eq!(t.as_u8(), n),
            MessageType::UserMessage => panic!("engine message number read as a user message"),
        }
    }
}
