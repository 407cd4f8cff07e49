use std::collections::HashMap;

use demosuperimpose_goldsrc::netmsg_doer::spawn_static::SpawnStatic;
use demosuperimpose_goldsrc::netmsg_doer::spawn_static_sound::SpawnStaticSound;
use demosuperimpose_goldsrc::netmsg_doer::stop_sound::StopSound;
use demosuperimpose_goldsrc::netmsg_doer::stuff_text::StuffText;
use demosuperimpose_goldsrc::netmsg_doer::temp_entity::TempEntity;
use demosuperimpose_goldsrc::netmsg_doer::time::Time;
use demosuperimpose_goldsrc::netmsg_doer::time_scale::TimeScale;
use demosuperimpose_goldsrc::netmsg_doer::update_user_info::UpdateUserInfo;
use demosuperimpose_goldsrc::netmsg_doer::user_message::UserMessage;
use demosuperimpose_goldsrc::netmsg_doer::version::Version;
use demosuperimpose_goldsrc::netmsg_doer::voice_data::VoiceData;
use demosuperimpose_goldsrc::netmsg_doer::voice_init::VoiceInit;
use demosuperimpose_goldsrc::netmsg_doer::weapon_anim::WeaponAnim;
use demosuperimpose_goldsrc::netmsg_doer::{read_u8, read_i8, read_u16, read_i16, read_u32, read_i32, take};
use demosuperimpose_goldsrc::netmsg_doer::ParseError;
use demosuperimpose_goldsrc::types::{
    DeltaDecoderTable, NetMsgUserMessage, SvcNewUserMsg, SvcSpawnStatic, SvcSpawnStaticSound,
    SvcStopSound, SvcStuffText, SvcTempEntity, SvcTime, SvcTimeScale, SvcUpdateUserInfo,
    SvcVersion, SvcVoiceData, SvcVoiceInit, SvcWeaponAnim, TeBeamPoints, TeBspDecal,
    TeTextMessage, TempEntityEntity,
};

#[test]
fn readers_take_little_endian_values() {
    let bytes = [0x01u8, 0x02, 0x03, 0x04, 0x05];
    assert_eq!(read_u8(&bytes), Ok((&bytes[1..], 1u8)));
    assert_eq!(read_i8(&[0xffu8]), Ok((&[][..], -1i8)));
    assert_eq!(read_u16(&bytes), Ok((&bytes[2..], 0x0201u16)));
    assert_eq!(read_i16(&[0xfeu8, 0xff]), Ok((&[][..], -2i16)));
    assert_eq!(read_u32(&bytes), Ok((&bytes[4..], 0x0403_0201u32)));
    assert_eq!(read_i32(&[0x00u8, 0x00, 0x00, 0x80]), Ok((&[][..], i32::MIN)));
    assert_eq!(take(&bytes, 3), Ok((&bytes[3..], &bytes[..3])));
}

#[test]
fn readers_report_the_end_of_input() {
    assert_eq!(read_u8(&[]), Err(ParseError::Eof));
    assert_eq!(read_u16(&[1u8]), Err(ParseError::Eof));
    assert_eq!(read_i16(&[1u8]), Err(ParseError::Eof));
    assert_eq!(read_u32(&[1u8, 2, 3]), Err(ParseError::Eof));
    assert_eq!(read_i32(&[1u8, 2, 3]), Err(ParseError::Eof));
    assert_eq!(take(&[1u8, 2], 3), Err(ParseError::Eof));
}

#[test]
fn version_parse_and_write() {
    let mut table = DeltaDecoderTable::new();
    let bytes = [0x30u8, 0x00, 0x00, 0x00, 0xaa];
    let (rest, m) = Version::parse(&bytes, &mut table).unwrap();
    assert_eq!(m.protocol_version, 48);
    assert_eq!(rest, &[0xaau8][..]);
    assert_eq!(Version::write(SvcVersion { protocol_version: 48 }), vec![4u8, 0x30, 0, 0, 0]);
    assert!(matches!(Version::parse(&bytes[..3], &mut table), Err(ParseError::Eof)));
    assert!(table.is_empty());
}

#[test]
fn time_keeps_the_float_bits() {
    let mut table = DeltaDecoderTable::new();
    let bits = 1.5f32.to_bits();
    let bytes = bits.to_le_bytes();
    let (rest, m) = Time::parse(&bytes, &mut table).unwrap();
    assert_eq!(m, SvcTime { time: bits });
    assert!(rest.is_empty());
    let mut expected = vec![7u8];
    expected.extend_from_slice(&bytes);
    assert_eq!(Time::write(m), expected);
    assert!(matches!(Time::parse(&bytes[..2], &mut table), Err(ParseError::Eof)));
}

#[test]
fn time_scale_keeps_the_float_bits() {
    let bits = 0.25f32.to_bits();
    let bytes = bits.to_le_bytes();
    let (rest, m) = TimeScale::parse(&bytes).unwrap();
    assert_eq!(m, SvcTimeScale { time_scale: bits });
    assert!(rest.is_empty());
    let mut expected = vec![55u8];
    expected.extend_from_slice(&bytes);
    assert_eq!(TimeScale::write(m), expected);
    assert!(matches!(TimeScale::parse(&[]), Err(ParseError::Eof)));
}

#[test]
fn stop_sound_parse_and_write() {
    let (rest, m) = StopSound::parse(&[0x34u8, 0x12, 9]).unwrap();
    assert_eq!(m.entity_index, 0x1234);
    assert_eq!(rest, &[9u8][..]);
    assert_eq!(StopSound::write(SvcStopSound { entity_index: -1 }), vec![16u8, 0xff, 0xff]);
    assert!(matches!(StopSound::parse(&[1u8]), Err(ParseError::Eof)));
}

#[test]
fn weapon_anim_parse_and_write() {
    let mut table = DeltaDecoderTable::new();
    let (rest, m) = WeaponAnim::parse(&[3u8, 0xff], &mut table).unwrap();
    assert_eq!((m.sequence_number, m.weapon_model_body_group), (3, -1));
    assert!(rest.is_empty());
    let w = WeaponAnim::write(SvcWeaponAnim { sequence_number: 3, weapon_model_body_group: -1 });
    assert_eq!(w, vec![35u8, 3, 0xff]);
    assert!(matches!(WeaponAnim::parse(&[3u8], &mut table), Err(ParseError::Eof)));
}

#[test]
fn stuff_text_reads_up_to_the_terminator() {
    let mut table = DeltaDecoderTable::new();
    let bytes = b"say hi\0rest";
    let (rest, m) = StuffText::parse(bytes, &mut table).unwrap();
    assert_eq!(m.command, b"say hi\0");
    assert_eq!(rest, b"rest");
    assert_eq!(StuffText::write(SvcStuffText { command: b"go\0" }), vec![9u8, b'g', b'o', 0]);
    assert!(matches!(StuffText::parse(b"no terminator", &mut table), Err(ParseError::MissingNul)));
}

#[test]
fn stuff_text_roundtrip() {
    let mut table = DeltaDecoderTable::new();
    let m = SvcStuffText { command: b"echo x\0" };
    let written = StuffText::write(m.clone());
    let (rest, back) = StuffText::parse(&written[1..], &mut table).unwrap();
    assert_eq!(back.command, m.command);
    assert!(rest.is_empty());
}

fn spawn_static_bytes(render_mode: u8) -> Vec<u8> {
    let mut b = vec![
        0x02u8, 0x01, // model index
        0x05, // sequence
        0x06, // frame
        0x08, 0x07, // color map
        0x09, // skin
        0x0b, 0x0a, // origin x
        0xfe, // rotation x
        0x0d, 0x0c, // origin y
        0x0e, // rotation y
        0x10, 0x0f, // origin z
        0x11, // rotation z
        render_mode,
    ];
    b.extend_from_slice(&[0xa1, 0xa2, 0xa3, 0xee]);
    b
}

#[test]
fn spawn_static_with_render_color() {
    let bytes = spawn_static_bytes(1);
    let (rest, m) = SpawnStatic::parse(&bytes).unwrap();
    assert_eq!(m.model_index, 0x0102);
    assert_eq!(m.sequence, 5);
    assert_eq!(m.frame, 6);
    assert_eq!(m.color_map, 0x0708);
    assert_eq!(m.skin, 9);
    assert_eq!(m.origin_x, 0x0a0b);
    assert_eq!(m.rotation_x, -2);
    assert_eq!(m.origin_y, 0x0c0d);
    assert_eq!(m.rotation_y, 0x0e);
    assert_eq!(m.origin_z, 0x0f10);
    assert_eq!(m.rotation_z, 0x11);
    assert_eq!(m.has_render_mode, 1);
    assert_eq!(m.render_color, Some(vec![0xa1u8, 0xa2, 0xa3]));
    assert_eq!(rest, &[0xeeu8][..]);

    let mut expected = vec![20u8];
    expected.extend_from_slice(&bytes[..20]);
    assert_eq!(SpawnStatic::write(m), expected);
}

#[test]
fn spawn_static_without_render_color() {
    let bytes = spawn_static_bytes(0);
    let (rest, m) = SpawnStatic::parse(&bytes).unwrap();
    assert_eq!(m.has_render_mode, 0);
    assert_eq!(m.render_color, None);
    assert_eq!(rest, &bytes[17..]);
    let mut expected = vec![20u8];
    expected.extend_from_slice(&bytes[..17]);
    assert_eq!(SpawnStatic::write(m), expected);
}

#[test]
fn spawn_static_needs_its_color_when_asked() {
    let bytes = spawn_static_bytes(1);
    assert!(matches!(SpawnStatic::parse(&bytes[..18]), Err(ParseError::Eof)));
    assert!(matches!(SpawnStatic::parse(&bytes[..16]), Err(ParseError::Eof)));
    let plain = spawn_static_bytes(0);
    assert!(SpawnStatic::parse(&plain[..17]).is_ok());
}

#[test]
fn spawn_static_sound_parse_and_write() {
    let mut table = DeltaDecoderTable::new();
    let bytes = [
        0x01u8, 0x00, 0xff, 0xff, 0x03, 0x00, // origin
        0x10, 0x00, // sound index
        200, 64, // volume, attenuation
        0x22, 0x00, // entity index
        100, 4, // pitch, flags
        0x55,
    ];
    let (rest, m) = SpawnStaticSound::parse(&bytes, &mut table).unwrap();
    assert_eq!(m.origin, vec![1i16, -1, 3]);
    assert_eq!(m.sound_index, 16);
    assert_eq!((m.volume, m.attenuation), (200, 64));
    assert_eq!(m.entity_index, 0x22);
    assert_eq!((m.pitch, m.flags), (100, 4));
    assert_eq!(rest, &[0x55u8][..]);

    let written = SpawnStaticSound::write(SvcSpawnStaticSound {
        origin: vec![1, -1, 3],
        sound_index: 16,
        volume: 200,
        attenuation: 64,
        entity_index: 0x22,
        pitch: 100,
        flags: 4,
    });
    let mut expected = vec![29u8];
    expected.extend_from_slice(&bytes[..14]);
    assert_eq!(written, expected);
    assert!(matches!(SpawnStaticSound::parse(&bytes[..13], &mut table), Err(ParseError::Eof)));
}

#[test]
fn update_user_info_parse_and_write() {
    let mut bytes = vec![7u8, 0x01, 0x02, 0x03, 0x04];
    bytes.extend_from_slice(b"\\name\\x\0");
    bytes.extend_from_slice(&[0xabu8; 16]);
    bytes.push(0x99);
    let (rest, m) = UpdateUserInfo::parse(&bytes).unwrap();
    assert_eq!(m.index, 7);
    assert_eq!(m.id, 0x0403_0201);
    assert_eq!(m.user_info, b"\\name\\x\0");
    assert_eq!(m.cd_key_hash, &[0xabu8; 16][..]);
    assert_eq!(rest, &[0x99u8][..]);

    let mut expected = vec![13u8];
    expected.extend_from_slice(&bytes[..bytes.len() - 1]);
    let m = SvcUpdateUserInfo { index: 7, id: 0x0403_0201, user_info: b"\\name\\x\0", cd_key_hash: &[0xab; 16] };
    assert_eq!(UpdateUserInfo::write(m), expected);
}

#[test]
fn update_user_info_errors() {
    assert!(matches!(UpdateUserInfo::parse(&[1u8, 2, 3]), Err(ParseError::Eof)));
    assert!(matches!(UpdateUserInfo::parse(&[1u8, 2, 3, 4, 5, b'a', b'b']), Err(ParseError::MissingNul)));
    let mut short_hash = vec![1u8, 2, 3, 4, 5, b'a', 0];
    short_hash.extend_from_slice(&[0u8; 15]);
    assert!(matches!(UpdateUserInfo::parse(&short_hash), Err(ParseError::Eof)));
}

#[test]
fn voice_data_reads_as_many_bytes_as_its_first_byte_says() {
    let mut table = DeltaDecoderTable::new();
    let bytes = [2u8, 0x05, 0x00, 0xaa, 0xbb, 0xcc];
    let (rest, m) = VoiceData::parse(&bytes, &mut table).unwrap();
    assert_eq!(m.player_index, 2);
    assert_eq!(m.size, 5);
    assert_eq!(m.data, &[0xaau8, 0xbb][..]);
    assert_eq!(rest, &[0xccu8][..]);
    let w = VoiceData::write(SvcVoiceData { player_index: 2, size: 5, data: &[0xaa, 0xbb] });
    assert_eq!(w, vec![53u8, 2, 5, 0, 0xaa, 0xbb]);
    assert!(matches!(VoiceData::parse(&[3u8, 0, 0, 1, 2], &mut table), Err(ParseError::Eof)));
    assert!(matches!(VoiceData::parse(&[0u8, 0], &mut table), Err(ParseError::Eof)));
}

#[test]
fn voice_init_parse_and_write() {
    let mut table = DeltaDecoderTable::new();
    let bytes = b"voice_speex\0\x05!";
    let (rest, m) = VoiceInit::parse(bytes, &mut table).unwrap();
    assert_eq!(m.codec_name, b"voice_speex\0");
    assert_eq!(m.quality, 5);
    assert_eq!(rest, b"!");
    let w = VoiceInit::write(SvcVoiceInit { codec_name: b"ab\0", quality: -1 });
    assert_eq!(w, vec![52u8, b'a', b'b', 0, 0xff]);
    assert!(matches!(VoiceInit::parse(b"speex", &mut table), Err(ParseError::MissingNul)));
    assert!(matches!(VoiceInit::parse(b"speex\0", &mut table), Err(ParseError::Eof)));
}

#[test]
fn user_message_of_a_fixed_size() {
    let mut registry: HashMap<u8, SvcNewUserMsg> = HashMap::new();
    registry.insert(70, SvcNewUserMsg { index: 70, size: 2, name: b"Health\0" });
    let bytes = [10u8, 20, 30];
    let (rest, m) = UserMessage::parse(&bytes, 70, &mut registry).unwrap();
    assert_eq!(m.id, 70);
    assert_eq!(m.name, b"Health\0");
    assert_eq!(m.data, &[10u8, 20][..]);
    assert_eq!(rest, &[30u8][..]);
    assert_eq!(registry.len(), 1);
    assert!(matches!(UserMessage::parse(&bytes[..1], 70, &mut registry), Err(ParseError::Eof)));
}

#[test]
fn user_message_of_a_variable_size() {
    let mut registry: HashMap<u8, SvcNewUserMsg> = HashMap::new();
    registry.insert(80, SvcNewUserMsg { index: 80, size: -1, name: b"SayText\0" });
    let bytes = [2u8, b'h', b'i', b'!'];
    let (rest, m) = UserMessage::parse(&bytes, 80, &mut registry).unwrap();
    assert_eq!(m.data, b"hi");
    assert_eq!(rest, b"!");
    assert!(matches!(UserMessage::parse(&[5u8, 1], 80, &mut registry), Err(ParseError::Eof)));
}

#[test]
fn user_message_not_registered_takes_one_byte() {
    let mut registry: HashMap<u8, SvcNewUserMsg> = HashMap::new();
    let bytes = [9u8, 8];
    let (rest, m) = UserMessage::parse(&bytes, 99, &mut registry).unwrap();
    assert_eq!(m.id, 99);
    assert!(m.name.is_empty());
    assert_eq!(m.data, &[9u8][..]);
    assert_eq!(rest, &[8u8][..]);
    assert!(matches!(UserMessage::parse(&[], 99, &mut registry), Err(ParseError::Eof)));
}

#[test]
fn user_message_write_is_a_stand_in() {
    let m = NetMsgUserMessage { id: 70, name: b"Health\0", data: &[1, 2, 3] };
    assert_eq!(UserMessage::write(m), vec![69u8]);
}

fn beam_points_bytes() -> Vec<u8> {
    let mut b = vec![0u8];
    b.extend_from_slice(&[1, 0, 2, 0, 3, 0]); // start
    b.extend_from_slice(&[0xff, 0xff, 5, 0, 6, 0]); // end
    b.extend_from_slice(&[7, 0]); // sprite
    b.extend_from_slice(&[1, 2, 3, 4, 5]); // frame, rate, life, width, noise
    b.extend_from_slice(&[10, 20, 30, 40]); // color
    b.push(99); // speed
    b
}

#[test]
fn temp_entity_beam_points() {
    let mut bytes = beam_points_bytes();
    bytes.push(0x77);
    let (rest, m) = TempEntity::parse(&bytes).unwrap();
    assert_eq!(m.entity_type, 0);
    assert_eq!(rest, &[0x77u8][..]);
    match &m.entity {
        TempEntityEntity::TeBeamPoints(b) => {
            assert_eq!(b.start_position, vec![1i16, 2, 3]);
            assert_eq!(b.end_position, vec![-1i16, 5, 6]);
            assert_eq!(b.sprite_index, 7);
            assert_eq!((b.start_frame, b.frame_rate, b.life, b.width, b.noise), (1, 2, 3, 4, 5));
            assert_eq!(b.color, &[10u8, 20, 30, 40][..]);
            assert_eq!(b.speed, 99);
        }
        _ => panic!("wrong kind of temp entity"),
    }
    let mut expected = vec![23u8];
    expected.extend_from_slice(&bytes[..25]);
    assert_eq!(TempEntity::write(m), expected);
    assert!(matches!(TempEntity::parse(&bytes[..24]), Err(ParseError::Eof)));
}

#[test]
fn temp_entity_beam_points_written_from_scratch() {
    let color = [10u8, 20, 30, 40];
    let m = SvcTempEntity {
        entity_type: 0,
        entity: TempEntityEntity::TeBeamPoints(TeBeamPoints {
            start_position: vec![1, 2, 3],
            end_position: vec![-1, 5, 6],
            sprite_index: 7,
            start_frame: 1,
            frame_rate: 2,
            life: 3,
            width: 4,
            noise: 5,
            color: &color,
            speed: 99,
        }),
    };
    let mut expected = vec![23u8];
    expected.extend_from_slice(&beam_points_bytes());
    assert_eq!(TempEntity::write(m), expected);
}

#[test]
fn temp_entity_bsp_decal_with_and_without_tail() {
    let mut with = vec![13u8, 1, 2, 3, 4, 5, 6, 7, 8, 0x05, 0x00, 0xc1, 0xc2, 0xdd];
    let (rest, m) = TempEntity::parse(&with).unwrap();
    match &m.entity {
        TempEntityEntity::TeBspDecal(d) => {
            assert_eq!(d.unknown1, &[1u8, 2, 3, 4, 5, 6, 7, 8][..]);
            assert_eq!(d.entity_index, 5);
            assert_eq!(d.unknown2, Some(&[0xc1u8, 0xc2][..]));
        }
        _ => panic!("wrong kind of temp entity"),
    }
    assert_eq!(rest, &[0xddu8][..]);

    with[9] = 0;
    let (rest, m) = TempEntity::parse(&with).unwrap();
    match &m.entity {
        TempEntityEntity::TeBspDecal(d) => {
            assert_eq!(d.entity_index, 0);
            assert_eq!(d.unknown2, None);
        }
        _ => panic!("wrong kind of temp entity"),
    }
    assert_eq!(rest, &[0xc1u8, 0xc2, 0xdd][..]);

    let unknown1 = [1u8, 2, 3, 4, 5, 6, 7, 8];
    let tail = [0xc1u8, 0xc2];
    let m = SvcTempEntity {
        entity_type: 13,
        entity: TempEntityEntity::TeBspDecal(TeBspDecal { unknown1: &unknown1, entity_index: 5, unknown2: Some(&tail) }),
    };
    assert_eq!(TempEntity::write(m), vec![23u8, 13, 1, 2, 3, 4, 5, 6, 7, 8, 5, 0, 0xc1, 0xc2]);
    assert!(matches!(TempEntity::parse(&[13u8, 1, 2, 3, 4, 5, 6, 7, 8, 5, 0, 1]), Err(ParseError::Eof)));
}

fn text_message_bytes(effect: u8) -> Vec<u8> {
    let mut b = vec![29u8];
    b.push(1); // channel
    b.extend_from_slice(&[0x10, 0x00]); // x
    b.extend_from_slice(&[0x20, 0x00]); // y
    b.push(effect);
    b.extend_from_slice(&[1, 2, 3, 4]); // text color
    b.extend_from_slice(&[5, 6, 7, 8]); // effect color
    b.extend_from_slice(&[0x01, 0x00]); // fade in
    b.extend_from_slice(&[0x02, 0x00]); // fade out
    b.extend_from_slice(&[0x03, 0x00]); // hold
    if effect != 0 {
        b.extend_from_slice(&[0x04, 0x00]); // effect time
    }
    b.extend_from_slice(b"hello\0");
    b
}

#[test]
fn temp_entity_text_message() {
    let bytes = text_message_bytes(2);
    let (rest, m) = TempEntity::parse(&bytes).unwrap();
    assert!(rest.is_empty());
    match &m.entity {
        TempEntityEntity::TeTextMessage(t) => {
            assert_eq!(t.channel, 1);
            assert_eq!((t.x, t.y), (0x10, 0x20));
            assert_eq!(t.effect, 2);
            assert_eq!(t.text_color, &[1u8, 2, 3, 4][..]);
            assert_eq!(t.effect_color, &[5u8, 6, 7, 8][..]);
            assert_eq!((t.fade_in_time, t.fade_out_time, t.hold_time), (1, 2, 3));
            assert_eq!(t.effect_time, Some(4));
            assert_eq!(t.message, b"hello\0");
        }
        _ => panic!("wrong kind of temp entity"),
    }
    let mut expected = vec![23u8];
    expected.extend_from_slice(&bytes);
    assert_eq!(TempEntity::write(m), expected);

    let plain = text_message_bytes(0);
    let (_, m) = TempEntity::parse(&plain).unwrap();
    match &m.entity {
        TempEntityEntity::TeTextMessage(t) => assert_eq!(t.effect_time, None),
        _ => panic!("wrong kind of temp entity"),
    }
}

#[test]
fn temp_entity_text_message_errors() {
    let bytes = text_message_bytes(0);
    assert!(matches!(TempEntity::parse(&bytes[..bytes.len() - 1]), Err(ParseError::MissingNul)));
    assert!(matches!(TempEntity::parse(&bytes[..10]), Err(ParseError::Eof)));
}

#[test]
fn temp_entity_text_message_written_from_scratch() {
    let text_color = [1u8, 2, 3, 4];
    let effect_color = [5u8, 6, 7, 8];
    let m = SvcTempEntity {
        entity_type: 29,
        entity: TempEntityEntity::TeTextMessage(TeTextMessage {
            channel: 1,
            x: 0x10,
            y: 0x20,
            effect: 2,
            text_color: &text_color,
            effect_color: &effect_color,
            fade_in_time: 1,
            fade_out_time: 2,
            hold_time: 3,
            effect_time: Some(4),
            message: b"hello\0",
        }),
    };
    let mut expected = vec![23u8];
    expected.extend_from_slice(&text_message_bytes(2));
    assert_eq!(TempEntity::write(m), expected);
}

#[test]
fn temp_entity_of_fixed_length_is_kept_raw() {
    // TE_EXPLOSION takes eleven bytes.
    let bytes = [3u8, 1, 2, 3, 4, 5, 6, 7, 8, 9, 10, 11, 12];
    let (rest, m) = TempEntity::parse(&bytes).unwrap();
    assert_eq!(m.entity_type, 3);
    match &m.entity {
        TempEntityEntity::TeExplosion(d) => assert_eq!(*d, &bytes[1..12]),
        _ => panic!("wrong kind of temp entity"),
    }
    assert_eq!(rest, &[12u8][..]);
    let mut expected = vec![23u8];
    expected.extend_from_slice(&bytes[..12]);
    assert_eq!(TempEntity::write(m), expected);
    assert!(matches!(TempEntity::parse(&bytes[..11]), Err(ParseError::Eof)));
    assert!(matches!(TempEntity::parse(&[]), Err(ParseError::Eof)));

    // TE_KILLPLAYERATTACHMENTS takes one byte.
    let (rest, m) = TempEntity::parse(&[125u8, 4]).unwrap();
    assert!(matches!(m.entity, TempEntityEntity::TeKillPlayerAttachment(d) if d == &[4u8][..]));
    assert!(rest.is_empty());
}

#[test]
fn written_messages_read_back() {
    let mut table = DeltaDecoderTable::new();

    let v = SvcVersion { protocol_version: 0xdead_beef };
    let w = Version::write(v);
    assert_eq!(Version::parse(&w[1..], &mut table).unwrap().1.protocol_version, 0xdead_beef);

    let s = SvcSpawnStaticSound {
        origin: vec![-5, 6, -7],
        sound_index: 300,
        volume: 1,
        attenuation: 2,
        entity_index: 400,
        pitch: 3,
        flags: 4,
    };
    let w = SpawnStaticSound::write(s);
    let (rest, back) = SpawnStaticSound::parse(&w[1..], &mut table).unwrap();
    assert!(rest.is_empty());
    assert_eq!(back.origin, vec![-5i16, 6, -7]);
    assert_eq!((back.sound_index, back.entity_index), (300, 400));
    assert_eq!((back.volume, back.attenuation, back.pitch, back.flags), (1, 2, 3, 4));

    let i = SvcVoiceInit { codec_name: b"celt\0", quality: 9 };
    let w = VoiceInit::write(i);
    let (rest, back) = VoiceInit::parse(&w[1..], &mut table).unwrap();
    assert!(rest.is_empty());
    assert_eq!((back.codec_name, back.quality), (&b"celt\0"[..], 9));

    let color = vec![7u8, 8, 9];
    let st = SvcSpawnStatic {
        model_index: -3,
        sequence: 1,
        frame: 2,
        color_map: 3,
        skin: 4,
        origin_x: 5,
        rotation_x: 6,
        origin_y: 7,
        rotation_y: 8,
        origin_z: 9,
        rotation_z: 10,
        has_render_mode: 2,
        render_color: Some(color.clone()),
    };
    let w = SpawnStatic::write(st);
    let (rest, back) = SpawnStatic::parse(&w[1..]).unwrap();
    assert!(rest.is_empty());
    assert_eq!(back.model_index, -3);
    assert_eq!(back.has_render_mode, 2);
    assert_eq!(back.render_color, Some(color));
}
