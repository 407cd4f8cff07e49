use demosuperimpose_goldsrc::demo::{
    ConsoleCommandData, Demo, Directory, DirectoryEntry, Frame, FrameData, Header, NetMsgData,
    NetMsgDataMethods, WeaponAnimData,
};
use demosuperimpose_goldsrc::demo_writer::append_vec3;
use demosuperimpose_goldsrc::writer::{ByteWriter, DemoWriter};

fn le32(x: i32) -> Vec<u8> {
    x.to_le_bytes().to_vec()
}

fn frame<'a>(data: FrameData<'a>, time: u32, number: i32) -> Frame<'a> {
    Frame { time, frame: number, data }
}

#[test]
fn byte_writer_appends_little_endian_values() {
    let mut w = ByteWriter::new();
    w.append_u8(1);
    w.append_i8(-1);
    w.append_u16(0x0302);
    w.append_i16(-2);
    w.append_u32(0x0706_0504);
    w.append_i32(-3);
    w.append_u8_slice(&[9, 9]);
    w.append_i16_slice(&[1, -1]);
    w.append_i32_array_4([1, 2, 3, 4]);
    append_vec3(&mut w, [5, 6, 7]);
    let mut expected = vec![1u8, 0xff, 2, 3, 0xfe, 0xff, 4, 5, 6, 7, 0xfd, 0xff, 0xff, 0xff, 9, 9, 1, 0, 0xff, 0xff];
    for x in [1i32, 2, 3, 4, 5, 6, 7] {
        expected.extend_from_slice(&x.to_le_bytes());
    }
    assert_eq!(w.data, expected);
    assert_eq!(w.offset, expected.len());
}

#[test]
fn demo_writer_starts_empty() {
    let w = DemoWriter::new(String::from("out.dem"));
    assert_eq!(w.filename, "out.dem");
    assert!(w.writer.data.is_empty());
}

#[test]
fn written_demo_layout() {
    let demo = Demo {
        header: Header {
            demo_protocol: 5,
            net_protocol: 48,
            map_name: b"de_dust2\0",
            game_dir: b"cstrike\0",
            map_crc: -7,
            directory_offset: 0,
        },
        directory: Directory {
            entries: vec![DirectoryEntry {
                entry_type: 1,
                description: b"LOADING\0",
                flags: 0,
                cd_track: -1,
                track_time: 0,
                frame_count: 2,
                offset: 0,
                file_length: 0,
                frames: vec![
                    frame(FrameData::DemoStart, 0x3f80_0000, 1),
                    frame(FrameData::ConsoleCommand(ConsoleCommandData { command: b"+jump\0" }), 0, 2),
                ],
            }],
        },
    };
    let mut w = DemoWriter::new(String::from("out.dem"));
    w.write_demo(demo);
    let data = w.writer.data.clone();

    let mut expected: Vec<u8> = b"HLDEMO\0\0".to_vec();
    expected.extend(le32(5));
    expected.extend(le32(48));
    expected.extend_from_slice(b"de_dust2\0");
    expected.extend_from_slice(b"cstrike\0");
    expected.extend(le32(-7));
    let head = expected.len();

    let mut body: Vec<u8> = vec![2u8];
    body.extend(0x3f80_0000u32.to_le_bytes());
    body.extend(le32(1));
    body.push(3);
    body.extend(le32(0));
    body.extend(le32(2));
    body.extend_from_slice(b"+jump\0");
    // No frame ended the section, so one is added.
    body.push(5);
    body.extend(le32(0));
    body.extend(le32(0));

    let table = head + 4 + body.len();
    expected.extend((table as u32).to_le_bytes());
    expected.extend(&body);
    expected.extend(le32(1));
    expected.extend(le32(1));
    expected.extend_from_slice(b"LOADING\0");
    expected.extend(le32(0));
    expected.extend(le32(-1));
    expected.extend(0u32.to_le_bytes());
    expected.extend(le32(2));
    expected.extend(le32((head + 4) as i32));
    expected.extend(le32(0));

    assert_eq!(data, expected);

    // The offset after the header points at the number of entries.
    let at = u32::from_le_bytes([data[head], data[head + 1], data[head + 2], data[head + 3]]) as usize;
    assert_eq!(&data[at..at + 4], &le32(1)[..]);
    // The entry's record points at its first frame.
    assert_eq!(data[head + 4], 2);
}

#[test]
fn written_demo_keeps_a_section_end_that_is_there() {
    let demo = Demo {
        header: Header {
            demo_protocol: 5,
            net_protocol: 48,
            map_name: b"",
            game_dir: b"",
            map_crc: 0,
            directory_offset: 0,
        },
        directory: Directory {
            entries: vec![
                DirectoryEntry {
                    entry_type: 0,
                    description: b"",
                    flags: 0,
                    cd_track: 0,
                    track_time: 0,
                    frame_count: 1,
                    offset: 0,
                    file_length: 0,
                    frames: vec![frame(FrameData::NextSection, 0, 0)],
                },
                DirectoryEntry {
                    entry_type: 1,
                    description: b"",
                    flags: 0,
                    cd_track: 0,
                    track_time: 0,
                    frame_count: 1,
                    offset: 0,
                    file_length: 0,
                    frames: vec![frame(FrameData::WeaponAnim(WeaponAnimData { anim: 3, body: 4 }), 0, 7)],
                },
            ],
        },
    };
    let mut w = DemoWriter::new(String::from("x.dem"));
    w.write_demo(demo);
    let data = &w.writer.data;
    let head = 8 + 4 + 4 + 4;
    // First entry: one section end frame of nine bytes and nothing added.
    let first = head + 4;
    assert_eq!(data[first], 5);
    // Second entry: the weapon animation frame, then an added section end.
    let second = first + 9;
    assert_eq!(data[second], 7);
    assert_eq!(&data[second + 9..second + 17], &[3u8, 0, 0, 0, 4, 0, 0, 0][..]);
    assert_eq!(data[second + 17], 5);
    let table = second + 17 + 9;
    let at = u32::from_le_bytes([data[head], data[head + 1], data[head + 2], data[head + 3]]) as usize;
    assert_eq!(at, table);
    assert_eq!(&data[table..table + 4], &le32(2)[..]);
    // The records hold the offsets of the two entries' frames.
    let record_offset = |k: usize| {
        let at = table + 4 + k * 28 + 20;
        i32::from_le_bytes([data[at], data[at + 1], data[at + 2], data[at + 3]]) as usize
    };
    assert_eq!(record_offset(0), first);
    assert_eq!(record_offset(1), second);
    assert_eq!(data.len(), table + 4 + 2 * 28);
}

#[test]
fn net_msg_data_new_defaults() {
    let d = NetMsgData::new(10);
    assert_eq!(d.incoming_sequence, 10);
    assert_eq!(d.incoming_acknowledged, 9);
    assert_eq!(d.incoming_reliable_acknowledged, 1);
    assert_eq!(d.incoming_reliable_sequence, 0);
    assert_eq!(d.outgoing_sequence, 10);
    assert_eq!(d.reliable_sequence, 1);
    assert_eq!(d.last_reliable_sequence, 9);
    assert!(d.msg.is_empty());
    assert_eq!(d.info.ref_params.viewheight, [0, 0, 17.0f32.to_bits()]);
    assert_eq!(d.info.ref_params.viewsize, 120.0f32.to_bits());
    assert_eq!(d.info.ref_params.health, 100);
    assert_eq!(d.info.ref_params.viewport, [0, 0, 1024, 768]);
    assert_eq!(d.info.usercmd.lightlevel, 68);
    assert_eq!(d.info.movevars.gravity, 800.0f32.to_bits());
    assert_eq!(d.info.movevars.zmax, 409600.0f32.to_bits());
    assert_eq!(d.info.movevars.sky_name, &[0u8; 32][..]);
}
