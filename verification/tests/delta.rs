use std::collections::HashMap;

use demosuperimpose_goldsrc::netmsg_doer::utils::{
    bitslice_to_u8_vec, delta_description_decoder, delta_field_indices, delta_field_kind_of,
    find_decoder, get_initial_delta, read_delta_field_raw, read_delta_mask, write_delta_bit_mask,
    write_delta_number_raw, write_delta_string_raw, BitReader, DeltaFieldKind,
};
use demosuperimpose_goldsrc::types::{Delta, DeltaDecoderS, DeltaType, EntityS};
use demosuperimpose_goldsrc::utils::{append_spawnbaseline, nbit_num};
use demosuperimpose_goldsrc::netmsg_doer::utils::BitSliceCast;
use demosuperimpose_goldsrc::writer::BitWriter;

fn field(name: &[u8], flags: u32) -> DeltaDecoderS {
    DeltaDecoderS { name: name.to_vec(), bits: 8, divisor: 1.0f32.to_bits(), flags, should_write: false }
}

#[test]
fn initial_delta_decoder_describes_delta_descriptions() {
    let d = delta_description_decoder();
    let names: Vec<&[u8]> = d.iter().map(|f| &f.name[..]).collect();
    assert_eq!(
        names,
        vec![&b"flags"[..], b"name", b"offset", b"size", b"bits", b"divisor", b"preMultiplier"]
    );
    let bits: Vec<u32> = d.iter().map(|f| f.bits).collect();
    assert_eq!(bits, vec![32, 8, 16, 8, 8, 32, 32]);
    let flags: Vec<u32> = d.iter().map(|f| f.flags).collect();
    assert_eq!(flags, vec![8, 0x80, 8, 8, 8, 4, 4]);
    assert_eq!(d[0].divisor, 1.0f32.to_bits());
    assert_eq!(d[5].divisor, 4000.0f32.to_bits());
    assert_eq!(d[6].divisor, 4000.0f32.to_bits());
    assert!(d.iter().all(|f| !f.should_write));
}

#[test]
fn initial_delta_table_holds_one_decoder() {
    let table = get_initial_delta();
    assert_eq!(table.len(), 1);
    let d = table.get("delta_description_t\0").unwrap();
    assert_eq!(d.len(), 7);
    assert_eq!(d[1].name, b"name".to_vec());
    assert_eq!(d[1].flags, DeltaType::String.bits());
}

#[test]
fn find_decoder_looks_at_the_first_field_only() {
    let d = vec![field(b"origin", 4), field(b"angles", 4)];
    assert_eq!(find_decoder(b"origin", &d).unwrap().name, b"origin".to_vec());
    assert!(find_decoder(b"angles", &d).is_none());
    assert!(find_decoder(b"origi", &d).is_none());
    assert!(find_decoder(b"origin", &vec![]).is_none());
}

fn mask_bytes(decoder: &Vec<DeltaDecoderS>) -> Vec<u8> {
    let mut bw = BitWriter::new();
    write_delta_bit_mask(decoder, &mut bw);
    bw.get_u8_vec()
}

#[test]
fn delta_bit_mask_of_a_short_description() {
    // Fields 0 and 2 are sent: one mask byte, 0b101.
    let d = vec![field(b"a", 8), field(b"b", 0), field(b"c", 1)];
    let mut bw = BitWriter::new();
    write_delta_bit_mask(&d, &mut bw);
    assert_eq!(bw.get_offset(), 3 + 8);
    let bytes = bw.get_u8_vec();
    // Three bits of the count (1), then the mask byte from bit 3.
    assert_eq!(bytes[0] & 0b111, 1);
    let mask = (bytes[0] >> 3) | (bytes[1] << 5);
    assert_eq!(mask, 0b101);
}

#[test]
fn delta_bit_mask_counts_bytes_up_to_the_last_flagged_field() {
    let mut d: Vec<DeltaDecoderS> = (0..40).map(|_| field(b"x", 0)).collect();
    d[1].flags = 2;
    d[33].flags = 8;
    let mut bw = BitWriter::new();
    write_delta_bit_mask(&d, &mut bw);
    // Field 33 is in the fifth byte of the mask.
    assert_eq!(bw.get_offset(), 3 + 5 * 8);
    let bytes = bw.get_u8_vec();
    let mut r = BitReader::new(&bytes);
    assert_eq!(r.read_n_bit(3).to_u8(), 5);
    let mask: Vec<u8> = (0..5).map(|_| r.read_n_bit(8).to_u8()).collect();
    assert_eq!(mask, vec![0b10, 0, 0, 0, 0b10]);
}

#[test]
fn delta_bit_mask_of_an_empty_description() {
    let d: Vec<DeltaDecoderS> = vec![];
    let mut bw = BitWriter::new();
    write_delta_bit_mask(&d, &mut bw);
    assert_eq!(bw.get_offset(), 3);
    let bytes = mask_bytes(&d);
    assert_eq!(bytes.len(), 1);
    assert_eq!(bytes[0] & 0b111, 0);
}

#[test]
fn append_spawnbaseline_fills_the_first_gap() {
    let entity = |n: u32| EntityS { index: nbit_num(n, 11), type_: nbit_num(1, 2), delta: HashMap::new() };
    let mut arr = vec![entity(0), entity(1), entity(3)];
    let mut delta: Delta = HashMap::new();
    delta.insert(String::from("origin[0]"), vec![1, 2, 3, 4]);
    append_spawnbaseline(&mut arr, delta.clone());
    let indices: Vec<u16> = arr.iter().map(|e| e.index.to_u16()).collect();
    assert_eq!(indices, vec![0, 1, 2, 3]);
    assert_eq!(arr[2].type_.to_u8(), 1);
    assert_eq!(arr[2].delta, delta);
    assert_eq!(bitslice_to_u8_vec(&arr[2].index).len(), 2);

    let mut packed = vec![entity(0), entity(1)];
    append_spawnbaseline(&mut packed, HashMap::new());
    let indices: Vec<u16> = packed.iter().map(|e| e.index.to_u16()).collect();
    assert_eq!(indices, vec![0, 1, 2]);

    let mut empty: Vec<EntityS> = vec![];
    append_spawnbaseline(&mut empty, HashMap::new());
    assert_eq!(empty[0].index.to_u16(), 0);
}

#[test]
fn read_delta_mask_reads_the_count_then_the_bytes() {
    // Count 2 in three bits, then the bytes 0xa5 and 0x01.
    let mut bw = BitWriter::new();
    bw.append_u32_range(2, 3);
    bw.append_u8(0xa5);
    bw.append_u8(0x01);
    bw.append_bit(true);
    let bytes = bw.get_u8_vec();
    let mut r = BitReader::new(&bytes);
    assert_eq!(read_delta_mask(&mut r), vec![0xa5u8, 0x01]);
    assert_eq!(r.get_offset(), 19);
    assert_eq!(r.remaining(), 5);
    assert!(r.read_1_bit());
}

#[test]
fn delta_field_indices_stop_at_the_field_count() {
    assert_eq!(delta_field_indices(&vec![0b1010_0101u8, 0b1000_0001], 16), vec![0usize, 2, 5, 7, 8, 15]);
    assert_eq!(delta_field_indices(&vec![0b1010_0101u8, 0b1000_0001], 6), vec![0usize, 2, 5]);
    assert_eq!(delta_field_indices(&vec![0xffu8], 100), (0..8).collect::<Vec<usize>>());
    assert!(delta_field_indices(&vec![], 10).is_empty());
}

#[test]
fn written_mask_marks_the_flagged_fields() {
    let mut d: Vec<DeltaDecoderS> = (0..20).map(|_| field(b"x", 0)).collect();
    for k in [0usize, 3, 9, 17] {
        d[k].flags = 4;
    }
    let mut bw = BitWriter::new();
    write_delta_bit_mask(&d, &mut bw);
    let bytes = bw.get_u8_vec();
    let mut r = BitReader::new(&bytes);
    let mask = read_delta_mask(&mut r);
    assert_eq!(mask.len(), 3);
    assert_eq!(delta_field_indices(&mask, d.len()), vec![0usize, 3, 9, 17]);
}

#[test]
fn delta_bit_mask_of_eight_bytes_has_a_count_of_zero() {
    // The count has three bits: a last flagged field at 60 needs eight mask bytes, and eight is
    // written as zero.
    let mut d: Vec<DeltaDecoderS> = (0..61).map(|_| field(b"x", 0)).collect();
    d[60].flags = 1;
    let mut bw = BitWriter::new();
    write_delta_bit_mask(&d, &mut bw);
    assert_eq!(bw.get_offset(), 3 + 64);
    let bytes = bw.get_u8_vec();
    let mut r = BitReader::new(&bytes);
    assert_eq!(r.read_n_bit(3).to_u8(), 0);
    let mask: Vec<u8> = (0..8).map(|_| r.read_n_bit(8).to_u8()).collect();
    assert_eq!(mask, vec![0u8, 0, 0, 0, 0, 0, 0, 0b1_0000]);
}

#[test]
fn delta_field_kind_takes_the_first_flag() {
    assert_eq!(delta_field_kind_of(0x8000_0009), Some(DeltaFieldKind::Byte));
    assert_eq!(delta_field_kind_of(0x0000_000a), Some(DeltaFieldKind::Short));
    assert_eq!(delta_field_kind_of(0x0000_0088), Some(DeltaFieldKind::Integer));
    assert_eq!(delta_field_kind_of(0x0000_0040), Some(DeltaFieldKind::Float));
    assert_eq!(delta_field_kind_of(0x0000_0090), Some(DeltaFieldKind::Angle));
    assert_eq!(delta_field_kind_of(0x0000_0080), Some(DeltaFieldKind::String));
    assert_eq!(delta_field_kind_of(0x8000_0000), None);
}

#[test]
fn signed_number_field_reads_back() {
    let mut d = field(b"origin[0]", 0x8000_0008);
    d.bits = 8;
    let mut bw = BitWriter::new();
    bw.append_bit(true);
    write_delta_number_raw(&d, true, 5, &mut bw);
    // One sign bit, then seven value bits.
    assert_eq!(bw.get_offset(), 1 + 8);
    let bytes = bw.get_u8_vec();
    let mut r = BitReader::new(&bytes);
    assert!(r.read_1_bit());
    let raw = read_delta_field_raw(&d, &mut r);
    assert_eq!(raw.sign, Some(true));
    assert_eq!(raw.bits.to_u8(), 5);
    assert_eq!(r.get_offset(), 9);
}

#[test]
fn unsigned_and_angle_fields_have_no_sign_bit() {
    let mut d = field(b"angles[1]", 0x8000_0010);
    d.bits = 12;
    let mut bw = BitWriter::new();
    write_delta_number_raw(&d, true, 0xfff5, &mut bw);
    assert_eq!(bw.get_offset(), 12);
    let bytes = bw.get_u8_vec();
    let mut r = BitReader::new(&bytes);
    let raw = read_delta_field_raw(&d, &mut r);
    assert_eq!(raw.sign, None);
    assert_eq!(raw.bits.to_u32(), 0xff5);
}

#[test]
fn string_field_reads_back() {
    let d = field(b"model", 0x80);
    let mut bw = BitWriter::new();
    bw.append_u32_range(0b101, 3);
    write_delta_string_raw(b"ak\0", &mut bw);
    bw.append_u8(9);
    let bytes = bw.get_u8_vec();
    let mut r = BitReader::new(&bytes);
    r.read_n_bit(3);
    let raw = read_delta_field_raw(&d, &mut r);
    assert_eq!(raw.sign, None);
    assert_eq!(bitslice_to_u8_vec(&raw.bits), b"ak\0".to_vec());
    assert_eq!(r.get_offset(), 3 + 24);
}
