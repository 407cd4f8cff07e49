use demosuperimpose_goldsrc::netmsg_doer::utils::{
    bitslice_to_u8_vec, check_flag, null_string, take_1_bit, take_n_bit, vec_bool_to_u32,
    vec_bool_to_u8, BitReader, BitSliceCast,
};
use demosuperimpose_goldsrc::netmsg_doer::ParseError;
use demosuperimpose_goldsrc::types::DeltaType;
use demosuperimpose_goldsrc::utils::{nbit_num, nbit_str};
use demosuperimpose_goldsrc::writer::BitWriter;

#[test]
fn null_string_keeps_the_terminator() {
    let (rest, s) = null_string(b"abc\0def").unwrap();
    assert_eq!(s, b"abc\0");
    assert_eq!(rest, b"def");
    let (rest, s) = null_string(b"\0").unwrap();
    assert_eq!(s, b"\0");
    assert!(rest.is_empty());
    assert_eq!(null_string(b"abc"), Err(ParseError::MissingNul));
    assert_eq!(null_string(b""), Err(ParseError::MissingNul));
}

#[test]
fn take_1_bit_reads_from_the_most_significant_bit() {
    let bytes = [0b1000_0001u8, 0xff];
    let ((rest, off), b) = take_1_bit((&bytes, 0)).unwrap();
    assert!(b);
    assert_eq!((rest.len(), off), (2, 1));
    let ((rest, off), b) = take_1_bit((&bytes, 1)).unwrap();
    assert!(!b);
    assert_eq!((rest.len(), off), (2, 2));
    let ((rest, off), b) = take_1_bit((&bytes, 7)).unwrap();
    assert!(b);
    assert_eq!((rest, off), (&bytes[1..], 0));
    assert_eq!(take_1_bit((&[], 0)), Err(ParseError::Eof));
}

#[test]
fn take_n_bit_crosses_bytes() {
    let bytes = [0b1010_0000u8, 0b0110_0000];
    let ((rest, off), bits) = take_n_bit(11, (&bytes, 0)).unwrap();
    assert_eq!(bits, vec![true, false, true, false, false, false, false, false, false, true, true]);
    assert_eq!((rest, off), (&bytes[1..], 3));
    let ((rest, off), bits) = take_n_bit(0, (&bytes, 5)).unwrap();
    assert!(bits.is_empty());
    assert_eq!((rest.len(), off), (2, 5));
    assert_eq!(take_n_bit(12, (&bytes, 5)), Err(ParseError::Eof));
}

#[test]
fn vec_bool_numbers_start_with_the_least_significant_bit() {
    assert_eq!(vec_bool_to_u8(vec![true, false, true]), 5);
    assert_eq!(vec_bool_to_u8(vec![]), 0);
    assert_eq!(vec_bool_to_u8(vec![true; 8]), 255);
    assert_eq!(vec_bool_to_u32(vec![false, true]), 2);
    let mut top = vec![false; 31];
    top.push(true);
    assert_eq!(vec_bool_to_u32(top), 0x8000_0000);
}

#[test]
fn check_flag_tests_one_type_bit() {
    assert!(check_flag(0x8000_0008, DeltaType::Signed));
    assert!(check_flag(0x8000_0008, DeltaType::Integer));
    assert!(!check_flag(0x8000_0008, DeltaType::Float));
    assert!(check_flag(0x80, DeltaType::String));
    assert!(!check_flag(0, DeltaType::Byte));
    assert_eq!(DeltaType::TimeWindowBig.bits(), 0x40);
}

#[test]
fn nbit_num_keeps_the_low_bits() {
    let bits = nbit_num(0b1011_0110, 5);
    assert_eq!(bits.to_u8(), 0b1_0110);
    assert_eq!(nbit_num(0xffff_ffff, 32).to_u32(), 0xffff_ffff);
    assert_eq!(nbit_num(1, 2).to_u8(), 1);
    assert_eq!(bitslice_to_u8_vec(&nbit_num(0x0102, 16)), vec![2u8, 1]);
}

#[test]
fn nbit_str_holds_the_bytes() {
    let bits = nbit_str("hi");
    assert_eq!(bitslice_to_u8_vec(&bits), b"hi".to_vec());
    assert!(bitslice_to_u8_vec(&nbit_str("")).is_empty());
}

#[test]
fn casts_read_the_low_bits_first_and_extend_the_sign() {
    assert_eq!(nbit_num(0b111, 3).to_i8(), -1);
    assert_eq!(nbit_num(0b011, 3).to_i8(), 3);
    assert_eq!(nbit_num(0xfffe, 16).to_i16(), -2);
    assert_eq!(nbit_num(0x1234, 16).to_u16(), 0x1234);
    assert_eq!(nbit_num(0x0800, 12).to_i32(), -2048);
    assert_eq!(nbit_num(0x0800, 12).to_u32(), 0x0800);
}

#[test]
fn bitslice_to_u8_vec_pads_the_last_chunk() {
    assert_eq!(bitslice_to_u8_vec(&nbit_num(0b1_0000_0001, 9)), vec![1u8, 1]);
    assert_eq!(bitslice_to_u8_vec(&nbit_num(0x3, 2)), vec![3u8]);
}

#[test]
fn bit_writer_appends_and_inserts() {
    let mut w = BitWriter::new();
    w.append_bit(true);
    w.append_u8(0x81);
    w.append_u32_range(0b101, 3);
    assert_eq!(w.get_offset(), 12);
    // bits: 1, then 1000_0001 from its low end, then 1,0,1
    assert_eq!(w.get_u8_vec()[0], 0b0000_0011);
    w.insert_bit(false, 0);
    assert_eq!(w.get_offset(), 13);
    assert_eq!(w.get_u8_vec()[0], 0b0000_0110);
    w.insert_u8(0xff, 1);
    assert_eq!(w.get_offset(), 21);
    assert_eq!(w.get_u8_vec()[0], 0b1111_1110);
    w.insert_u32_range(0, 2, 0);
    w.append_vec(nbit_num(1, 1));
    w.append_slice(&nbit_num(0, 2));
    w.insert_vec(nbit_num(0, 1), 0);
    w.insert_slice(&nbit_num(0, 1), 0);
    assert_eq!(w.get_offset(), 28);
    assert_eq!(w.get_u8_vec().len(), 4);
}

#[test]
fn bit_writer_bytes_read_back() {
    let mut w = BitWriter::new();
    w.append_u32_range(0x2a5, 10);
    w.append_u8(b'x');
    let bytes = w.get_u8_vec();
    assert_eq!(bytes.len(), 3);
    let mut r = BitReader::new(&bytes);
    assert_eq!(r.read_n_bit(10).to_u32(), 0x2a5);
    assert_eq!(r.read_n_bit(8).to_u8(), b'x');
    assert_eq!(r.get_offset(), 18);
    assert_eq!(r.get_consumed_bytes(), 3);
}

#[test]
fn bit_reader_reads_bits_and_strings() {
    let bytes = [0b0000_0101u8, b'o', b'k', 0, 0x7f];
    let mut r = BitReader::new(&bytes);
    assert!(r.read_1_bit());
    assert!(!r.read_1_bit());
    assert_eq!(r.peek_n_bits(2).to_u8(), 1);
    assert_eq!(r.read_n_bit(6).to_u8(), 1);
    assert_eq!(r.get_consumed_bytes(), 1);
    let s = r.read_string();
    assert_eq!(bitslice_to_u8_vec(&s), vec![b'o', b'k', 0]);
    assert_eq!(r.get_offset(), 32);
    assert_eq!(r.read_n_bit(8).to_u8(), 0x7f);
}

#[test]
fn bit_reader_strings_end_on_a_whole_byte() {
    // Reading from bit 4, the first zero byte at a whole number of bytes from there.
    let bytes = [0x10u8, 0x00, 0x30, 0x00];
    let mut r = BitReader::new(&bytes);
    r.read_n_bit(4);
    let s = r.read_string();
    assert_eq!(bitslice_to_u8_vec(&s), vec![0x01u8, 0x00]);
    assert_eq!(r.get_offset(), 20);
    assert_eq!(r.get_consumed_bytes(), 3);
}

#[test]
fn appended_range_reads_back_as_the_low_bits() {
    let mut w = BitWriter::new();
    w.append_u32_range(0xffff_ff05, 4);
    w.append_u32_range(0x8000_0001, 32);
    let bytes = w.get_u8_vec();
    let mut r = BitReader::new(&bytes);
    assert_eq!(r.read_n_bit(4).to_u32(), 5);
    assert_eq!(r.read_n_bit(32).to_u32(), 0x8000_0001);
    assert_eq!(r.remaining(), 4);
}

#[test]
fn cloned_bits_are_the_same_bits() {
    let b = nbit_num(0b101, 3);
    let c = b.clone();
    assert_eq!(c.to_u8(), 5);
    assert_eq!(bitslice_to_u8_vec(&c), bitslice_to_u8_vec(&b));
}
