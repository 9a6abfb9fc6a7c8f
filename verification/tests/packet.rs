use libds::bytes::Packet;
use libds::packet::{extract_string_u16_size, PacketReader, PacketWriter};
use std::collections::VecDeque;

#[test]
fn reader_reports_what_is_left() {
    let mut reader = PacketReader::from_vec(vec![1, 2, 3]);
    assert_eq!(reader.len(), 3);
    assert_eq!(reader.next_u8(), Some(1));
    assert_eq!(reader.len(), 2);
    assert_eq!(reader.into_vec(), vec![2, 3]);
}

#[test]
fn reader_of_nothing_is_empty() {
    let mut reader = PacketReader::from_vec(Vec::new());
    assert_eq!(reader.len(), 0);
    assert_eq!(reader.next_u8(), None);
    assert_eq!(reader.next_u16(), None);
    assert_eq!(reader.next_f32(), None);
    assert_eq!(reader.into_vec(), Vec::<u8>::new());
}

#[test]
fn next_u8_takes_bytes_in_order() {
    let mut reader = PacketReader::from_vec(vec![7, 0, 255]);
    assert_eq!(reader.next_u8(), Some(7));
    assert_eq!(reader.next_u8(), Some(0));
    assert_eq!(reader.next_u8(), Some(255));
    assert_eq!(reader.next_u8(), None);
    assert_eq!(reader.len(), 0);
}

#[test]
fn next_u16_is_big_endian() {
    let mut reader = PacketReader::from_vec(vec![0x01, 0x02, 0x03]);
    assert_eq!(reader.next_u16(), Some(0x0102));
    assert_eq!(reader.into_vec(), vec![0x03]);
}

#[test]
fn next_u16_on_exactly_two_bytes_leaves_nothing() {
    let mut reader = PacketReader::from_vec(vec![0xff, 0xfe]);
    assert_eq!(reader.next_u16(), Some(0xfffe));
    assert_eq!(reader.len(), 0);
}

#[test]
fn next_u16_on_a_short_buffer_takes_nothing() {
    let mut reader = PacketReader::from_vec(vec![0x2a]);
    assert_eq!(reader.next_u16(), None);
    assert_eq!(reader.len(), 1);
    assert_eq!(reader.next_u8(), Some(0x2a));
}

#[test]
fn next_f32_gives_the_bits_of_the_float() {
    let mut bytes = 1.5f32.to_be_bytes().to_vec();
    bytes.push(9);
    let mut reader = PacketReader::from_vec(bytes);
    let bits = reader.next_f32().unwrap();
    assert_eq!(bits, 0x3fc0_0000);
    assert_eq!(f32::from_bits(bits), 1.5);
    assert_eq!(reader.into_vec(), vec![9]);
}

#[test]
fn next_f32_on_a_short_buffer_takes_nothing() {
    let mut reader = PacketReader::from_vec(vec![1, 2, 3]);
    assert_eq!(reader.next_f32(), None);
    assert_eq!(reader.into_vec(), vec![1, 2, 3]);
}

#[test]
fn extract_string_takes_exactly_the_declared_length() {
    let mut reader = PacketReader::from_vec(vec![b'a', b'b', b'c', 0x10, 0x20]);
    assert_eq!(reader.extract_string(3), Some("abc".to_string()));
    assert_eq!(reader.into_vec(), vec![0x10, 0x20]);
}

#[test]
fn extract_string_on_exactly_enough_bytes() {
    let mut reader = PacketReader::from_vec(vec![b'h', b'i']);
    assert_eq!(reader.extract_string(2), Some("hi".to_string()));
    assert_eq!(reader.len(), 0);
}

#[test]
fn extract_string_on_a_short_buffer_takes_nothing() {
    let mut reader = PacketReader::from_vec(vec![b'a', b'b', b'c']);
    assert_eq!(reader.extract_string(4), None);
    assert_eq!(reader.into_vec(), vec![b'a', b'b', b'c']);
}

#[test]
fn extract_string_of_one_byte() {
    let mut reader = PacketReader::from_vec(vec![b'x']);
    assert_eq!(reader.extract_string(1), Some("x".to_string()));
    assert_eq!(reader.len(), 0);
}

#[test]
fn extract_string_of_no_bytes_is_empty() {
    let mut reader = PacketReader::from_vec(Vec::new());
    assert_eq!(reader.extract_string(0), Some(String::new()));
    let mut reader = PacketReader::from_vec(vec![1, 2]);
    assert_eq!(reader.extract_string(0), Some(String::new()));
    assert_eq!(reader.len(), 2);
}

#[test]
fn extract_string_decodes_multibyte_text() {
    let text = "h\u{e9}llo \u{2603}";
    let mut reader = PacketReader::from_vec(text.as_bytes().to_vec());
    assert_eq!(reader.extract_string(text.len()), Some(text.to_string()));
}

#[test]
fn extract_string_replaces_malformed_bytes() {
    let mut reader = PacketReader::from_vec(vec![b'a', 0xff, b'b']);
    assert_eq!(reader.extract_string(3), Some("a\u{fffd}b".to_string()));
    assert_eq!(reader.len(), 0);
}

#[test]
fn prefixed_string_is_taken_with_its_length() {
    let mut bytes = VecDeque::from(vec![0x00, 0x03, b'a', b'b', b'c', 0x09]);
    assert_eq!(extract_string_u16_size(&mut bytes), Some("abc".to_string()));
    assert_eq!(Vec::from(bytes), vec![0x09]);
}

#[test]
fn prefixed_string_of_length_zero() {
    let mut bytes = VecDeque::from(vec![0x00, 0x00]);
    assert_eq!(extract_string_u16_size(&mut bytes), Some(String::new()));
    assert!(bytes.is_empty());
}

#[test]
fn prefixed_string_without_a_whole_length_takes_nothing() {
    let mut bytes = VecDeque::from(vec![0x00]);
    assert_eq!(extract_string_u16_size(&mut bytes), None);
    assert_eq!(Vec::from(bytes), vec![0x00]);
    let mut bytes: VecDeque<u8> = VecDeque::new();
    assert_eq!(extract_string_u16_size(&mut bytes), None);
    assert!(bytes.is_empty());
}

#[test]
fn prefixed_string_that_is_not_whole_loses_only_its_length() {
    let mut bytes = VecDeque::from(vec![0x00, 0x05, b'a', b'b']);
    assert_eq!(extract_string_u16_size(&mut bytes), None);
    assert_eq!(Vec::from(bytes), vec![b'a', b'b']);
}

#[test]
fn prefixed_string_length_is_big_endian() {
    let mut raw = vec![0x01, 0x00];
    raw.extend(std::iter::repeat(b'z').take(256));
    raw.push(0x7f);
    let mut bytes = VecDeque::from(raw);
    let text = extract_string_u16_size(&mut bytes).unwrap();
    assert_eq!(text.len(), 256);
    assert!(text.bytes().all(|b| b == b'z'));
    assert_eq!(Vec::from(bytes), vec![0x7f]);
}

#[test]
fn packet_is_the_reader() {
    let mut packet = Packet::from_vec(vec![0x12, 0x34, b'o', b'k']);
    assert_eq!(packet.len(), 4);
    assert_eq!(packet.next_u8(), Some(0x12));
    assert_eq!(packet.next_u8(), Some(0x34));
    assert_eq!(packet.extract_string(2), Some("ok".to_string()));
    assert_eq!(packet.len(), 0);
}

#[test]
fn writer_starts_empty() {
    let writer = PacketWriter::new();
    assert_eq!(writer.len(), 0);
    assert_eq!(writer.into_vec(), Vec::<u8>::new());
}

#[test]
fn write_u8_appends_the_byte() {
    let mut writer = PacketWriter::new();
    writer.write_u8(0x00);
    writer.write_u8(0xab);
    assert_eq!(writer.len(), 2);
    assert_eq!(writer.into_vec(), vec![0x00, 0xab]);
}

#[test]
fn write_i8_is_twos_complement() {
    let mut writer = PacketWriter::new();
    writer.write_i8(0);
    writer.write_i8(1);
    writer.write_i8(127);
    writer.write_i8(-1);
    writer.write_i8(-128);
    assert_eq!(writer.into_vec(), vec![0x00, 0x01, 0x7f, 0xff, 0x80]);
}

#[test]
fn write_u16_is_big_endian() {
    let mut writer = PacketWriter::new();
    writer.write_u16(517);
    writer.write_u16(768);
    writer.write_u16(0xffff);
    assert_eq!(writer.into_vec(), vec![0x02, 0x05, 0x03, 0x00, 0xff, 0xff]);
}

#[test]
fn write_i16_is_big_endian_twos_complement() {
    let mut writer = PacketWriter::new();
    writer.write_i16(193);
    writer.write_i16(-132);
    writer.write_i16(-1);
    writer.write_i16(i16::MIN);
    assert_eq!(writer.into_vec(), vec![0x00, 0xc1, 0xff, 0x7c, 0xff, 0xff, 0x80, 0x00]);
}

#[test]
fn write_u32_is_big_endian() {
    let mut writer = PacketWriter::new();
    writer.write_u32(267);
    writer.write_u32(1205419366);
    assert_eq!(writer.into_vec(), vec![0x00, 0x00, 0x01, 0x0b, 0x47, 0xd9, 0x3d, 0x66]);
}

#[test]
fn write_f32_writes_the_bits_big_endian() {
    let mut writer = PacketWriter::new();
    writer.write_f32(std::f32::consts::PI.to_bits());
    writer.write_f32(1.5f32.to_bits());
    assert_eq!(writer.into_vec(), vec![0x40, 0x49, 0x0f, 0xdb, 0x3f, 0xc0, 0x00, 0x00]);
}

#[test]
fn write_string_writes_the_utf8_bytes_only() {
    let mut writer = PacketWriter::new();
    writer.write_string("abc".to_string());
    writer.write_string(String::new());
    writer.write_string("\u{e9}".to_string());
    assert_eq!(writer.into_vec(), vec![0x61, 0x62, 0x63, 0xc3, 0xa9]);
}

#[test]
fn append_packet_appends_all_of_the_other() {
    let mut first = PacketWriter::new();
    first.write_u8(1);
    let mut second = PacketWriter::new();
    second.write_u16(0x0203);
    second.write_u8(4);
    first.append_packet(second);
    first.append_packet(PacketWriter::new());
    assert_eq!(first.len(), 4);
    assert_eq!(first.into_vec(), vec![1, 2, 3, 4]);
}

#[test]
fn write_slice_and_write_vec_append_runs() {
    let mut writer = PacketWriter::new();
    writer.write_slice(&[9, 8]);
    writer.write_slice(&[]);
    writer.write_vec(vec![7, 6, 5]);
    writer.write_vec(Vec::new());
    assert_eq!(writer.into_vec(), vec![9, 8, 7, 6, 5]);
}

#[test]
fn what_is_written_is_read_back() {
    let mut writer = PacketWriter::new();
    writer.write_u16(0xbeef);
    writer.write_f32(0x7fc0_0001);
    writer.write_u8(0x11);
    writer.write_string("caf\u{e9}".to_string());
    let mut reader = PacketReader::from_vec(writer.into_vec());
    assert_eq!(reader.next_u16(), Some(0xbeef));
    assert_eq!(reader.next_f32(), Some(0x7fc0_0001));
    assert_eq!(reader.next_u8(), Some(0x11));
    assert_eq!(reader.extract_string(5), Some("caf\u{e9}".to_string()));
    assert_eq!(reader.len(), 0);
}

#[test]
fn every_u16_is_read_back() {
    for value in [0u16, 1, 0x00ff, 0x0100, 0x7fff, 0x8000, 0xfffe, 0xffff] {
        let mut writer = PacketWriter::new();
        writer.write_u16(value);
        let mut reader = PacketReader::from_vec(writer.into_vec());
        assert_eq!(reader.next_u16(), Some(value));
    }
}

#[test]
fn reader_takes_a_prefixed_string() {
    let mut reader = PacketReader::from_vec(vec![0x00, 0x02, b'o', b'k', 0x00, 0x00, 0x07]);
    assert_eq!(reader.extract_prefixed_string(), Some("ok".to_string()));
    assert_eq!(reader.len(), 3);
    assert_eq!(reader.extract_prefixed_string(), Some(String::new()));
    assert_eq!(reader.len(), 1);
    assert_eq!(reader.extract_prefixed_string(), None);
    assert_eq!(reader.into_vec(), vec![0x07]);
}

#[test]
fn reader_loses_only_the_length_of_a_prefixed_string_cut_short() {
    let mut reader = PacketReader::from_vec(vec![0x00, 0x03, b'a']);
    assert_eq!(reader.extract_prefixed_string(), None);
    assert_eq!(reader.into_vec(), vec![b'a']);
}

#[test]
fn prefixed_string_is_also_found_beside_the_packet() {
    let mut bytes = VecDeque::from(vec![0x00, 0x01, b'q', 0x02]);
    assert_eq!(libds::bytes::extract_string_u16_size(&mut bytes), Some("q".to_string()));
    assert_eq!(Vec::from(bytes), vec![0x02]);
}
