use binde::byte_order::ByteOrder;
use binde::decode::BinaryDeserialize;
use binde::fixed::FixedSeq;
use binde::record::Il2CppMethodDefinition;
use binde::stream::{ByteStream, DecodeError};

#[test]
fn byte_order_sensitivity() {
    let mut le = ByteStream::new(vec![0x42, 0x52]);
    assert_eq!(
        binde::deserialize::<u16>(ByteOrder::LittleEndian, &mut le).unwrap(),
        0x5242
    );
    let mut be = ByteStream::new(vec![0x42, 0x52]);
    assert_eq!(
        binde::deserialize::<u16>(ByteOrder::BigEndian, &mut be).unwrap(),
        0x4252
    );
}

#[test]
fn signed_twos_complement() {
    let mut cur = ByteStream::new(vec![0xFF]);
    let v: i8 = binde::deserialize(ByteOrder::LittleEndian, &mut cur).unwrap();
    assert_eq!(v, -1);
}

#[test]
fn insufficient_input() {
    let mut cur = ByteStream::new(vec![0xAA, 0xBB]);
    let r = binde::deserialize::<u32>(ByteOrder::LittleEndian, &mut cur);
    assert_eq!(r, Err(DecodeError::EndOfInput));
}

#[test]
fn empty_stream() {
    let mut cur = ByteStream::new(vec![]);
    let r = binde::deserialize::<u8>(ByteOrder::BigEndian, &mut cur);
    assert_eq!(r, Err(DecodeError::EndOfInput));
}

#[test]
fn array_composition() {
    let mut cur = ByteStream::new(vec![1, 2, 3, 4]);
    let seq4: FixedSeq<u8, 4> = binde::deserialize(ByteOrder::LittleEndian, &mut cur).unwrap();
    assert_eq!(seq4.len(), 4);
    assert_eq!(seq4.into_vec(), vec![1, 2, 3, 4]);
    assert_eq!(binde::size_of::<FixedSeq<u8, 4>>(), 4);
}

#[test]
fn array_of_multibyte_elements() {
    let mut cur = ByteStream::new(vec![0x01, 0x02, 0x03, 0x04]);
    let seq2: FixedSeq<u16, 2> = binde::deserialize(ByteOrder::BigEndian, &mut cur).unwrap();
    assert_eq!(*seq2.get(0), 0x0102);
    assert_eq!(*seq2.get(1), 0x0304);
    assert_eq!(binde::size_of::<FixedSeq<u16, 2>>(), 4);
}

#[test]
fn array_short_input() {
    let mut cur = ByteStream::new(vec![9, 9, 9]);
    let r = binde::deserialize::<FixedSeq<u8, 4>>(ByteOrder::LittleEndian, &mut cur);
    assert!(matches!(r, Err(DecodeError::EndOfInput)));
}

#[test]
fn round_trip_determinism() {
    let bytes = [0xDE, 0xAD, 0xBE, 0xEF, 0x10, 0x20, 0x30, 0x40];
    let mut first = ByteStream::new(bytes.to_vec());
    let mut second = ByteStream::new(bytes.to_vec());
    let a: u64 = binde::deserialize(ByteOrder::BigEndian, &mut first).unwrap();
    let b: u64 = binde::deserialize(ByteOrder::BigEndian, &mut second).unwrap();
    assert_eq!(a, b);
}

#[test]
fn exact_consumption() {
    let mut cur = ByteStream::new(vec![0x78, 0x56, 0x34, 0x12, 0x42, 0x52]);
    let head: u32 = binde::deserialize(ByteOrder::LittleEndian, &mut cur).unwrap();
    assert_eq!(head, 0x12345678);
    assert_eq!(cur.remaining_len(), 2);
    let tail: u16 = binde::deserialize(ByteOrder::LittleEndian, &mut cur).unwrap();
    assert_eq!(tail, 0x5242);
    assert_eq!(cur.remaining_len(), 0);
}

#[test]
fn record_short_input_consumes_prefix() {
    // The third field has too few bytes left: the decode fails and the bytes
    // the first two fields consumed stay consumed.
    let mut cur = ByteStream::new(vec![0; 10]);
    let r = binde::deserialize::<Il2CppMethodDefinition>(ByteOrder::LittleEndian, &mut cur);
    assert_eq!(r, Err(DecodeError::EndOfInput));
    assert_eq!(cur.remaining_len(), 2);
}

#[test]
fn unsigned_widths() {
    let mut u8le = ByteStream::new(vec![0xAB]);
    assert_eq!(binde::deserialize::<u8>(ByteOrder::LittleEndian, &mut u8le).unwrap(), 0xAB);
    let mut u32be = ByteStream::new(vec![0x12, 0x34, 0x56, 0x78]);
    assert_eq!(
        binde::deserialize::<u32>(ByteOrder::BigEndian, &mut u32be).unwrap(),
        0x12345678
    );
    let mut u32le = ByteStream::new(vec![0x12, 0x34, 0x56, 0x78]);
    assert_eq!(
        binde::deserialize::<u32>(ByteOrder::LittleEndian, &mut u32le).unwrap(),
        0x78563412
    );
    let mut u64le = ByteStream::new(vec![0x01, 0x02, 0x03, 0x04, 0x05, 0x06, 0x07, 0x08]);
    assert_eq!(
        binde::deserialize::<u64>(ByteOrder::LittleEndian, &mut u64le).unwrap(),
        0x0807060504030201
    );
    let mut u64be = ByteStream::new(vec![0x01, 0x02, 0x03, 0x04, 0x05, 0x06, 0x07, 0x08]);
    assert_eq!(
        binde::deserialize::<u64>(ByteOrder::BigEndian, &mut u64be).unwrap(),
        0x0102030405060708
    );
    let mut u128be = ByteStream::new(vec![
        0x00, 0x11, 0x22, 0x33, 0x44, 0x55, 0x66, 0x77, 0x88, 0x99, 0xAA, 0xBB, 0xCC, 0xDD,
        0xEE, 0xFF,
    ]);
    assert_eq!(
        binde::deserialize::<u128>(ByteOrder::BigEndian, &mut u128be).unwrap(),
        0x00112233445566778899AABBCCDDEEFF
    );
}

#[test]
fn signed_widths() {
    let mut i16le = ByteStream::new(vec![0x00, 0x80]);
    assert_eq!(
        binde::deserialize::<i16>(ByteOrder::LittleEndian, &mut i16le).unwrap(),
        i16::MIN
    );
    let mut i16be = ByteStream::new(vec![0xFF, 0xFE]);
    assert_eq!(binde::deserialize::<i16>(ByteOrder::BigEndian, &mut i16be).unwrap(), -2);
    let mut i32le = ByteStream::new(vec![0xFF, 0xFF, 0xFF, 0xFF]);
    assert_eq!(binde::deserialize::<i32>(ByteOrder::LittleEndian, &mut i32le).unwrap(), -1);
    let mut i32be = ByteStream::new(vec![0x7F, 0xFF, 0xFF, 0xFF]);
    assert_eq!(
        binde::deserialize::<i32>(ByteOrder::BigEndian, &mut i32be).unwrap(),
        i32::MAX
    );
    let mut i64be = ByteStream::new(vec![0x80, 0x00, 0x00, 0x00, 0x00, 0x00, 0x00, 0x00]);
    assert_eq!(
        binde::deserialize::<i64>(ByteOrder::BigEndian, &mut i64be).unwrap(),
        i64::MIN
    );
    let mut i128le = ByteStream::new(vec![0xFF; 16]);
    assert_eq!(
        binde::deserialize::<i128>(ByteOrder::LittleEndian, &mut i128le).unwrap(),
        -1
    );
}

#[test]
fn primitive_sizes() {
    assert_eq!(binde::size_of::<u8>(), 1);
    assert_eq!(binde::size_of::<i8>(), 1);
    assert_eq!(binde::size_of::<u16>(), 2);
    assert_eq!(binde::size_of::<i16>(), 2);
    assert_eq!(binde::size_of::<u32>(), 4);
    assert_eq!(binde::size_of::<i32>(), 4);
    assert_eq!(binde::size_of::<u64>(), 8);
    assert_eq!(binde::size_of::<i64>(), 8);
    assert_eq!(binde::size_of::<u128>(), 16);
    assert_eq!(binde::size_of::<i128>(), 16);
}

#[test]
fn fixed_seq_from_vec_round_trip() {
    let fs: FixedSeq<u16, 3> = FixedSeq::from_vec(vec![10, 20, 30]);
    assert_eq!(fs.len(), 3);
    assert_eq!(*fs.get(2), 30);
    assert_eq!(fs.into_vec(), vec![10, 20, 30]);
}

#[test]
fn size_method_matches_free_function() {
    assert_eq!(u16::size(), binde::size_of::<u16>());
    assert_eq!(Il2CppMethodDefinition::size(), 32);
}

#[test]
fn record_size_is_sum_of_field_sizes() {
    assert_eq!(
        binde::size_of::<Il2CppMethodDefinition>(),
        5 * binde::size_of::<i32>() + binde::size_of::<u32>() + 4 * binde::size_of::<u16>()
    );
}
