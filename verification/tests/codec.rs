use timelock_escrow::codec::{get_i64, get_u64, put_i64, put_u64};
use timelock_escrow::error::CodecError;
use timelock_escrow::pubkey::Pubkey;
use timelock_escrow::state::{
    write_front, InitTokenInput, TransferData, TransferInput, TransferToken, WithdrawInput,
    WithdrawTokenInput, INIT_TOKEN_INPUT_LEN, TRANSFER_DATA_LEN, TRANSFER_INPUT_LEN,
    TRANSFER_TOKEN_LEN, WITHDRAW_INPUT_LEN, WITHDRAW_TOKEN_INPUT_LEN,
};

fn key(fill: u8) -> Pubkey {
    let mut bytes = [fill; 32];
    bytes[0] = 0xa5;
    bytes[31] = fill.wrapping_add(1);
    Pubkey::new_from_array(bytes)
}

fn sample_record() -> TransferData {
    TransferData {
        start_time: 1_700_000_000,
        receiver: key(2),
        amount_to_send: 10_000_000,
        sender: key(1),
    }
}

fn sample_token_record() -> TransferToken {
    TransferToken {
        start_time: -5,
        amount: 1_000,
        token_mint: key(3),
        sender: key(1),
        receiver: key(2),
    }
}

#[test]
fn transfer_data_new_joins_payload_and_sender() {
    let receiver = key(7);
    let sender = key(9);
    let input = TransferInput { start_time: 1_700_000_000, receiver, amount_to_send: 10_000_000 };
    let record = TransferData::new(input, sender);
    assert_eq!(record.start_time, 1_700_000_000);
    assert_eq!(record.receiver, receiver);
    assert_eq!(record.amount_to_send, 10_000_000);
    assert_eq!(record.sender, sender);
}

#[test]
fn u64_is_eight_little_endian_bytes() {
    let mut out = vec![0xee];
    put_u64(&mut out, 10_000_000);
    assert_eq!(out, vec![0xee, 0x80, 0x96, 0x98, 0, 0, 0, 0, 0]);
    let mut out = Vec::new();
    put_u64(&mut out, 0x0102_0304_0506_0708);
    assert_eq!(out, vec![8, 7, 6, 5, 4, 3, 2, 1]);
    assert_eq!(out, 0x0102_0304_0506_0708u64.to_le_bytes().to_vec());
    let mut out = Vec::new();
    put_u64(&mut out, u64::MAX);
    assert_eq!(out, vec![0xff; 8]);
    let mut out = Vec::new();
    put_u64(&mut out, 0);
    assert_eq!(out, vec![0; 8]);
}

#[test]
fn i64_is_twos_complement_little_endian() {
    let mut out = Vec::new();
    put_i64(&mut out, 1_700_000_000);
    assert_eq!(out, vec![0x00, 0xf1, 0x53, 0x65, 0, 0, 0, 0]);
    let mut out = Vec::new();
    put_i64(&mut out, -1);
    assert_eq!(out, vec![0xff; 8]);
    let mut out = Vec::new();
    put_i64(&mut out, i64::MIN);
    assert_eq!(out, vec![0, 0, 0, 0, 0, 0, 0, 0x80]);
    let mut out = Vec::new();
    put_i64(&mut out, i64::MAX);
    assert_eq!(out, vec![0xff, 0xff, 0xff, 0xff, 0xff, 0xff, 0xff, 0x7f]);
    let mut out = Vec::new();
    put_i64(&mut out, -86_400);
    assert_eq!(out, (-86_400i64).to_le_bytes().to_vec());
}

#[test]
fn integers_read_back_at_an_offset() {
    let data = [9u8, 8, 7, 6, 5, 4, 3, 2, 1, 0xff, 0xff, 0xff, 0xff, 0xff, 0xff, 0xff, 0xff];
    assert_eq!(get_u64(&data, 0), 0x0203_0405_0607_0809);
    assert_eq!(get_u64(&data, 1), 0x0102_0304_0506_0708);
    assert_eq!(get_u64(&data, 9), u64::MAX);
    assert_eq!(get_i64(&data, 9), -1);
    assert_eq!(get_i64(&data, 1), 0x0102_0304_0506_0708);
    let low = [0u8, 0, 0, 0, 0, 0, 0, 0x80];
    assert_eq!(get_i64(&low, 0), i64::MIN);
    assert_eq!(get_u64(&low, 0), 1u64 << 63);
}

#[test]
fn integer_round_trips_on_edge_values() {
    for x in [0u64, 1, 255, 256, 65_535, 65_536, u32::MAX as u64, 1 << 63, u64::MAX] {
        let mut out = Vec::new();
        put_u64(&mut out, x);
        assert_eq!(get_u64(&out, 0), x);
    }
    for x in [0i64, 1, -1, 86_400, -86_400, i64::MIN, i64::MAX, i64::MIN + 1] {
        let mut out = Vec::new();
        put_i64(&mut out, x);
        assert_eq!(get_i64(&out, 0), x);
    }
}

#[test]
fn pubkey_bytes_pass_through() {
    let mut raw = [0u8; 32];
    for (i, b) in raw.iter_mut().enumerate() {
        *b = i as u8;
    }
    let k = Pubkey::new_from_array(raw);
    assert_eq!(k.to_bytes(), raw);
    assert_eq!(k.to_vec(), raw.to_vec());
    let mut out = vec![0xaa];
    k.put(&mut out);
    assert_eq!(out.len(), 33);
    assert_eq!(&out[1..], &raw[..]);
    assert_eq!(Pubkey::get(&out, 1), k);
    assert_ne!(Pubkey::get(&out, 0), k);
}

#[test]
fn pubkey_equality_is_by_bytes() {
    let a = Pubkey::new_from_array([3u8; 32]);
    let b = Pubkey::new_from_array([3u8; 32]);
    let mut other = [3u8; 32];
    other[31] = 4;
    let c = Pubkey::new_from_array(other);
    assert!(a == b);
    assert!(a != c);
    let mut first = [3u8; 32];
    first[0] = 0;
    assert!(a != Pubkey::new_from_array(first));
}

#[test]
fn record_sizes() {
    assert_eq!(TRANSFER_INPUT_LEN, 48);
    assert_eq!(WITHDRAW_INPUT_LEN, 8);
    assert_eq!(INIT_TOKEN_INPUT_LEN, 48);
    assert_eq!(WITHDRAW_TOKEN_INPUT_LEN, 8);
    assert_eq!(TRANSFER_DATA_LEN, 80);
    assert_eq!(TRANSFER_TOKEN_LEN, 112);
    assert_eq!(sample_record().to_vec().len(), 80);
    assert_eq!(sample_token_record().to_vec().len(), 112);
}

#[test]
fn transfer_data_layout_is_field_order() {
    let record = sample_record();
    let bytes = record.to_vec();
    let mut expected = Vec::new();
    expected.extend_from_slice(&1_700_000_000i64.to_le_bytes());
    expected.extend_from_slice(&record.receiver.to_bytes());
    expected.extend_from_slice(&10_000_000u64.to_le_bytes());
    expected.extend_from_slice(&record.sender.to_bytes());
    assert_eq!(bytes, expected);
}

#[test]
fn transfer_token_layout_is_field_order() {
    let record = sample_token_record();
    let bytes = record.to_vec();
    let mut expected = Vec::new();
    expected.extend_from_slice(&(-5i64).to_le_bytes());
    expected.extend_from_slice(&1_000u64.to_le_bytes());
    expected.extend_from_slice(&record.token_mint.to_bytes());
    expected.extend_from_slice(&record.sender.to_bytes());
    expected.extend_from_slice(&record.receiver.to_bytes());
    assert_eq!(bytes, expected);
}

#[test]
fn layouts_agree_with_borsh() {
    let record = sample_record();
    let as_tuple = (
        record.start_time,
        record.receiver.to_bytes(),
        record.amount_to_send,
        record.sender.to_bytes(),
    );
    assert_eq!(record.to_vec(), borsh::to_vec(&as_tuple).unwrap());

    let token = sample_token_record();
    let as_tuple = (
        token.start_time,
        token.amount,
        token.token_mint.to_bytes(),
        token.sender.to_bytes(),
        token.receiver.to_bytes(),
    );
    assert_eq!(token.to_vec(), borsh::to_vec(&as_tuple).unwrap());

    let input = TransferInput { start_time: i64::MIN, receiver: key(5), amount_to_send: u64::MAX };
    let bytes = input.to_vec();
    let (start_time, receiver, amount): (i64, [u8; 32], u64) = borsh::from_slice(&bytes).unwrap();
    assert_eq!(start_time, i64::MIN);
    assert_eq!(receiver, input.receiver.to_bytes());
    assert_eq!(amount, u64::MAX);

    let init = InitTokenInput { start_time: 77, amount: 9, token_mint: key(6) };
    let as_tuple = (77i64, 9u64, key(6).to_bytes());
    assert_eq!(init.to_vec(), borsh::to_vec(&as_tuple).unwrap());
    assert_eq!(WithdrawInput { amount: 513 }.to_vec(), borsh::to_vec(&513u64).unwrap());
    assert_eq!(WithdrawTokenInput { amount: 514 }.to_vec(), borsh::to_vec(&514u64).unwrap());
}

#[test]
fn decoding_agrees_with_borsh_on_when_it_fails() {
    let bytes = sample_record().to_vec();
    for len in [0usize, 1, 79, 80] {
        let ours = TransferData::try_from_slice(&bytes[..len]).is_ok();
        let theirs = borsh::from_slice::<(i64, [u8; 32], u64, [u8; 32])>(&bytes[..len]).is_ok();
        assert_eq!(ours, theirs);
    }
    let mut long = bytes.clone();
    long.push(0);
    assert!(TransferData::try_from_slice(&long).is_err());
    assert!(borsh::from_slice::<(i64, [u8; 32], u64, [u8; 32])>(&long).is_err());
}

#[test]
fn every_record_shape_round_trips() {
    let a = TransferInput { start_time: -1, receiver: key(1), amount_to_send: 1 };
    assert_eq!(TransferInput::try_from_slice(&a.to_vec()), Ok(a));
    let b = WithdrawInput { amount: u64::MAX };
    assert_eq!(WithdrawInput::try_from_slice(&b.to_vec()), Ok(b));
    let c = InitTokenInput { start_time: i64::MAX, amount: 0, token_mint: key(2) };
    assert_eq!(InitTokenInput::try_from_slice(&c.to_vec()), Ok(c));
    let d = WithdrawTokenInput { amount: 1_000 };
    assert_eq!(WithdrawTokenInput::try_from_slice(&d.to_vec()), Ok(d));
    let e = sample_record();
    assert_eq!(TransferData::try_from_slice(&e.to_vec()), Ok(e));
    let f = sample_token_record();
    assert_eq!(TransferToken::try_from_slice(&f.to_vec()), Ok(f));
}

#[test]
fn short_buffer_is_unexpected_length() {
    let bytes = sample_record().to_vec();
    assert_eq!(TransferData::try_from_slice(&bytes[..79]), Err(CodecError::UnexpectedLength));
    assert_eq!(TransferData::try_from_slice(&[]), Err(CodecError::UnexpectedLength));
    assert_eq!(WithdrawInput::try_from_slice(&[0; 7]), Err(CodecError::UnexpectedLength));
    assert_eq!(TransferInput::try_from_slice(&[0; 47]), Err(CodecError::UnexpectedLength));
    assert_eq!(InitTokenInput::try_from_slice(&[0; 47]), Err(CodecError::UnexpectedLength));
    assert_eq!(WithdrawTokenInput::try_from_slice(&[0; 7]), Err(CodecError::UnexpectedLength));
    assert_eq!(TransferToken::try_from_slice(&[0; 111]), Err(CodecError::UnexpectedLength));
}

#[test]
fn surplus_bytes_are_not_all_bytes_read() {
    let mut bytes = sample_record().to_vec();
    bytes.push(0);
    assert_eq!(TransferData::try_from_slice(&bytes), Err(CodecError::NotAllBytesRead));
    assert_eq!(WithdrawInput::try_from_slice(&[0; 9]), Err(CodecError::NotAllBytesRead));
    assert_eq!(TransferInput::try_from_slice(&[0; 49]), Err(CodecError::NotAllBytesRead));
    assert_eq!(InitTokenInput::try_from_slice(&[0; 49]), Err(CodecError::NotAllBytesRead));
    assert_eq!(WithdrawTokenInput::try_from_slice(&[0; 9]), Err(CodecError::NotAllBytesRead));
    assert_eq!(TransferToken::try_from_slice(&[0; 113]), Err(CodecError::NotAllBytesRead));
}

#[test]
fn serialize_fills_an_exact_buffer() {
    let record = sample_record();
    let mut buf = [0x11u8; 80];
    assert_eq!(record.serialize(&mut buf), Ok(()));
    assert_eq!(buf.to_vec(), record.to_vec());
    assert_eq!(TransferData::try_from_slice(&buf), Ok(record));
}

#[test]
fn serialize_tolerates_surplus_room() {
    let record = sample_record();
    let mut buf = [0x11u8; 85];
    assert_eq!(record.serialize(&mut buf), Ok(()));
    assert_eq!(buf[..80].to_vec(), record.to_vec());
    assert_eq!(&buf[80..], &[0x11u8; 5]);
}

#[test]
fn serialize_into_short_buffer_fails_having_written_what_fits() {
    let record = sample_token_record();
    let mut buf = [0x11u8; 48];
    assert_eq!(record.serialize(&mut buf), Err(CodecError::WriteZero));
    assert_eq!(buf.to_vec(), record.to_vec()[..48].to_vec());
    let mut none: [u8; 0] = [];
    assert_eq!(record.serialize(&mut none), Err(CodecError::WriteZero));
}

#[test]
fn write_front_copies_and_reports() {
    let mut dst = [1u8, 2, 3, 4];
    assert_eq!(write_front(&mut dst, &[9, 8]), Ok(()));
    assert_eq!(dst, [9, 8, 3, 4]);
    assert_eq!(write_front(&mut dst, &[]), Ok(()));
    assert_eq!(dst, [9, 8, 3, 4]);
    assert_eq!(write_front(&mut dst, &[5, 5, 5, 5]), Ok(()));
    assert_eq!(dst, [5, 5, 5, 5]);
    assert_eq!(write_front(&mut dst, &[7, 7, 7, 7, 7]), Err(CodecError::WriteZero));
    assert_eq!(dst, [7, 7, 7, 7]);
}
