use wasmedge_tensorflow_interface::{
    rgb_value_count, tensor_from_bytes, tensor_to_bytes, F32Bits, F64Bits, TFLiteSession,
    TFSession,
};

#[test]
fn unsigned_elements_are_little_endian() {
    assert_eq!(tensor_to_bytes(&[1u16, 258]), vec![1, 0, 2, 1]);
    assert_eq!(tensor_to_bytes(&[0x0102_0304u32]), vec![4, 3, 2, 1]);
    assert_eq!(
        tensor_to_bytes(&[0x0102_0304_0506_0708u64]),
        vec![8, 7, 6, 5, 4, 3, 2, 1]
    );
    assert_eq!(tensor_to_bytes(&[9u8, 200]), vec![9, 200]);
}

#[test]
fn signed_elements_are_twos_complement() {
    assert_eq!(tensor_to_bytes(&[-2i32]), vec![0xFE, 0xFF, 0xFF, 0xFF]);
    assert_eq!(tensor_to_bytes(&[-1i8, 1]), vec![0xFF, 1]);
    assert_eq!(tensor_to_bytes(&[i16::MIN]), vec![0x00, 0x80]);
    assert_eq!(tensor_to_bytes(&[-1i64]), vec![0xFF; 8]);
}

#[test]
fn bytes_match_native_layout() {
    let v = [3i32, -40_000, i32::MAX, i32::MIN];
    let native: Vec<u8> = v.iter().flat_map(|x| x.to_le_bytes()).collect();
    assert_eq!(tensor_to_bytes(&v), native);
}

#[test]
fn bool_elements_are_single_bytes() {
    assert_eq!(tensor_to_bytes(&[true, false, true]), vec![1, 0, 1]);
    assert_eq!(tensor_from_bytes::<bool>(&[0, 1, 7]), vec![false, true, true]);
}

#[test]
fn float_elements_go_as_their_bits() {
    let v = [F32Bits(1.0f32.to_bits()), F32Bits((-0.5f32).to_bits())];
    assert_eq!(tensor_to_bytes(&v), vec![0, 0, 0x80, 0x3F, 0, 0, 0, 0xBF]);
    let back = tensor_from_bytes::<F32Bits>(&tensor_to_bytes(&v));
    let floats: Vec<f32> = back.iter().map(|b| f32::from_bits(b.0)).collect();
    assert_eq!(floats, vec![1.0, -0.5]);
    let d = [F64Bits(2.0f64.to_bits())];
    assert_eq!(tensor_to_bytes(&d), 2.0f64.to_le_bytes().to_vec());
}

#[test]
fn empty_tensors() {
    assert_eq!(tensor_to_bytes::<u32>(&[]), Vec::<u8>::new());
    assert_eq!(tensor_from_bytes::<u32>(&[]), Vec::<u32>::new());
}

#[test]
fn decoding_reads_whole_slots() {
    assert_eq!(tensor_from_bytes::<u16>(&[1, 0, 2, 1]), vec![1, 258]);
    assert_eq!(tensor_from_bytes::<i16>(&[0xFF, 0xFF, 5]), vec![-1]);
    assert_eq!(tensor_from_bytes::<u32>(&[1, 2, 3]), Vec::<u32>::new());
    assert_eq!(tensor_from_bytes::<i64>(&[0xFE; 8]), vec![-0x0101_0101_0101_0102]);
}

#[test]
fn decoding_inverts_encoding() {
    let a = [0u64, 1, u64::MAX, 0x1234_5678_9ABC_DEF0];
    assert_eq!(tensor_from_bytes::<u64>(&tensor_to_bytes(&a)), a.to_vec());
    let b = [i8::MIN, -1, 0, i8::MAX];
    assert_eq!(tensor_from_bytes::<i8>(&tensor_to_bytes(&b)), b.to_vec());
    let c = [i16::MIN, -300, 300, i16::MAX];
    assert_eq!(tensor_from_bytes::<i16>(&tensor_to_bytes(&c)), c.to_vec());
    let d = [i64::MIN, -1, i64::MAX];
    assert_eq!(tensor_from_bytes::<i64>(&tensor_to_bytes(&d)), d.to_vec());
    let e = [65535u16, 0, 7];
    assert_eq!(tensor_from_bytes::<u16>(&tensor_to_bytes(&e)), e.to_vec());
}

#[test]
fn rgb_buffer_sizes() {
    assert_eq!(rgb_value_count(224, 224), Some(150_528));
    assert_eq!(rgb_value_count(2, 3), Some(18));
    assert_eq!(rgb_value_count(0, 1000), Some(0));
    assert_eq!(rgb_value_count(0x1_0000, 0x1_0000), None);
    assert_eq!(rgb_value_count(0x5555_5555, 1), Some(0xFFFF_FFFF));
    assert_eq!(rgb_value_count(0x5555_5556, 1), None);
}

#[test]
fn sessions_keep_their_handles() {
    assert_eq!(TFSession::from_context(7).context(), 7);
    assert_eq!(TFLiteSession::from_context(u32::MAX).context(), u32::MAX);
}
