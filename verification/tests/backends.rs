use deflater::BackendError;
use deflater::deflater_flate2;
use deflater::deflater_libdeflater;

fn sample_data() -> Vec<u8> {
    let mut data = Vec::new();
    for i in 0..256u32 {
        data.extend_from_slice(b"the quick brown fox jumps over the lazy dog ");
        data.push((i % 256) as u8);
    }
    data
}

#[test]
fn libdeflater_round_trip_restores_input() {
    let data = sample_data();
    for level in [1u8, 6, 12] {
        let restored = deflater_libdeflater::round_trip(&data, level);
        assert_eq!(restored, data);
    }
}

#[test]
fn libdeflater_deflate_then_inflate_explicitly() {
    let data = sample_data();
    let compressed = deflater_libdeflater::deflate(&data, 6, None).unwrap();
    assert!(compressed.len() < data.len());
    let restored = deflater_libdeflater::inflate(&compressed, data.len()).unwrap();
    assert_eq!(restored, data);
}

#[test]
fn libdeflater_empty_input_round_trips() {
    let compressed = deflater_libdeflater::deflate(&[], 6, None).unwrap();
    assert!(!compressed.is_empty());
    let restored = deflater_libdeflater::inflate(&compressed, 0).unwrap();
    assert!(restored.is_empty());
}

#[test]
fn libdeflater_capacity_too_small_is_reported() {
    let data = sample_data();
    let result = deflater_libdeflater::deflate(&data, 6, Some(2));
    assert_eq!(result, Err(BackendError::CapacityExceeded(2)));
}

#[test]
fn libdeflater_large_enough_capacity_succeeds() {
    let data = sample_data();
    let unbounded = deflater_libdeflater::deflate(&data, 6, None).unwrap();
    let bounded = deflater_libdeflater::deflate(&data, 6, Some(unbounded.len())).unwrap();
    assert_eq!(bounded, unbounded);
}

#[test]
fn libdeflater_corrupt_input_is_rejected() {
    let garbage: Vec<u8> = (0u16..64).map(|i| (i * 7 + 1) as u8).collect();
    let result = deflater_libdeflater::inflate(&garbage, 1024);
    assert_eq!(result, Err(BackendError::MalformedInput));
}

#[test]
fn libdeflater_truncated_stream_is_rejected() {
    let data = sample_data();
    let compressed = deflater_libdeflater::deflate(&data, 6, None).unwrap();
    let truncated = &compressed[..compressed.len() - 1];
    assert!(deflater_libdeflater::inflate(truncated, data.len()).is_err());
}

#[test]
fn libdeflater_inflate_small_buffer_is_reported() {
    let data = sample_data();
    let compressed = deflater_libdeflater::deflate(&data, 6, None).unwrap();
    let result = deflater_libdeflater::inflate(&compressed, data.len() - 1);
    assert_eq!(result, Err(BackendError::CapacityExceeded(data.len() - 1)));
}

#[test]
fn libdeflater_inflate_oversized_buffer_truncates() {
    let data = sample_data();
    let compressed = deflater_libdeflater::deflate(&data, 6, None).unwrap();
    let restored = deflater_libdeflater::inflate(&compressed, data.len() + 100).unwrap();
    assert_eq!(restored, data);
}

#[test]
fn libdeflater_crc32_known_vectors() {
    assert_eq!(deflater_libdeflater::crc32(&[]), 0);
    assert_eq!(deflater_libdeflater::crc32(b"123456789"), 0xCBF43926);
}

#[test]
fn libdeflater_crc32_is_deterministic() {
    let data = sample_data();
    let first = deflater_libdeflater::crc32(&data);
    let second = deflater_libdeflater::crc32(&data);
    assert_eq!(first, second);
}

#[test]
fn flate2_round_trip_restores_input() {
    let data = sample_data();
    for level in 1u8..=12 {
        let restored = deflater_flate2::round_trip(&data, level);
        assert_eq!(restored, data);
    }
}

#[test]
fn flate2_deflate_then_inflate_explicitly() {
    let data = sample_data();
    let compressed = deflater_flate2::deflate(&data, 6, None).unwrap();
    assert!(compressed.len() < data.len());
    let restored = deflater_flate2::inflate(&compressed, data.len()).unwrap();
    assert_eq!(restored, data);
}

#[test]
fn flate2_empty_input_round_trips() {
    let compressed = deflater_flate2::deflate(&[], 6, None).unwrap();
    assert!(!compressed.is_empty());
    let restored = deflater_flate2::inflate(&compressed, 0).unwrap();
    assert!(restored.is_empty());
}

#[test]
fn flate2_capacity_too_small_is_reported() {
    let data = sample_data();
    let result = deflater_flate2::deflate(&data, 6, Some(2));
    assert_eq!(result, Err(BackendError::CapacityExceeded(2)));
}

#[test]
fn flate2_large_enough_capacity_succeeds() {
    let data = sample_data();
    let unbounded = deflater_flate2::deflate(&data, 6, None).unwrap();
    let bounded = deflater_flate2::deflate(&data, 6, Some(unbounded.len())).unwrap();
    assert_eq!(bounded, unbounded);
}

#[test]
fn flate2_corrupt_input_is_rejected() {
    let garbage: Vec<u8> = (0u16..64).map(|i| (i * 7 + 1) as u8).collect();
    let result = deflater_flate2::inflate(&garbage, 1024);
    assert_eq!(result, Err(BackendError::MalformedInput));
}

#[test]
fn flate2_truncated_stream_is_rejected() {
    let data = sample_data();
    let compressed = deflater_flate2::deflate(&data, 6, None).unwrap();
    let truncated = &compressed[..compressed.len() - 1];
    assert!(deflater_flate2::inflate(truncated, data.len()).is_err());
}

#[test]
fn flate2_inflate_small_buffer_is_reported() {
    let data = sample_data();
    let compressed = deflater_flate2::deflate(&data, 6, None).unwrap();
    let result = deflater_flate2::inflate(&compressed, data.len() - 1);
    assert_eq!(result, Err(BackendError::CapacityExceeded(data.len() - 1)));
}

#[test]
fn flate2_inflate_oversized_buffer_truncates() {
    let data = sample_data();
    let compressed = deflater_flate2::deflate(&data, 6, None).unwrap();
    let restored = deflater_flate2::inflate(&compressed, data.len() + 100).unwrap();
    assert_eq!(restored, data);
}

#[test]
fn flate2_crc32_known_vectors() {
    assert_eq!(deflater_flate2::crc32(&[]), 0);
    assert_eq!(deflater_flate2::crc32(b"123456789"), 0xCBF43926);
}

#[test]
fn flate2_crc32_is_deterministic() {
    let data = sample_data();
    let first = deflater_flate2::crc32(&data);
    let second = deflater_flate2::crc32(&data);
    assert_eq!(first, second);
}

#[test]
fn backends_agree_on_crc32() {
    let data = sample_data();
    assert_eq!(
        deflater_libdeflater::crc32(&data),
        deflater_flate2::crc32(&data)
    );
}

#[test]
fn backends_accept_each_others_streams() {
    let data = sample_data();
    let from_libdeflater = deflater_libdeflater::deflate(&data, 6, None).unwrap();
    let from_flate2 = deflater_flate2::deflate(&data, 6, None).unwrap();
    assert_eq!(
        deflater_flate2::inflate(&from_libdeflater, data.len()).unwrap(),
        data
    );
    assert_eq!(
        deflater_libdeflater::inflate(&from_flate2, data.len()).unwrap(),
        data
    );
}

#[test]
fn default_backend_is_re_exported_at_the_root() {
    let data = sample_data();
    let restored = deflater::round_trip(&data, 6);
    assert_eq!(restored, data);
    let compressed = deflater::deflate(&data, 6, None).unwrap();
    assert_eq!(deflater::inflate(&compressed, data.len()).unwrap(), data);
    assert_eq!(deflater::crc32(b"123456789"), 0xCBF43926);
}
