use lupin::buffer::compression::{Algorithm, CompressionError, Zstd};

#[test]
fn compression() {
    for _ in 0..10_000 {
        let compressed = Zstd::compress(vec![0u8; 32768]).unwrap();
        let msg = Zstd::decompress(compressed).unwrap();
        assert_eq!(vec![0u8; 32768], msg);
    }
}

#[test]
fn compressed_zeros_are_smaller() {
    let compressed = Zstd::compress(vec![0u8; 32768]).unwrap();
    assert!(compressed.len() < 1000);
    assert_ne!(vec![0u8; 32768], compressed);
}

#[test]
fn round_trip_of_varied_bytes() {
    let data: Vec<u8> = (0..5000u32).map(|i| (i * 7 % 251) as u8).collect();
    let compressed = Zstd::compress(data.clone()).unwrap();
    assert_eq!(data, Zstd::decompress(compressed).unwrap());
}

#[test]
fn round_trip_of_nothing() {
    let compressed = Zstd::compress(Vec::new()).unwrap();
    assert!(!compressed.is_empty());
    assert_eq!(Vec::<u8>::new(), Zstd::decompress(compressed).unwrap());
}

#[test]
fn decompressing_garbage_fails() {
    let res = Zstd::decompress(vec![1, 2, 3, 4, 5]);
    assert!(matches!(res, Err(CompressionError::Decompress)));
}

#[test]
fn buffer_actors_make_compression_actors() {
    let c = lupin::buffer::BufferActor::compress::<Zstd>("actor");
    let _: lupin::buffer::compression::Compress = c.mode;
    let d = lupin::buffer::BufferActor::decompress::<Zstd>("actor");
    let _: lupin::buffer::compression::Decompress = d.mode;
}
