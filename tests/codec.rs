use lz4_napi::codec::{
    block_compress, block_decompress, check_block_size, compress_frame_sync, compress_sync,
    declared_size, decompress_frame_sync, long_ff_run, frame_compress, frame_decompress, uncompress_sync,
};
use lz4_napi::error::CodecError;
use lz4_napi::input::CodecInput;

fn text(s: &str) -> CodecInput {
    CodecInput::Text(s.to_string())
}

fn pattern(len: usize) -> Vec<u8> {
    (0..len).map(|i| (i % 251) as u8).collect()
}

#[test]
fn hello_world_block_round_trip() {
    let compressed = compress_sync(text("hello world"), None);
    assert_eq!(&compressed[..4], &[11, 0, 0, 0]);
    assert_ne!(&compressed[..], b"hello world");
    let out = uncompress_sync(CodecInput::Bytes(compressed), None).unwrap();
    assert_eq!(out, b"hello world".to_vec());
}

#[test]
fn one_megabyte_frame_round_trip() {
    let data = pattern(1 << 20);
    let framed = compress_frame_sync(CodecInput::Bytes(data.clone())).unwrap();
    assert!(framed.len() < data.len());
    let out = decompress_frame_sync(CodecInput::Bytes(framed)).unwrap();
    assert_eq!(out, data);
}

#[test]
fn empty_block_round_trip() {
    let compressed = block_compress(&[], None);
    assert_eq!(&compressed[..4], &[0, 0, 0, 0]);
    assert_eq!(block_decompress(&compressed, None).unwrap(), Vec::<u8>::new());
}

#[test]
fn empty_frame_round_trip() {
    let framed = frame_compress(&[]).unwrap();
    assert_eq!(&framed[..4], &[0x04, 0x22, 0x4d, 0x18]);
    assert_eq!(frame_decompress(&framed).unwrap(), Vec::<u8>::new());
}

#[test]
fn text_and_bytes_compress_alike() {
    let a = compress_sync(text("héllo"), None);
    let b = compress_sync(CodecInput::Bytes("héllo".as_bytes().to_vec()), None);
    assert_eq!(a, b);
    assert_eq!(&a[..4], &[6, 0, 0, 0]);
}

#[test]
fn dictionary_round_trip() {
    let dict = b"the quick brown fox jumps over the lazy dog".to_vec();
    let data = b"the quick brown fox jumps over the lazy cat".to_vec();
    let compressed = compress_sync(
        CodecInput::Bytes(data.clone()),
        Some(CodecInput::Bytes(dict.clone())),
    );
    let plain = compress_sync(CodecInput::Bytes(data.clone()), None);
    assert!(compressed.len() < plain.len());
    let out = uncompress_sync(CodecInput::Bytes(compressed), Some(CodecInput::Bytes(dict))).unwrap();
    assert_eq!(out, data);
}

#[test]
fn wrong_dictionary_never_reproduces_input() {
    let dict = b"the quick brown fox jumps over the lazy dog".to_vec();
    let other = b"THE QUICK BROWN FOX JUMPS OVER THE LAZY DOG".to_vec();
    let data = b"the quick brown fox jumps over the lazy cat".to_vec();
    let compressed = block_compress(&data, Some(&dict));
    match block_decompress(&compressed, Some(&other)) {
        Ok(out) => assert_ne!(out, data),
        Err(_) => {}
    }
    assert!(block_decompress(&compressed, None).is_err());
}

#[test]
fn altered_prefix_is_rejected() {
    let data = pattern(1000);
    let mut bigger = block_compress(&data, None);
    assert_eq!(declared_size(&bigger), 1000);
    bigger[0] = 0xE9; // 1001
    assert_eq!(declared_size(&bigger), 1001);
    assert_eq!(block_decompress(&bigger, None), Err(CodecError::SizeMismatch));
    let mut smaller = block_compress(&data, None);
    smaller[0] = 0xE7; // 999
    assert_eq!(block_decompress(&smaller, None), Err(CodecError::SizeMismatch));
}

#[test]
fn declared_size_reads_little_endian() {
    assert_eq!(declared_size(&[0x01, 0x02, 0x03, 0x04, 0xFF]), 0x0403_0201);
    assert_eq!(declared_size(&[0xFF, 0xFF, 0xFF, 0xFF]), 4_294_967_295);
}

#[test]
fn size_check_accepts_only_the_declared_length() {
    let c = [3u8, 0, 0, 0];
    assert_eq!(check_block_size(&c, Ok(vec![1, 2, 3])), Ok(vec![1, 2, 3]));
    assert_eq!(check_block_size(&c, Ok(vec![1, 2])), Err(CodecError::SizeMismatch));
    assert_eq!(check_block_size(&c, Err(CodecError::Corrupt)), Err(CodecError::Corrupt));
}

#[test]
fn short_block_is_truncated() {
    assert_eq!(block_decompress(&[1, 0], None), Err(CodecError::Truncated));
    assert_eq!(uncompress_sync(CodecInput::Bytes(vec![]), None), Err(CodecError::Truncated));
}

#[test]
fn cut_block_payload_fails() {
    let data = pattern(5000);
    let compressed = block_compress(&data, None);
    let cut = &compressed[..compressed.len() - 3];
    let r = block_decompress(cut, None);
    assert!(matches!(r, Err(CodecError::Truncated) | Err(CodecError::SizeMismatch) | Err(CodecError::Corrupt)));
}

#[test]
fn garbage_frame_is_corrupt() {
    let r = decompress_frame_sync(text("definitely not an lz4 frame"));
    assert_eq!(r, Err(CodecError::Corrupt));
}

#[test]
fn cut_frame_is_truncated() {
    let framed = frame_compress(b"hello world").unwrap();
    assert_eq!(frame_decompress(&framed[..framed.len() / 2]), Err(CodecError::Truncated));
}

#[test]
fn error_messages_are_readable() {
    assert_eq!(CodecError::StreamClosed.message(), "stream is finished");
    assert_eq!(CodecError::InternalFailure("boom".to_string()).message(), "boom");
    assert!(!CodecError::Corrupt.message().is_empty());
    assert!(!CodecError::Truncated.message().is_empty());
    assert!(!CodecError::SizeMismatch.message().is_empty());
}

#[test]
fn frame_prefixes_are_truncated() {
    let framed = frame_compress(b"hello world").unwrap();
    for k in 0..framed.len() {
        assert_eq!(frame_decompress(&framed[..k]), Err(CodecError::Truncated));
    }
    assert_eq!(frame_decompress(&framed).unwrap(), b"hello world".to_vec());
}

#[test]
fn frame_ignores_bytes_after_first_frame() {
    let mut framed = frame_compress(b"first").unwrap();
    framed.extend_from_slice(&frame_compress(b"second").unwrap());
    assert_eq!(frame_decompress(&framed).unwrap(), b"first".to_vec());
}

#[test]
fn long_run_of_ff_is_corrupt() {
    let mut c = vec![0xFFu8; 16_843_013];
    c[0] = 10;
    c[1] = 0;
    c[2] = 0;
    c[3] = 0;
    assert_eq!(block_decompress(&c, None), Err(CodecError::Corrupt));
    assert!(long_ff_run(&c));
    assert!(!long_ff_run(&c[..16_843_012]));
}
