use lz4_napi::codec::frame_compress;
use lz4_napi::error::CodecError;
use lz4_napi::stream::{decode_attempt_reply, LZ4DecoderStream, LZ4EncoderStream};

fn pattern(len: usize) -> Vec<u8> {
    (0..len).map(|i| (i * 7 % 13) as u8).collect()
}

#[test]
fn encoder_collects_then_frames() {
    let mut enc = LZ4EncoderStream::new();
    assert!(!enc.is_finished());
    enc.write(b"hello ").unwrap();
    enc.write(b"world").unwrap();
    assert!(!enc.is_finished());
    let out = enc.finish().unwrap();
    assert!(enc.is_finished());
    assert_eq!(out, frame_compress(b"hello world").unwrap());
}

#[test]
fn encoder_rejects_write_and_finish_after_finish() {
    let mut enc = LZ4EncoderStream::new();
    enc.write(b"abc").unwrap();
    enc.finish().unwrap();
    assert_eq!(enc.write(b"more"), Err(CodecError::StreamClosed));
    assert_eq!(enc.finish(), Err(CodecError::StreamClosed));
}

#[test]
fn decoder_waits_for_second_half() {
    let data = pattern(1 << 20);
    let framed = frame_compress(&data).unwrap();
    let half = framed.len() / 2;
    let mut dec = LZ4DecoderStream::new();
    assert_eq!(dec.write(&framed[..half]).unwrap(), Vec::<u8>::new());
    assert!(!dec.is_finished());
    assert_eq!(dec.write(&framed[half..]).unwrap(), data);
    assert!(dec.is_finished());
}

#[test]
fn decoder_small_frame_in_two_halves() {
    let framed = frame_compress(b"hello world").unwrap();
    let half = framed.len() / 2;
    let mut dec = LZ4DecoderStream::new();
    assert_eq!(dec.write(&framed[..half]).unwrap(), Vec::<u8>::new());
    assert!(!dec.is_finished());
    assert_eq!(dec.write(&framed[half..]).unwrap(), b"hello world".to_vec());
    assert!(dec.is_finished());
}

#[test]
fn decoder_rejects_write_after_finish() {
    let framed = frame_compress(b"abc").unwrap();
    let mut dec = LZ4DecoderStream::new();
    assert_eq!(dec.write(&framed).unwrap(), b"abc".to_vec());
    assert_eq!(dec.finish().unwrap(), Vec::<u8>::new());
    assert_eq!(dec.write(b"x"), Err(CodecError::StreamClosed));
    assert_eq!(dec.finish().unwrap(), Vec::<u8>::new());
}

#[test]
fn decoder_finish_on_incomplete_frame_is_truncated() {
    let framed = frame_compress(b"hello world").unwrap();
    let mut dec = LZ4DecoderStream::new();
    dec.write(&framed[..framed.len() / 2]).unwrap();
    assert_eq!(dec.finish(), Err(CodecError::Truncated));
    assert!(!dec.is_finished());
    assert_eq!(dec.write(&framed[framed.len() / 2..]).unwrap(), b"hello world".to_vec());
}

#[test]
fn decoder_surfaces_corruption() {
    let mut dec = LZ4DecoderStream::new();
    assert_eq!(dec.write(b"this is not a frame at all"), Err(CodecError::Corrupt));
    assert!(!dec.is_finished());
}

#[test]
fn decode_attempt_reply_cases() {
    assert_eq!(decode_attempt_reply(Ok(vec![1, 2])), (Ok(vec![1, 2]), true));
    assert_eq!(decode_attempt_reply(Err(CodecError::Truncated)), (Ok(vec![]), false));
    assert_eq!(decode_attempt_reply(Err(CodecError::Corrupt)), (Err(CodecError::Corrupt), false));
}

#[test]
fn decoder_waits_on_every_strict_prefix() {
    let framed = frame_compress(b"a").unwrap();
    assert_eq!(framed.len(), 16);
    for k in 0..framed.len() {
        let mut dec = LZ4DecoderStream::new();
        assert_eq!(dec.write(&framed[..k]).unwrap(), Vec::<u8>::new());
        assert!(!dec.is_finished());
        assert_eq!(dec.write(&framed[k..]).unwrap(), b"a".to_vec());
        assert!(dec.is_finished());
    }
}

#[test]
fn decoder_byte_by_byte() {
    let framed = frame_compress(b"hello world").unwrap();
    let mut dec = LZ4DecoderStream::new();
    for i in 0..framed.len() - 1 {
        assert_eq!(dec.write(&framed[i..i + 1]).unwrap(), Vec::<u8>::new());
        assert!(!dec.is_finished());
    }
    assert_eq!(dec.write(&framed[framed.len() - 1..]).unwrap(), b"hello world".to_vec());
    assert!(dec.is_finished());
}

#[test]
fn decoder_empty_write_stays_open() {
    let mut dec = LZ4DecoderStream::new();
    assert_eq!(dec.write(&[]).unwrap(), Vec::<u8>::new());
    assert!(!dec.is_finished());
    assert_eq!(dec.write(&[0x04, 0x22, 0x4D, 0x18]).unwrap(), Vec::<u8>::new());
    assert!(!dec.is_finished());
}

#[test]
fn decoder_finish_on_nothing_is_truncated() {
    let mut dec = LZ4DecoderStream::new();
    assert_eq!(dec.finish(), Err(CodecError::Truncated));
    assert!(!dec.is_finished());
}

#[test]
fn decoder_wrong_magic_is_corrupt() {
    for data in [&[1u8, 2, 3, 4][..], &[1, 2, 3, 4, 5], &[0x04, 0x22, 0x4D, 0x19, 0x60, 0x40], &[0x05]] {
        let mut dec = LZ4DecoderStream::new();
        assert_eq!(dec.write(data), Err(CodecError::Corrupt));
        assert!(!dec.is_finished());
    }
}
