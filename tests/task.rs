use lz4_napi::codec::compress_sync;
use lz4_napi::error::CodecError;
use lz4_napi::input::CodecInput;
use lz4_napi::task::{
    compress, compress_frame, decompress_frame, run_request, uncompress, CodecOp, CodecTask,
    HostRefs, TaskPhase,
};

#[test]
fn refs_acquire_and_release() {
    let mut refs = HostRefs::new(1);
    refs.acquire().unwrap();
    assert_eq!(refs.count(), 2);
    refs.release();
    assert_eq!(refs.count(), 1);
    refs.begin_teardown();
    assert!(refs.is_closing());
    assert!(matches!(refs.acquire(), Err(CodecError::InternalFailure(_))));
    assert_eq!(refs.count(), 1);
}

#[test]
fn refs_at_maximum_cannot_grow() {
    let mut refs = HostRefs::new(u64::MAX);
    assert!(matches!(refs.acquire(), Err(CodecError::InternalFailure(_))));
    assert_eq!(refs.count(), u64::MAX);
}

#[test]
fn resolved_task_releases_its_buffers() {
    let mut data_refs = HostRefs::new(1);
    let mut dict_refs = HostRefs::new(1);
    let req = compress(
        CodecInput::Bytes(b"hello world".to_vec()),
        Some(CodecInput::Bytes(b"hello".to_vec())),
    );
    let mut task = CodecTask::submit(req, &mut data_refs, &mut dict_refs).unwrap();
    assert_eq!(task.phase(), TaskPhase::Submitted);
    assert_eq!(data_refs.count(), 2);
    assert_eq!(dict_refs.count(), 2);
    task.start();
    assert_eq!(task.phase(), TaskPhase::Running);
    assert!(!task.is_computed());
    task.compute();
    assert!(task.is_computed());
    let out = task.settle(&mut data_refs, &mut dict_refs).unwrap();
    assert_eq!(task.phase(), TaskPhase::Resolved);
    assert_eq!(data_refs.count(), 1);
    assert_eq!(dict_refs.count(), 1);
    assert_eq!(&out[..4], &[11, 0, 0, 0]);
}

#[test]
fn rejected_task_releases_its_buffer() {
    let mut data_refs = HostRefs::new(3);
    let mut dict_refs = HostRefs::new(0);
    let req = decompress_frame(CodecInput::Bytes(b"not a frame".to_vec()));
    let mut task = CodecTask::submit(req, &mut data_refs, &mut dict_refs).unwrap();
    assert_eq!(data_refs.count(), 4);
    assert_eq!(dict_refs.count(), 0);
    task.start();
    task.compute();
    let r = task.settle(&mut data_refs, &mut dict_refs);
    assert_eq!(r, Err(CodecError::Corrupt));
    assert_eq!(task.phase(), TaskPhase::Rejected);
    assert_eq!(data_refs.count(), 3);
    assert_eq!(dict_refs.count(), 0);
}

#[test]
fn text_input_takes_no_reference() {
    let mut data_refs = HostRefs::new(0);
    let mut dict_refs = HostRefs::new(0);
    let req = compress_frame(CodecInput::Text("abc".to_string()));
    let task = CodecTask::submit(req, &mut data_refs, &mut dict_refs).unwrap();
    assert_eq!(data_refs.count(), 0);
    assert_eq!(task.request().op, CodecOp::CompressFrame);
}

#[test]
fn failed_submission_gives_back_what_it_took() {
    let mut data_refs = HostRefs::new(1);
    let mut dict_refs = HostRefs::new(1);
    dict_refs.begin_teardown();
    let req = uncompress(CodecInput::Bytes(vec![1, 2, 3, 4]), Some(CodecInput::Bytes(vec![9])));
    let r = CodecTask::submit(req, &mut data_refs, &mut dict_refs);
    assert!(matches!(r, Err(CodecError::InternalFailure(_))));
    assert_eq!(data_refs.count(), 1);
    assert_eq!(dict_refs.count(), 1);
}

#[test]
fn requests_compute_like_the_sync_calls() {
    let block = run_request(&compress(CodecInput::Text("hello world".to_string()), None)).unwrap();
    assert_eq!(block, compress_sync(CodecInput::Text("hello world".to_string()), None));
    let plain = run_request(&uncompress(CodecInput::Bytes(block), None)).unwrap();
    assert_eq!(plain, b"hello world".to_vec());
    let framed = run_request(&compress_frame(CodecInput::Bytes(vec![5; 100]))).unwrap();
    let back = run_request(&decompress_frame(CodecInput::Bytes(framed))).unwrap();
    assert_eq!(back, vec![5; 100]);
}
