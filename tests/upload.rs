use gridwalk_backend::layer::{prepare_chunk_file, ChunkFileAction, Layer, ShortChunkFile, UploadError};
use gridwalk_backend::status::LayerStatus;

fn layer_with(total: Option<i64>) -> Layer {
    Layer::create(7, "my layer".to_string(), Some("shp".to_string()), total, 1_000)
}

#[test]
fn created_layer_is_uploading_at_zero() {
    let l = layer_with(Some(1024));
    assert_eq!(l.id, 7);
    assert_eq!(l.status, LayerStatus::Uploading);
    assert_eq!(l.current_offset, 0);
    assert_eq!(l.total_size, Some(1024));
    assert_eq!(l.created_at, 1_000);
    assert_eq!(l.updated_at, 1_000);
    assert_eq!(l.name, "my layer");
}

#[test]
fn whole_upload_in_one_chunk_completes() {
    let mut l = layer_with(Some(1024));
    let plan = l.accept_chunk(0, 1024, 2_000).unwrap();
    assert_eq!(plan.write_at, 0);
    assert!(plan.complete);
    assert_eq!(l.current_offset, 1024);
    assert_eq!(l.status, LayerStatus::Processing);
    assert_eq!(l.updated_at, 2_000);
    l.finish_ingestion(true, 3_000);
    assert_eq!(l.status, LayerStatus::Ready);
    assert_eq!(l.status.as_str(), "ready");
    assert_eq!(l.updated_at, 3_000);
    assert_eq!(l.created_at, 1_000);
}

#[test]
fn retried_chunk_reports_offset_mismatch() {
    let mut l = layer_with(Some(100));
    let plan = l.accept_chunk(0, 40, 2_000).unwrap();
    assert!(!plan.complete);
    assert_eq!(l.current_offset, 40);
    let err = l.accept_chunk(0, 40, 3_000).unwrap_err();
    assert_eq!(err, UploadError::OffsetMismatch { expected: 40, received: 0 });
    assert_eq!(l.current_offset, 40);
    assert_eq!(l.updated_at, 2_000);
}

#[test]
fn oversized_chunk_is_refused_without_change() {
    let mut l = layer_with(Some(10));
    let err = l.accept_chunk(0, 20, 2_000).unwrap_err();
    assert_eq!(err, UploadError::TooLarge);
    assert_eq!(l.current_offset, 0);
    assert_eq!(l.status, LayerStatus::Uploading);
    assert_eq!(l.updated_at, 1_000);
}

#[test]
fn deferred_length_stays_uploading() {
    let mut l = layer_with(None);
    for i in 0..5i64 {
        let plan = l.accept_chunk(i * 1000, 1000, 2_000 + i).unwrap();
        assert!(!plan.complete);
        assert_eq!(l.status, LayerStatus::Uploading);
    }
    assert_eq!(l.current_offset, 5000);
}

#[test]
fn deferred_length_refuses_offset_overflow() {
    let mut l = layer_with(None);
    l.accept_chunk(0, i64::MAX as u64, 2_000).unwrap();
    assert_eq!(l.accept_chunk(i64::MAX, 1, 3_000), Err(UploadError::TooLarge));
    assert_eq!(l.accept_chunk(i64::MAX, 0, 3_000).map(|p| p.write_at), Ok(i64::MAX));
}

#[test]
fn empty_first_chunk_keeps_offset_zero() {
    let mut l = layer_with(Some(50));
    let plan = l.accept_chunk(0, 0, 2_000).unwrap();
    assert!(!plan.complete);
    assert_eq!(l.current_offset, 0);
    assert_eq!(l.status, LayerStatus::Uploading);
    assert_eq!(l.updated_at, 2_000);
}

#[test]
fn zero_length_upload_completes_on_empty_chunk() {
    let mut l = layer_with(Some(0));
    let plan = l.accept_chunk(0, 0, 2_000).unwrap();
    assert!(plan.complete);
    assert_eq!(l.status, LayerStatus::Processing);
    l.finish_ingestion(false, 3_000);
    assert_eq!(l.status, LayerStatus::Failed);
}

#[test]
fn completion_on_second_chunk() {
    let n: i64 = 64;
    let mut l = layer_with(Some(n));
    assert!(!l.accept_chunk(0, 1, 2_000).unwrap().complete);
    assert_eq!(l.status, LayerStatus::Uploading);
    let plan = l.accept_chunk(1, (n - 1) as u64, 3_000).unwrap();
    assert!(plan.complete);
    assert_eq!(plan.write_at, 1);
    assert_eq!(l.current_offset, n);
    assert_eq!(l.status, LayerStatus::Processing);
}

#[test]
fn finished_layers_refuse_bytes() {
    for (ok, status) in [(true, LayerStatus::Ready), (false, LayerStatus::Failed)] {
        let mut l = layer_with(Some(4));
        l.accept_chunk(0, 4, 2_000).unwrap();
        l.finish_ingestion(ok, 3_000);
        assert_eq!(l.accept_chunk(4, 0, 4_000), Err(UploadError::StateConflict { status }));
        assert_eq!(l.accept_chunk(4, 1, 4_000), Err(UploadError::StateConflict { status }));
        assert_eq!(l.current_offset, 4);
    }
}

#[test]
fn processing_layer_refuses_bytes_before_offset_check() {
    let mut l = layer_with(Some(4));
    l.accept_chunk(0, 4, 2_000).unwrap();
    assert_eq!(
        l.accept_chunk(0, 1, 3_000),
        Err(UploadError::StateConflict { status: LayerStatus::Processing })
    );
}

#[test]
fn chunk_file_preparation() {
    assert_eq!(prepare_chunk_file(40, 40), Ok(ChunkFileAction::Append));
    assert_eq!(prepare_chunk_file(55, 40), Ok(ChunkFileAction::TruncateThenAppend { len: 40 }));
    assert_eq!(prepare_chunk_file(0, 0), Ok(ChunkFileAction::Append));
    assert_eq!(prepare_chunk_file(10, 40), Err(ShortChunkFile { on_disk: 10, expected: 40 }));
}

#[test]
fn status_text_round_trip() {
    let all = [
        LayerStatus::Uploading,
        LayerStatus::Processing,
        LayerStatus::Ready,
        LayerStatus::Error,
        LayerStatus::Cancelled,
        LayerStatus::Failed,
    ];
    let texts = ["uploading", "processing", "ready", "error", "cancelled", "failed"];
    for (s, t) in all.iter().zip(texts.iter()) {
        assert_eq!(s.as_str(), *t);
        assert_eq!(LayerStatus::parse(t), Ok(*s));
    }
    let err = LayerStatus::parse("Ready").unwrap_err();
    assert_eq!(err.value, "Ready");
    assert!(LayerStatus::parse("").is_err());
    assert!(LayerStatus::parse("readyy").is_err());
}
