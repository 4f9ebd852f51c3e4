use gridwalk_backend::http::{tile_reply, ApiError, TileReply};
use gridwalk_backend::ids::{location_of, scratch_file_name, start_upload};
use gridwalk_backend::ingest::{Finish, Ingestion, IngestionError, SourceEnd};
use gridwalk_backend::layer::{prepare_chunk_file, ChunkFileAction, UploadError};
use gridwalk_backend::status::LayerStatus;
use gridwalk_backend::tus::{parse_append_request, parse_create_request, Header};

fn text(s: &str) -> Header {
    Header::Text(s.to_string())
}

fn chunk_offset(offset: &str) -> i64 {
    parse_append_request(&text("1.0.0"), &text("application/offset+octet-stream"), &text(offset))
        .unwrap()
}

#[test]
fn happy_path_shapefile() {
    let req = parse_create_request(
        &text("1.0.0"),
        &text("1024"),
        &Header::Absent,
        &text("name bXlsYXllcg==,upload_type c2hw"),
    )
    .ok()
    .unwrap();
    let mut layer = start_upload(req, 0x1234_5678_9abc_def0_1122_3344_5566_7788, 1_000);
    assert_eq!(layer.name, "mylayer");
    let location = location_of(layer.id);
    assert_eq!(location, format!("/layers/{}", scratch_file_name(layer.id)));
    assert_eq!(location.len(), "/layers/".len() + 36);

    let plan = layer.accept_chunk(chunk_offset("0"), 1024, layer.created_at + 1).unwrap();
    assert_eq!(prepare_chunk_file(0, plan.write_at), Ok(ChunkFileAction::Append));
    assert!(plan.complete);
    assert_eq!(layer.current_offset, 1024);

    let mut run = Ingestion::new();
    for _ in 0..12 {
        assert!(run.statement_done(true));
    }
    assert_eq!(run.stream_closed(SourceEnd::Exhausted { produced: 12 }), Finish::Commit);
    run.commit_done(true);
    assert_eq!(run.outcome(), Some(Ok(12)));
    layer.finish_ingestion(true, layer.created_at + 2);
    assert_eq!(layer.status.as_str(), "ready");
}

#[test]
fn offset_mismatch_on_retry() {
    let mut layer = start_upload(
        parse_create_request(&text("1.0.0"), &text("100"), &Header::Absent, &text("name eA==,upload_type eQ=="))
            .ok()
            .unwrap(),
        7,
        1_000,
    );
    layer.accept_chunk(chunk_offset("0"), 40, 1).unwrap();
    assert_eq!(layer.current_offset, 40);
    let err = layer.accept_chunk(chunk_offset("0"), 40, 2).unwrap_err();
    assert_eq!(err, UploadError::OffsetMismatch { expected: 40, received: 0 });
    assert_eq!(ApiError::Upload { error: err }.status(), 409);
    assert_eq!(layer.current_offset, 40);
}

#[test]
fn overflow_rejected() {
    let mut layer = start_upload(
        parse_create_request(&text("1.0.0"), &text("10"), &Header::Absent, &text("name eA==,upload_type eQ=="))
            .ok()
            .unwrap(),
        7,
        1_000,
    );
    let before = layer.updated_at;
    let err = layer.accept_chunk(chunk_offset("0"), 20, before + 5).unwrap_err();
    assert_eq!(ApiError::Upload { error: err }.status(), 413);
    assert_eq!(layer.current_offset, 0);
    assert_eq!(layer.updated_at, before);
    assert_eq!(layer.status, LayerStatus::Uploading);
}

#[test]
fn deferred_length_never_completes() {
    let mut layer = start_upload(
        parse_create_request(&text("1.0.0"), &Header::Absent, &text("1"), &text("name eA==,upload_type eQ=="))
            .ok()
            .unwrap(),
        7,
        1_000,
    );
    assert_eq!(layer.total_size, None);
    let mut offset = 0i64;
    for len in [10u64, 0, 4096, 1] {
        let plan = layer.accept_chunk(offset, len, 1).unwrap();
        assert!(!plan.complete);
        offset += len as i64;
    }
    assert_eq!(layer.current_offset, offset);
    assert_eq!(layer.status, LayerStatus::Uploading);
}

#[test]
fn parse_failure_on_completion() {
    let mut layer = start_upload(
        parse_create_request(&text("1.0.0"), &text("3"), &Header::Absent, &text("name eA==,upload_type eQ=="))
            .ok()
            .unwrap(),
        7,
        1_000,
    );
    assert!(layer.accept_chunk(0, 3, 1).unwrap().complete);
    let mut run = Ingestion::new();
    assert_eq!(run.stream_closed(SourceEnd::Failed), Finish::Rollback);
    let error = match run.outcome() {
        Some(Err(e)) => e,
        _ => panic!("expected a failed run"),
    };
    assert_eq!(error, IngestionError::Source);
    assert_eq!(ApiError::Ingestion { error }.status(), 500);
    layer.finish_ingestion(false, 2);
    assert_eq!(layer.status.as_str(), "failed");
}

#[test]
fn tile_on_missing_layer_and_empty_region() {
    let missing = tile_reply(Err("Failed to get tile: relation does not exist".to_string()));
    assert_eq!(missing.status(), 500);
    assert!(matches!(missing, TileReply::Failed { ref message } if message.contains("relation")));
    let empty = tile_reply(Ok(Vec::new()));
    assert_eq!(empty.status(), 204);
}
