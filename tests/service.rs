use gridwalk_backend::config::{Config, ConfigError, ConfigVars};
use gridwalk_backend::http::{default_limit, tile_reply, ApiError, LayersQuery, TileReply};
use gridwalk_backend::ids::{location_of, scratch_file_name, start_upload};
use gridwalk_backend::ingest::IngestionError;
use gridwalk_backend::layer::UploadError;
use gridwalk_backend::status::LayerStatus;
use gridwalk_backend::tus::{CreateRequest, ValidationError};

#[test]
fn tile_replies() {
    match tile_reply(Ok(vec![1, 2, 3])) {
        TileReply::Tile { body } => assert_eq!(body, vec![1, 2, 3]),
        _ => panic!("expected a tile"),
    }
    let empty = tile_reply(Ok(Vec::new()));
    assert!(matches!(empty, TileReply::NoContent));
    assert_eq!(empty.status(), 204);
    let failed = tile_reply(Err("relation does not exist".to_string()));
    assert_eq!(failed.status(), 500);
    match failed {
        TileReply::Failed { message } => assert_eq!(message, "relation does not exist"),
        _ => panic!("expected a failure"),
    }
    assert_eq!(tile_reply(Ok(vec![0])).status(), 200);
}

#[test]
fn error_statuses() {
    assert_eq!(ApiError::Validation { error: ValidationError::MissingName }.status(), 400);
    assert_eq!(ApiError::NotFound.status(), 404);
    assert_eq!(ApiError::Upload { error: UploadError::OffsetMismatch { expected: 40, received: 0 } }.status(), 409);
    assert_eq!(ApiError::Upload { error: UploadError::StateConflict { status: LayerStatus::Ready } }.status(), 409);
    assert_eq!(ApiError::Upload { error: UploadError::TooLarge }.status(), 413);
    assert_eq!(ApiError::Storage.status(), 500);
    assert_eq!(ApiError::Ingestion { error: IngestionError::Source }.status(), 500);
}

#[test]
fn listing_defaults() {
    assert_eq!(default_limit(), 50);
    assert_eq!(LayersQuery::from_params(None, None), LayersQuery { limit: 50, offset: 0 });
    assert_eq!(LayersQuery::from_params(Some(5), Some(10)), LayersQuery { limit: 5, offset: 10 });
}

#[test]
fn identifier_texts() {
    let id: u128 = 0x0123_4567_89ab_cdef_0011_2233_4455_6677;
    assert_eq!(scratch_file_name(id), "01234567-89ab-cdef-0011-223344556677");
    assert_eq!(location_of(id), "/layers/01234567-89ab-cdef-0011-223344556677");
    assert_eq!(location_of(0), "/layers/00000000-0000-0000-0000-000000000000");
}

#[test]
fn started_upload_is_fresh() {
    let req = CreateRequest { total_size: Some(1024), name: "mylayer".to_string(), upload_type: "shp".to_string() };
    let a = start_upload(req, 42, 1_700_000_000_000_000);
    assert_eq!(a.id, 42);
    assert_eq!(a.status, LayerStatus::Uploading);
    assert_eq!(a.current_offset, 0);
    assert_eq!(a.total_size, Some(1024));
    assert_eq!(a.name, "mylayer");
    assert_eq!(a.upload_type.as_deref(), Some("shp"));
    assert_eq!(a.created_at, 1_700_000_000_000_000);
    assert_eq!(a.updated_at, 1_700_000_000_000_000);
    let b = start_upload(CreateRequest { total_size: None, name: "x".to_string(), upload_type: "gpkg".to_string() }, 43, 5);
    assert_eq!(b.total_size, None);
    assert_eq!(b.id, 43);
}

fn vars() -> ConfigVars {
    ConfigVars {
        database_user: Some("admin".to_string()),
        database_password: Some("pw".to_string()),
        database_host: Some("db".to_string()),
        database_name: Some("gridwalk".to_string()),
        database_port: None,
        database_disable_ssl: None,
        database_max_connections: None,
        postgis_max_connections: None,
        database_schema: None,
        layer_schema: None,
        temp_data_path: None,
    }
}

#[test]
fn config_defaults() {
    let c = match Config::from_vars(vars()) {
        Ok(c) => c,
        Err(_) => panic!("config refused"),
    };
    assert_eq!(c.app_db.port, 5432);
    assert_eq!(c.app_db.max_connections, 20);
    assert_eq!(c.spatial_db.max_connections, 10);
    assert_eq!(c.app_db.schema, "public");
    assert_eq!(c.spatial_db.schema, "gridwalk_layer_data");
    assert_eq!(c.spatial_db.user, "admin");
    assert_eq!(c.temp_data_path, "/tmp");
    assert!(!c.app_db.disable_ssl);
}

#[test]
fn config_values_and_errors() {
    let mut v = vars();
    v.database_disable_ssl = Some("TRUE".to_string());
    v.database_port = Some("6543".to_string());
    let c = match Config::from_vars(v) {
        Ok(c) => c,
        Err(_) => panic!("config refused"),
    };
    assert!(c.app_db.disable_ssl && c.spatial_db.disable_ssl);
    assert_eq!(c.spatial_db.port, 6543);

    let mut v = vars();
    v.database_host = None;
    match Config::from_vars(v) {
        Err(ConfigError::MissingVar(n)) => assert_eq!(n, "DATABASE_HOST"),
        _ => panic!("expected a missing variable"),
    }
    let mut v = vars();
    v.database_port = Some("70000".to_string());
    match Config::from_vars(v) {
        Err(ConfigError::InvalidValue(n, val)) => {
            assert_eq!(n, "DATABASE_PORT");
            assert_eq!(val, "70000".parse::<u16>().unwrap_err().to_string());
            assert_eq!(val, "number too large to fit in target type");
        }
        _ => panic!("expected an invalid value"),
    }
    let mut v = vars();
    v.database_max_connections = Some("".to_string());
    match Config::from_vars(v) {
        Err(ConfigError::InvalidValue(n, val)) => {
            assert_eq!(n, "PG_MAX_CONNECTIONS");
            assert_eq!(val, "cannot parse integer from empty string");
        }
        _ => panic!("expected an invalid value"),
    }
    let mut v = vars();
    v.postgis_max_connections = Some("-3".to_string());
    match Config::from_vars(v) {
        Err(ConfigError::InvalidValue(n, val)) => {
            assert_eq!(n, "POSTGIS_MAX_CONNECTIONS");
            assert_eq!(val, "invalid digit found in string");
        }
        _ => panic!("expected an invalid value"),
    }
}
