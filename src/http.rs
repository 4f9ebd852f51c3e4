//! What the HTTP surface answers: status codes, tile replies and listing parameters.
use vstd::prelude::*;
use crate::ingest::IngestionError;
use crate::layer::{ShortChunkFile, UploadError};
use crate::tus::ValidationError;

verus! {

/// The protocol version that every reply carries in `Tus-Resumable`.
pub const TUS_VERSION: &'static str = "1.0.0";

/// The media type of a tile.
pub const TILE_MEDIA_TYPE: &'static str = "application/vnd.mapbox-vector-tile";

/// How long a tile may be cached, in seconds.
pub const TILE_MAX_AGE_SECS: u32 = 3600;

/// The `Cache-Control` value of a tile.
pub const TILE_CACHE_CONTROL: &'static str = "public, max-age=3600";

/// The `Access-Control-Allow-Origin` value of a tile.
pub const TILE_ALLOW_ORIGIN: &'static str = "*";

/// The number of layers a listing returns when the caller names no limit.
pub fn default_limit() -> (r: u64)
    ensures
        r == 50,
{
    50
}

/// The paging of a layer listing.
#[derive(Clone, Copy, Debug, PartialEq, Eq, Structural)]
pub struct LayersQuery {
    pub limit: u64,
    pub offset: u64,
}

impl LayersQuery {
    /// The paging that a request asks for, with the limit defaulting to 50 and the
    /// offset to 0.
    pub fn from_params(limit: Option<u64>, offset: Option<u64>) -> (r: LayersQuery)
        ensures
            r.limit == (match limit {
                Some(l) => l,
                None => 50,
            }),
            r.offset == (match offset {
                Some(o) => o,
                None => 0,
            }),
    {
        LayersQuery {
            limit: match limit {
                Some(l) => l,
                None => default_limit(),
            },
            offset: match offset {
                Some(o) => o,
                None => 0,
            },
        }
    }
}

/// Every failure a request can meet.
#[allow(inconsistent_fields)]
#[derive(Clone, Copy, Debug, PartialEq, Eq, Structural)]
pub enum ApiError {
    /// Malformed headers.
    Validation { error: ValidationError },
    /// No layer has the identifier.
    NotFound,
    /// The upload state machine refused the chunk.
    Upload { error: UploadError },
    /// A store could not be read or written.
    Storage,
    /// The scratch file lost bytes that the layer had accepted.
    ChunkFile { error: ShortChunkFile },
    /// Ingestion failed; the layer is marked failed.
    Ingestion { error: IngestionError },
}

/// The HTTP status of each failure.
pub open spec fn api_status(e: ApiError) -> u16 {
    match e {
        ApiError::Validation { .. } => 400,
        ApiError::NotFound => 404,
        ApiError::Upload { error } => match error {
            UploadError::TooLarge => 413,
            _ => 409,
        },
        ApiError::Storage => 500,
        ApiError::ChunkFile { .. } => 500,
        ApiError::Ingestion { .. } => 500,
    }
}

impl ApiError {
    /// The HTTP status that answers this failure.
    pub fn status(&self) -> (r: u16)
        ensures
            r == api_status(*self),
    {
        match self {
            ApiError::Validation { .. } => 400,
            ApiError::NotFound => 404,
            ApiError::Upload { error } => match error {
                UploadError::TooLarge => 413,
                _ => 409,
            },
            ApiError::Storage => 500,
            ApiError::ChunkFile { .. } => 500,
            ApiError::Ingestion { .. } => 500,
        }
    }
}

/// The answer to a tile request.
pub enum TileReply {
    /// A tile with features: its bytes, served with the tile headers.
    Tile { body: Vec<u8> },
    /// No feature meets the tile.
    NoContent,
    /// The spatial store failed, with its message.
    Failed { message: String },
}

/// Answers a tile request from what the spatial store returned.
pub fn tile_reply(fetched: Result<Vec<u8>, String>) -> (r: TileReply)
    ensures
        r == (match fetched {
            Ok(b) => if b@.len() == 0 {
                TileReply::NoContent
            } else {
                TileReply::Tile { body: b }
            },
            Err(m) => TileReply::Failed { message: m },
        }),
{
    match fetched {
        Ok(body) => {
            if body.len() == 0 {
                TileReply::NoContent
            } else {
                TileReply::Tile { body }
            }
        },
        Err(message) => TileReply::Failed { message },
    }
}

impl TileReply {
    /// The HTTP status of this reply.
    pub fn status(&self) -> (r: u16)
        ensures
            r == (match *self {
                TileReply::Tile { body: _ } => 200u16,
                TileReply::NoContent => 204u16,
                TileReply::Failed { message: _ } => 500u16,
            }),
    {
        match self {
            TileReply::Tile { .. } => 200,
            TileReply::NoContent => 204,
            TileReply::Failed { .. } => 500,
        }
    }
}

} // verus!
