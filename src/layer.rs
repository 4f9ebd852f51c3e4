//! The layer record and the resumable upload state machine that mutates it.
use vstd::prelude::*;
use crate::status::LayerStatus;

verus! {

/// A user-submitted dataset and its upload lifecycle.
///
/// `id` is the 128-bit identifier; `created_at` and `updated_at` are UTC instants
/// in microseconds since the Unix epoch.
pub struct Layer {
    pub id: u128,
    pub status: LayerStatus,
    pub name: String,
    pub upload_type: Option<String>,
    pub total_size: Option<i64>,
    pub current_offset: i64,
    pub created_at: i64,
    pub updated_at: i64,
}

/// Why a chunk was refused. A refused chunk changes nothing.
#[derive(Clone, Copy, Debug, PartialEq, Eq, Structural)]
pub enum UploadError {
    /// The layer no longer accepts bytes.
    StateConflict { status: LayerStatus },
    /// The client's offset is not the server's; `expected` is the server's.
    OffsetMismatch { expected: i64, received: i64 },
    /// The chunk would carry the upload past its declared length
    /// (or past the largest representable offset when no length was declared).
    TooLarge,
}

/// What an accepted chunk asks of the chunk store and of the caller.
#[derive(Clone, Copy, Debug, PartialEq, Eq, Structural)]
pub struct ChunkPlan {
    /// The byte position at which the chunk's bytes are written.
    pub write_at: i64,
    /// The upload is now complete and ingestion is due.
    pub complete: bool,
}

/// How the scratch file must be prepared before a chunk is appended to it.
#[derive(Clone, Copy, Debug, PartialEq, Eq, Structural)]
pub enum ChunkFileAction {
    /// The file already ends where the chunk starts.
    Append,
    /// An interrupted earlier write left extra bytes: cut the file to this length first.
    TruncateThenAppend { len: u64 },
}

/// The scratch file is shorter than the accepted offset: bytes were lost.
#[derive(Clone, Copy, Debug, PartialEq, Eq, Structural)]
pub struct ShortChunkFile {
    pub on_disk: u64,
    pub expected: i64,
}

/// The upper end of an `i64`, as a mathematical integer.
pub open spec fn max_offset() -> int {
    0x7fff_ffff_ffff_ffff
}

/// The reason, if any, that a chunk of `len` bytes claimed to start at `expected`
/// is refused by layer `l`. Checks run in order: state, offset, size.
pub open spec fn chunk_refusal(l: Layer, expected: i64, len: u64) -> Option<UploadError> {
    if l.status != LayerStatus::Uploading {
        Some(UploadError::StateConflict { status: l.status })
    } else if expected != l.current_offset {
        Some(UploadError::OffsetMismatch { expected: l.current_offset, received: expected })
    } else if (match l.total_size {
        Some(t) => expected + len > t,
        None => expected + len > max_offset(),
    }) {
        Some(UploadError::TooLarge)
    } else {
        None
    }
}

/// Whether a layer whose offset has reached `offset` has received all declared bytes.
pub open spec fn reaches_total(total: Option<i64>, offset: int) -> bool {
    match total {
        Some(t) => offset >= t,
        None => false,
    }
}

/// Layer `l` after accepting a chunk of `len` bytes at time `now`.
pub open spec fn after_chunk(l: Layer, len: u64, now: i64) -> Layer {
    let off = l.current_offset + len;
    Layer {
        status: if reaches_total(l.total_size, off) {
            LayerStatus::Processing
        } else {
            LayerStatus::Uploading
        },
        current_offset: off as i64,
        updated_at: now,
        ..l
    }
}

/// Layer `l` once ingestion has ended at time `now`, successfully or not.
pub open spec fn after_ingestion(l: Layer, succeeded: bool, now: i64) -> Layer {
    Layer {
        status: if succeeded { LayerStatus::Ready } else { LayerStatus::Failed },
        updated_at: now,
        ..l
    }
}

/// A freshly created layer.
pub open spec fn new_layer(
    id: u128,
    name: String,
    upload_type: Option<String>,
    total_size: Option<i64>,
    now: i64,
) -> Layer {
    Layer {
        id,
        status: LayerStatus::Uploading,
        name,
        upload_type,
        total_size,
        current_offset: 0,
        created_at: now,
        updated_at: now,
    }
}

/// How a scratch file of `disk_len` bytes is prepared for a chunk written at `write_at`.
pub open spec fn file_action(disk_len: u64, write_at: i64) -> Result<ChunkFileAction, ShortChunkFile> {
    if disk_len < write_at {
        Err(ShortChunkFile { on_disk: disk_len, expected: write_at })
    } else if disk_len == write_at {
        Ok(ChunkFileAction::Append)
    } else {
        Ok(ChunkFileAction::TruncateThenAppend { len: write_at as u64 })
    }
}

/// The scratch file's bytes once `action` has been carried out on a file holding `file`
/// and the chunk `body` has been appended.
pub open spec fn bytes_after_action(file: Seq<u8>, action: ChunkFileAction, body: Seq<u8>) -> Seq<u8> {
    match action {
        ChunkFileAction::Append => file + body,
        ChunkFileAction::TruncateThenAppend { len } => file.subrange(0, len as int) + body,
    }
}

impl Layer {
    /// The offset never goes below zero nor past a declared length.
    pub open spec fn wf(&self) -> bool {
        &&& 0 <= self.current_offset
        &&& match self.total_size {
            Some(t) => self.current_offset <= t,
            None => true,
        }
    }

    /// A new layer, waiting for its first byte.
    pub fn create(
        id: u128,
        name: String,
        upload_type: Option<String>,
        total_size: Option<i64>,
        now: i64,
    ) -> (r: Layer)
        requires
            total_size matches Some(t) ==> t >= 0,
        ensures
            r == new_layer(id, name, upload_type, total_size, now),
            r.wf(),
    {
        Layer {
            id,
            status: LayerStatus::Uploading,
            name,
            upload_type,
            total_size,
            current_offset: 0,
            created_at: now,
            updated_at: now,
        }
    }

    /// Accepts or refuses a chunk of `chunk_len` bytes that the client says starts at
    /// `expected_offset`. On acceptance the offset advances by the chunk's length, the
    /// layer is stamped with `now`, and it moves to `Processing` once the declared
    /// length is reached. A refusal leaves the layer as it was.
    pub fn accept_chunk(&mut self, expected_offset: i64, chunk_len: u64, now: i64) -> (r: Result<
        ChunkPlan,
        UploadError,
    >)
        ensures
            r is Err <==> chunk_refusal(*old(self), expected_offset, chunk_len) is Some,
            r matches Err(e) ==> chunk_refusal(*old(self), expected_offset, chunk_len) == Some(e)
                && *final(self) == *old(self),
            r matches Ok(p) ==> {
                &&& *final(self) == after_chunk(*old(self), chunk_len, now)
                &&& p.write_at == old(self).current_offset
                &&& p.complete == (final(self).status == LayerStatus::Processing)
            },
            old(self).wf() ==> final(self).wf(),
    {
        if self.status != LayerStatus::Uploading {
            return Err(UploadError::StateConflict { status: self.status });
        }
        if expected_offset != self.current_offset {
            return Err(
                UploadError::OffsetMismatch { expected: self.current_offset, received: expected_offset },
            );
        }
        let reach: i128 = expected_offset as i128 + chunk_len as i128;
        let too_large = match self.total_size {
            Some(t) => reach > t as i128,
            None => reach > i64::MAX as i128,
        };
        if too_large {
            return Err(UploadError::TooLarge);
        }
        let write_at = self.current_offset;
        let off = reach as i64;
        self.current_offset = off;
        self.updated_at = now;
        let complete = match self.total_size {
            Some(t) => off >= t,
            None => false,
        };
        if complete {
            self.status = LayerStatus::Processing;
        }
        Ok(ChunkPlan { write_at, complete })
    }

    /// Records the end of ingestion: `Ready` on success, `Failed` otherwise.
    pub fn finish_ingestion(&mut self, succeeded: bool, now: i64)
        requires
            old(self).status == LayerStatus::Processing,
        ensures
            *final(self) == after_ingestion(*old(self), succeeded, now),
            old(self).wf() ==> final(self).wf(),
    {
        self.status = if succeeded {
            LayerStatus::Ready
        } else {
            LayerStatus::Failed
        };
        self.updated_at = now;
    }
}

/// Decides how to bring a scratch file of `disk_len` bytes in line with an accepted
/// chunk that starts at `write_at`. Extra bytes from an interrupted write are cut off;
/// a file shorter than `write_at` cannot be repaired and is reported.
pub fn prepare_chunk_file(disk_len: u64, write_at: i64) -> (r: Result<ChunkFileAction, ShortChunkFile>)
    requires
        write_at >= 0,
    ensures
        r == file_action(disk_len, write_at),
{
    let w = write_at as u64;
    if disk_len < w {
        Err(ShortChunkFile { on_disk: disk_len, expected: write_at })
    } else if disk_len == w {
        Ok(ChunkFileAction::Append)
    } else {
        Ok(ChunkFileAction::TruncateThenAppend { len: w })
    }
}

/// After an accepted chunk, the scratch file, prepared and appended to, holds the bytes
/// accepted before followed by the chunk, and is exactly as long as the layer's new offset,
/// provided it was at least as long as the old offset before.
pub proof fn lemma_chunk_file_tracks_offset(l: Layer, file: Seq<u8>, expected: i64, body: Seq<u8>, now: i64)
    requires
        l.wf(),
        file.len() <= u64::MAX,
        body.len() <= u64::MAX,
        file.len() >= l.current_offset,
        chunk_refusal(l, expected, body.len() as u64) is None,
    ensures
        file_action(file.len() as u64, l.current_offset) is Ok,
        bytes_after_action(file, file_action(file.len() as u64, l.current_offset)->Ok_0, body)
            == file.subrange(0, l.current_offset as int) + body,
        bytes_after_action(file, file_action(file.len() as u64, l.current_offset)->Ok_0, body).len()
            == after_chunk(l, body.len() as u64, now).current_offset,
{
    if file.len() == l.current_offset {
        assert(file.subrange(0, l.current_offset as int) == file);
    }
}

/// A layer that is `Ready` or `Failed` accepts no further bytes.
pub proof fn lemma_finished_layer_refuses_bytes(l: Layer, expected: i64, len: u64)
    requires
        l.status == LayerStatus::Ready || l.status == LayerStatus::Failed,
    ensures
        chunk_refusal(l, expected, len) == Some(UploadError::StateConflict { status: l.status }),
{
}

/// Every step of a layer's life keeps its offset between zero and its declared length,
/// and no step moves the offset backwards.
pub proof fn lemma_offset_within_total(l: Layer, expected: i64, len: u64, now: i64, succeeded: bool)
    requires
        l.wf(),
    ensures
        chunk_refusal(l, expected, len) is None ==> after_chunk(l, len, now).wf()
            && after_chunk(l, len, now).current_offset >= l.current_offset,
        after_ingestion(l, succeeded, now).wf(),
        after_ingestion(l, succeeded, now).current_offset == l.current_offset,
{
}

/// Replaying a non-empty chunk that was just accepted, at the same offset, is refused with
/// an offset mismatch that reports the server's current offset, as long as the first
/// delivery did not complete the upload.
pub proof fn lemma_replayed_chunk_is_refused(l: Layer, offset: i64, len: u64, now: i64)
    requires
        chunk_refusal(l, offset, len) is None,
        len > 0,
        after_chunk(l, len, now).status == LayerStatus::Uploading,
    ensures
        chunk_refusal(after_chunk(l, len, now), offset, len) == Some(
            UploadError::OffsetMismatch { expected: (offset + len) as i64, received: offset },
        ),
        after_chunk(l, len, now).current_offset == offset + len,
{
}

/// An empty chunk at offset zero, right after creation, is accepted and leaves the offset at zero.
pub proof fn lemma_empty_first_chunk(
    id: u128,
    name: String,
    upload_type: Option<String>,
    total_size: Option<i64>,
    created: i64,
    now: i64,
)
    requires
        total_size matches Some(t) ==> t >= 0,
    ensures
        chunk_refusal(new_layer(id, name, upload_type, total_size, created), 0, 0) is None,
        after_chunk(new_layer(id, name, upload_type, total_size, created), 0, now).current_offset == 0,
        after_chunk(new_layer(id, name, upload_type, total_size, created), 0, now).status
            == LayerStatus::Uploading <==> total_size != Some(0i64),
{
}

/// A layer declared with length zero completes on its first, empty chunk, and then ends
/// `Ready` or `Failed` depending on ingestion.
pub proof fn lemma_zero_length_completes_at_once(
    id: u128,
    name: String,
    upload_type: Option<String>,
    created: i64,
    now: i64,
    succeeded: bool,
    later: i64,
)
    ensures
        chunk_refusal(new_layer(id, name, upload_type, Some(0i64), created), 0, 0) is None,
        after_chunk(new_layer(id, name, upload_type, Some(0i64), created), 0, now).status
            == LayerStatus::Processing,
        after_ingestion(
            after_chunk(new_layer(id, name, upload_type, Some(0i64), created), 0, now),
            succeeded,
            later,
        ).status == (if succeeded { LayerStatus::Ready } else { LayerStatus::Failed }),
{
}

/// With a declared length `n` of at least two, chunks of `1` and `n - 1` bytes are both
/// accepted and only the second completes the upload.
pub proof fn lemma_completion_on_last_chunk(l: Layer, n: i64, t1: i64, t2: i64)
    requires
        l.status == LayerStatus::Uploading,
        l.current_offset == 0,
        l.total_size == Some(n),
        n >= 2,
    ensures
        chunk_refusal(l, 0, 1) is None,
        after_chunk(l, 1, t1).status == LayerStatus::Uploading,
        chunk_refusal(after_chunk(l, 1, t1), 1, (n - 1) as u64) is None,
        after_chunk(after_chunk(l, 1, t1), (n - 1) as u64, t2).status == LayerStatus::Processing,
        after_chunk(after_chunk(l, 1, t1), (n - 1) as u64, t2).current_offset == n,
{
}

/// A chunk that would carry the offset past the declared length is refused as too large.
pub proof fn lemma_overflowing_chunk_is_refused(l: Layer, len: u64)
    requires
        l.wf(),
        l.status == LayerStatus::Uploading,
        l.total_size matches Some(t) && l.current_offset + len > t,
    ensures
        chunk_refusal(l, l.current_offset, len) == Some(UploadError::TooLarge),
{
}

} // verus!
