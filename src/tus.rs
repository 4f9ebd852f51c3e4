//! The request headers of the resumable upload protocol.
use vstd::prelude::*;
use crate::numeric::{i64_of, parse_i64};
use crate::text::{find_char, is_first, split_on, split_on_char, str_eq, trim, trim_seq};

verus! {

/// A request header as received: absent, present but not readable as visible ASCII
/// text, or present with its text.
pub enum Header {
    Absent,
    Unreadable,
    Text(String),
}

/// A malformed request. Each variant names the header at fault and why.
#[derive(Clone, Copy, Debug, PartialEq, Eq, Structural)]
pub enum ValidationError {
    MissingTusResumable,
    InvalidUploadLength,
    UploadLengthNotInteger,
    NegativeUploadLength,
    InvalidDeferLength,
    DeferLengthNotOne,
    MissingUploadLength,
    BothLengths,
    MissingMetadata,
    InvalidMetadata,
    MissingName,
    MissingUploadType,
    MissingContentType,
    WrongContentType,
    MissingUploadOffset,
    UploadOffsetNotInteger,
}

/// What a creation request declares.
pub struct CreateRequest {
    /// The declared length in bytes; `None` when the length is deferred.
    pub total_size: Option<i64>,
    pub name: String,
    pub upload_type: String,
}

/// The metadata values that creation reads.
pub struct UploadMetadata {
    pub name: Option<String>,
    pub upload_type: Option<String>,
}

/// The bytes that standard, padded base64 text decodes to, or `None` when it is not valid.
pub uninterp spec fn base64_decoded(s: Seq<char>) -> Option<Seq<u8>>;

/// The text that bytes spell as UTF-8, or `None` when they are not valid UTF-8.
pub uninterp spec fn utf8_text(b: Seq<u8>) -> Option<Seq<char>>;

/// Relies on base64's `BASE64_STANDARD.decode`: standard alphabet with padding; the
/// result depends on the text alone, and invalid text gives an error, never a panic.
#[verifier::external_body]
fn decode_base64(s: &str) -> (r: Option<Vec<u8>>)
    ensures
        r matches Some(v) ==> base64_decoded(s@) == Some(v@),
        r is None ==> base64_decoded(s@) is None,
{
    base64::Engine::decode(&base64::prelude::BASE64_STANDARD, s).ok()
}

/// Relies on `String::from_utf8`: the text of valid UTF-8 bytes, an error otherwise.
#[verifier::external_body]
fn utf8_string(b: Vec<u8>) -> (r: Option<String>)
    ensures
        r matches Some(t) ==> utf8_text(b@) == Some(t@),
        r is None ==> utf8_text(b@) is None,
{
    String::from_utf8(b).ok()
}

pub open spec fn header_text(h: Header) -> Option<Seq<char>> {
    match h {
        Header::Text(t) => Some(t@),
        _ => None,
    }
}

pub open spec fn opt_view(o: Option<String>) -> Option<Seq<char>> {
    match o {
        Some(s) => Some(s@),
        None => None,
    }
}

/// A metadata value: base64 text that decodes to UTF-8.
pub open spec fn decoded_value(v: Seq<char>) -> Option<Seq<char>> {
    match base64_decoded(v) {
        Some(b) => utf8_text(b),
        None => None,
    }
}

/// A trimmed metadata pair split at its first space into key and encoded value.
pub open spec fn key_and_value(t: Seq<char>) -> Option<(Seq<char>, Seq<char>)> {
    if exists|k: int| is_first(t, ' ', k) {
        let k = choose|k: int| is_first(t, ' ', k);
        Some((t.subrange(0, k), t.subrange(k + 1, t.len() as int)))
    } else {
        None
    }
}

/// The key and decoded value of one comma-separated metadata piece, when it has both
/// and the value decodes.
pub open spec fn metadata_entry(piece: Seq<char>) -> Option<(Seq<char>, Seq<char>)> {
    match key_and_value(trim_seq(piece)) {
        Some(kv) => match decoded_value(kv.1) {
            Some(text) => Some((kv.0, text)),
            None => None,
        },
        None => None,
    }
}

/// The value of the last well-formed piece whose key is `key`.
pub open spec fn metadata_lookup(pieces: Seq<Seq<char>>, key: Seq<char>) -> Option<Seq<char>>
    decreases pieces.len(),
{
    if pieces.len() == 0 {
        None
    } else {
        match metadata_entry(pieces.last()) {
            Some(e) => if e.0 == key {
                Some(e.1)
            } else {
                metadata_lookup(pieces.drop_last(), key)
            },
            None => metadata_lookup(pieces.drop_last(), key),
        }
    }
}

/// The value that an `Upload-Metadata` header gives to `key`.
pub open spec fn metadata_value(header: Seq<char>, key: Seq<char>) -> Option<Seq<char>> {
    metadata_lookup(split_on(header, ','), key)
}

/// Reads one metadata piece.
fn metadata_piece(piece: &str) -> (r: Option<(String, String)>)
    ensures
        r matches Some(e) ==> metadata_entry(piece@) == Some((e.0@, e.1@)),
        r is None ==> metadata_entry(piece@) is None,
{
    let t = trim(piece);
    match find_char(t, ' ') {
        Some(k) => {
            proof {
                let kk = choose|k: int| is_first(t@, ' ', k);
                assert(is_first(t@, ' ', kk));
                if kk < k {
                    assert(t@[kk] == ' ');
                } else if k < kk {
                    assert(t@[k as int] == ' ');
                }
                assert(kk == k);
            }
            let key = t.substring_char(0, k).to_owned();
            let tl = t.unicode_len();
            let raw = t.substring_char(k + 1, tl);
            match decode_base64(raw) {
                Some(bytes) => match utf8_string(bytes) {
                    Some(text) => Some((key, text)),
                    None => None,
                },
                None => None,
            }
        },
        None => {
            assert(!exists|k: int| is_first(t@, ' ', k));
            None
        },
    }
}

/// Reads the `name` and `upload_type` values of an `Upload-Metadata` header:
/// comma-separated pieces, each a key, a space and a base64 value. Pieces that do not
/// have this shape, or whose value is not base64 of UTF-8 text, are passed over; a key
/// that comes twice takes its last value.
pub fn parse_metadata(header: &str) -> (r: UploadMetadata)
    ensures
        opt_view(r.name) == metadata_value(header@, "name"@),
        opt_view(r.upload_type) == metadata_value(header@, "upload_type"@),
{
    let pieces = split_on_char(header, ',');
    let ghost all = split_on(header@, ',');
    let mut name: Option<String> = None;
    let mut upload_type: Option<String> = None;
    let mut i: usize = 0;
    proof {
        reveal_strlit("name");
        reveal_strlit("upload_type");
        assert(all.subrange(0, 0) =~= Seq::<Seq<char>>::empty());
    }
    while i < pieces.len()
        invariant
            pieces@.len() == all.len(),
            forall|j: int| 0 <= j < pieces@.len() ==> #[trigger] pieces@[j]@ == all[j],
            i <= pieces@.len(),
            opt_view(name) == metadata_lookup(all.subrange(0, i as int), "name"@),
            opt_view(upload_type) == metadata_lookup(all.subrange(0, i as int), "upload_type"@),
        decreases pieces@.len() - i,
    {
        proof {
            let p = all.subrange(0, i + 1);
            assert(p.drop_last() == all.subrange(0, i as int));
            assert(p.last() == pieces@[i as int]@);
            reveal_strlit("name");
            reveal_strlit("upload_type");
            assert("name"@.len() != "upload_type"@.len());
        }
        match metadata_piece(pieces[i].as_str()) {
            Some(entry) => {
                let (key, value) = entry;
                if str_eq(key.as_str(), "name") {
                    name = Some(value);
                } else if str_eq(key.as_str(), "upload_type") {
                    upload_type = Some(value);
                }
            },
            None => {},
        }
        i = i + 1;
    }
    proof {
        assert(all.subrange(0, pieces@.len() as int) == all);
    }
    UploadMetadata { name, upload_type }
}

/// The declared length, or the validation error, that the length headers of a creation
/// request give: exactly one of `Upload-Length` and `Upload-Defer-Length` must be present,
/// the first a non-negative integer, the second `1`.
pub open spec fn declared_length(length: Header, defer: Header) -> Result<Option<i64>, ValidationError> {
    if !(length is Absent) && !(defer is Absent) {
        Err(ValidationError::BothLengths)
    } else {
        match length {
            Header::Text(t) => match i64_of(t@) {
                Some(v) => if v < 0 {
                    Err(ValidationError::NegativeUploadLength)
                } else {
                    Ok(Some(v))
                },
                None => Err(ValidationError::UploadLengthNotInteger),
            },
            Header::Unreadable => Err(ValidationError::InvalidUploadLength),
            Header::Absent => match defer {
                Header::Text(d) => if d@ == "1"@ {
                    Ok(None)
                } else {
                    Err(ValidationError::DeferLengthNotOne)
                },
                Header::Unreadable => Err(ValidationError::InvalidDeferLength),
                Header::Absent => Err(ValidationError::MissingUploadLength),
            },
        }
    }
}

/// What a creation request declares (length, name, upload type), or the first problem
/// with its headers, checked in the order: protocol version, length, metadata.
pub open spec fn create_outcome(tus: Header, length: Header, defer: Header, metadata: Header) -> Result<
    (Option<i64>, Seq<char>, Seq<char>),
    ValidationError,
> {
    if header_text(tus) is None {
        Err(ValidationError::MissingTusResumable)
    } else {
        match declared_length(length, defer) {
            Err(e) => Err(e),
            Ok(total) => match metadata {
                Header::Absent => Err(ValidationError::MissingMetadata),
                Header::Unreadable => Err(ValidationError::InvalidMetadata),
                Header::Text(m) => match metadata_value(m@, "name"@) {
                    None => Err(ValidationError::MissingName),
                    Some(n) => match metadata_value(m@, "upload_type"@) {
                        None => Err(ValidationError::MissingUploadType),
                        Some(u) => Ok((total, n, u)),
                    },
                },
            },
        }
    }
}

/// The media type that a chunk must be sent with.
pub open spec fn chunk_media_type() -> Seq<char> {
    "application/offset+octet-stream"@
}

/// The offset that a chunk request claims, or the first problem with its headers,
/// checked in the order: protocol version, content type, offset.
pub open spec fn append_outcome(tus: Header, content_type: Header, offset: Header) -> Result<
    i64,
    ValidationError,
> {
    if header_text(tus) is None {
        Err(ValidationError::MissingTusResumable)
    } else {
        match header_text(content_type) {
            None => Err(ValidationError::MissingContentType),
            Some(c) => if c != chunk_media_type() {
                Err(ValidationError::WrongContentType)
            } else {
                match header_text(offset) {
                    None => Err(ValidationError::MissingUploadOffset),
                    Some(o) => match i64_of(o) {
                        Some(v) => Ok(v),
                        None => Err(ValidationError::UploadOffsetNotInteger),
                    },
                }
            },
        }
    }
}

fn declared_length_of(length: &Header, defer: &Header) -> (r: Result<Option<i64>, ValidationError>)
    ensures
        r == declared_length(*length, *defer),
{
    let length_present = match length {
        Header::Absent => false,
        _ => true,
    };
    let defer_present = match defer {
        Header::Absent => false,
        _ => true,
    };
    if length_present && defer_present {
        return Err(ValidationError::BothLengths);
    }
    match length {
        Header::Text(t) => match parse_i64(t.as_str()) {
            Some(v) => if v < 0 {
                Err(ValidationError::NegativeUploadLength)
            } else {
                Ok(Some(v))
            },
            None => Err(ValidationError::UploadLengthNotInteger),
        },
        Header::Unreadable => Err(ValidationError::InvalidUploadLength),
        Header::Absent => match defer {
            Header::Text(d) => {
                proof {
                    reveal_strlit("1");
                }
                if str_eq(d.as_str(), "1") {
                    Ok(None)
                } else {
                    Err(ValidationError::DeferLengthNotOne)
                }
            },
            Header::Unreadable => Err(ValidationError::InvalidDeferLength),
            Header::Absent => Err(ValidationError::MissingUploadLength),
        },
    }
}

/// Reads the headers of a creation request: `Tus-Resumable`, one of `Upload-Length` and
/// `Upload-Defer-Length`, and `Upload-Metadata` with a `name` and an `upload_type`.
pub fn parse_create_request(tus: &Header, length: &Header, defer: &Header, metadata: &Header) -> (r:
    Result<CreateRequest, ValidationError>)
    ensures
        r matches Ok(c) ==> create_outcome(*tus, *length, *defer, *metadata) == Ok::<
            (Option<i64>, Seq<char>, Seq<char>),
            ValidationError,
        >((c.total_size, c.name@, c.upload_type@)),
        r matches Err(e) ==> create_outcome(*tus, *length, *defer, *metadata) == Err::<
            (Option<i64>, Seq<char>, Seq<char>),
            ValidationError,
        >(e),
{
    match tus {
        Header::Text(_) => {},
        _ => {
            return Err(ValidationError::MissingTusResumable);
        },
    }
    let total_size = match declared_length_of(length, defer) {
        Ok(t) => t,
        Err(e) => {
            return Err(e);
        },
    };
    let m = match metadata {
        Header::Text(m) => m,
        Header::Absent => {
            return Err(ValidationError::MissingMetadata);
        },
        Header::Unreadable => {
            return Err(ValidationError::InvalidMetadata);
        },
    };
    let meta = parse_metadata(m.as_str());
    let name = match meta.name {
        Some(n) => n,
        None => {
            return Err(ValidationError::MissingName);
        },
    };
    let upload_type = match meta.upload_type {
        Some(u) => u,
        None => {
            return Err(ValidationError::MissingUploadType);
        },
    };
    Ok(CreateRequest { total_size, name, upload_type })
}

/// Reads the headers of a chunk request: `Tus-Resumable`, a `Content-Type` of
/// `application/offset+octet-stream`, and the `Upload-Offset` the chunk starts at.
pub fn parse_append_request(tus: &Header, content_type: &Header, offset: &Header) -> (r: Result<
    i64,
    ValidationError,
>)
    ensures
        r == append_outcome(*tus, *content_type, *offset),
{
    match tus {
        Header::Text(_) => {},
        _ => {
            return Err(ValidationError::MissingTusResumable);
        },
    }
    let c = match content_type {
        Header::Text(c) => c,
        _ => {
            return Err(ValidationError::MissingContentType);
        },
    };
    proof {
        reveal_strlit("application/offset+octet-stream");
    }
    if !str_eq(c.as_str(), "application/offset+octet-stream") {
        return Err(ValidationError::WrongContentType);
    }
    match offset {
        Header::Text(o) => match parse_i64(o.as_str()) {
            Some(v) => Ok(v),
            None => Err(ValidationError::UploadOffsetNotInteger),
        },
        _ => Err(ValidationError::MissingUploadOffset),
    }
}

} // verus!
