//! Layer identifiers, their text forms, and the start of an upload.
use vstd::prelude::*;
use vstd::string::StringExecFns;
use crate::layer::{new_layer, Layer};
use crate::tus::CreateRequest;

verus! {

/// The sixteen lowercase hexadecimal digits.
pub open spec fn hex_digits() -> Seq<char> {
    seq!['0', '1', '2', '3', '4', '5', '6', '7', '8', '9', 'a', 'b', 'c', 'd', 'e', 'f']
}

/// The `j`-th hexadecimal digit of `id`, most significant first (`0 <= j < 32`).
pub open spec fn nibble(id: u128, j: int) -> int {
    ((id >> ((124 - 4 * j) as u128)) & 0xf) as int
}

/// The number of hyphens before position `j` of the hyphenated form.
pub open spec fn hyphens_before(j: int) -> int {
    if j < 8 {
        0
    } else if j < 13 {
        1
    } else if j < 18 {
        2
    } else if j < 23 {
        3
    } else {
        4
    }
}

/// The hyphenated lowercase form of a 128-bit identifier, its bytes big-endian:
/// groups of 8, 4, 4, 4 and 12 hexadecimal digits.
pub open spec fn uuid_text(id: u128) -> Seq<char> {
    Seq::new(
        36,
        |j: int|
            if j == 8 || j == 13 || j == 18 || j == 23 {
                '-'
            } else {
                hex_digits()[nibble(id, j - hyphens_before(j))]
            },
    )
}

/// Relies on uuid's `Uuid::from_u128` (bytes big-endian) and its `Display`, which writes
/// the hyphenated lowercase form.
#[verifier::external_body]
fn uuid_string(id: u128) -> (r: String)
    ensures
        r@ == uuid_text(id),
{
    uuid::Uuid::from_u128(id).to_string()
}

/// The path under which a layer's upload is addressed: `/layers/<id>`.
pub fn location_of(id: u128) -> (r: String)
    ensures
        r@ == "/layers/"@ + uuid_text(id),
{
    let mut loc = String::from_str("/layers/");
    let text = uuid_string(id);
    loc.append(text.as_str());
    loc
}

/// The name of a layer's scratch file: its identifier in hyphenated form.
pub fn scratch_file_name(id: u128) -> (r: String)
    ensures
        r@ == uuid_text(id),
{
    uuid_string(id)
}

/// Starts the upload that a validated creation request declares, under identifier `id`
/// and stamped `now`: in `Uploading` at offset zero.
pub fn start_upload(req: CreateRequest, id: u128, now: i64) -> (r: Layer)
    requires
        req.total_size matches Some(t) ==> t >= 0,
    ensures
        r == new_layer(id, req.name, Some(req.upload_type), req.total_size, now),
        r.wf(),
{
    Layer::create(id, req.name, Some(req.upload_type), req.total_size, now)
}

} // verus!
