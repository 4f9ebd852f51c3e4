//! The lifecycle states of a layer and their stored text form.
use vstd::prelude::*;
use crate::text::str_eq;

verus! {

/// Where a layer stands in its lifecycle.
#[derive(Clone, Copy, Debug, PartialEq, Eq, Structural)]
pub enum LayerStatus {
    Uploading,
    Processing,
    Ready,
    Error,
    Cancelled,
    Failed,
}

/// A stored status string that names no status.
#[derive(Clone, Debug, PartialEq, Eq)]
pub struct DecodeError {
    pub value: String,
}

/// The lowercase text under which a status is stored.
pub open spec fn status_text(s: LayerStatus) -> Seq<char> {
    match s {
        LayerStatus::Uploading => "uploading"@,
        LayerStatus::Processing => "processing"@,
        LayerStatus::Ready => "ready"@,
        LayerStatus::Error => "error"@,
        LayerStatus::Cancelled => "cancelled"@,
        LayerStatus::Failed => "failed"@,
    }
}

/// Distinct statuses are stored under distinct texts, so a stored status reads back as itself.
pub proof fn lemma_status_text_injective(a: LayerStatus, b: LayerStatus)
    ensures
        status_text(a) == status_text(b) ==> a == b,
{
    reveal_strlit("uploading");
    reveal_strlit("processing");
    reveal_strlit("ready");
    reveal_strlit("error");
    reveal_strlit("cancelled");
    reveal_strlit("failed");
    if status_text(a) == status_text(b) {
        assert(status_text(a).len() == status_text(b).len());
        assert(status_text(a)[0] == status_text(b)[0]);
    }
}

impl LayerStatus {
    /// The stored text of this status.
    pub fn as_str(&self) -> (r: &'static str)
        ensures
            r@ == status_text(*self),
    {
        match self {
            LayerStatus::Uploading => {
                proof { reveal_strlit("uploading"); }
                "uploading"
            },
            LayerStatus::Processing => {
                proof { reveal_strlit("processing"); }
                "processing"
            },
            LayerStatus::Ready => {
                proof { reveal_strlit("ready"); }
                "ready"
            },
            LayerStatus::Error => {
                proof { reveal_strlit("error"); }
                "error"
            },
            LayerStatus::Cancelled => {
                proof { reveal_strlit("cancelled"); }
                "cancelled"
            },
            LayerStatus::Failed => {
                proof { reveal_strlit("failed"); }
                "failed"
            },
        }
    }

    /// Reads a stored status; any text that is not exactly one status's text is refused.
    pub fn parse(s: &str) -> (r: Result<LayerStatus, DecodeError>)
        ensures
            r matches Ok(st) ==> status_text(st) == s@,
            r is Err ==> (forall|st: LayerStatus| status_text(st) != s@),
            r matches Err(e) ==> e.value@ == s@,
    {
        proof {
            reveal_strlit("uploading");
            reveal_strlit("processing");
            reveal_strlit("ready");
            reveal_strlit("error");
            reveal_strlit("cancelled");
            reveal_strlit("failed");
        }
        if str_eq(s, "uploading") {
            Ok(LayerStatus::Uploading)
        } else if str_eq(s, "processing") {
            Ok(LayerStatus::Processing)
        } else if str_eq(s, "ready") {
            Ok(LayerStatus::Ready)
        } else if str_eq(s, "error") {
            Ok(LayerStatus::Error)
        } else if str_eq(s, "cancelled") {
            Ok(LayerStatus::Cancelled)
        } else if str_eq(s, "failed") {
            Ok(LayerStatus::Failed)
        } else {
            assert forall|st: LayerStatus| status_text(st) != s@ by {
                match st {
                    LayerStatus::Uploading => {},
                    LayerStatus::Processing => {},
                    LayerStatus::Ready => {},
                    LayerStatus::Error => {},
                    LayerStatus::Cancelled => {},
                    LayerStatus::Failed => {},
                }
            }
            Err(DecodeError { value: s.to_owned() })
        }
    }
}

} // verus!
