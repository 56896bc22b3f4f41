//! The ingest side: the shape of an inbound stream message, and the
//! extraction of a job payload from the raw message text.
//!
//! The wire protocol frames each message as a JSON object with a `type`
//! field and a `data` field; the job payload is the fixed-width slice of
//! the raw message text at offset 25 through 31 — six characters forming a
//! hexadecimal colour code. The fixed offset is coupled to the exact
//! envelope shape of the existing feed and is kept for wire compatibility.

use vstd::prelude::*;

verus! {

/// An inbound stream message, decoded from its JSON envelope: its `type`
/// tag and its `data` payload. The transport layer decodes the JSON and
/// hands the fields over as plain strings.
pub struct BitsocketResp {
    pub t: String,
    pub data: String,
}

impl BitsocketResp {
    pub fn new(t: String, data: String) -> (r: BitsocketResp)
        ensures
            r.t@ == t@,
            r.data@ == data@,
    {
        BitsocketResp { t, data }
    }
}

/// The job payload of a raw message text: the six characters at offset 25
/// through 31, defined for ASCII texts of at least 31 characters. On ASCII
/// text character offsets and the wire format's byte offsets coincide.
pub open spec fn spec_extract_job(raw: Seq<char>) -> Seq<char> {
    raw.subrange(25, 31)
}

/// Whether a raw message text is well-formed enough to carry a job: ASCII,
/// and long enough for the fixed-offset slice.
pub open spec fn job_extractable(raw: &str) -> bool {
    vstd::string::is_ascii(raw) && raw@.len() >= 31
}

/// Extracts the job payload from a raw message text: the six characters at
/// offset 25 through 31. A text too short for the slice, or one that is
/// not ASCII (so byte offsets need not match character offsets), is
/// malformed: it yields nothing and is dropped by the caller rather than
/// aborting the ingest pipeline.
pub fn extract_job(raw: &str) -> (r: Option<String>)
    ensures
        match r {
            Some(j) => job_extractable(raw) && j@ == spec_extract_job(raw@),
            None => !job_extractable(raw),
        },
{
    if raw.is_ascii() && raw.unicode_len() >= 31 {
        let job = raw.substring_ascii(25, 31);
        Some(job.to_owned())
    } else {
        None
    }
}

} // verus!
