//! The pure core of one polling iteration: decode, convert, select.
//!
//! The surrounding program owns the loop: it blocks on the byte source,
//! hands each delivered buffer to [`process_report`], prints the resulting
//! record, and halts on the first error (fail fast, no partial records).

use crate::report::{DecodeError, Ina219Report, REPORT_LEN, spec_convert, spec_decode};
use crate::selection::{FieldName, FieldSelection, select_fields, spec_select};
use vstd::prelude::*;

verus! {

/// Runs one polling iteration's computation on a delivered buffer: decodes
/// the raw report, converts it to physical units, and selects the fields to
/// emit. Succeeds exactly when the buffer holds [`REPORT_LEN`] bytes; on
/// any other length it fails without producing a record, so a caller that
/// halts on the first error never emits a partial record.
pub fn process_report(buf: &[u8], sel: &FieldSelection) -> (r: Result<
    Vec<(FieldName, i64)>,
    DecodeError,
>)
    ensures
        buf@.len() == REPORT_LEN ==> (r matches Ok(fields) && fields@ == spec_select(
            spec_convert(spec_decode(buf@)),
            *sel,
        )),
        buf@.len() != REPORT_LEN ==> r == Err::<Vec<(FieldName, i64)>, DecodeError>(
            DecodeError::WrongLength { actual: buf@.len() as usize },
        ),
{
    match Ina219Report::decode(buf) {
        Ok(rep) => Ok(select_fields(&rep.to_result(), sel)),
        Err(e) => Err(e),
    }
}

/// Law: decoding a report and converting it to measurements is
/// deterministic. Identical byte buffers always yield the identical raw
/// report and the identical measurement record.
pub proof fn lemma_pipeline_deterministic(b1: Seq<u8>, b2: Seq<u8>)
    requires
        b1.len() == REPORT_LEN,
        b1 == b2,
    ensures
        spec_decode(b1) == spec_decode(b2),
        spec_convert(spec_decode(b1)) == spec_convert(spec_decode(b2)),
{
}

} // verus!
