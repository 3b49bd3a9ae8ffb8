//! The per-datagram decision of the intake loop: what to do with one
//! received payload. The loop itself (socket, receive, console output)
//! lives outside the library; it hands each payload here and performs
//! the returned action, so the decode-and-report step stays free of
//! blocking operations.

use vstd::prelude::*;
use crate::header::DNSHeader;
use crate::header::DecodeError;
use crate::header::spec_header_of;

verus! {

/// What the intake loop does with one received datagram.
#[derive(Debug, Copy, Clone, PartialEq, Eq, Structural)]
pub enum IntakeAction {
    /// A zero-length datagram: drop it silently, emit no output line.
    Discard,
    /// A decoded header: emit one summary line for it.
    Report(DNSHeader),
    /// A payload the codec rejected: log the failure and continue the
    /// loop; a malformed datagram never terminates the service.
    ReportError(DecodeError),
}

/// Decide what to do with one received payload.
///
/// A zero-length datagram is discarded without invoking the codec; a
/// nonzero payload shorter than a complete header is reported as a
/// recoverable decode failure; anything else is decoded and reported.
pub fn process_datagram(payload: &[u8]) -> (r: IntakeAction)
    ensures
        payload@.len() == 0 ==> r == IntakeAction::Discard,
        0 < payload@.len() < 12 ==> r == IntakeAction::ReportError(DecodeError::TruncatedHeader),
        payload@.len() >= 12 ==> r == IntakeAction::Report(spec_header_of(payload@)),
{
    if payload.len() == 0 {
        return IntakeAction::Discard;
    }
    match DNSHeader::decode(payload) {
        Ok(header) => IntakeAction::Report(header),
        Err(error) => IntakeAction::ReportError(error),
    }
}

} // verus!
