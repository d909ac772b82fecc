use vstd::prelude::*;
use crate::errors::SourceError;

verus! {

/// What the caller read off a source response body, field by field and before
/// any validation: whether the body carried an object-shaped error, the
/// cursor token and the record array's length if present, and the advisory
/// count of matching records if present.
#[derive(Debug)]
pub struct SourceReply {
    pub error_present: bool,
    pub cursor_token: Option<String>,
    pub record_count: Option<u64>,
    pub total_matches: Option<u64>,
}

/// A validated page header: the token that fetches the next page, how many
/// records the page carries, and the source's advisory total. The records
/// themselves are opaque payloads and stay with the caller.
#[derive(Debug)]
pub struct PageHeader {
    pub cursor_token: String,
    pub record_count: u64,
    pub total_matches: u64,
}

/// What a source response body means. A body-level error is a
/// server-reported failure of the fetch; a missing cursor token or record
/// array is a protocol violation; the advisory total is display-only and
/// defaults to zero when absent.
pub open spec fn page_of(reply: SourceReply) -> Result<PageHeader, SourceError> {
    if reply.error_present {
        Err(SourceError::SourceUnavailable)
    } else if reply.cursor_token is None || reply.record_count is None {
        Err(SourceError::MalformedResponse)
    } else {
        Ok(PageHeader {
            cursor_token: reply.cursor_token->0,
            record_count: reply.record_count->0,
            total_matches: if reply.total_matches is Some { reply.total_matches->0 } else { 0 },
        })
    }
}

/// What a whole fetch round trip means. A lapsed iteration session is fatal;
/// any other unreachable or non-success transport outcome is transient; a
/// success is whatever its body says.
pub open spec fn fetch_outcome(
    transport_ok: bool,
    session_gone: bool,
    reply: SourceReply,
) -> Result<PageHeader, SourceError> {
    if session_gone {
        Err(SourceError::CursorExpired)
    } else if !transport_ok {
        Err(SourceError::SourceUnavailable)
    } else {
        page_of(reply)
    }
}

/// Validate a source response body once, at the parsing boundary.
pub fn extract_page(reply: SourceReply) -> (r: Result<PageHeader, SourceError>)
    ensures
        r == page_of(reply),
{
    if reply.error_present {
        return Err(SourceError::SourceUnavailable);
    }
    let cursor_token: String = match reply.cursor_token {
        Some(t) => t,
        None => {
            return Err(SourceError::MalformedResponse);
        },
    };
    let record_count: u64 = match reply.record_count {
        Some(n) => n,
        None => {
            return Err(SourceError::MalformedResponse);
        },
    };
    let total_matches: u64 = match reply.total_matches {
        Some(n) => n,
        None => 0,
    };
    Ok(PageHeader { cursor_token, record_count, total_matches })
}

/// Classify one fetch round trip. `transport_ok` is whether a success status
/// came back at all; `session_gone` is whether the transport outcome named
/// the iteration session as no longer held (it applies to continuation
/// fetches only — the caller passes `false` for the initial query); `reply`
/// is the body as read, with nothing present when no body could be parsed.
pub fn classify_fetch(
    transport_ok: bool,
    session_gone: bool,
    reply: SourceReply,
) -> (r: Result<PageHeader, SourceError>)
    ensures
        r == fetch_outcome(transport_ok, session_gone, reply),
{
    if session_gone {
        Err(SourceError::CursorExpired)
    } else if !transport_ok {
        Err(SourceError::SourceUnavailable)
    } else {
        extract_page(reply)
    }
}

} // verus!
