use vstd::prelude::*;
use vstd::string::StringExecFns;
use crate::errors::SinkError;

verus! {

/// The bulk-ingest endpoint of one organization's stream, under the sink's
/// base address.
pub fn ingest_url(base: &str, org: &str, stream: &str) -> (r: String)
    ensures
        r@ == base@ + "/api/"@ + org@ + "/"@ + stream@ + "/_json"@,
{
    let mut url = String::from_str(base);
    url.append("/api/");
    url.append(org);
    url.append("/");
    url.append(stream);
    url.append("/_json");
    url
}

/// What the caller read off a sink ingest response, field by field and before
/// any interpretation: whether the transport status was a success, and the
/// per-batch counters of the first status descriptor, if present.
#[derive(Debug)]
pub struct SinkReply {
    pub transport_ok: bool,
    pub successful: Option<u64>,
    pub failed: Option<u64>,
}

/// The sink's own accounting of one acknowledged batch. The two counts need
/// not sum to the batch size: the sink is authoritative.
#[derive(Clone, Copy, Debug, PartialEq, Eq, Structural)]
pub struct FlushCounts {
    pub successful: u64,
    pub failed: u64,
}

/// What a sink ingest response means: a transport failure condemns the whole
/// batch; on success the status counters are read, each defaulting to zero
/// when absent.
pub open spec fn flush_outcome(reply: SinkReply) -> Result<FlushCounts, SinkError> {
    if !reply.transport_ok {
        Err(SinkError::TransportFailure)
    } else {
        Ok(FlushCounts {
            successful: if reply.successful is Some { reply.successful->0 } else { 0 },
            failed: if reply.failed is Some { reply.failed->0 } else { 0 },
        })
    }
}

/// Interpret a sink ingest response, once, at the parsing boundary. The call
/// it interprets is a single best-effort attempt: a transport failure is
/// reported, never retried here.
pub fn interpret_sink_reply(reply: SinkReply) -> (r: Result<FlushCounts, SinkError>)
    ensures
        r == flush_outcome(reply),
{
    if !reply.transport_ok {
        return Err(SinkError::TransportFailure);
    }
    let successful: u64 = match reply.successful {
        Some(n) => n,
        None => 0,
    };
    let failed: u64 = match reply.failed {
        Some(n) => n,
        None => 0,
    };
    Ok(FlushCounts { successful, failed })
}

} // verus!
