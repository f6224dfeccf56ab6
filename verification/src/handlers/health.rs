//! The health endpoints: `GET /` and `GET /api/version`.

use vstd::prelude::*;
use crate::handlers::TextReply;

verus! {

/// `GET /`: the health check that Ollama clients probe.
pub fn root() -> (r: TextReply)
    ensures
        r.status == 200,
        r.body@ == "Ollama is running (TLlama replication layer)"@,
{
    TextReply { status: 200, body: String::from_str("Ollama is running (TLlama replication layer)") }
}

/// `GET /api/version`: the reported version, sent as the `version` field.
pub fn version() -> (r: TextReply)
    ensures
        r.status == 200,
        r.body@ == "0.1.0"@,
{
    TextReply { status: 200, body: String::from_str("0.1.0") }
}

} // verus!
