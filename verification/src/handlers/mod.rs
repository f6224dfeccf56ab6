//! The logic of the Ollama endpoints: what each handler sends to the
//! backend and what it answers.

pub mod chat;
pub mod generate;
pub mod health;
pub mod models;

use vstd::prelude::*;
use crate::text::push_char;

verus! {

/// A reply made of an HTTP status and a plain body.
#[derive(Clone, Debug)]
pub struct TextReply {
    pub status: u16,
    pub body: String,
}

/// The reply sent when the backend call fails: the status and the text of
/// the `error` field.
#[derive(Clone, Debug)]
pub struct ErrorReply {
    pub status: u16,
    pub error: String,
}

/// The backend failure reply: status 500 with the failure's message.
pub fn backend_error(message: String) -> (r: ErrorReply)
    ensures
        r.status == 500,
        r.error@ == message@,
{
    ErrorReply { status: 500, error: message }
}

/// A duration in nanoseconds converted the way `as u64` does: its low
/// 64 bits.
pub open spec fn nanos_u64(n: u128) -> u64 {
    (n % 0x1_0000_0000_0000_0000) as u64
}

/// The elapsed time of a request, in nanoseconds, as the Ollama duration
/// fields carry it.
pub fn duration_nanos(n: u128) -> (r: u64)
    ensures
        r == nanos_u64(n),
{
    let r: u64 = n as u64;
    assert(r as u128 == n % 0x1_0000_0000_0000_0000u128) by (bit_vector)
        requires
            r == n as u64,
    ;
    r
}

/// The convex session id as the T3 Chat backend expects it: wrapped in
/// double quotes.
pub fn quoted_session_id(id: &str) -> (r: String)
    ensures
        r@ == seq!['"'] + id@ + seq!['"'],
{
    let mut r = String::new();
    push_char(&mut r, '"');
    r.append(id);
    push_char(&mut r, '"');
    assert(r@ =~= seq!['"'] + id@ + seq!['"']);
    r
}

} // verus!
