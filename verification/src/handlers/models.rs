//! The model endpoints: `GET /api/tags`, `GET /api/ps`, and the model
//! management endpoints that this service does not implement.

use vstd::prelude::*;
use crate::clock::{is_uuid_v4_text, is_utc_rfc3339_shape, now_rfc3339, random_uuid_text};
use crate::handlers::TextReply;
use crate::models::ollama::{ModelDetails, ModelInfo, ModelList};
use crate::text::{decimal, decimal_string, join2, join3};

verus! {

/// A line for the service's status log: its level and its message.
#[derive(Clone, Debug)]
pub struct LogRecord {
    pub level: String,
    pub message: String,
}

/// The names that `GET /api/tags` lists, in order.
pub open spec fn listed_model_names() -> Seq<Seq<char>> {
    seq!["gemini:latest"@, "codellama:latest"@]
}

/// The details every listed model carries: format `t3chat`, family `t3`,
/// families `[t3]`, parameter size and quantization level `cloud`.
pub open spec fn is_t3_details(d: ModelDetails) -> bool {
    &&& d.format@ == "t3chat"@
    &&& d.family@ == "t3"@
    &&& d.families@.len() == 1
    &&& d.families@[0]@ == "t3"@
    &&& d.parameter_size@ == "cloud"@
    &&& d.quantization_level@ == "cloud"@
}

/// The entry for model `name`, modified at `modified_at`, whose digest is
/// `sha256:` followed by `id_text`; its size is 0.
pub open spec fn is_model_entry(m: ModelInfo, name: Seq<char>, modified_at: Seq<char>, id_text: Seq<char>) -> bool {
    &&& m.name@ == name
    &&& m.modified_at@ == modified_at
    &&& m.size == 0
    &&& m.digest@ == "sha256:"@ + id_text
    &&& is_t3_details(m.details)
}

/// The entry for model `name`, stamped with some UTC time and digested with
/// some random UUID.
pub open spec fn is_fresh_entry(m: ModelInfo, name: Seq<char>) -> bool {
    exists|modified_at: Seq<char>, id_text: Seq<char>|
        #![trigger is_model_entry(m, name, modified_at, id_text)]
        is_utc_rfc3339_shape(modified_at) && is_uuid_v4_text(id_text) && is_model_entry(
            m,
            name,
            modified_at,
            id_text,
        )
}

/// The details shared by every listed model.
pub fn t3_details() -> (d: ModelDetails)
    ensures
        is_t3_details(d),
{
    ModelDetails {
        format: String::from_str("t3chat"),
        family: String::from_str("t3"),
        families: vec![String::from_str("t3")],
        parameter_size: String::from_str("cloud"),
        quantization_level: String::from_str("cloud"),
    }
}

/// The entry for a model, given its modification time and the UUID text of
/// its digest.
pub fn model_info_at(name: &str, modified_at: String, id_text: &str) -> (m: ModelInfo)
    ensures
        is_model_entry(m, name@, modified_at@, id_text@),
{
    ModelInfo {
        name: String::from_str(name),
        modified_at,
        size: 0,
        digest: join2("sha256:", id_text),
        details: t3_details(),
    }
}

/// The entry for a model, stamped now, with a digest made from a fresh
/// random UUID.
pub fn create_model_info(name: &str) -> (m: ModelInfo)
    ensures
        is_fresh_entry(m, name@),
{
    let modified_at = now_rfc3339();
    let id_text = random_uuid_text();
    let ghost t = modified_at@;
    let m = model_info_at(name, modified_at, id_text.as_str());
    assert(is_model_entry(m, name@, t, id_text@));
    m
}

/// The log line for the outcome of asking the backend for its models: the
/// number of models it reported, or the reason it failed.
pub open spec fn fetch_log(fetched: Result<usize, Seq<char>>) -> (Seq<char>, Seq<char>) {
    match fetched {
        Ok(n) => ("status"@, "Successfully fetched "@ + decimal(n as nat) + " models from t3.chat"@),
        Err(e) => ("error"@, "Failed to fetch models from t3.chat: "@ + e),
    }
}

/// The log line for a backend model fetch.
pub fn fetch_log_record(fetched: &Result<usize, String>) -> (r: LogRecord)
    ensures
        (r.level@, r.message@) == fetch_log(
            match fetched {
                Ok(n) => Ok(*n),
                Err(e) => Err(e@),
            },
        ),
{
    match fetched {
        Ok(n) => {
            let count = decimal_string(*n as u64);
            LogRecord {
                level: String::from_str("status"),
                message: join3("Successfully fetched ", count.as_str(), " models from t3.chat"),
            }
        },
        Err(e) => LogRecord {
            level: String::from_str("error"),
            message: join2("Failed to fetch models from t3.chat: ", e.as_str()),
        },
    }
}

/// `GET /api/tags`: the listed models, whatever the backend reported, and
/// the log line recording how the backend fetch went.
pub fn list_models_reply(fetched: &Result<usize, String>) -> (r: (ModelList, LogRecord))
    ensures
        r.0.models@.len() == listed_model_names().len(),
        forall|i: int|
            0 <= i < r.0.models@.len() ==> is_fresh_entry(
                #[trigger] r.0.models@[i],
                listed_model_names()[i],
            ),
        (r.1.level@, r.1.message@) == fetch_log(
            match fetched {
                Ok(n) => Ok(*n),
                Err(e) => Err(e@),
            },
        ),
{
    let log = fetch_log_record(fetched);
    let first = create_model_info("gemini:latest");
    let second = create_model_info("codellama:latest");
    let models = vec![first, second];
    assert(models@[0] == first && models@[1] == second);
    (ModelList { models }, log)
}

/// `GET /api/ps`: no model is ever running locally.
pub fn list_running() -> (r: ModelList)
    ensures
        r.models@.len() == 0,
{
    ModelList { models: Vec::new() }
}

/// The reply of the model management endpoints this service does not offer.
pub fn not_implemented() -> (r: TextReply)
    ensures
        r.status == 501,
        r.body@ == "Not implemented"@,
{
    TextReply { status: 501, body: String::from_str("Not implemented") }
}

/// `POST /api/show`: not implemented.
pub fn show_model() -> (r: TextReply)
    ensures
        r.status == 501,
        r.body@ == "Not implemented"@,
{
    not_implemented()
}

/// `POST /api/copy`: not implemented.
pub fn copy_model() -> (r: TextReply)
    ensures
        r.status == 501,
        r.body@ == "Not implemented"@,
{
    not_implemented()
}

/// `DELETE /api/delete`: not implemented.
pub fn delete_model() -> (r: TextReply)
    ensures
        r.status == 501,
        r.body@ == "Not implemented"@,
{
    not_implemented()
}

/// `POST /api/pull`: every model is already available, so a pull succeeds
/// at once; the body is the `status` field.
pub fn pull_model() -> (r: TextReply)
    ensures
        r.status == 200,
        r.body@ == "success"@,
{
    TextReply { status: 200, body: String::from_str("success") }
}

} // verus!
