//! Responses of the file routes. The file store is a collaborator: it runs
//! the operation and encodes its result as JSON, and these functions turn
//! each outcome into a response.
use crate::http::{attachment_ok, attachment_pairs, internal_error, is_internal_error, json_ok};
use crate::http::{envelope_pairs, pairs, HttpResponse, Payload, STATUS_OK};
use crate::media::{extension_of, extension_spec, media_type_for, media_type_spec};
use vstd::prelude::*;
use vstd::string::*;

verus! {

/// The outcome of a file-store operation whose result goes back as JSON.
#[derive(Clone, Debug)]
pub enum Fetched {
    /// The operation succeeded; its result, encoded as JSON.
    Document { json: String },
    /// The operation failed, with the store's message.
    CallFailed { detail: String },
    /// The operation succeeded but its result could not be encoded.
    EncodeFailed { detail: String },
}

/// The result of a delete attempt.
#[derive(Clone, Debug)]
pub struct DeleteFileStatus {
    pub id: String,
    pub object: String,
    pub deleted: bool,
}

/// A successful JSON response that carries `json`.
pub open spec fn is_json_ok(r: HttpResponse, json: Seq<char>) -> bool {
    &&& r.status == STATUS_OK
    &&& pairs(r.headers@) == envelope_pairs("application/json"@)
    &&& r.body matches Payload::Text(t) && t@ == json
}

/// The response to a JSON outcome: the document on success; on failure an
/// internal error whose message is the store's or the encoder's, each with
/// its own lead-in.
pub open spec fn fetched_response(
    r: HttpResponse,
    f: Fetched,
    call_lead: Seq<char>,
    encode_lead: Seq<char>,
) -> bool {
    match f {
        Fetched::Document { json } => is_json_ok(r, json@),
        Fetched::CallFailed { detail } => is_internal_error(r, call_lead + detail@),
        Fetched::EncodeFailed { detail } => is_internal_error(r, encode_lead + detail@),
    }
}

fn respond_fetched(f: Fetched, call_lead: &str, encode_lead: &str) -> (r: HttpResponse)
    ensures
        fetched_response(r, f, call_lead@, encode_lead@),
{
    match f {
        Fetched::Document { json } => json_ok(json),
        Fetched::CallFailed { detail } => {
            let message = String::from_str(call_lead).concat(detail.as_str());
            internal_error(message.as_str())
        },
        Fetched::EncodeFailed { detail } => {
            let message = String::from_str(encode_lead).concat(detail.as_str());
            internal_error(message.as_str())
        },
    }
}

/// The response to an upload.
pub fn upload_file(f: Fetched) -> (r: HttpResponse)
    ensures
        fetched_response(r, f, ""@, "Failed to serialize file object. "@),
{
    respond_fetched(f, "", "Failed to serialize file object. ")
}

/// The response to a listing of all files.
pub fn list_files(f: Fetched) -> (r: HttpResponse)
    ensures
        fetched_response(r, f, "Failed to list all files. "@, "Failed to serialize file list. "@),
{
    respond_fetched(f, "Failed to list all files. ", "Failed to serialize file list. ")
}

/// The lead-in of a failed lookup of the file `id`; it names the id.
pub open spec fn lookup_failed_lead(id: Seq<char>) -> Seq<char> {
    "Failed to retrieve the file with id "@ + id + ". "@
}

fn lookup_failed(id: &str) -> (r: String)
    ensures
        r@ == lookup_failed_lead(id@),
{
    String::from_str("Failed to retrieve the file with id ").concat(id).concat(". ")
}

/// The response to a metadata lookup of the file `id`.
pub fn retrieve_file(id: &str, f: Fetched) -> (r: HttpResponse)
    ensures
        fetched_response(r, f, lookup_failed_lead(id@), "Failed to serialize file object. "@),
{
    let lead = lookup_failed(id);
    respond_fetched(f, lead.as_str(), "Failed to serialize file object. ")
}

/// The response to a content lookup of the file `id`.
pub fn retrieve_file_content(id: &str, f: Fetched) -> (r: HttpResponse)
    ensures
        fetched_response(r, f, lookup_failed_lead(id@), "Failed to serialize file content. "@),
{
    let lead = lookup_failed(id);
    respond_fetched(f, lead.as_str(), "Failed to serialize file content. ")
}

pub open spec fn unsupported_extension_message(ext: Seq<char>) -> Seq<char> {
    "Unsupported file extension: "@ + ext
}

pub open spec fn missing_extension_message(filename: Seq<char>) -> Seq<char> {
    "Unsupported file extension: the file name has none: "@ + filename
}

/// The response to a download: the bytes as an attachment under their file
/// name, typed by the name's extension; an extension outside the table, or a
/// failed lookup, is an internal error.
pub fn download_file(outcome: Result<(String, Vec<u8>), String>) -> (r: HttpResponse)
    ensures
        match outcome {
            Ok((filename, bytes)) => match extension_spec(filename@) {
                None => is_internal_error(r, missing_extension_message(filename@)),
                Some(ext) => match media_type_spec(ext) {
                    Some(media) => {
                        &&& r.status == STATUS_OK
                        &&& pairs(r.headers@) == attachment_pairs(media, filename@)
                        &&& r.body == Payload::Bytes(bytes)
                    },
                    None => is_internal_error(r, unsupported_extension_message(ext)),
                },
            },
            Err(detail) => is_internal_error(r, detail@),
        },
{
    match outcome {
        Ok((filename, bytes)) => {
            let ext = match extension_of(filename.as_str()) {
                Some(ext) => ext,
                None => {
                    let message = String::from_str(
                        "Unsupported file extension: the file name has none: ",
                    ).concat(filename.as_str());
                    return internal_error(message.as_str());
                },
            };
            match media_type_for(ext.as_str()) {
                Some(media) => attachment_ok(media, filename.as_str(), bytes),
                None => {
                    let message = String::from_str("Unsupported file extension: ").concat(
                        ext.as_str(),
                    );
                    internal_error(message.as_str())
                },
            }
        },
        Err(detail) => internal_error(detail.as_str()),
    }
}

/// The status of a delete of the file `id`: the store's own report, or,
/// when the store failed, a report that nothing was deleted.
pub fn delete_status(id: &str, removal: Result<DeleteFileStatus, String>) -> (r: DeleteFileStatus)
    ensures
        match removal {
            Ok(s) => r == s,
            Err(_) => r.id@ == id@ && r.object@ == "file"@ && !r.deleted,
        },
{
    match removal {
        Ok(s) => s,
        Err(_) => DeleteFileStatus {
            id: id.to_owned(),
            object: String::from_str("file"),
            deleted: false,
        },
    }
}

pub open spec fn status_encode_lead() -> Seq<char> {
    "Failed to serialize the status of the file deletion operation. "@
}

/// The response to a delete, from the encoded status. A delete always
/// answers with its status; only a status that cannot be encoded is an error.
pub fn delete_file(encoded: Result<String, String>) -> (r: HttpResponse)
    ensures
        match encoded {
            Ok(json) => is_json_ok(r, json@),
            Err(detail) => is_internal_error(r, status_encode_lead() + detail@),
        },
{
    match encoded {
        Ok(json) => json_ok(json),
        Err(detail) => {
            let message = String::from_str(
                "Failed to serialize the status of the file deletion operation. ",
            ).concat(detail.as_str());
            internal_error(message.as_str())
        },
    }
}

} // verus!
