use vstd::prelude::*;
use crate::files::{rejection, rejects_with, upload_response, Rejection, UploadResponse};
use crate::ids::{parse_uuid, parsed_uuid};
use crate::text::append_str;

verus! {

/// The query parameters of a collection file download or upload.
pub struct Params {
    /// The id of the collection's supplementary file.
    pub supplementary_id: String,
    /// Where to send the client after an upload.
    pub redirect: Option<String>,
}

/// The supplementary file a download reads: the parameter parsed as an id,
/// or `500 Internal Server Error` where it is none.
pub fn download_supplementary_id(params: &Params) -> (r: Result<u128, Rejection>)
    ensures
        match parsed_uuid(params.supplementary_id@) {
            Some(id) => r == Ok::<u128, Rejection>(id),
            None => r matches Err(e) && rejects_with(e, 500, "Internal Server Error"@),
        },
{
    match parse_uuid(params.supplementary_id.as_str()) {
        Some(id) => Ok(id),
        None => Err(rejection(500, "Internal Server Error")),
    }
}

/// The supplementary file an upload writes: the parameter parsed as an id,
/// or `400 Bad Request` where it is none.
pub fn upload_supplementary_id(params: &Params) -> (r: Result<u128, Rejection>)
    ensures
        match parsed_uuid(params.supplementary_id@) {
            Some(id) => r == Ok::<u128, Rejection>(id),
            None => r matches Err(e) && rejects_with(e, 400, "Bad Request"@),
        },
{
    match parse_uuid(params.supplementary_id.as_str()) {
        Some(id) => Ok(id),
        None => Err(rejection(400, "Bad Request")),
    }
}

/// The answer to a stored collection upload: to the requested location, or
/// `201 Created`.
pub fn collection_upload_response(params: &Params) -> (r: UploadResponse)
    ensures
        r.body@ == "Upload successful"@,
        match params.redirect {
            Some(l) => r.status == 303 && r.location == Some(l),
            None => r.status == 201 && r.location is None,
        },
{
    upload_response(params.redirect.clone())
}

/// A deleted collection's files are served to administrators only; others
/// get `404 Not Found`.
pub fn collection_download_allowed(deleted: bool, administrator: bool) -> (r: Result<(), Rejection>)
    ensures
        deleted && !administrator ==> (r matches Err(e) && rejects_with(e, 404, "Not Found"@)),
        !(deleted && !administrator) ==> r is Ok,
{
    if deleted && !administrator {
        Err(rejection(404, "Not Found"))
    } else {
        Ok(())
    }
}

/// The URL whose signature admits a collection download without a permission check.
pub fn collection_download_url(path_and_query: &str) -> (u: String)
    ensures
        u@ == "/files/collection"@ + path_and_query@,
{
    let mut u = String::new();
    append_str(&mut u, "/files/collection");
    append_str(&mut u, path_and_query);
    proof {
        assert(u@ =~= "/files/collection"@ + path_and_query@);
    }
    u
}

/// The answer a collection file download gets from what its reads found, in
/// the order the checks run: `401 Unauthorized` without a readable
/// principal; `500` for a supplementary id that is no id; `403 Forbidden`
/// when the signed URL does not lead to the file and its collection, or,
/// without a valid signature, when the principal may not view the file;
/// `404 Not Found` for a deleted collection unless the principal is an
/// administrator; `500` when the content type is no header value. Otherwise
/// the file with this id is served.
pub open spec fn download_outcome(
    principal_read: bool,
    parsed: Option<u128>,
    signed: bool,
    found_by_signature: bool,
    view_granted: bool,
    deleted: bool,
    administrator: bool,
    content_type_valid: bool,
) -> Result<u128, (u16, Seq<char>)> {
    if !principal_read {
        Err((401, "Unauthorized"@))
    } else if parsed is None {
        Err((500, "Internal Server Error"@))
    } else if (signed && !found_by_signature) || (!signed && !view_granted) {
        Err((403, "Forbidden"@))
    } else if deleted && !administrator {
        Err((404, "Not Found"@))
    } else if !content_type_valid {
        Err((500, "Internal Server Error"@))
    } else {
        Ok(parsed->0)
    }
}

/// The view of an answer: the served id, or the refusal's status and text.
pub open spec fn answer_view(r: Result<u128, Rejection>) -> Result<u128, (u16, Seq<char>)> {
    match r {
        Ok(id) => Ok(id),
        Err(e) => Err((e.status, e.message@)),
    }
}

/// Decides a collection file download from what its reads found. A download
/// that succeeds had a readable principal and access to the file, by
/// signature or by grant.
pub fn collection_download_decision(
    principal_read: bool,
    params: &Params,
    signed: bool,
    found_by_signature: bool,
    view_granted: bool,
    deleted: bool,
    administrator: bool,
    content_type_valid: bool,
) -> (r: Result<u128, Rejection>)
    ensures
        answer_view(r) == download_outcome(
            principal_read,
            parsed_uuid(params.supplementary_id@),
            signed,
            found_by_signature,
            view_granted,
            deleted,
            administrator,
            content_type_valid,
        ),
        r is Ok ==> principal_read && (if signed { found_by_signature } else { view_granted }),
{
    if !principal_read {
        return Err(rejection(401, "Unauthorized"));
    }
    let id = match download_supplementary_id(params) {
        Ok(id) => id,
        Err(e) => {
            return Err(e);
        },
    };
    if (signed && !found_by_signature) || (!signed && !view_granted) {
        return Err(rejection(403, "Forbidden"));
    }
    match collection_download_allowed(deleted, administrator) {
        Ok(()) => {},
        Err(e) => {
            return Err(e);
        },
    }
    if !content_type_valid {
        return Err(rejection(500, "Internal Server Error"));
    }
    Ok(id)
}

/// The answer a collection file upload gets before its file is read:
/// `401 Unauthorized` without a readable principal, `400 Bad Request` for a
/// supplementary id that is no id, `403 Forbidden` when the principal may
/// not edit the file; otherwise the file with this id is written.
pub open spec fn upload_outcome(principal_read: bool, parsed: Option<u128>, edit_granted: bool) -> Result<u128, (u16, Seq<char>)> {
    if !principal_read {
        Err((401, "Unauthorized"@))
    } else if parsed is None {
        Err((400, "Bad Request"@))
    } else if !edit_granted {
        Err((403, "Forbidden"@))
    } else {
        Ok(parsed->0)
    }
}

/// Decides a collection file upload from what its reads found. An upload
/// that proceeds had a readable principal and the right to edit the file.
pub fn collection_upload_decision(principal_read: bool, params: &Params, edit_granted: bool) -> (r: Result<u128, Rejection>)
    ensures
        answer_view(r) == upload_outcome(principal_read, parsed_uuid(params.supplementary_id@), edit_granted),
        r is Ok ==> principal_read && edit_granted,
{
    if !principal_read {
        return Err(rejection(401, "Unauthorized"));
    }
    let id = match upload_supplementary_id(params) {
        Ok(id) => id,
        Err(e) => {
            return Err(e);
        },
    };
    if !edit_granted {
        return Err(rejection(403, "Forbidden"));
    }
    Ok(id)
}

/// The headers a served file is sent with: exactly one, its content type.
pub fn download_headers(content_type: String) -> (r: Vec<(String, String)>)
    ensures
        r@.len() == 1,
        r@[0].0@ == "Content-Type"@,
        r@[0].1@ == content_type@,
{
    let mut r: Vec<(String, String)> = Vec::new();
    r.push((String::from_str("Content-Type"), content_type));
    r
}

} // verus!
