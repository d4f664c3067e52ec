use vstd::prelude::*;
use vstd::string::StrSliceExecFns;
use crate::models::Metadata;
use crate::text::{append_str, ends_with, has_suffix};
use crate::ids::{parse_uuid, parsed_uuid};

verus! {

/// The content type a download is served with: the supplementary file's,
/// else the metadata's, except that an MPEG audio file named `.mp3` is
/// served as `audio/mp3`.
pub open spec fn download_content_type_spec(content_type: Seq<char>, name: Seq<char>, supplementary: Option<Seq<char>>) -> Seq<char> {
    match supplementary {
        Some(t) => t,
        None => if content_type == "audio/mpeg"@ && has_suffix(name, ".mp3"@) {
            "audio/mp3"@
        } else {
            content_type
        },
    }
}

/// Chooses the content type a download is served with.
pub fn download_content_type(metadata: &Metadata, supplementary_content_type: &Option<String>) -> (r: String)
    ensures
        r@ == download_content_type_spec(
            metadata.content_type@,
            metadata.name@,
            match supplementary_content_type {
                Some(t) => Some(t@),
                None => None,
            },
        ),
{
    match supplementary_content_type {
        Some(t) => t.clone(),
        None => {
            let mpeg = String::from_str("audio/mpeg");
            if metadata.content_type == mpeg && ends_with(metadata.name.as_str(), ".mp3") {
                String::from_str("audio/mp3")
            } else {
                metadata.content_type.clone()
            }
        },
    }
}

/// The size from which buffered upload bytes are sent as a part: 5 MiB.
pub const UPLOAD_PART_SIZE: usize = 5242880;

/// Splits an upload into parts: chunks are buffered, and the buffer is sent
/// as one part as soon as it holds a full part's size, and once more at the
/// end if anything is left.
pub struct UploadParts {
    buffered: usize,
    total: usize,
    sent: Ghost<int>,
}

impl UploadParts {
    /// Bytes waiting in the buffer.
    pub closed spec fn spec_buffered(&self) -> int {
        self.buffered as int
    }

    /// Bytes received so far.
    pub closed spec fn spec_total(&self) -> int {
        self.total as int
    }

    /// Bytes sent as parts so far.
    pub closed spec fn spec_sent(&self) -> int {
        self.sent@
    }

    /// Every byte received is either sent or waiting, and less than a part waits.
    pub closed spec fn wf(&self) -> bool {
        &&& self.sent@ + self.buffered == self.total
        &&& self.sent@ >= 0
        &&& self.buffered < UPLOAD_PART_SIZE
    }

    /// An upload that has received nothing.
    pub fn new() -> (u: UploadParts)
        ensures
            u.wf(),
            u.spec_total() == 0,
            u.spec_buffered() == 0,
            u.spec_sent() == 0,
    {
        UploadParts { buffered: 0, total: 0, sent: Ghost(0) }
    }

    /// Bytes received so far: the length recorded for the upload.
    pub fn total(&self) -> (t: usize)
        ensures
            t == self.spec_total(),
    {
        self.total
    }

    /// Takes in a chunk; returns the size of the part to send now, if the
    /// buffer reached a part's size.
    pub fn push(&mut self, chunk_len: usize) -> (part: Option<usize>)
        requires
            old(self).wf(),
            old(self).spec_total() + chunk_len <= usize::MAX,
        ensures
            final(self).wf(),
            final(self).spec_total() == old(self).spec_total() + chunk_len,
            part matches Some(p) ==> p >= UPLOAD_PART_SIZE && p == old(self).spec_buffered() + chunk_len,
            old(self).spec_buffered() + chunk_len >= UPLOAD_PART_SIZE ==> {
                &&& part == Some((old(self).spec_buffered() + chunk_len) as usize)
                &&& final(self).spec_buffered() == 0
                &&& final(self).spec_sent() == old(self).spec_sent() + old(self).spec_buffered() + chunk_len
            },
            old(self).spec_buffered() + chunk_len < UPLOAD_PART_SIZE ==> {
                &&& part is None
                &&& final(self).spec_buffered() == old(self).spec_buffered() + chunk_len
                &&& final(self).spec_sent() == old(self).spec_sent()
            },
    {
        self.total = self.total + chunk_len;
        let b = self.buffered + chunk_len;
        if b >= UPLOAD_PART_SIZE {
            self.buffered = 0;
            self.sent = Ghost(self.sent@ + b);
            Some(b)
        } else {
            self.buffered = b;
            None
        }
    }

    /// Ends the upload; returns the size of the last part, if bytes wait.
    pub fn finish(&mut self) -> (part: Option<usize>)
        requires
            old(self).wf(),
        ensures
            final(self).spec_sent() == final(self).spec_total(),
            final(self).spec_total() == old(self).spec_total(),
            final(self).spec_buffered() == 0,
            part matches Some(p) ==> 0 < p < UPLOAD_PART_SIZE && p == old(self).spec_buffered(),
            old(self).spec_buffered() > 0 ==> part == Some(old(self).spec_buffered() as usize),
            old(self).spec_buffered() == 0 ==> part is None,
    {
        if self.buffered > 0 {
            let b = self.buffered;
            self.buffered = 0;
            self.sent = Ghost(self.sent@ + b);
            Some(b)
        } else {
            None
        }
    }
}

/// Every byte of an upload is sent exactly once: after the last part, what
/// was sent equals what was received.
pub proof fn law_upload_parts_conserve_bytes(u: UploadParts)
    requires
        u.wf(),
    ensures
        u.spec_sent() + u.spec_buffered() == u.spec_total(),
        u.spec_buffered() < UPLOAD_PART_SIZE,
{
}

/// The answer to a finished upload.
#[derive(Debug)]
pub struct UploadResponse {
    /// The HTTP status code.
    pub status: u16,
    /// Where to go next, when the request asked to be redirected.
    pub location: Option<String>,
    /// The body text.
    pub body: String,
}

/// Answers a finished upload: `303 See Other` to the requested location, or
/// `201 Created`; either way the body reports success.
pub fn upload_response(redirect: Option<String>) -> (r: UploadResponse)
    ensures
        r.body@ == "Upload successful"@,
        match redirect {
            Some(l) => r.status == 303 && r.location == Some(l),
            None => r.status == 201 && r.location is None,
        },
{
    let body = String::from_str("Upload successful");
    match redirect {
        Some(l) => UploadResponse { status: 303, location: Some(l), body },
        None => UploadResponse { status: 201, location: None, body },
    }
}

/// Whether an upload asks for the metadata to be processed right away.
pub fn upload_requests_processing(ready: Option<bool>) -> (r: bool)
    ensures
        r == (ready == Some(true)),
{
    match ready {
        Some(b) => b,
        None => false,
    }
}

/// The URL whose signature admits a metadata download without a permission check.
pub fn metadata_download_url(path_and_query: &str) -> (u: String)
    ensures
        u@ == "/files"@ + path_and_query@,
{
    let mut u = String::new();
    append_str(&mut u, "/files");
    append_str(&mut u, path_and_query);
    proof {
        assert(u@ =~= "/files"@ + path_and_query@);
    }
    u
}

/// A refused request: the HTTP status and the text sent back.
#[derive(Debug)]
pub struct Rejection {
    pub status: u16,
    pub message: String,
}

/// Whether `r` carries the given status and text.
pub open spec fn rejects_with(r: Rejection, status: u16, message: Seq<char>) -> bool {
    r.status == status && r.message@ == message
}

/// A refusal with the given status and text.
pub fn rejection(status: u16, message: &str) -> (r: Rejection)
    ensures
        rejects_with(r, status, message@),
{
    Rejection { status, message: String::from_str(message) }
}

/// The query parameters of a metadata file download or upload.
pub struct Params {
    /// The metadata's id.
    pub id: Option<String>,
    /// The key of a supplementary file of the metadata, when that file is meant.
    pub supplementary_id: Option<String>,
    /// Whether the metadata is to be processed once the upload is stored.
    pub ready: Option<bool>,
    /// Where to send the client after an upload.
    pub redirect: Option<String>,
}

/// The text of an optional parameter, empty where it is absent.
pub open spec fn param_text(p: Option<String>) -> Seq<char> {
    match p {
        Some(s) => s@,
        None => Seq::empty(),
    }
}

/// The metadata a download reads: the `id` parameter (empty where absent)
/// parsed as an id, or `400 Bad Request` where it is none.
pub fn download_metadata_id(params: &Params) -> (r: Result<u128, Rejection>)
    ensures
        match parsed_uuid(param_text(params.id)) {
            Some(id) => r == Ok::<u128, Rejection>(id),
            None => r matches Err(e) && rejects_with(e, 400, "Bad Request"@),
        },
{
    let parsed = match &params.id {
        Some(s) => parse_uuid(s.as_str()),
        None => {
            let empty = "";
            proof {
                reveal_strlit("");
                assert(empty@ =~= Seq::<char>::empty());
            }
            parse_uuid(empty)
        },
    };
    match parsed {
        Some(id) => Ok(id),
        None => Err(rejection(400, "Bad Request")),
    }
}

/// The metadata an upload writes: the `id` parameter, which an upload must
/// carry, parsed as an id, or `400 Bad Request` where it is none.
pub fn upload_metadata_id(params: &Params) -> (r: Result<u128, Rejection>)
    requires
        params.id is Some,
    ensures
        match parsed_uuid(param_text(params.id)) {
            Some(id) => r == Ok::<u128, Rejection>(id),
            None => r matches Err(e) && rejects_with(e, 400, "Bad Request"@),
        },
{
    let text = match &params.id {
        Some(s) => s.as_str(),
        None => "",
    };
    match parse_uuid(text) {
        Some(id) => Ok(id),
        None => Err(rejection(400, "Bad Request")),
    }
}

/// Where a request's principal comes from.
#[derive(Debug)]
pub enum CredentialSource {
    /// The token of the authorization header.
    Header(String),
    /// The token of the session cookie.
    Cookie(String),
    /// No credentials: the anonymous principal.
    Anonymous,
}

/// The authorization header wins over the session cookie; without either
/// the request is anonymous.
pub fn credential_source(auth_header: Option<String>, cookie: Option<String>) -> (r: CredentialSource)
    ensures
        match auth_header {
            Some(h) => r matches CredentialSource::Header(t) && t@ == h@,
            None => match cookie {
                Some(c) => r matches CredentialSource::Cookie(t) && t@ == c@,
                None => r matches CredentialSource::Anonymous,
            },
        },
{
    match auth_header {
        Some(h) => CredentialSource::Header(h),
        None => match cookie {
            Some(c) => CredentialSource::Cookie(c),
            None => CredentialSource::Anonymous,
        },
    }
}

/// The answer a metadata file download gets from what its reads found, in
/// the order the checks run: `401 Unauthorized` without a readable
/// principal; `400 Bad Request` for an id that is no id (an absent one
/// counting as empty); `403 Forbidden` when the signed URL does not lead to
/// the metadata, or, without a valid signature, when the principal may not
/// view its content; `500` when the supplementary file cannot be read or the
/// content type is no header value. Otherwise the metadata with this id is
/// served.
pub open spec fn metadata_download_outcome(
    principal_read: bool,
    parsed: Option<u128>,
    signed: bool,
    found_by_signature: bool,
    view_granted: bool,
    supplementary_read: bool,
    content_type_valid: bool,
) -> Result<u128, (u16, Seq<char>)> {
    if !principal_read {
        Err((401, "Unauthorized"@))
    } else if parsed is None {
        Err((400, "Bad Request"@))
    } else if (signed && !found_by_signature) || (!signed && !view_granted) {
        Err((403, "Forbidden"@))
    } else if !supplementary_read || !content_type_valid {
        Err((500, "Internal Server Error"@))
    } else {
        Ok(parsed->0)
    }
}

/// The view of an answer: the served id, or the refusal's status and text.
pub open spec fn file_answer(r: Result<u128, Rejection>) -> Result<u128, (u16, Seq<char>)> {
    match r {
        Ok(id) => Ok(id),
        Err(e) => Err((e.status, e.message@)),
    }
}

/// Decides a metadata file download from what its reads found. A download
/// that succeeds had a readable principal and access to the content, by
/// signature or by grant.
pub fn metadata_download_decision(
    principal_read: bool,
    params: &Params,
    signed: bool,
    found_by_signature: bool,
    view_granted: bool,
    supplementary_read: bool,
    content_type_valid: bool,
) -> (r: Result<u128, Rejection>)
    ensures
        file_answer(r) == metadata_download_outcome(
            principal_read,
            parsed_uuid(param_text(params.id)),
            signed,
            found_by_signature,
            view_granted,
            supplementary_read,
            content_type_valid,
        ),
        r is Ok ==> principal_read && (if signed { found_by_signature } else { view_granted }),
{
    if !principal_read {
        return Err(rejection(401, "Unauthorized"));
    }
    let id = match download_metadata_id(params) {
        Ok(id) => id,
        Err(e) => {
            return Err(e);
        },
    };
    if (signed && !found_by_signature) || (!signed && !view_granted) {
        return Err(rejection(403, "Forbidden"));
    }
    if !supplementary_read || !content_type_valid {
        return Err(rejection(500, "Internal Server Error"));
    }
    Ok(id)
}

/// Decides a metadata file upload before its file is read: `401` without a
/// readable principal, `400 Bad Request` for an id that is no id, `403
/// Forbidden` when the principal may not edit the metadata.
pub fn metadata_upload_decision(principal_read: bool, params: &Params, edit_granted: bool) -> (r: Result<u128, Rejection>)
    requires
        params.id is Some,
    ensures
        file_answer(r) == (if !principal_read {
            Err((401u16, "Unauthorized"@))
        } else if parsed_uuid(param_text(params.id)) is None {
            Err((400u16, "Bad Request"@))
        } else if !edit_granted {
            Err((403u16, "Forbidden"@))
        } else {
            Ok(parsed_uuid(param_text(params.id))->0)
        }),
        r is Ok ==> principal_read && edit_granted,
{
    if !principal_read {
        return Err(rejection(401, "Unauthorized"));
    }
    let id = match upload_metadata_id(params) {
        Ok(id) => id,
        Err(e) => {
            return Err(e);
        },
    };
    if !edit_granted {
        return Err(rejection(403, "Forbidden"));
    }
    Ok(id)
}

} // verus!
