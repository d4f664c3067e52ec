use vstd::prelude::*;
use crate::files::{rejection, rejects_with, Rejection};
use crate::ids::{parse_uuid, parsed_uuid};

verus! {

/// The query parameters of a collaborative document read or write.
pub struct Params {
    /// The document metadata's id.
    pub id: String,
    /// The metadata version.
    pub version: i32,
}

/// The document a request reads or writes: the metadata id and version, or
/// `400 Invalid id` where the id parameter is no id.
pub fn collaboration_target(params: &Params) -> (r: Result<(u128, i32), Rejection>)
    ensures
        match parsed_uuid(params.id@) {
            Some(id) => r == Ok::<(u128, i32), Rejection>((id, params.version)),
            None => r matches Err(e) && rejects_with(e, 400, "Invalid id"@),
        },
{
    match parse_uuid(params.id.as_str()) {
        Some(id) => Ok((id, params.version)),
        None => Err(rejection(400, "Invalid id")),
    }
}

/// A stored collaboration state as it is sent back.
#[derive(Debug)]
pub struct CollaborationReply {
    /// The `Cache-Control` header: the state is private to the requester.
    pub cache_control: String,
    /// The stored state.
    pub body: Vec<u8>,
}

/// Answers a read: the stored state, marked private, or `404 Not Found`
/// where none is stored.
pub fn collaboration_reply(stored: Option<Vec<u8>>) -> (r: Result<CollaborationReply, Rejection>)
    ensures
        match stored {
            Some(content) => r matches Ok(reply) && reply.body@ == content@ && reply.cache_control@ == "private"@,
            None => r matches Err(e) && rejects_with(e, 404, "Not Found"@),
        },
{
    match stored {
        Some(content) => Ok(CollaborationReply { cache_control: String::from_str("private"), body: content }),
        None => Err(rejection(404, "Not Found")),
    }
}

} // verus!
