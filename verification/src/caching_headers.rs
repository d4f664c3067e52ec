use vstd::prelude::*;

verus! {

/// What a response should carry after an item was applied to the manager.
#[derive(Debug)]
pub struct CachingHeaderUpdate {
    /// The item's entity tag, when it has one.
    pub etag: Option<String>,
    /// The modification time (seconds since the epoch) to send as `Last-Modified`.
    pub last_modified: i64,
}

/// Tracks the newest modification time seen while a request is answered, so
/// that `ETag` and `Last-Modified` describe the most recently modified item.
pub struct CachingHeaderManager {
    last_modified: i64,
}

impl CachingHeaderManager {
    /// The newest modification time seen so far.
    pub closed spec fn spec_last_modified(&self) -> i64 {
        self.last_modified
    }

    /// A manager that has seen nothing yet: its time starts at zero.
    pub fn new() -> (m: CachingHeaderManager)
        ensures
            m.spec_last_modified() == 0,
    {
        CachingHeaderManager { last_modified: 0 }
    }

    /// The newest modification time seen so far.
    pub fn last_modified(&self) -> (t: i64)
        ensures
            t == self.spec_last_modified(),
    {
        self.last_modified
    }

    /// Applies an item modified at `item_modified` with the given entity tag.
    /// When the item is newer than everything seen before, the manager moves
    /// to its time and the headers to insert are returned; otherwise nothing
    /// changes and `None` is returned.
    pub fn apply(&mut self, item_modified: i64, etag: &Option<String>) -> (update: Option<CachingHeaderUpdate>)
        ensures
            final(self).spec_last_modified() == applied(old(self).spec_last_modified(), item_modified).0,
            update is Some == applied(old(self).spec_last_modified(), item_modified).1,
            final(self).spec_last_modified() >= old(self).spec_last_modified(),
            final(self).spec_last_modified() >= item_modified,
            old(self).spec_last_modified() < item_modified ==> {
                &&& final(self).spec_last_modified() == item_modified
                &&& update matches Some(u) && u.last_modified == item_modified && u.etag == *etag
            },
            old(self).spec_last_modified() >= item_modified ==> {
                &&& final(self).spec_last_modified() == old(self).spec_last_modified()
                &&& update is None
            },
    {
        if self.last_modified < item_modified {
            self.last_modified = item_modified;
            Some(CachingHeaderUpdate { etag: etag.clone(), last_modified: item_modified })
        } else {
            None
        }
    }
}

/// What applying an item modified at `item` does to a manager that has
/// seen `last`: the newest time seen afterwards, and whether headers are
/// inserted (only for an item newer than everything seen).
pub open spec fn applied(last: i64, item: i64) -> (i64, bool) {
    if last < item {
        (item, true)
    } else {
        (last, false)
    }
}

/// Every handler of a request applies its items to the request's one
/// manager: once an item was applied, an item no newer than it inserts no
/// headers and leaves the newest time where it was.
pub proof fn law_older_item_after_newer_inserts_nothing(last: i64, newer: i64, older: i64)
    requires
        older <= newer,
    ensures
        !applied(applied(last, newer).0, older).1,
        applied(applied(last, newer).0, older).0 == applied(last, newer).0,
        applied(last, newer).0 == (if last < newer { newer } else { last }),
{
}

/// The request hook that gives each incoming request its own
/// `CachingHeaderManager`, so that every response starts from scratch.
pub struct CachingHeaders {}

impl CachingHeaders {
    /// The manager for a request about to run: it has seen nothing yet.
    pub fn request_manager(&self) -> (m: CachingHeaderManager)
        ensures
            m.spec_last_modified() == 0,
    {
        CachingHeaderManager::new()
    }
}

/// The RFC 2822 text that `chrono` writes for a time in seconds since the
/// epoch, taken in UTC.
pub uninterp spec fn rfc2822_text(seconds: i64) -> Seq<char>;

/// The first second of year 0, and the first of year 10000: RFC 2822 dates
/// are written for the years between.
pub const FIRST_RFC2822_SECOND: i64 = -62167219200;
pub const END_RFC2822_SECOND: i64 = 253402300800;

/// Writes a time as an HTTP date with `chrono::DateTime::<Utc>::from_timestamp`
/// and `to_rfc2822`. The text is `rfc2822_text` of the seconds. `to_rfc2822`
/// panics outside years 0 to 9999, so those times are left out; inside them
/// `from_timestamp` always gives a time.
#[verifier::external_body]
fn http_date(seconds: i64) -> (r: String)
    requires
        FIRST_RFC2822_SECOND <= seconds < END_RFC2822_SECOND,
    ensures
        r@ == rfc2822_text(seconds),
{
    match chrono::DateTime::<chrono::Utc>::from_timestamp(seconds, 0) {
        Some(t) => t.to_rfc2822(),
        None => String::new(),
    }
}

/// The values of the `ETag` and `Last-Modified` headers an update inserts:
/// the item's entity tag, when it has one, and its time as an HTTP date.
pub fn caching_header_values(update: &CachingHeaderUpdate) -> (r: (Option<String>, String))
    requires
        FIRST_RFC2822_SECOND <= update.last_modified < END_RFC2822_SECOND,
    ensures
        r.0 == update.etag,
        r.1@ == rfc2822_text(update.last_modified),
{
    (update.etag.clone(), http_date(update.last_modified))
}

} // verus!
