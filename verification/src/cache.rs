use vstd::prelude::*;
use crate::models::{Metadata, Slug, SlugType};
use crate::text::append_str;

verus! {

/// The kinds of tiered caches the server keeps.
#[derive(Clone, Copy, PartialEq, Eq, Structural, Debug)]
pub enum TieredCacheType {
    Slug,
    Metadata,
    Collection,
    State,
    Transition,
    StorageSystem,
    Model,
    Prompt,
    Workflow,
    Trait,
    Activity,
    WorkflowActivity,
    Principal,
}

/// The hash that holds the entries of a named cache.
pub open spec fn cache_hash_key(name: Seq<char>) -> Seq<char> {
    "bosca:cache:"@ + name
}

/// The hash that holds the entries of the cache with this name.
pub fn bosca_cache_key(name: &str) -> (k: String)
    ensures
        k@ == cache_hash_key(name@),
{
    let mut k = String::new();
    append_str(&mut k, "bosca:cache:");
    append_str(&mut k, name);
    proof {
        assert(k@ =~= cache_hash_key(name@));
    }
    k
}

/// A cache kept in one hash of the key/value store; its name is the hash.
pub struct RedisCache {
    name: String,
}

impl RedisCache {
    /// The hash that holds this cache's entries.
    pub closed spec fn spec_name(&self) -> Seq<char> {
        self.name@
    }

    /// A cache named `name`, kept in the hash `cache::name`.
    pub fn new(name: String) -> (c: RedisCache)
        ensures
            c.spec_name() == "cache::"@ + name@,
    {
        let mut n = String::new();
        append_str(&mut n, "cache::");
        append_str(&mut n, name.as_str());
        RedisCache { name: n }
    }

    /// The hash that holds this cache's entries.
    pub fn name(&self) -> (n: &String)
        ensures
            n@ == self.spec_name(),
    {
        &self.name
    }
}

/// Only the active version of metadata is cached.
pub fn should_cache_metadata(metadata: &Metadata) -> (r: bool)
    ensures
        r == (metadata.version == metadata.active_version),
{
    metadata.version == metadata.active_version
}

/// A cached metadata record serves a request for a version only when it is
/// that version.
pub fn cached_metadata_version(cached: Option<Metadata>, version: i32) -> (r: Option<Metadata>)
    ensures
        match cached {
            Some(m) => if m.version == version {
                r == Some(m)
            } else {
                r is None
            },
            None => r is None,
        },
{
    match cached {
        Some(m) => {
            if m.version == version {
                Some(m)
            } else {
                None
            }
        },
        None => None,
    }
}

/// What a slug row names: its metadata, else its collection, else its profile.
pub open spec fn slug_from_ids_spec(metadata_id: Option<u128>, collection_id: Option<u128>, profile_id: Option<u128>) -> Slug {
    if let Some(id) = metadata_id {
        Slug { id: id, slug_type: SlugType::Metadata }
    } else if let Some(id) = collection_id {
        Slug { id: id, slug_type: SlugType::Collection }
    } else {
        Slug { id: profile_id.unwrap(), slug_type: SlugType::Profile }
    }
}

/// Resolves a slug row to the entity it names; a row always names one.
pub fn slug_from_ids(metadata_id: Option<u128>, collection_id: Option<u128>, profile_id: Option<u128>) -> (s: Slug)
    requires
        metadata_id is Some || collection_id is Some || profile_id is Some,
    ensures
        s == slug_from_ids_spec(metadata_id, collection_id, profile_id),
{
    if let Some(id) = metadata_id {
        Slug { id, slug_type: SlugType::Metadata }
    } else if let Some(id) = collection_id {
        Slug { id, slug_type: SlugType::Collection }
    } else {
        Slug { id: profile_id.unwrap(), slug_type: SlugType::Profile }
    }
}

/// The slug entry recorded when metadata is given a slug.
pub fn metadata_slug(id: u128) -> (s: Slug)
    ensures
        s == (Slug { id: id, slug_type: SlugType::Metadata }),
{
    Slug { id, slug_type: SlugType::Metadata }
}

/// The slug entry recorded when a collection is given a slug.
pub fn collection_slug(id: u128) -> (s: Slug)
    ensures
        s == (Slug { id: id, slug_type: SlugType::Collection }),
{
    Slug { id, slug_type: SlugType::Collection }
}

/// The names of the caches that have been created, each once.
pub struct CacheRegistry {
    names: Vec<String>,
}

impl CacheRegistry {
    /// The set of registered names.
    pub closed spec fn spec_names(&self) -> Set<Seq<char>> {
        self.names@.map_values(|s: String| s@).to_set()
    }

    /// No name is registered twice.
    pub closed spec fn wf(&self) -> bool {
        self.names@.map_values(|s: String| s@).no_duplicates()
    }

    /// An empty registry.
    pub fn new() -> (r: CacheRegistry)
        ensures
            r.wf(),
            r.spec_names() == Set::<Seq<char>>::empty(),
    {
        let r = CacheRegistry { names: Vec::new() };
        proof {
            assert(r.names@.map_values(|s: String| s@) =~= Seq::<Seq<char>>::empty());
            assert(r.spec_names() =~= Set::<Seq<char>>::empty());
        }
        r
    }

    /// Registers a cache name; registering a name again changes nothing.
    pub fn register(&mut self, name: &str)
        requires
            old(self).wf(),
        ensures
            final(self).wf(),
            final(self).spec_names() == old(self).spec_names().insert(name@),
    {
        let ghost v0 = self.names@.map_values(|s: String| s@);
        let mut i: usize = 0;
        while i < self.names.len()
            invariant
                i <= self.names@.len(),
                v0 == self.names@.map_values(|s: String| s@),
                v0.no_duplicates(),
                forall|j: int| 0 <= j < i ==> self.names@[j]@ != name@,
            decreases self.names@.len() - i,
        {
            let candidate = String::from_str(name);
            if self.names[i] == candidate {
                proof {
                    assert(v0[i as int] == name@);
                    assert(v0.to_set().insert(name@) =~= v0.to_set());
                }
                return;
            }
            i += 1;
        }
        self.names.push(String::from_str(name));
        proof {
            let v1 = self.names@.map_values(|s: String| s@);
            assert(v1 =~= v0.push(name@));
            assert(!v0.contains(name@)) by {
                if v0.contains(name@) {
                    let j = choose|j: int| 0 <= j < v0.len() && v0[j] == name@;
                    assert(self.names@[j]@ == name@);
                }
            }
            assert(v1.no_duplicates()) by {
                assert forall|a: int, b: int| 0 <= a < v1.len() && 0 <= b < v1.len() && a != b implies v1[a] != v1[b] by {
                    if a < v0.len() && b < v0.len() {
                    } else if a == v0.len() {
                        assert(v0.contains(v1[b]) || b == a);
                    } else {
                        assert(v0.contains(v1[a]));
                    }
                }
            }
            assert forall|x: Seq<char>| v1.to_set().contains(x) <==> v0.to_set().insert(name@).contains(x) by {
                if v1.contains(x) {
                    let j = choose|j: int| 0 <= j < v1.len() && v1[j] == x;
                    if j < v0.len() {
                        assert(v0[j] == x);
                        assert(v0.contains(x));
                    }
                }
                if v0.contains(x) {
                    let j = choose|j: int| 0 <= j < v0.len() && v0[j] == x;
                    assert(v1[j] == x);
                }
                if x == name@ {
                    assert(v1[v0.len() as int] == x);
                }
            }
            assert(v1.to_set() =~= v0.to_set().insert(name@));
        }
    }

    /// The registered names, each once.
    pub fn get_cache_names(&self) -> (r: Vec<String>)
        requires
            self.wf(),
        ensures
            r@.map_values(|s: String| s@).to_set() == self.spec_names(),
            r@.map_values(|s: String| s@).no_duplicates(),
    {
        let r = self.names.clone();
        proof {
            assert(r@.map_values(|s: String| s@) =~= self.names@.map_values(|s: String| s@));
        }
        r
    }
}

/// The key a workflow transition is cached under: its two states joined by
/// a hyphen.
pub open spec fn transition_key_text(from_state_id: Seq<char>, to_state_id: Seq<char>) -> Seq<char> {
    from_state_id + "-"@ + to_state_id
}

/// The key a workflow transition is cached, read and evicted under.
pub fn transition_key(from_state_id: &str, to_state_id: &str) -> (k: String)
    ensures
        k@ == transition_key_text(from_state_id@, to_state_id@),
{
    let mut k = String::new();
    append_str(&mut k, from_state_id);
    append_str(&mut k, "-");
    append_str(&mut k, to_state_id);
    proof {
        assert(k@ =~= transition_key_text(from_state_id@, to_state_id@));
    }
    k
}

/// Transitions between states whose ids hold no hyphen are cached under
/// keys of their own: two such transitions share a key only when they are
/// the same transition.
pub proof fn law_transition_keys_distinct(a_from: Seq<char>, a_to: Seq<char>, b_from: Seq<char>, b_to: Seq<char>)
    requires
        !a_from.contains('-'),
        !a_to.contains('-'),
        !b_from.contains('-'),
        !b_to.contains('-'),
        transition_key_text(a_from, a_to) == transition_key_text(b_from, b_to),
    ensures
        a_from == b_from,
        a_to == b_to,
{
    reveal_strlit("-");
    let ka = transition_key_text(a_from, a_to);
    if a_from.len() < b_from.len() {
        assert(ka[a_from.len() as int] == '-');
        assert(b_from[a_from.len() as int] == ka[a_from.len() as int]);
    } else if b_from.len() < a_from.len() {
        assert(ka[b_from.len() as int] == '-');
        assert(a_from[b_from.len() as int] == ka[b_from.len() as int]);
    }
    assert(a_from =~= ka.subrange(0, a_from.len() as int));
    assert(b_from =~= ka.subrange(0, b_from.len() as int));
    assert(a_to =~= ka.subrange(a_from.len() as int + 1, ka.len() as int));
    assert(b_to =~= ka.subrange(b_from.len() as int + 1, ka.len() as int));
}

} // verus!
