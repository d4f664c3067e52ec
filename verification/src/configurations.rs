use vstd::prelude::*;
use vstd::utf8::{valid_utf8, decode_utf8, encode_utf8};
use vstd::string::StringSliceAdditionalSpecFns;
use sha2::Digest;
use aes_gcm::aead::{Aead, KeyInit};
use rand::Rng;

verus! {

/// The SHA-256 digest of a byte string, as the `sha2` crate computes it.
pub uninterp spec fn sha256_digest(data: Seq<u8>) -> Seq<u8>;

/// What AES-256-GCM encryption (`aes_gcm::Aes256Gcm`, no associated data)
/// gives for a key, a nonce and a plaintext: the ciphertext with its tag, or
/// `None` where it fails.
pub uninterp spec fn aes_gcm_seal(key: Seq<u8>, nonce: Seq<u8>, plaintext: Seq<u8>) -> Option<Seq<u8>>;

/// What AES-256-GCM decryption gives for a key, a nonce and a ciphertext:
/// the plaintext, or `None` where the ciphertext does not authenticate.
pub uninterp spec fn aes_gcm_open(key: Seq<u8>, nonce: Seq<u8>, ciphertext: Seq<u8>) -> Option<Seq<u8>>;

/// Hashes `data` with `sha2::Sha256`. The result is `sha256_digest` of the
/// data; SHA-256 digests are 32 bytes long.
#[verifier::external_body]
fn sha256(data: &[u8]) -> (r: Vec<u8>)
    ensures
        r@ == sha256_digest(data@),
        r@.len() == 32,
{
    let mut hasher = sha2::Sha256::new();
    hasher.update(data);
    hasher.finalize().to_vec()
}

/// The longest plaintext AES-GCM encrypts (`aes_gcm::P_MAX`, 2^36 bytes).
pub const AES_GCM_MAX_PLAINTEXT: u64 = 68719476736;

/// Encrypts with `aes_gcm::Aes256Gcm::encrypt` under a 32-byte key and a
/// 12-byte nonce. The result is `aes_gcm_seal` of the three byte strings.
/// Encryption refuses exactly the plaintexts longer than `P_MAX` (2^36
/// bytes); any other is encrypted (the tag is appended to a `Vec`, which
/// cannot fail).
#[verifier::external_body]
fn aes_gcm_encrypt(key: &[u8], nonce: &[u8], plaintext: &[u8]) -> (r: Option<Vec<u8>>)
    requires
        key@.len() == 32,
        nonce@.len() == 12,
    ensures
        match r {
            Some(c) => aes_gcm_seal(key@, nonce@, plaintext@) == Some(c@),
            None => aes_gcm_seal(key@, nonce@, plaintext@) is None,
        },
        r is Some <==> plaintext@.len() <= AES_GCM_MAX_PLAINTEXT,
{
    let cipher = aes_gcm::Aes256Gcm::new(aes_gcm::Key::<aes_gcm::Aes256Gcm>::from_slice(key));
    cipher.encrypt(aes_gcm::Nonce::from_slice(nonce), plaintext).ok()
}

/// Decrypts with `aes_gcm::Aes256Gcm::decrypt` under a 32-byte key and a
/// 12-byte nonce. The result is `aes_gcm_open` of the three byte strings; a
/// ciphertext that encryption produced under the same key and nonce
/// decrypts to its plaintext, as the AEAD contract of the crate states.
#[verifier::external_body]
fn aes_gcm_decrypt(key: &[u8], nonce: &[u8], ciphertext: &[u8]) -> (r: Option<Vec<u8>>)
    requires
        key@.len() == 32,
        nonce@.len() == 12,
    ensures
        match r {
            Some(p) => aes_gcm_open(key@, nonce@, ciphertext@) == Some(p@),
            None => aes_gcm_open(key@, nonce@, ciphertext@) is None,
        },
        r is None ==> forall|p: Seq<u8>| #[trigger] aes_gcm_seal(key@, nonce@, p) != Some(ciphertext@),
        r matches Some(q) ==> forall|p: Seq<u8>| #[trigger] aes_gcm_seal(key@, nonce@, p) == Some(ciphertext@) ==> q@ == p,
{
    let cipher = aes_gcm::Aes256Gcm::new(aes_gcm::Key::<aes_gcm::Aes256Gcm>::from_slice(key));
    cipher.decrypt(aes_gcm::Nonce::from_slice(nonce), ciphertext).ok()
}

/// Draws a nonce from `rand::rng()`. Nothing is claimed of its bytes.
#[verifier::external_body]
fn random_nonce() -> (r: [u8; 12])
{
    rand::rng().random()
}

/// Turns bytes into text with `String::from_utf8`, which accepts exactly
/// the valid UTF-8 byte strings and decodes them.
#[verifier::external_body]
fn utf8_string(bytes: Vec<u8>) -> (r: Option<String>)
    ensures
        r is Some <==> valid_utf8(bytes@),
        r matches Some(s) ==> s@ == decode_utf8(bytes@),
{
    String::from_utf8(bytes).ok()
}

/// The encryption key for configuration values: the SHA-256 digest of the
/// UTF-8 bytes of the security key.
pub open spec fn configuration_key(security_key: Seq<char>) -> Seq<u8> {
    sha256_digest(encode_utf8(security_key))
}

/// Derives the encryption key for configuration values from the security key.
pub fn derive_key(security_key: &str) -> (k: Vec<u8>)
    ensures
        k@ == configuration_key(security_key@),
        k@.len() == 32,
{
    sha256(security_key.as_bytes())
}

/// Why a configuration value could not be encrypted or decrypted.
#[derive(Clone, Copy, PartialEq, Eq, Structural, Debug)]
pub enum CipherError {
    EncryptionFailed,
    DecryptionFailed,
    InvalidUtf8,
}

/// Encrypts a configuration value (its JSON text) under the key derived from
/// the security key and a fresh random nonce; returns ciphertext and nonce.
/// Every value of at most 2^36 bytes is encrypted; a longer one is refused.
pub fn encrypt_value(security_key: &str, plaintext: &str) -> (r: Result<(Vec<u8>, Vec<u8>), CipherError>)
    ensures
        match r {
            Ok((c, n)) => n@.len() == 12 && aes_gcm_seal(
                configuration_key(security_key@),
                n@,
                encode_utf8(plaintext@),
            ) == Some(c@),
            Err(e) => e == CipherError::EncryptionFailed,
        },
        r is Ok <==> encode_utf8(plaintext@).len() <= AES_GCM_MAX_PLAINTEXT,
{
    let key = derive_key(security_key);
    let nonce_bytes = random_nonce();
    let mut nonce: Vec<u8> = Vec::new();
    let mut i: usize = 0;
    while i < 12
        invariant
            i <= 12,
            nonce@ == nonce_bytes@.take(i as int),
        decreases 12 - i,
    {
        nonce.push(nonce_bytes[i]);
        proof {
            assert(nonce@ =~= nonce_bytes@.take(i + 1));
        }
        i += 1;
    }
    proof {
        assert(nonce@ =~= nonce_bytes@);
    }
    match aes_gcm_encrypt(key.as_slice(), nonce.as_slice(), plaintext.as_bytes()) {
        Some(c) => Ok((c, nonce)),
        None => Err(CipherError::EncryptionFailed),
    }
}

/// What decrypting a stored configuration value gives: the decoded text,
/// or why it failed.
pub open spec fn decrypted_value(security_key: Seq<char>, ciphertext: Seq<u8>, nonce: Seq<u8>) -> Result<Seq<char>, CipherError> {
    match aes_gcm_open(configuration_key(security_key), nonce, ciphertext) {
        None => Err(CipherError::DecryptionFailed),
        Some(p) => if valid_utf8(p) {
            Ok(decode_utf8(p))
        } else {
            Err(CipherError::InvalidUtf8)
        },
    }
}

/// Decrypts a stored configuration value with its 12-byte nonce.
pub fn decrypt_value(security_key: &str, ciphertext: &[u8], nonce: &[u8]) -> (r: Result<String, CipherError>)
    requires
        nonce@.len() == 12,
    ensures
        match decrypted_value(security_key@, ciphertext@, nonce@) {
            Ok(t) => r matches Ok(s) && s@ == t,
            Err(e) => r == Err::<String, CipherError>(e),
        },
        forall|p: Seq<char>| aes_gcm_seal(configuration_key(security_key@), nonce@, #[trigger] encode_utf8(p)) == Some(ciphertext@)
            ==> (r matches Ok(s) && s@ == p),
{
    let key = derive_key(security_key);
    let opened = aes_gcm_decrypt(key.as_slice(), nonce, ciphertext);
    proof {
        if opened is Some {
            let p = opened->0;
            assert forall|t: Seq<char>| aes_gcm_seal(configuration_key(security_key@), nonce@, #[trigger] encode_utf8(t)) == Some(ciphertext@)
                implies valid_utf8(p@) && decode_utf8(p@) == t by {
                vstd::utf8::encode_utf8_valid_utf8(t);
                vstd::utf8::encode_utf8_decode_utf8(t);
            }
        }
    }
    decode_decrypted(opened)
}

/// What a decryption result gives: no plaintext fails the decryption; a
/// plaintext must be UTF-8, and is the value's text.
pub fn decode_decrypted(opened: Option<Vec<u8>>) -> (r: Result<String, CipherError>)
    ensures
        match opened {
            None => r == Err::<String, CipherError>(CipherError::DecryptionFailed),
            Some(p) => if valid_utf8(p@) {
                r matches Ok(s) && s@ == decode_utf8(p@)
            } else {
                r == Err::<String, CipherError>(CipherError::InvalidUtf8)
            },
        },
{
    match opened {
        None => Err(CipherError::DecryptionFailed),
        Some(p) => match utf8_string(p) {
            Some(s) => Ok(s),
            None => Err(CipherError::InvalidUtf8),
        },
    }
}

/// The key/value view of a list of entries: a later entry for a key
/// replaces an earlier one.
pub open spec fn entries_view(entries: Seq<(String, String)>) -> Map<Seq<char>, Seq<char>>
    decreases entries.len(),
{
    if entries.len() == 0 {
        Map::empty()
    } else {
        entries_view(entries.drop_last()).insert(entries.last().0@, entries.last().1@)
    }
}

/// No key occurs twice among the entries.
pub open spec fn keys_unique(entries: Seq<(String, String)>) -> bool {
    forall|i: int, j: int| 0 <= i < entries.len() && 0 <= j < entries.len() && i != j ==> entries[i].0@ != entries[j].0@
}

proof fn lemma_view_contains(entries: Seq<(String, String)>, k: Seq<char>)
    ensures
        entries_view(entries).contains_key(k) <==> exists|i: int| 0 <= i < entries.len() && entries[i].0@ == k,
    decreases entries.len(),
{
    if entries.len() > 0 {
        lemma_view_contains(entries.drop_last(), k);
        if exists|i: int| 0 <= i < entries.len() && entries[i].0@ == k {
            let i = choose|i: int| 0 <= i < entries.len() && entries[i].0@ == k;
            if i < entries.len() - 1 {
                assert(entries.drop_last()[i].0@ == k);
            }
        }
        if exists|i: int| 0 <= i < entries.drop_last().len() && entries.drop_last()[i].0@ == k {
            let i = choose|i: int| 0 <= i < entries.drop_last().len() && entries.drop_last()[i].0@ == k;
            assert(entries[i].0@ == k);
        }
    }
}

proof fn lemma_view_at(entries: Seq<(String, String)>, i: int)
    requires
        keys_unique(entries),
        0 <= i < entries.len(),
    ensures
        entries_view(entries).contains_key(entries[i].0@),
        entries_view(entries)[entries[i].0@] == entries[i].1@,
    decreases entries.len(),
{
    if i < entries.len() - 1 {
        lemma_view_at(entries.drop_last(), i);
        assert(entries.last().0@ != entries[i].0@);
    }
}

proof fn lemma_view_remove_last_occurrence(entries: Seq<(String, String)>, k: Seq<char>)
    requires
        forall|i: int| 0 <= i < entries.len() ==> entries[i].0@ != k,
    ensures
        !entries_view(entries).contains_key(k),
{
    lemma_view_contains(entries, k);
}

proof fn lemma_view_push(entries: Seq<(String, String)>, e: (String, String))
    ensures
        entries_view(entries.push(e)) == entries_view(entries).insert(e.0@, e.1@),
{
    assert(entries.push(e).drop_last() =~= entries);
}

proof fn lemma_view_remove_at(entries: Seq<(String, String)>, i: int)
    requires
        keys_unique(entries),
        0 <= i < entries.len(),
    ensures
        entries_view(entries.remove(i)) == entries_view(entries).remove(entries[i].0@),
        keys_unique(entries.remove(i)),
    decreases entries.len(),
{
    let k = entries[i].0@;
    if i == entries.len() - 1 {
        assert(entries.remove(i) =~= entries.drop_last());
        lemma_view_remove_last_occurrence(entries.drop_last(), k);
        assert(entries_view(entries.drop_last()) =~= entries_view(entries).remove(k));
    } else {
        let d = entries.drop_last();
        assert(keys_unique(d));
        lemma_view_remove_at(d, i);
        assert(entries.remove(i) =~= d.remove(i).push(entries.last()));
        lemma_view_push(d.remove(i), entries.last());
        assert(entries.last().0@ != k);
        assert(entries_view(entries.remove(i)) =~= entries_view(entries).remove(k));
    }
}

proof fn lemma_view_update_at(entries: Seq<(String, String)>, i: int, v: String)
    requires
        keys_unique(entries),
        0 <= i < entries.len(),
    ensures
        entries_view(entries.update(i, (entries[i].0, v))) == entries_view(entries).insert(entries[i].0@, v@),
        keys_unique(entries.update(i, (entries[i].0, v))),
    decreases entries.len(),
{
    let k = entries[i].0@;
    let u = entries.update(i, (entries[i].0, v));
    if i == entries.len() - 1 {
        assert(u =~= entries.drop_last().push((entries[i].0, v)));
        lemma_view_push(entries.drop_last(), (entries[i].0, v));
        assert(entries_view(u) =~= entries_view(entries).insert(k, v@));
    } else {
        let d = entries.drop_last();
        lemma_view_update_at(d, i, v);
        assert(u =~= d.update(i, (d[i].0, v)).push(entries.last()));
        lemma_view_push(d.update(i, (d[i].0, v)), entries.last());
        assert(entries.last().0@ != k);
        assert(entries_view(u) =~= entries_view(entries).insert(k, v@));
    }
}

/// The in-process cache of configuration values (key to JSON text), and the
/// time it was last known to be current. The shared store records when any
/// configuration last changed; a cache older than that is emptied.
pub struct ConfigurationCache {
    last_read: i64,
    entries: Vec<(String, String)>,
}

impl ConfigurationCache {
    /// The cached values.
    pub closed spec fn spec_entries(&self) -> Map<Seq<char>, Seq<char>> {
        entries_view(self.entries@)
    }

    /// When the cache was last known to be current.
    pub closed spec fn spec_last_read(&self) -> i64 {
        self.last_read
    }

    /// No key is cached twice.
    pub closed spec fn wf(&self) -> bool {
        keys_unique(self.entries@)
    }

    /// An empty cache, current as of `now`.
    pub fn new(now: i64) -> (c: ConfigurationCache)
        ensures
            c.wf(),
            c.spec_entries() == Map::<Seq<char>, Seq<char>>::empty(),
            c.spec_last_read() == now,
    {
        ConfigurationCache { last_read: now, entries: Vec::new() }
    }

    fn position(&self, key: &str) -> (r: Option<usize>)
        ensures
            match r {
                Some(i) => i < self.entries@.len() && self.entries@[i as int].0@ == key@,
                None => forall|i: int| 0 <= i < self.entries@.len() ==> self.entries@[i].0@ != key@,
            },
    {
        let k = String::from_str(key);
        let mut i: usize = 0;
        while i < self.entries.len()
            invariant
                i <= self.entries@.len(),
                k@ == key@,
                forall|j: int| 0 <= j < i ==> self.entries@[j].0@ != key@,
            decreases self.entries@.len() - i,
        {
            if self.entries[i].0 == k {
                return Some(i);
            }
            i += 1;
        }
        None
    }

    /// Looks a key up. When the shared change time `changed` is later than
    /// the cache's time, the cache is emptied and marked current as of
    /// `now`, and the value is to be read from the store (`None`);
    /// otherwise the cached value, if any, is returned.
    pub fn lookup(&mut self, key: &str, changed: i64, now: i64) -> (r: Option<String>)
        requires
            old(self).wf(),
        ensures
            final(self).wf(),
            changed > old(self).spec_last_read() ==> {
                &&& r is None
                &&& final(self).spec_entries() == Map::<Seq<char>, Seq<char>>::empty()
                &&& final(self).spec_last_read() == now
            },
            changed <= old(self).spec_last_read() ==> {
                &&& final(self).spec_entries() == old(self).spec_entries()
                &&& final(self).spec_last_read() == old(self).spec_last_read()
                &&& match r {
                    Some(v) => old(self).spec_entries().contains_key(key@) && old(self).spec_entries()[key@] == v@,
                    None => !old(self).spec_entries().contains_key(key@),
                }
            },
    {
        if changed > self.last_read {
            self.last_read = now;
            self.entries = Vec::new();
            return None;
        }
        match self.position(key) {
            Some(i) => {
                proof {
                    lemma_view_at(self.entries@, i as int);
                }
                Some(self.entries[i].1.clone())
            },
            None => {
                proof {
                    lemma_view_contains(self.entries@, key@);
                }
                None
            },
        }
    }

    /// Caches a value read from the store.
    pub fn store(&mut self, key: &str, value: String)
        requires
            old(self).wf(),
        ensures
            final(self).wf(),
            final(self).spec_entries() == old(self).spec_entries().insert(key@, value@),
            final(self).spec_last_read() == old(self).spec_last_read(),
    {
        match self.position(key) {
            Some(i) => {
                let k = self.entries[i].0.clone();
                proof {
                    lemma_view_update_at(self.entries@, i as int, value);
                }
                self.entries.set(i, (k, value));
            },
            None => {
                let ghost e0 = self.entries@;
                self.entries.push((String::from_str(key), value));
                proof {
                    lemma_view_push(e0, self.entries@.last());
                    assert(self.entries@.drop_last() =~= e0);
                }
            },
        }
    }

    /// Drops the cached value of a key whose configuration changed.
    pub fn invalidate(&mut self, key: &str)
        requires
            old(self).wf(),
        ensures
            final(self).wf(),
            final(self).spec_entries() == old(self).spec_entries().remove(key@),
            final(self).spec_last_read() == old(self).spec_last_read(),
    {
        match self.position(key) {
            Some(i) => {
                proof {
                    lemma_view_remove_at(self.entries@, i as int);
                }
                self.entries.remove(i);
            },
            None => {
                proof {
                    lemma_view_contains(self.entries@, key@);
                    assert(self.spec_entries().remove(key@) =~= self.spec_entries());
                }
            },
        }
    }
}

/// A value stored in a current cache is found again.
pub proof fn law_configuration_cache_read_after_store(
    before: ConfigurationCache,
    after: ConfigurationCache,
    key: Seq<char>,
    value: Seq<char>,
)
    requires
        after.spec_entries() == before.spec_entries().insert(key, value),
    ensures
        after.spec_entries().contains_key(key),
        after.spec_entries()[key] == value,
{
}

/// A value invalidated in the cache is not read from it until it is stored again.
pub proof fn law_configuration_cache_read_after_invalidate(
    before: ConfigurationCache,
    after: ConfigurationCache,
    key: Seq<char>,
)
    requires
        after.spec_entries() == before.spec_entries().remove(key),
    ensures
        !after.spec_entries().contains_key(key),
{
}

} // verus!
