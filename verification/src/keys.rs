//! The signing-key set, the key cache, and the trusted boundary to the
//! key-set document parser.
//!
//! A key set is built wholesale from one fetched key-set document and is
//! never mutated in place; the cache swaps complete sets, so a reader sees
//! either the old set or the new one, never a mix.  The cache starts
//! empty and stays unchanged across every failed refresh: key material may
//! go briefly stale, but installed keys are never lost to a transient
//! fetch failure.

use vstd::prelude::*;

use crate::errors::FetchError;

verus! {

/// `jsonwebtoken::jwk::JwkSet`: the parsed form of a fetched key-set
/// document, a list of JSON web keys, opaque to the verifier.
#[verifier::external_type_specification]
#[verifier::external_body]
pub struct ExJwkSet(jsonwebtoken::jwk::JwkSet);

/// `jsonwebtoken::DecodingKey`: one public verification key, opaque to the
/// verifier; only the signature check reads it.
#[verifier::external_type_specification]
#[verifier::external_body]
pub struct ExDecodingKey(jsonwebtoken::DecodingKey);

/// What one listed key contributes to the model: its optional key id, and
/// whether its material can be turned into a verification key.
pub ghost struct JwkInfo {
    pub kid: Option<Seq<char>>,
    pub usable: bool,
}

/// The key list encoded in a key-set document, if the document parses.
/// A pure function of the document text.
pub uninterp spec fn jwks_document(body: Seq<char>) -> Option<Seq<JwkInfo>>;

/// What a parsed key set holds, one entry per listed key, in document
/// order.
pub uninterp spec fn jwk_summary(s: jsonwebtoken::jwk::JwkSet) -> Seq<JwkInfo>;

/// Relies on `serde_json::from_str::<JwkSet>`: parses a key-set document,
/// failing exactly when the text is not a well-formed key-set document.
#[verifier::external_body]
fn parse_jwk_set(body: &str) -> (r: Option<jsonwebtoken::jwk::JwkSet>)
    ensures
        r matches Some(s) ==> Some(jwk_summary(s)) == jwks_document(body@),
        r is Some <==> jwks_document(body@) is Some,
{
    serde_json::from_str(body).ok()
}

/// Relies on `Vec::len` of the key set's key list.
#[verifier::external_body]
fn jwk_count(s: &jsonwebtoken::jwk::JwkSet) -> (n: usize)
    ensures
        n == jwk_summary(*s).len(),
{
    s.keys.len()
}

/// Relies on the `key_id` field of a listed key's common parameters.
#[verifier::external_body]
fn jwk_kid_at(s: &jsonwebtoken::jwk::JwkSet, i: usize) -> (r: Option<String>)
    requires
        i < jwk_summary(*s).len(),
    ensures
        opt_string_view(r) == jwk_summary(*s)[i as int].kid,
{
    s.keys[i].common.key_id.clone()
}

/// Relies on `jsonwebtoken::DecodingKey::from_jwk`: turns one listed key's
/// material into a verification key, failing exactly when the material is
/// not usable.
#[verifier::external_body]
fn jwk_key_at(s: &jsonwebtoken::jwk::JwkSet, i: usize) -> (r: Option<jsonwebtoken::DecodingKey>)
    requires
        i < jwk_summary(*s).len(),
    ensures
        r is Some <==> jwk_summary(*s)[i as int].usable,
{
    jsonwebtoken::DecodingKey::from_jwk(&s.keys[i]).ok()
}

/// The view of an optional owned string.
pub open spec fn opt_string_view(o: Option<String>) -> Option<Seq<char>> {
    match o {
        Some(s) => Some(s@),
        None => None,
    }
}

/// A listed key's id, with an absent id standing for the empty id, as the
/// cache files such keys.
pub open spec fn kid_or_empty(o: Option<Seq<char>>) -> Seq<char> {
    match o {
        Some(k) => k,
        None => Seq::empty(),
    }
}

/// The key ids a parsed document installs, in document order.
pub open spec fn document_ids(d: Seq<JwkInfo>) -> Seq<Seq<char>> {
    d.map_values(|j: JwkInfo| kid_or_empty(j.kid))
}

/// Whether every listed key's material is usable.
pub open spec fn all_usable(d: Seq<JwkInfo>) -> bool {
    forall|i: int| 0 <= i < d.len() ==> d[i].usable
}

/// One installed signing key: its id and its verification key material.
pub struct KeyEntry {
    pub kid: String,
    pub key: jsonwebtoken::DecodingKey,
}

/// A complete, immutable set of signing keys, built from one fetched
/// key-set document.
pub struct KeySet {
    entries: Vec<KeyEntry>,
}

impl KeySet {
    /// The ids of the installed keys, in document order.
    pub closed spec fn ids(self) -> Seq<Seq<char>> {
        self.entries@.map_values(|e: KeyEntry| e.kid@)
    }

    /// Builds a key set from a fetched key-set document.
    ///
    /// The whole set is parsed before anything is handed out: a document
    /// that does not parse, or lists any key with unusable material, gives
    /// no set at all.  A key without an id is filed under the empty id.
    pub fn from_document(body: &str) -> (r: Result<KeySet, FetchError>)
        ensures
            r is Ok <==> (jwks_document(body@) matches Some(d) && all_usable(d)),
            r matches Ok(ks) ==> (jwks_document(body@) matches Some(d) && all_usable(d)
                && ks.ids() == document_ids(d)),
            r == Err::<KeySet, FetchError>(FetchError::Malformed) <==> jwks_document(body@) is None,
            r == Err::<KeySet, FetchError>(FetchError::BadKey) <==> (jwks_document(body@) matches Some(d)
                && !all_usable(d)),
    {
        let set = match parse_jwk_set(body) {
            Some(s) => s,
            None => {
                return Err(FetchError::Malformed);
            },
        };
        let ghost d = jwks_document(body@)->Some_0;
        let n = jwk_count(&set);
        let mut entries: Vec<KeyEntry> = Vec::new();
        let mut i: usize = 0;
        while i < n
            invariant
                jwk_summary(set) == d,
                jwks_document(body@) == Some(d),
                n == d.len(),
                i <= n,
                entries@.len() == i,
                forall|j: int| 0 <= j < i ==> #[trigger] entries@[j].kid@ == kid_or_empty(d[j].kid),
                forall|j: int| 0 <= j < i ==> #[trigger] d[j].usable,
            decreases n - i,
        {
            let key = match jwk_key_at(&set, i) {
                Some(k) => k,
                None => {
                    return Err(FetchError::BadKey);
                },
            };
            let kid = match jwk_kid_at(&set, i) {
                Some(k) => k,
                None => String::new(),
            };
            entries.push(KeyEntry { kid, key });
            i = i + 1;
        }
        let ks = KeySet { entries };
        proof {
            assert(ks.ids() =~= document_ids(d));
        }
        Ok(ks)
    }

    /// Looks up a key by id, returning the first installed key whose id
    /// matches.
    pub fn find(&self, kid: &str) -> (r: Option<&KeyEntry>)
        ensures
            r is Some <==> self.ids().contains(kid@),
            r matches Some(e) ==> e.kid@ == kid@,
    {
        let target: String = kid.to_owned();
        let n = self.entries.len();
        let mut i: usize = 0;
        while i < n
            invariant
                target@ == kid@,
                n == self.entries@.len(),
                i <= n,
                forall|j: int| 0 <= j < i ==> #[trigger] self.entries@[j].kid@ != kid@,
            decreases n - i,
        {
            if self.entries[i].kid == target {
                assert(self.ids()[i as int] == kid@);
                return Some(&self.entries[i]);
            }
            i = i + 1;
        }
        proof {
            assert(forall|j: int| 0 <= j < self.ids().len()
                ==> #[trigger] self.ids()[j] != kid@);
        }
        None
    }
}

/// A key-set document that parses and lists only usable key material:
/// the documents a refresh can install.
pub open spec fn document_good(body: Seq<char>) -> bool {
    jwks_document(body) matches Some(d) && all_usable(d)
}

/// A cache built by a successful refresh from the given document text:
/// it is installed and reads back exactly the document's key ids.
pub open spec fn refreshed_with(c: KeyCache, body: Seq<char>) -> bool {
    &&& document_good(body)
    &&& c.installed()
    &&& c.ids() == document_ids(jwks_document(body)->Some_0)
}

/// The key cache: the one concurrently read, refresher-written value of
/// the pipeline.  It holds the current complete key set, or nothing before
/// the first successful refresh.
pub struct KeyCache {
    current: Option<KeySet>,
}

impl KeyCache {
    /// Whether a first refresh has succeeded.
    pub closed spec fn installed(self) -> bool {
        self.current is Some
    }

    /// The readable contents: the installed key ids, or nothing before the
    /// first successful refresh.
    pub closed spec fn ids(self) -> Seq<Seq<char>> {
        match self.current {
            Some(ks) => ks.ids(),
            None => Seq::empty(),
        }
    }

    /// A cache with nothing installed yet.
    pub fn new() -> (c: KeyCache)
        ensures
            !c.installed(),
            c.ids() == Seq::<Seq<char>>::empty(),
    {
        KeyCache { current: None }
    }

    /// Non-blocking read of the currently installed key for an id.
    pub fn get(&self, kid: &str) -> (r: Option<&KeyEntry>)
        ensures
            r is Some <==> self.ids().contains(kid@),
            r matches Some(e) ==> e.kid@ == kid@,
    {
        match &self.current {
            Some(ks) => ks.find(kid),
            None => None,
        }
    }

    /// Installs the outcome of one fetch of the remote key-set document.
    ///
    /// On success the new set replaces the old one wholesale.  On any
    /// failure — transport, a document that does not parse, or unusable
    /// key material — the cache is left exactly as it was, so requests
    /// keep verifying against the already-installed keys.
    pub fn apply_refresh(&mut self, fetched: Result<String, FetchError>) -> (r: Result<
        (),
        FetchError,
    >)
        ensures
            r is Ok <==> (fetched is Ok && document_good(fetched->Ok_0@)),
            r is Ok ==> refreshed_with(*final(self), fetched->Ok_0@),
            r is Err ==> *final(self) == *old(self),
            old(self).installed() ==> final(self).installed(),
            fetched matches Err(e) ==> r == Err::<(), FetchError>(e),
            fetched matches Ok(body) && jwks_document(body@) is None
                ==> r == Err::<(), FetchError>(FetchError::Malformed),
            fetched matches Ok(body) && jwks_document(body@) matches Some(d) && !all_usable(d)
                ==> r == Err::<(), FetchError>(FetchError::BadKey),
    {
        let body = match fetched {
            Ok(b) => b,
            Err(e) => {
                return Err(e);
            },
        };
        match KeySet::from_document(body.as_str()) {
            Ok(ks) => {
                self.current = Some(ks);
                Ok(())
            },
            Err(e) => Err(e),
        }
    }
}

/// Law: refreshing is idempotent.  Two caches refreshed from the same
/// key-set document — in particular, the same cache refreshed twice in a
/// row while the remote document is unchanged — read back identical
/// contents.
pub proof fn lemma_refresh_idempotent(first: KeyCache, second: KeyCache, body: Seq<char>)
    requires
        refreshed_with(first, body),
        refreshed_with(second, body),
    ensures
        first.ids() == second.ids(),
{
}

/// Law: a key id absent from the cache but present in the remote document
/// is readable after one refresh; no second refresh is needed.
pub proof fn lemma_rotation_absorbed_by_one_refresh(
    before: KeyCache,
    after: KeyCache,
    body: Seq<char>,
    kid: Seq<char>,
)
    requires
        !before.ids().contains(kid),
        refreshed_with(after, body),
        document_ids(jwks_document(body)->Some_0).contains(kid),
    ensures
        after.ids().contains(kid),
{
}

} // verus!
