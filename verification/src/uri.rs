//! Record paths, pubky URI builders and the recognition of canonical
//! marketplace listing and review URIs.
use vstd::prelude::*;
use crate::constants::{APP_PATH, MARKETPLACE_PATH, PRIVATE_PATH, PROTOCOL, PUBLIC_PATH};
use crate::marketplace::{is_pubky, is_pubky_chars, sub_vec};
use crate::text::{all_path_safe, chars_of, check_all_path_safe, owned, string_of};

verus! {

/// `/pub/pubky.app/<segment><id>`: the path of a public record.
pub open spec fn public_path(segment: Seq<char>, id: Seq<char>) -> Seq<char> {
    PUBLIC_PATH@ + APP_PATH@ + segment + id
}

/// `/priv/pubky.app/marketplace/v1/<segment><id>`: the path of a private
/// marketplace record.
pub open spec fn private_marketplace_path(segment: Seq<char>, id: Seq<char>) -> Seq<char> {
    PRIVATE_PATH@ + APP_PATH@ + MARKETPLACE_PATH@ + segment + id
}

/// `pubky://<owner><path>`.
pub open spec fn pubky_uri(owner: Seq<char>, path: Seq<char>) -> Seq<char> {
    PROTOCOL@ + owner + path
}

/// `/pub/pubky.app/<segment><id>`.
pub fn build_public_path(segment: &str, id: &str) -> (r: String)
    ensures
        r@ == public_path(segment@, id@),
{
    let mut r = owned(PUBLIC_PATH);
    r.append(APP_PATH);
    r.append(segment);
    r.append(id);
    r
}

/// `/priv/pubky.app/marketplace/v1/<segment><id>`.
pub fn build_private_marketplace_path(segment: &str, id: &str) -> (r: String)
    ensures
        r@ == private_marketplace_path(segment@, id@),
{
    let mut r = owned(PRIVATE_PATH);
    r.append(APP_PATH);
    r.append(MARKETPLACE_PATH);
    r.append(segment);
    r.append(id);
    r
}

/// `pubky://<owner><path>`.
pub fn build_pubky_uri(owner: &str, path: &str) -> (r: String)
    ensures
        r@ == pubky_uri(owner@, path@),
{
    let mut r = owned(PROTOCOL);
    r.append(owner);
    r.append(path);
    r
}

/// Builds the base URI of a user's application data:
/// "pubky://<user_id>/pub/pubky.app/".
pub fn base_uri_builder(user_id: String) -> (r: String)
    ensures
        r@ == pubky_uri(user_id@, public_path(""@, ""@)),
{
    build_pubky_uri(user_id.as_str(), build_public_path("", "").as_str())
}

/// Builds an User URI of the form "pubky://<user_pubky_id>/pub/pubky.app/profile.json"
pub fn user_uri_builder(user_id: String) -> (r: String)
    ensures
        r@ == pubky_uri(user_id@, public_path("profile.json"@, ""@)),
{
    build_pubky_uri(user_id.as_str(), build_public_path("profile.json", "").as_str())
}

/// Builds a Post URI of the form "pubky://<author_id>/pub/pubky.app/posts/<post_id>"
pub fn post_uri_builder(author_id: String, post_id: String) -> (r: String)
    ensures
        r@ == pubky_uri(author_id@, public_path("posts/"@, post_id@)),
{
    build_pubky_uri(author_id.as_str(), build_public_path("posts/", post_id.as_str()).as_str())
}

/// Builds a Follow URI of the form "pubky://<author_id>/pub/pubky.app/follows/<follow_id>"
pub fn follow_uri_builder(author_id: String, follow_id: String) -> (r: String)
    ensures
        r@ == pubky_uri(author_id@, public_path("follows/"@, follow_id@)),
{
    build_pubky_uri(author_id.as_str(), build_public_path("follows/", follow_id.as_str()).as_str())
}

/// Builds a Mute URI of the form "pubky://<author_id>/pub/pubky.app/mutes/<mute_id>"
pub fn mute_uri_builder(author_id: String, mute_id: String) -> (r: String)
    ensures
        r@ == pubky_uri(author_id@, public_path("mutes/"@, mute_id@)),
{
    build_pubky_uri(author_id.as_str(), build_public_path("mutes/", mute_id.as_str()).as_str())
}

/// Builds a Bookmark URI of the form "pubky://<author_id>/pub/pubky.app/bookmarks/<bookmark_id>"
pub fn bookmark_uri_builder(author_id: String, bookmark_id: String) -> (r: String)
    ensures
        r@ == pubky_uri(author_id@, public_path("bookmarks/"@, bookmark_id@)),
{
    build_pubky_uri(
        author_id.as_str(),
        build_public_path("bookmarks/", bookmark_id.as_str()).as_str(),
    )
}

/// Builds a Tag URI of the form "pubky://<author_id>/pub/pubky.app/tags/<tag_id>"
pub fn tag_uri_builder(author_id: String, tag_id: String) -> (r: String)
    ensures
        r@ == pubky_uri(author_id@, public_path("tags/"@, tag_id@)),
{
    build_pubky_uri(author_id.as_str(), build_public_path("tags/", tag_id.as_str()).as_str())
}

/// Builds a File URI of the form "pubky://<author_id>/pub/pubky.app/files/<file_id>"
pub fn file_uri_builder(author_id: String, file_id: String) -> (r: String)
    ensures
        r@ == pubky_uri(author_id@, public_path("files/"@, file_id@)),
{
    build_pubky_uri(author_id.as_str(), build_public_path("files/", file_id.as_str()).as_str())
}

/// Builds a Blob URI of the form "pubky://<author_id>/pub/pubky.app/blobs/<blob_id>"
pub fn blob_uri_builder(author_id: String, blob_id: String) -> (r: String)
    ensures
        r@ == pubky_uri(author_id@, public_path("blobs/"@, blob_id@)),
{
    build_pubky_uri(author_id.as_str(), build_public_path("blobs/", blob_id.as_str()).as_str())
}

/// Builds a Feed URI of the form "pubky://<author_id>/pub/pubky.app/feeds/<feed_id>"
pub fn feed_uri_builder(author_id: String, feed_id: String) -> (r: String)
    ensures
        r@ == pubky_uri(author_id@, public_path("feeds/"@, feed_id@)),
{
    build_pubky_uri(author_id.as_str(), build_public_path("feeds/", feed_id.as_str()).as_str())
}

/// Builds a LastRead URI of the form "pubky://<author_id>/pub/pubky.app/last_read"
pub fn last_read_uri_builder(author_id: String) -> (r: String)
    ensures
        r@ == pubky_uri(author_id@, public_path("last_read"@, ""@)),
{
    build_pubky_uri(author_id.as_str(), build_public_path("last_read", "").as_str())
}

/// Builds a Shop URI of the form "pubky://<owner_id>/pub/pubky.app/marketplace/v1/shop.json"
pub fn shop_uri_builder(owner_id: String) -> (r: String)
    ensures
        r@ == pubky_uri(owner_id@, public_path("marketplace/v1/shop.json"@, ""@)),
{
    build_pubky_uri(
        owner_id.as_str(),
        build_public_path("marketplace/v1/shop.json", "").as_str(),
    )
}

/// The canonical URI of listing `id` of seller `owner`.
pub open spec fn listing_uri(owner: Seq<char>, id: Seq<char>) -> Seq<char> {
    pubky_uri(owner, public_path("marketplace/v1/listings/"@, id))
}

/// The canonical URI of review `id` on the homeserver of `owner`.
pub open spec fn review_uri(owner: Seq<char>, id: Seq<char>) -> Seq<char> {
    pubky_uri(owner, public_path("marketplace/v1/reviews/"@, id))
}

/// Builds a Listing URI of the form "pubky://<seller_id>/pub/pubky.app/marketplace/v1/listings/<listing_id>"
pub fn listing_uri_builder(seller_id: String, listing_id: String) -> (r: String)
    ensures
        r@ == listing_uri(seller_id@, listing_id@),
{
    build_pubky_uri(
        seller_id.as_str(),
        build_public_path("marketplace/v1/listings/", listing_id.as_str()).as_str(),
    )
}

/// Builds a MarketplaceReview URI of the form "pubky://<author_id>/pub/pubky.app/marketplace/v1/reviews/<review_id>"
pub fn marketplace_review_uri_builder(author_id: String, review_id: String) -> (r: String)
    ensures
        r@ == review_uri(author_id@, review_id@),
{
    build_pubky_uri(
        author_id.as_str(),
        build_public_path("marketplace/v1/reviews/", review_id.as_str()).as_str(),
    )
}

/// Builds a private Watchlist URI of the form "pubky://<owner_id>/priv/pubky.app/marketplace/v1/watchlist.json".
///
/// Only the owner's own authenticated sessions can read or write this URI;
/// it is never watcher-indexed.
pub fn watchlist_uri_builder(owner_id: String) -> (r: String)
    ensures
        r@ == pubky_uri(owner_id@, private_marketplace_path("watchlist.json"@, ""@)),
{
    build_pubky_uri(
        owner_id.as_str(),
        build_private_marketplace_path("watchlist.json", "").as_str(),
    )
}

/// Builds a ReviewResponse URI of the form "pubky://<responder_id>/pub/pubky.app/marketplace/v1/review_responses/<review_id>"
pub fn review_response_uri_builder(responder_id: String, review_id: String) -> (r: String)
    ensures
        r@ == pubky_uri(
            responder_id@,
            public_path("marketplace/v1/review_responses/"@, review_id@),
        ),
{
    build_pubky_uri(
        responder_id.as_str(),
        build_public_path("marketplace/v1/review_responses/", review_id.as_str()).as_str(),
    )
}

/// Whether a URI uses the `pubky://` scheme.
pub fn is_pubky_scheme(uri: &str) -> (r: bool)
    ensures
        r == (PROTOCOL@.len() <= uri@.len() && uri@.take(PROTOCOL@.len() as int) == PROTOCOL@),
{
    crate::text::starts_with(uri, PROTOCOL)
}

// ---------------------------------------------------------------------------
// Canonical listing and review URIs
// ---------------------------------------------------------------------------

/// A path-safe entity identifier: 1-128 characters of `[A-Za-z0-9_-]`.
pub open spec fn is_entity_id(id: Seq<char>) -> bool {
    1 <= id.len() <= 128 && all_path_safe(id)
}

/// The owner and identifier of `uri` when it is exactly
/// `pubky://<pubky>/pub/pubky.app/<segment><id>` for a 52-character
/// z-base-32 pubky and a path-safe entity identifier: no extra path
/// segment, query, fragment or userinfo can fit that shape.
pub open spec fn canonical_record_uri(uri: Seq<char>, segment: Seq<char>) -> Option<(Seq<char>, Seq<char>)> {
    let path = public_path(segment, ""@);
    let start: int = 60 + path.len() as int;
    if uri.len() >= start && uri.take(8) == PROTOCOL@ && is_pubky(uri.subrange(8, 60))
        && uri.subrange(60, start) == path && is_entity_id(uri.skip(start)) {
        Some((uri.subrange(8, 60), uri.skip(start)))
    } else {
        None
    }
}

/// Recognising a built URI gives back its parts: for a valid pubky `owner`
/// and entity identifier `id`, the URI `pubky://<owner>/pub/pubky.app/<segment><id>`
/// is canonical with owner `owner` and identifier `id`.
pub proof fn lemma_canonical_record_uri_of_built(owner: Seq<char>, segment: Seq<char>, id: Seq<char>)
    requires
        is_pubky(owner),
        is_entity_id(id),
    ensures
        canonical_record_uri(pubky_uri(owner, public_path(segment, id)), segment) == Some((owner, id)),
{
    reveal_strlit("pubky://");
    reveal_strlit("/pub/");
    reveal_strlit("pubky.app/");
    reveal_strlit("");
    let uri = pubky_uri(owner, public_path(segment, id));
    let path = public_path(segment, ""@);
    let start: int = 60 + path.len() as int;
    assert(uri =~= PROTOCOL@ + owner + path + id);
    assert(uri.take(8) =~= PROTOCOL@);
    assert(uri.subrange(8, 60) =~= owner);
    assert(uri.subrange(60, start) =~= path);
    assert(uri.skip(start) =~= id);
}

/// Recognises `uri` as the canonical URI of a record under `segment`,
/// giving back its owner and identifier.
pub fn parse_canonical_record_uri(uri: &str, segment: &str) -> (r: Option<(String, String)>)
    ensures
        match r {
            Some((owner, id)) => canonical_record_uri(uri@, segment@) == Some((owner@, id@)),
            None => canonical_record_uri(uri@, segment@) is None,
        },
{
    let v = chars_of(uri);
    let path = chars_of(build_public_path(segment, "").as_str());
    let protocol = chars_of(PROTOCOL);
    proof {
        reveal_strlit("pubky://");
    }
    if v.len() < 60 || path.len() > v.len() - 60 {
        return None;
    }
    let start: usize = 60 + path.len();
    let mut i: usize = 0;
    while i < 8
        invariant
            v@ == uri@,
            protocol@ == PROTOCOL@,
            protocol@.len() == 8,
            v@.len() >= 60,
            i <= 8,
            forall|j: int| 0 <= j < i ==> v@[j] == protocol@[j],
        decreases 8 - i,
    {
        if v[i] != protocol[i] {
            assert(uri@.take(8)[i as int] != PROTOCOL@[i as int]);
            return None;
        }
        i = i + 1;
    }
    assert(uri@.take(8) =~= PROTOCOL@);
    let owner = sub_vec(&v, 8, 60);
    if !is_pubky_chars(&owner) {
        return None;
    }
    let mut k: usize = 0;
    while k < path.len()
        invariant
            v@ == uri@,
            path@ == public_path(segment@, ""@),
            start == 60 + path@.len(),
            start <= v@.len(),
            k <= path.len(),
            forall|j: int| 0 <= j < k ==> v@[60 + j] == path@[j],
        decreases path.len() - k,
    {
        if v[60 + k] != path[k] {
            assert(uri@.subrange(60, start as int)[k as int] != path@[k as int]);
            return None;
        }
        k = k + 1;
    }
    assert(uri@.subrange(60, start as int) =~= path@);
    let id = sub_vec(&v, start, v.len());
    assert(id@ =~= uri@.skip(start as int));
    if !(1 <= id.len() && id.len() <= 128 && check_all_path_safe(&id)) {
        return None;
    }
    Some((string_of(&owner), string_of(&id)))
}

/// The seller and listing identifier of a canonical marketplace listing URI
/// (`pubky://<seller>/pub/pubky.app/marketplace/v1/listings/<id>`).
pub fn parse_listing_uri(uri: &str) -> (r: Option<(String, String)>)
    ensures
        match r {
            Some((owner, id)) => canonical_record_uri(uri@, "marketplace/v1/listings/"@) == Some(
                (owner@, id@),
            ),
            None => canonical_record_uri(uri@, "marketplace/v1/listings/"@) is None,
        },
{
    parse_canonical_record_uri(uri, "marketplace/v1/listings/")
}

/// The author and identifier of a canonical marketplace review URI
/// (`pubky://<author>/pub/pubky.app/marketplace/v1/reviews/<id>`).
pub fn parse_review_uri(uri: &str) -> (r: Option<(String, String)>)
    ensures
        match r {
            Some((owner, id)) => canonical_record_uri(uri@, "marketplace/v1/reviews/"@) == Some(
                (owner@, id@),
            ),
            None => canonical_record_uri(uri@, "marketplace/v1/reviews/"@) is None,
        },
{
    parse_canonical_record_uri(uri, "marketplace/v1/reviews/")
}

} // verus!
