//! A user's private marketplace watchlist: one revisioned document under the
//! owner's authenticated private storage.
//!
//! URI: `/priv/pubky.app/marketplace/v1/watchlist.json`. The document is the
//! post-merge resolved state: each listing key appears in `items` or in
//! `tombstones`, never twice.
use vstd::prelude::*;
use crate::marketplace::{
    base_record_holds, lemma_base_record_iff,
    base_record_check, entity_id_check, pubky_check, validate_base_record, validate_entity_id,
    validate_pubky, MARKETPLACE_SCHEMA_VERSION, MAX_SAFE_INTEGER,
};
use crate::text::{and_then, concat3, outcome, owned, str_eq};
use crate::uri::{build_private_marketplace_path, private_marketplace_path};

verus! {

/// Record discriminator of watchlists.
pub const WATCHLIST_RECORD_TYPE: &'static str = "watchlist";

/// Maximum number of active watch entries in one document.
pub const MAX_WATCHLIST_ITEMS: usize = 500;

/// Maximum number of retained tombstones in one document.
pub const MAX_WATCHLIST_TOMBSTONES: usize = 500;

/// One actively watched listing. `watched_at_ms` is milliseconds since the
/// UNIX epoch: entry timestamps are last-write-wins merge keys that clients
/// compare numerically.
#[derive(Debug, Clone, PartialEq)]
pub struct PubkyAppWatchlistItem {
    /// z-base-32 pubky of the seller who owns the watched listing.
    pub listing_owner_pubky: String,
    /// Identifier of the watched listing.
    pub listing_id: String,
    /// Milliseconds since the UNIX epoch when the watch was (re)asserted.
    pub watched_at_ms: i64,
}

/// A removed watch, retained so a delete wins over a stale re-add during
/// merge.
#[derive(Debug, Clone, PartialEq)]
pub struct PubkyAppWatchlistTombstone {
    /// z-base-32 pubky of the seller who owns the unwatched listing.
    pub listing_owner_pubky: String,
    /// Identifier of the unwatched listing.
    pub listing_id: String,
    /// Milliseconds since the UNIX epoch when the watch was removed.
    pub removed_at_ms: i64,
}

/// A user's private marketplace watchlist.
#[derive(Debug, Clone, PartialEq)]
pub struct PubkyAppWatchlist {
    /// Marketplace contract version, always `1`.
    pub schema_version: i64,
    /// Record discriminator, always `"watchlist"`.
    pub record_type: String,
    /// z-base-32 pubky of the watchlist owner.
    pub owner_pubky: String,
    /// Monotonically increasing document revision, starting at 1.
    pub revision: i64,
    /// ISO-8601 creation datetime with offset.
    pub created_at: String,
    /// ISO-8601 last-update datetime with offset. Must not precede `created_at`.
    pub updated_at: String,
    /// Actively watched listings, keyed by (listingOwnerPubky, listingId).
    pub items: Vec<PubkyAppWatchlistItem>,
    /// Removed watches retained for merge.
    pub tombstones: Vec<PubkyAppWatchlistTombstone>,
}

/// The number of entries, items first and tombstones after.
pub open spec fn entry_count(w: PubkyAppWatchlist) -> int {
    (w.items@.len() + w.tombstones@.len()) as int
}

/// The listing key of entry `k`: items first, then tombstones.
pub open spec fn entry_key(w: PubkyAppWatchlist, k: int) -> (Seq<char>, Seq<char>) {
    if k < w.items@.len() {
        (w.items@[k].listing_owner_pubky@, w.items@[k].listing_id@)
    } else {
        (
            w.tombstones@[k - w.items@.len()].listing_owner_pubky@,
            w.tombstones@[k - w.items@.len()].listing_id@,
        )
    }
}

/// The timestamp of entry `k`.
pub open spec fn entry_time(w: PubkyAppWatchlist, k: int) -> i64 {
    if k < w.items@.len() {
        w.items@[k].watched_at_ms
    } else {
        w.tombstones@[k - w.items@.len()].removed_at_ms
    }
}

/// The outcome of checking an epoch-milliseconds timestamp.
pub open spec fn timestamp_ms_check(value: int, field: Seq<char>) -> Result<(), Seq<char>> {
    if 1 <= value <= MAX_SAFE_INTEGER {
        Ok(())
    } else {
        Err("Validation Error: "@ + field + " must be a positive safe integer of epoch milliseconds"@)
    }
}

/// The message of a repeated listing key.
pub open spec fn duplicate_key_message() -> Seq<char> {
    "Validation Error: watchlist listing keys must be unique across items and tombstones"@
}

/// The outcome of checking entry `k` on its own and against the entries
/// before it.
pub open spec fn entry_check(w: PubkyAppWatchlist, k: int) -> Result<(), Seq<char>> {
    let (owner, id) = entry_key(w, k);
    let is_item = k < w.items@.len();
    and_then(
        pubky_check(
            owner,
            if is_item {
                "items listingOwnerPubky"@
            } else {
                "tombstones listingOwnerPubky"@
            },
        ),
        and_then(
            entity_id_check(
                id,
                if is_item {
                    "items listingId"@
                } else {
                    "tombstones listingId"@
                },
            ),
            and_then(
                timestamp_ms_check(
                    entry_time(w, k) as int,
                    if is_item {
                        "items watchedAtMs"@
                    } else {
                        "tombstones removedAtMs"@
                    },
                ),
                if exists|j: int| 0 <= j < k && #[trigger] entry_key(w, j) == entry_key(w, k) {
                    Err(duplicate_key_message())
                } else {
                    Ok(())
                },
            ),
        ),
    )
}

/// The outcome of checking the first `n` entries in order.
pub open spec fn entries_check(w: PubkyAppWatchlist, n: nat) -> Result<(), Seq<char>>
    decreases n,
{
    if n == 0 {
        Ok(())
    } else {
        and_then(entries_check(w, (n - 1) as nat), entry_check(w, n - 1))
    }
}

/// The outcome of validating a watchlist.
pub open spec fn watchlist_check(w: PubkyAppWatchlist) -> Result<(), Seq<char>> {
    and_then(
        base_record_check(
            w.schema_version as int,
            w.record_type@,
            WATCHLIST_RECORD_TYPE@,
            w.owner_pubky@,
            w.revision as int,
            w.created_at@,
            w.updated_at@,
        ),
        if w.items@.len() > MAX_WATCHLIST_ITEMS {
            Err("Validation Error: watchlist must contain at most 500 items"@)
        } else if w.tombstones@.len() > MAX_WATCHLIST_TOMBSTONES {
            Err("Validation Error: watchlist must contain at most 500 tombstones"@)
        } else {
            entries_check(w, entry_count(w) as nat)
        },
    )
}

/// Every listing key occurs once across items and tombstones.
pub open spec fn keys_unique(w: PubkyAppWatchlist) -> bool {
    forall|i: int, j: int|
        0 <= i < j < entry_count(w) ==> #[trigger] entry_key(w, i) != #[trigger] entry_key(w, j)
}

proof fn lemma_entries_ok_unique(w: PubkyAppWatchlist, n: nat)
    requires
        entries_check(w, n) is Ok,
    ensures
        forall|i: int, j: int|
            0 <= i < j < n ==> #[trigger] entry_key(w, i) != #[trigger] entry_key(w, j),
    decreases n,
{
    if n > 0 {
        lemma_entries_ok_unique(w, (n - 1) as nat);
        assert forall|i: int, j: int| 0 <= i < j < n implies #[trigger] entry_key(w, i)
            != #[trigger] entry_key(w, j) by {
            if j == n - 1 {
                if entry_key(w, i) == entry_key(w, j) {
                    assert(entry_check(w, j) is Err);
                }
            }
        }
    }
}

/// Once the first `n` entries fail, every longer prefix fails the same way.
proof fn lemma_entries_error_persists(w: PubkyAppWatchlist, n: nat, m: nat)
    requires
        n <= m,
        entries_check(w, n) is Err,
    ensures
        entries_check(w, m) == entries_check(w, n),
    decreases m - n,
{
    if n < m {
        lemma_entries_error_persists(w, n, (m - 1) as nat);
    }
}

fn validate_timestamp_ms(value: i64, field: &str) -> (r: Result<(), String>)
    ensures
        outcome(r) == timestamp_ms_check(value as int, field@),
{
    if !(1 <= value && value <= MAX_SAFE_INTEGER) {
        return Err(
            concat3("Validation Error: ", field, " must be a positive safe integer of epoch milliseconds"),
        );
    }
    Ok(())
}

impl PubkyAppWatchlist {
    /// Creates a new watchlist.
    pub fn new(
        owner_pubky: String,
        revision: i64,
        created_at: String,
        updated_at: String,
        items: Vec<PubkyAppWatchlistItem>,
        tombstones: Vec<PubkyAppWatchlistTombstone>,
    ) -> (r: Self)
        ensures
            r.schema_version == MARKETPLACE_SCHEMA_VERSION,
            r.record_type@ == WATCHLIST_RECORD_TYPE@,
            r.owner_pubky == owner_pubky,
            r.revision == revision,
            r.created_at == created_at,
            r.updated_at == updated_at,
            r.items == items,
            r.tombstones == tombstones,
    {
        PubkyAppWatchlist {
            schema_version: MARKETPLACE_SCHEMA_VERSION,
            record_type: owned(WATCHLIST_RECORD_TYPE),
            owner_pubky,
            revision,
            created_at,
            updated_at,
            items,
            tombstones,
        }
    }

    /// The watchlist's private path:
    /// `/priv/pubky.app/marketplace/v1/watchlist.json`.
    pub fn create_path() -> (r: String)
        ensures
            r@ == private_marketplace_path("watchlist.json"@, ""@),
    {
        build_private_marketplace_path("watchlist.json", "")
    }

    fn key_owner(&self, k: usize) -> (r: &str)
        requires
            k < entry_count(*self),
        ensures
            r@ == entry_key(*self, k as int).0,
    {
        if k < self.items.len() {
            self.items[k].listing_owner_pubky.as_str()
        } else {
            self.tombstones[k - self.items.len()].listing_owner_pubky.as_str()
        }
    }

    fn key_id(&self, k: usize) -> (r: &str)
        requires
            k < entry_count(*self),
        ensures
            r@ == entry_key(*self, k as int).1,
    {
        if k < self.items.len() {
            self.items[k].listing_id.as_str()
        } else {
            self.tombstones[k - self.items.len()].listing_id.as_str()
        }
    }

    /// Whether the key of entry `k` occurs among the entries before it.
    fn key_seen_before(&self, k: usize) -> (r: bool)
        requires
            k < entry_count(*self),
        ensures
            r == exists|j: int| 0 <= j < k && #[trigger] entry_key(*self, j) == entry_key(*self, k as int),
    {
        let owner = self.key_owner(k);
        let id = self.key_id(k);
        let mut j: usize = 0;
        while j < k
            invariant
                k < entry_count(*self),
                owner@ == entry_key(*self, k as int).0,
                id@ == entry_key(*self, k as int).1,
                j <= k,
                forall|i: int| 0 <= i < j ==> #[trigger] entry_key(*self, i) != entry_key(*self, k as int),
            decreases k - j,
        {
            if str_eq(self.key_owner(j), owner) && str_eq(self.key_id(j), id) {
                return true;
            }
            j = j + 1;
        }
        false
    }

    fn check_entry(&self, k: usize) -> (r: Result<(), String>)
        requires
            k < entry_count(*self),
        ensures
            outcome(r) == entry_check(*self, k as int),
    {
        if k < self.items.len() {
            let item = &self.items[k];
            validate_pubky(item.listing_owner_pubky.as_str(), "items listingOwnerPubky")?;
            validate_entity_id(item.listing_id.as_str(), "items listingId")?;
            validate_timestamp_ms(item.watched_at_ms, "items watchedAtMs")?;
        } else {
            let tombstone = &self.tombstones[k - self.items.len()];
            validate_pubky(tombstone.listing_owner_pubky.as_str(), "tombstones listingOwnerPubky")?;
            validate_entity_id(tombstone.listing_id.as_str(), "tombstones listingId")?;
            validate_timestamp_ms(tombstone.removed_at_ms, "tombstones removedAtMs")?;
        }
        if self.key_seen_before(k) {
            return Err(
                owned(
                    "Validation Error: watchlist listing keys must be unique across items and tombstones",
                ),
            );
        }
        Ok(())
    }

    /// Validates the document: the shared record fields, the caps, every
    /// entry, and that each listing key occurs once across items and
    /// tombstones.
    pub fn validate(&self, _id: Option<&str>) -> (r: Result<(), String>)
        ensures
            outcome(r) == watchlist_check(*self),
            r is Ok ==> keys_unique(*self),
            r is Ok ==> self.items@.len() <= MAX_WATCHLIST_ITEMS && self.tombstones@.len()
                <= MAX_WATCHLIST_TOMBSTONES,
            r is Ok ==> base_record_holds(
                self.schema_version as int,
                self.record_type@,
                WATCHLIST_RECORD_TYPE@,
                self.owner_pubky@,
                self.revision as int,
                self.created_at@,
                self.updated_at@,
            ),
    {
        proof {
            lemma_base_record_iff(
                self.schema_version as int,
                self.record_type@,
                WATCHLIST_RECORD_TYPE@,
                self.owner_pubky@,
                self.revision as int,
                self.created_at@,
                self.updated_at@,
            );
        }
        validate_base_record(
            self.schema_version,
            self.record_type.as_str(),
            WATCHLIST_RECORD_TYPE,
            self.owner_pubky.as_str(),
            self.revision,
            self.created_at.as_str(),
            self.updated_at.as_str(),
        )?;
        if self.items.len() > MAX_WATCHLIST_ITEMS {
            return Err(owned("Validation Error: watchlist must contain at most 500 items"));
        }
        if self.tombstones.len() > MAX_WATCHLIST_TOMBSTONES {
            return Err(owned("Validation Error: watchlist must contain at most 500 tombstones"));
        }
        let total = self.items.len() + self.tombstones.len();
        let mut k: usize = 0;
        while k < total
            invariant
                total == entry_count(*self),
                k <= total,
                entries_check(*self, k as nat) is Ok,
                watchlist_check(*self) == entries_check(*self, total as nat),
            decreases total - k,
        {
            match self.check_entry(k) {
                Ok(()) => {},
                Err(e) => {
                    proof {
                        lemma_entries_error_persists(*self, (k + 1) as nat, total as nat);
                    }
                    return Err(e);
                },
            }
            k = k + 1;
        }
        proof {
            lemma_entries_ok_unique(*self, total as nat);
        }
        Ok(())
    }
}

} // verus!
