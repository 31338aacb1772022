//! Data model of the Pubky.app marketplace: record types, their validation
//! and sanitization rules, pubky URI builders, and the offline verification
//! of the compact-JWS attestations embedded in reviews and order receipts.
//!
//! Every validator states in its contract exactly which message it returns
//! for which record, in the order the checks run.
pub mod constants;
pub mod text;
pub mod encoding;
pub mod base32;
pub mod crypto;
pub mod web_url;
pub mod marketplace;
pub mod datetime_order;
pub mod uri;
pub mod jws;
pub mod attestation;
pub mod review;
pub mod purchase_attestation;
pub mod review_response;
pub mod shop;
pub mod watchlist;
pub mod order_receipt;
pub mod receipt_attestation;
pub mod drop;
pub mod edition_attestation;
pub mod listing_parts;
pub mod listing;

pub use constants::{APP_PATH, MARKETPLACE_PATH, PRIVATE_PATH, PROTOCOL, PUBLIC_PATH, VERSION};
pub use drop::{PubkyAppDropFormat, PubkyAppDropStockDisplay, PubkyAppMarketplaceDrop};
pub use edition_attestation::{
    PubkyAppDropEditionAttestation, PubkyAppDropEditionAttestationClaims,
    DROP_EDITION_ATTESTATION_TYP, DROP_EDITION_ATTESTATION_VERSION,
};
pub use encoding::base64url_encode;
pub use listing::PubkyAppListing;
pub use listing_parts::{
    PubkyAppDigitalLock, PubkyAppFulfillmentMethod, PubkyAppListingAttributeValue,
    PubkyAppListingCondition, PubkyAppListingMedia, PubkyAppListingMediaKind,
    PubkyAppListingPackage, PubkyAppListingSale, PubkyAppListingState, PubkyAppListingVariant,
    PubkyAppReturnPolicy, PubkyAppShippingOption,
};
pub use marketplace::{PubkyAppMarketplaceLocation, PubkyAppMoney, MARKETPLACE_SCHEMA_VERSION};
pub use order_receipt::{
    PubkyAppMarketplaceOrderReceipt, PubkyAppOrderReceiptDrop, PubkyAppOrderReceiptRole,
};
pub use purchase_attestation::{
    PubkyAppPurchaseAttestation, PubkyAppPurchaseAttestationClaims, PURCHASE_ATTESTATION_TYP,
    PURCHASE_ATTESTATION_VERSION,
};
pub use receipt_attestation::{
    PubkyAppOrderReceiptAttestation, PubkyAppOrderReceiptAttestationClaims,
    ORDER_RECEIPT_ATTESTATION_TYP, ORDER_RECEIPT_ATTESTATION_VERSION,
};
pub use review::{PubkyAppMarketplaceReview, PubkyAppReviewRatings, PubkyAppReviewRole};
pub use review_response::PubkyAppReviewResponse;
pub use shop::PubkyAppShop;
pub use uri::{
    base_uri_builder, blob_uri_builder, bookmark_uri_builder, feed_uri_builder, file_uri_builder,
    follow_uri_builder, is_pubky_scheme, last_read_uri_builder, listing_uri_builder,
    marketplace_review_uri_builder, mute_uri_builder, post_uri_builder,
    review_response_uri_builder, shop_uri_builder, tag_uri_builder, user_uri_builder,
    watchlist_uri_builder,
};
pub use watchlist::{
    PubkyAppWatchlist, PubkyAppWatchlistItem, PubkyAppWatchlistTombstone, MAX_WATCHLIST_ITEMS,
    MAX_WATCHLIST_TOMBSTONES,
};
