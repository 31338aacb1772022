# pubky_app_specs (marketplace records)

Data models and validation rules for the pubky.app marketplace: shops,
listings, drops, watchlists, reviews, review responses, order receipts, and
the three Ed25519-signed compact-JWS attestations (purchase, order receipt,
drop edition) that bind them together.

The library in `src/` is verified with Verus. Every validator states, over
a spec function, exactly which records it accepts and which error it
returns first; sanitizers state what they trim and normalise; the JWS
framing, base64url and z-base-32 codecs state their round trips.

Layout:

- `src/text.rs`, `src/encoding.rs`, `src/base32.rs`: character classes,
  trimming, base64url, and base32 in the Crockford and z-base-32 alphabets,
  with their round-trip laws.
- `src/marketplace.rs`, `src/uri.rs`: shared field rules (pubkys, ids,
  timestamps, money, locations) and the canonical `pubky://` URIs;
  `src/datetime_order.rs`: UTC timestamps order as the instants they name.
- `src/crypto.rs`, `src/web_url.rs`: the calls into `ed25519-dalek`,
  `blake3`, `base32` and `url`, each behind a small trusted wrapper with its
  contract.
- `src/jws.rs`, `src/attestation.rs`, `src/*_attestation.rs`: compact JWS
  framing, claim validation and the binding checks of each attestation.
- One module per record type for the rest.
- `app/`: the serde wire types (camelCase JSON, closed-world claim sets),
  `try_from` on JSON blobs, and the parse step of each attestation.
- `tests/`: the behavioural tests, run against the real outside crates.
