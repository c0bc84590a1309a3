//! Client library for a platform HTTP API: session exchange, access-token
//! issuance and templated message delivery, built around a verified
//! access-token lifecycle manager.
//!
//! The core is the credential manager: it caches the short-lived bearer
//! credential, judges its freshness against the clock with a strict
//! validity window, refreshes it from an issuance response, and round-trips
//! it through a byte record for durable storage. Around it sit the total
//! mappings from each endpoint's server error codes onto one error
//! taxonomy. A host supplies the transport and the file store and hands
//! this library plain values; every decision made here carries a proved
//! contract.

pub mod auth;
pub mod client;
pub mod codec;
pub mod common;
pub mod template_message;

pub use auth::AccessTokenResponse;
pub use auth::Code2SessionResponse;
pub use auth::code2session_result;
pub use client::AccessToken;
pub use client::Client;
pub use client::is_fresh;
pub use client::lemma_cache_hit_within_window;
pub use client::lemma_freshness_boundary;
pub use client::lemma_single_issuance_serves_all;
pub use codec::decode_record;
pub use codec::encode_record;
pub use codec::lemma_record_round_trip;
pub use common::CommonResponse;
pub use common::Error;
pub use common::ErrorSpec;
pub use template_message::SendRequest;
pub use template_message::send_result;
