//! CORS response decoration for an HTTP server pipeline.
//!
//! A [`CorsLayer`] holds a static policy; wrapping an inner service with it
//! gives a [`CorsLayerService`], which sets the `Access-Control-Allow-*`
//! headers of every response that the inner service produces.

mod cors;
mod headers;
mod layer;

pub use cors::{
    credentials_key, credentials_text, decorated, headers_key, is_cors_key, is_valid_policy,
    is_valid_setting, lemma_configured_value_wins, lemma_credentials_always_set,
    lemma_decoration_idempotent, lemma_other_headers_untouched, lemma_same_cors_headers,
    lemma_unconfigured_header_untouched, methods_key, origin_key, same_entry, set_if_configured,
    setting_bytes, setting_text, CorsError, CorsLayer, CorsLayerService, CorsPolicy,
};
pub use headers::{
    ascii_lower, has_room_for, header_entries, is_header_name, is_header_value, is_token_char,
    is_value_byte, lower_text, name_text, value_bytes,
};
pub use layer::Layer;
