//! A boundary-safe surface over a parsed URL: primitive views, a flat error
//! taxonomy, construction and relative resolution, read-only accessors and a
//! host resolver that renders every host kind as owned text.
#![allow(non_camel_case_types)]

pub mod engine;
pub mod error;
pub mod handle;
pub mod host;
pub mod params;
pub mod span;

pub use error::violet_net_url_error_t;
pub use handle::{
    violet_net_url_as_str, violet_net_url_authority, violet_net_url_domain,
    violet_net_url_fragment, violet_net_url_has_authority, violet_net_url_has_host,
    violet_net_url_host, violet_net_url_is_special, violet_net_url_join, violet_net_url_password,
    violet_net_url_path, violet_net_url_port, violet_net_url_port_or_known_default,
    violet_net_url_query, violet_net_url_scheme, violet_net_url_t, violet_net_url_username,
};
pub use host::violet_net_host_t;
pub use span::{violet_net_optional_string_view, violet_net_optional_uint16, violet_net_string_view};
