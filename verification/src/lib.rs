//! Plain-data model of the WebKit bindings: the values, codes, builders and
//! status handling that the bridge exchanges with WebKit, with their contracts.
pub mod attributed_string;
pub mod back_forward_list;
pub mod bridge;
pub mod config;
pub mod content_world;
pub mod download;
pub mod error;
pub mod events;
pub mod ffi;
pub mod find;
pub mod http_cookie_store;
pub mod navigation_delegate;
pub mod preferences;
pub mod proxy_configuration;
pub mod ui_delegate;
pub mod url_scheme;
pub mod user_script;
pub mod web_extension;
