//! A typed client core for the MediaWiki Action API: parameter encoding,
//! request descriptions, the continuation-driven page generator, and the
//! session decisions (login, token cache, edit throttle).

pub mod api;
pub mod cases;
pub mod encode;
pub mod enum_set;
pub mod flags;
pub mod generators;
pub mod patrol;
pub mod req;
pub mod session;
pub mod types;
pub mod url;
