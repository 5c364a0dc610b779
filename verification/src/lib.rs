//! A tiny pastebin core: short alphanumeric identifiers for stored content.
//!
//! The library generates fresh random identifiers over a fixed 62-symbol
//! alphabet and validates untrusted identifier strings supplied by clients,
//! the sole injection defense before an identifier is used as a filesystem
//! path segment.

pub mod paste_id;
