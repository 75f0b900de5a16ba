//! Normalizes git remote locators (scp-like shorthand, URLs, host shortcuts)
//! into one structured record.

pub mod hosted;
pub mod normalize;
pub mod scp;
pub mod text;
pub mod url_parts;
pub mod vocab;

pub use hosted::HostedGit;
pub use url_parts::UrlParts;
pub use vocab::{Host, ParseError, Protocol};
