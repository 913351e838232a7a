//! Verified core of the NIFY market terminal: the session bookkeeping behind
//! the trade tape and liquidation feed, the signal vocabulary, the readers of
//! feed fields, the per-frame control decisions and the integer layout rules.

pub mod signal;
pub mod session;
pub mod text;
pub mod feed;
pub mod control;
pub mod layout;
