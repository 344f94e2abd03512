//! A small chat client's core: the credential record and its JSON form, the
//! requests that the two providers expect, the reading of their replies, and
//! the decisions of the command line. Nothing here touches the network or the
//! disk; the caller performs each step that this library plans.

pub mod dispatch;
pub mod json;
pub mod provider;
pub mod record;
