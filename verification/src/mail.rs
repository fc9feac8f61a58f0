//! Outgoing auth emails, as plain values the application delivers.

use vstd::prelude::*;

verus! {

/// An email to deliver.
#[derive(Debug, Clone, PartialEq, Eq)]
pub struct AuthMail {
    pub to: String,
    pub subject: String,
    pub body: String,
}

} // verus!
