//! A middleware that passes items through unchanged.

use vstd::prelude::*;
use crate::config::Config;
use crate::content::Content;
use super::TaryMiddleware;

verus! {

/// A middleware that passes items through unchanged.
pub struct StubMiddleware {}

impl TaryMiddleware for StubMiddleware {
    fn init(_cfg: &Config) -> (r: Option<Self>)
        ensures
            r is Some,
    {
        Some(StubMiddleware {})
    }

    open spec fn spec_order(&self) -> u32 {
        0
    }

    open spec fn transforms(&self, before: Content, after: Content) -> bool {
        after == before
    }

    fn order(&self) -> (r: u32) {
        0
    }

    fn transform(&self, ct: Content) -> (r: Content) {
        ct
    }
}

} // verus!
