//! A middleware for a small I2C display; it passes items through unchanged.

use vstd::prelude::*;
use crate::config::Config;
use crate::content::Content;
use crate::middlewares::TaryMiddleware;

verus! {

/// A middleware for a small I2C display; it passes items through unchanged.
pub struct I2cDisplayMiddleware {}

impl TaryMiddleware for I2cDisplayMiddleware {
    fn init(_cfg: &Config) -> (r: Option<Self>)
        ensures
            r is Some,
    {
        Some(I2cDisplayMiddleware {})
    }

    open spec fn spec_order(&self) -> u32 {
        0
    }

    open spec fn transforms(&self, before: Content, after: Content) -> bool {
        after == before
    }

    fn order(&self) -> (r: u32) {
        0
    }

    fn transform(&self, ct: Content) -> (r: Content) {
        ct
    }
}

} // verus!
