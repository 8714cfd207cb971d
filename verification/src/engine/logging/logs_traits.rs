//! What a logger offers.

use vstd::prelude::*;

verus! {

/// Takes messages by category.
pub trait LoggerBase {
    fn info(&self, category: &str, message: &str);

    fn error(&self, category: &str, error: &str);
}

} // verus!
