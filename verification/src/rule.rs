//! The rule itself: the entry point the host engine invokes once per
//! candidate site discovered during its traversal.

use vstd::prelude::*;
use crate::classifier::{classify, classify_spec, Verdict};
use crate::options::RuleOptions;
use crate::site::CandidateSite;

verus! {

/// Disallow accidentally using the "empty object" type.
#[derive(Debug, Default, Clone)]
pub struct NoEmptyObjectType;

impl NoEmptyObjectType {
    /// Classifies one discovered candidate site under the active options.
    /// The verdict is consumed by the host's diagnostic sink; classification
    /// performs no I/O and mutates nothing.
    pub fn run(&self, site: &CandidateSite, options: &RuleOptions) -> (verdict: Verdict)
        ensures
            verdict == classify_spec(*site, *options),
    {
        classify(site, options)
    }
}

} // verus!
