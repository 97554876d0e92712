//! Choosing the proposals step by step.

use vstd::prelude::*;
use crate::features::{DEFAULT, WasmFeatures};

verus! {

/// One step in the choice of the proposals.
#[derive(Clone, Copy, Debug, PartialEq, Eq, Structural)]
pub enum FeatureAction {
    /// Take exactly these proposals.
    Reset(WasmFeatures),
    /// Add these proposals.
    Enable(WasmFeatures),
    /// Take these proposals away.
    Disable(WasmFeatures),
}

/// The proposals after one step.
pub open spec fn apply_action(bits: u32, action: FeatureAction) -> u32 {
    match action {
        FeatureAction::Reset(f) => f.bits,
        FeatureAction::Enable(f) => bits | f.bits,
        FeatureAction::Disable(f) => bits & !f.bits,
    }
}

/// The proposals after a list of steps.
pub open spec fn apply_list(bits: u32, actions: Seq<FeatureAction>) -> u32
    decreases actions.len(),
{
    if actions.len() == 0 {
        bits
    } else {
        apply_action(apply_list(bits, actions.drop_last()), actions.last())
    }
}

/// The proposals after lists of steps, one list after the other.
pub open spec fn apply_lists(bits: u32, lists: Seq<Vec<FeatureAction>>) -> u32
    decreases lists.len(),
{
    if lists.len() == 0 {
        bits
    } else {
        apply_list(apply_lists(bits, lists.drop_last()), lists.last()@)
    }
}

/// The choice of proposals that a command line makes: each option gives a
/// list of steps.
#[derive(Clone, Debug)]
pub struct CliFeatures {
    pub features: Vec<Vec<FeatureAction>>,
}

impl CliFeatures {
    /// The proposals that the steps lead to, from the default set.
    pub fn features(&self) -> (ret: WasmFeatures)
        ensures
            ret.bits == apply_lists(DEFAULT, self.features@),
    {
        let mut ret: WasmFeatures = WasmFeatures::default();
        let mut i: usize = 0;
        assert(self.features@.take(0) =~= Seq::empty());
        while i < self.features.len()
            invariant
                i <= self.features.len(),
                ret.bits == apply_lists(DEFAULT, self.features@.take(i as int)),
            decreases self.features.len() - i,
        {
            let list = &self.features[i];
            let ghost before = ret.bits;
            let mut j: usize = 0;
            assert(list@.take(0) =~= Seq::empty());
            while j < list.len()
                invariant
                    j <= list.len(),
                    ret.bits == apply_list(before, list@.take(j as int)),
                decreases list.len() - j,
            {
                assert(list@.take(j + 1).drop_last() =~= list@.take(j as int));
                assert(list@.take(j + 1).last() == list@[j as int]);
                match list[j] {
                    FeatureAction::Enable(features) => {
                        ret = ret.union(features);
                    },
                    FeatureAction::Disable(features) => {
                        ret = ret.difference(features);
                    },
                    FeatureAction::Reset(features) => {
                        ret = features;
                    },
                }
                j += 1;
            }
            assert(list@.take(j as int) =~= list@);
            assert(self.features@.take(i + 1).drop_last() =~= self.features@.take(i as int));
            assert(self.features@.take(i + 1).last() == self.features@[i as int]);
            i += 1;
        }
        assert(self.features@.take(i as int) =~= self.features@);
        ret
    }
}

} // verus!
