//! Optional quality-of-life features and the ordered steps they add.
use vstd::prelude::*;

verus! {

/// An optional feature the user may select.
#[derive(Clone, Copy, PartialEq, Eq, Structural, Debug)]
pub enum QolFeature {
    Git,
    ReloadableExtension,
    VscodeLaunchConfig,
    VscodeExtensions,
}

/// A step run after the two trees are written.
#[derive(Clone, Copy, PartialEq, Eq, Structural, Debug)]
pub enum FeatureStep {
    /// Starts version control in the root directory.
    InitVersionControl,
    /// Writes the editor launch configuration; asks for the engine executable.
    WriteLaunchConfig,
    /// Writes the editor's recommended extensions.
    WriteExtensionRecommendations,
}

/// Number of features.
pub const FEATURE_COUNT: usize = 4;

/// The features in their fixed order.
pub open spec fn feature_at(i: int) -> QolFeature {
    if i == 0 {
        QolFeature::Git
    } else if i == 1 {
        QolFeature::ReloadableExtension
    } else if i == 2 {
        QolFeature::VscodeLaunchConfig
    } else {
        QolFeature::VscodeExtensions
    }
}

/// The step a feature adds; the reloadable flag adds none (it shapes the
/// extension manifest instead).
pub open spec fn step_of(f: QolFeature) -> Option<FeatureStep> {
    match f {
        QolFeature::Git => Some(FeatureStep::InitVersionControl),
        QolFeature::ReloadableExtension => None,
        QolFeature::VscodeLaunchConfig => Some(FeatureStep::WriteLaunchConfig),
        QolFeature::VscodeExtensions => Some(FeatureStep::WriteExtensionRecommendations),
    }
}

/// Steps of the first `k` features in the fixed order that are in `selected`.
pub open spec fn plan_upto(k: nat, selected: Set<QolFeature>) -> Seq<FeatureStep>
    decreases k,
{
    if k == 0 {
        Seq::empty()
    } else {
        let f = feature_at(k - 1);
        let prev = plan_upto((k - 1) as nat, selected);
        if selected.contains(f) && step_of(f).is_some() {
            prev.push(step_of(f).unwrap())
        } else {
            prev
        }
    }
}

/// The steps for a selection: every feature in the fixed order, kept when selected.
pub open spec fn plan_of(selected: Set<QolFeature>) -> Seq<FeatureStep> {
    plan_upto(FEATURE_COUNT as nat, selected)
}

impl FeatureStep {
    pub open spec fn spec_needs_input(self) -> bool {
        self == FeatureStep::WriteLaunchConfig
    }

    /// Whether the step asks for a value before it acts.
    #[verifier::when_used_as_spec(spec_needs_input)]
    pub fn needs_input(self) -> (r: bool)
        ensures
            r == self.spec_needs_input(),
    {
        match self {
            FeatureStep::WriteLaunchConfig => true,
            _ => false,
        }
    }
}

fn feature_entry(i: usize) -> (r: QolFeature)
    requires
        i < FEATURE_COUNT,
    ensures
        r == feature_at(i as int),
{
    if i == 0 {
        QolFeature::Git
    } else if i == 1 {
        QolFeature::ReloadableExtension
    } else if i == 2 {
        QolFeature::VscodeLaunchConfig
    } else {
        QolFeature::VscodeExtensions
    }
}

fn feature_step(f: QolFeature) -> (r: Option<FeatureStep>)
    ensures
        r == step_of(f),
{
    match f {
        QolFeature::Git => Some(FeatureStep::InitVersionControl),
        QolFeature::ReloadableExtension => None,
        QolFeature::VscodeLaunchConfig => Some(FeatureStep::WriteLaunchConfig),
        QolFeature::VscodeExtensions => Some(FeatureStep::WriteExtensionRecommendations),
    }
}

/// Whether `f` is among `features`.
pub fn is_selected(features: &Vec<QolFeature>, f: QolFeature) -> (r: bool)
    ensures
        r == features@.contains(f),
{
    let mut i: usize = 0;
    while i < features.len()
        invariant
            i <= features@.len(),
            forall|j: int| 0 <= j < i ==> features@[j] != f,
        decreases features@.len() - i,
    {
        if features[i] == f {
            return true;
        }
        i = i + 1;
    }
    false
}

/// The ordered steps for the selected features: the fixed feature order is
/// walked and each selected feature's step kept, whatever order the selection
/// came in.
pub fn plan(features: &Vec<QolFeature>) -> (r: Vec<FeatureStep>)
    ensures
        r@ == plan_of(features@.to_set()),
{
    let mut r: Vec<FeatureStep> = Vec::new();
    let mut i: usize = 0;
    while i < FEATURE_COUNT
        invariant
            i <= FEATURE_COUNT,
            r@ == plan_upto(i as nat, features@.to_set()),
        decreases FEATURE_COUNT - i,
    {
        let f = feature_entry(i);
        let chosen = is_selected(features, f);
        match feature_step(f) {
            Some(step) => {
                if chosen {
                    r.push(step);
                }
            },
            None => {},
        }
        i = i + 1;
    }
    r
}

/// The plan does not depend on the order of the selection: two selections
/// that are permutations of each other give the same steps.
pub proof fn lemma_plan_order_independent(a: Seq<QolFeature>, b: Seq<QolFeature>)
    requires
        a.to_multiset() == b.to_multiset(),
    ensures
        plan_of(a.to_set()) == plan_of(b.to_set()),
{
    broadcast use vstd::seq_lib::group_to_multiset_ensures;

    assert(a.to_set() =~= b.to_set()) by {
        assert forall|f: QolFeature| a.contains(f) <==> b.contains(f) by {
            assert(a.contains(f) <==> a.to_multiset().count(f) > 0);
            assert(b.contains(f) <==> b.to_multiset().count(f) > 0);
        }
    }
}

/// Version control is started exactly when it was selected, and then once,
/// before every other step.
pub proof fn lemma_version_control_step(selected: Set<QolFeature>)
    ensures
        selected.contains(QolFeature::Git) ==> plan_of(selected)[0] == FeatureStep::InitVersionControl,
        forall|i: int|
            0 <= i < plan_of(selected).len() && plan_of(selected)[i] == FeatureStep::InitVersionControl
                ==> i == 0 && selected.contains(QolFeature::Git),
{
    reveal_with_fuel(plan_upto, 5);
}

} // verus!
