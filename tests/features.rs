use godot_rust_scaffold::features::{is_selected, plan, FeatureStep, QolFeature};

#[test]
fn plan_ignores_selection_order() {
    let a = plan(&vec![QolFeature::VscodeExtensions, QolFeature::Git]);
    let b = plan(&vec![QolFeature::Git, QolFeature::VscodeExtensions]);
    assert_eq!(a, b);
    assert_eq!(a, vec![FeatureStep::InitVersionControl, FeatureStep::WriteExtensionRecommendations]);
}

#[test]
fn plan_of_everything_in_fixed_order() {
    let r = plan(&vec![
        QolFeature::VscodeExtensions,
        QolFeature::VscodeLaunchConfig,
        QolFeature::ReloadableExtension,
        QolFeature::Git,
        QolFeature::Git,
    ]);
    assert_eq!(
        r,
        vec![
            FeatureStep::InitVersionControl,
            FeatureStep::WriteLaunchConfig,
            FeatureStep::WriteExtensionRecommendations
        ]
    );
}

#[test]
fn plan_of_nothing_or_reloadable_only_is_empty() {
    assert!(plan(&vec![]).is_empty());
    assert!(plan(&vec![QolFeature::ReloadableExtension]).is_empty());
}

#[test]
fn only_launch_config_needs_input() {
    assert!(FeatureStep::WriteLaunchConfig.needs_input());
    assert!(!FeatureStep::InitVersionControl.needs_input());
    assert!(!FeatureStep::WriteExtensionRecommendations.needs_input());
}

#[test]
fn selection_membership() {
    let v = vec![QolFeature::Git, QolFeature::VscodeExtensions];
    assert!(is_selected(&v, QolFeature::VscodeExtensions));
    assert!(!is_selected(&v, QolFeature::ReloadableExtension));
    assert!(!is_selected(&vec![], QolFeature::Git));
}
