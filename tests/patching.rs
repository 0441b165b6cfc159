use ruins_viewer::materials::{is_foliage_material, plan_material_patches, role_for_material, MaterialRole};
use ruins_viewer::names::{contains_chars, is_effect_node, same_chars};
use ruins_viewer::patcher::{fix_for_node, sweep_nodes, NodeFix, PatcherAction, SceneLoadState, SceneNode};

fn node(name: &str) -> SceneNode {
    SceneNode {
        name: name.to_string(),
        patched: false,
        not_shadow_caster: false,
        not_shadow_receiver: false,
    }
}

fn marks(n: &SceneNode) -> (bool, bool, bool) {
    (n.patched, n.not_shadow_caster, n.not_shadow_receiver)
}

#[test]
fn substring_search_finds_inner_and_edge_runs() {
    assert!(contains_chars("campfire_01", "fire"));
    assert!(contains_chars("fire", "fire"));
    assert!(contains_chars("smoke", "moke"));
    assert!(contains_chars("abc", ""));
    assert!(!contains_chars("fir", "fire"));
    assert!(!contains_chars("", "fire"));
    assert!(!contains_chars("fiRe", "fire"));
}

#[test]
fn same_chars_compares_whole_strings() {
    assert!(same_chars("Fern", "Fern"));
    assert!(!same_chars("Fern", "Fern1"));
    assert!(!same_chars("fern", "Fern"));
    assert!(same_chars("", ""));
}

#[test]
fn effect_names_are_case_sensitive_substrings() {
    assert!(is_effect_node("fire"));
    assert!(is_effect_node("Campfire.002"));
    assert!(is_effect_node("smoke_plume"));
    assert!(is_effect_node("bonfiresmoke"));
    assert!(!is_effect_node("Fire"));
    assert!(!is_effect_node("SMOKE"));
    assert!(!is_effect_node("tree"));
    assert!(!is_effect_node(""));
}

#[test]
fn node_fix_by_name() {
    assert_eq!(fix_for_node("campfire"), NodeFix::ExcludeShadowsAndMark);
    assert_eq!(fix_for_node("smoke"), NodeFix::ExcludeShadowsAndMark);
    assert_eq!(fix_for_node("stone_wall"), NodeFix::MarkOnly);
}

#[test]
fn material_roles_by_name() {
    assert_eq!(role_for_material("stained"), Some(MaterialRole::StainedGlass));
    assert_eq!(role_for_material("stained-clearcoat"), Some(MaterialRole::StainedClearcoat));
    assert_eq!(role_for_material("fire"), Some(MaterialRole::Fire));
    assert_eq!(role_for_material("smoke"), Some(MaterialRole::Smoke));
    assert_eq!(role_for_material("Fern1"), Some(MaterialRole::Foliage));
    assert_eq!(role_for_material("lambert11"), Some(MaterialRole::Foliage));
    assert_eq!(role_for_material("campfire"), None);
    assert_eq!(role_for_material("Stained"), None);
    assert_eq!(role_for_material(""), None);
}

#[test]
fn all_foliage_names_are_masked() {
    for name in [
        "Blue_flower", "Fern", "Fern1", "lambert10", "orange_leaf", "lambert5", "grass",
        "tree_leafs", "palm", "palm_and_red", "Leaf_Floor", "lambert8", "Pink_flower", "lambert11",
    ] {
        assert!(is_foliage_material(name));
    }
    assert!(!is_foliage_material("lambert1"));
    assert!(!is_foliage_material("palm_and"));
}

#[test]
fn plan_without_fire_material_has_no_fire_edit() {
    let names = vec!["stained".to_string(), "rock".to_string(), "smoke".to_string(), "grass".to_string()];
    let plan = plan_material_patches(&names);
    assert_eq!(
        plan,
        vec![(0, MaterialRole::StainedGlass), (2, MaterialRole::Smoke), (3, MaterialRole::Foliage)]
    );
    assert!(plan.iter().all(|p| p.1 != MaterialRole::Fire));
}

#[test]
fn plan_of_empty_table_is_empty() {
    assert_eq!(plan_material_patches(&Vec::new()), Vec::new());
}

#[test]
fn plan_with_fire_material_edits_it() {
    let names = vec!["fire".to_string(), "unknown".to_string()];
    assert_eq!(plan_material_patches(&names), vec![(0, MaterialRole::Fire)]);
}

#[test]
fn load_state_transitions_once() {
    let mut state = SceneLoadState::new();
    assert!(!state.loaded);
    assert_eq!(state.on_tick(false), PatcherAction::Wait);
    assert!(!state.loaded);
    assert_eq!(state.on_tick(true), PatcherAction::PatchAndSpawn);
    assert!(state.loaded);
    assert_eq!(state.on_tick(false), PatcherAction::Sweep);
    assert_eq!(state.on_tick(true), PatcherAction::Sweep);
    assert!(state.loaded);
}

#[test]
fn sweep_marks_effects_and_others() {
    let mut nodes = vec![node("campfire"), node("smoke.001"), node("ruin_wall"), node("Fire")];
    sweep_nodes(&mut nodes);
    assert_eq!(marks(&nodes[0]), (true, true, true));
    assert_eq!(marks(&nodes[1]), (true, true, true));
    assert_eq!(marks(&nodes[2]), (true, false, false));
    assert_eq!(marks(&nodes[3]), (true, false, false));
    assert_eq!(nodes[1].name, "smoke.001");
}

#[test]
fn second_sweep_changes_nothing() {
    let mut nodes = vec![node("fire"), node("tree")];
    sweep_nodes(&mut nodes);
    let first: Vec<(bool, bool, bool)> = nodes.iter().map(marks).collect();
    sweep_nodes(&mut nodes);
    let second: Vec<(bool, bool, bool)> = nodes.iter().map(marks).collect();
    assert_eq!(first, second);
}

#[test]
fn sweep_skips_already_marked_nodes() {
    let mut nodes = vec![SceneNode {
        name: "fire".to_string(),
        patched: true,
        not_shadow_caster: false,
        not_shadow_receiver: false,
    }];
    sweep_nodes(&mut nodes);
    assert_eq!(marks(&nodes[0]), (true, false, false));
}

#[test]
fn sweep_of_nodes_arriving_later() {
    let mut nodes = vec![node("tree")];
    sweep_nodes(&mut nodes);
    nodes.push(node("fire_particles"));
    sweep_nodes(&mut nodes);
    assert_eq!(marks(&nodes[0]), (true, false, false));
    assert_eq!(marks(&nodes[1]), (true, true, true));
}
