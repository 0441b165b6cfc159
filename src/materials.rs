use vstd::prelude::*;

use crate::names::same_chars;

verus! {

/// The edit that a named material of the scene asset receives.
#[derive(Clone, Copy, Debug, PartialEq, Eq, Structural)]
pub enum MaterialRole {
    /// "stained": multiplicative blending, unlit, not fogged.
    StainedGlass,
    /// "stained-clearcoat": additive blending with a depth bias and low roughness.
    StainedClearcoat,
    /// "fire": additive, black base, strong emission from its own texture.
    Fire,
    /// "smoke": additive, black base, dim warm emission from its own texture.
    Smoke,
    /// Vegetation: alpha-masked transparency with a fixed cutoff.
    Foliage,
}

/// The vegetation materials, which all receive the same alpha mask.
pub open spec fn is_foliage_name(n: Seq<char>) -> bool {
    ||| n == "Blue_flower"@
    ||| n == "Fern"@
    ||| n == "Fern1"@
    ||| n == "lambert10"@
    ||| n == "orange_leaf"@
    ||| n == "lambert5"@
    ||| n == "grass"@
    ||| n == "tree_leafs"@
    ||| n == "palm"@
    ||| n == "palm_and_red"@
    ||| n == "Leaf_Floor"@
    ||| n == "lambert8"@
    ||| n == "Pink_flower"@
    ||| n == "lambert11"@
}

/// The edit for a material of this name, if it is one of the known ones.
pub open spec fn role_of(n: Seq<char>) -> Option<MaterialRole> {
    if n == "stained"@ {
        Some(MaterialRole::StainedGlass)
    } else if n == "stained-clearcoat"@ {
        Some(MaterialRole::StainedClearcoat)
    } else if n == "fire"@ {
        Some(MaterialRole::Fire)
    } else if n == "smoke"@ {
        Some(MaterialRole::Smoke)
    } else if is_foliage_name(n) {
        Some(MaterialRole::Foliage)
    } else {
        None
    }
}

/// Whether a material of this name is one of the vegetation materials.
pub fn is_foliage_material(name: &str) -> (r: bool)
    ensures
        r == is_foliage_name(name@),
{
    same_chars(name, "Blue_flower") || same_chars(name, "Fern") || same_chars(name, "Fern1")
        || same_chars(name, "lambert10") || same_chars(name, "orange_leaf") || same_chars(
        name,
        "lambert5",
    ) || same_chars(name, "grass") || same_chars(name, "tree_leafs") || same_chars(name, "palm")
        || same_chars(name, "palm_and_red") || same_chars(name, "Leaf_Floor") || same_chars(
        name,
        "lambert8",
    ) || same_chars(name, "Pink_flower") || same_chars(name, "lambert11")
}

/// The edit for a material of this name; `None` for a material that is left as it is.
pub fn role_for_material(name: &str) -> (r: Option<MaterialRole>)
    ensures
        r == role_of(name@),
{
    if same_chars(name, "stained") {
        Some(MaterialRole::StainedGlass)
    } else if same_chars(name, "stained-clearcoat") {
        Some(MaterialRole::StainedClearcoat)
    } else if same_chars(name, "fire") {
        Some(MaterialRole::Fire)
    } else if same_chars(name, "smoke") {
        Some(MaterialRole::Smoke)
    } else if is_foliage_material(name) {
        Some(MaterialRole::Foliage)
    } else {
        None
    }
}

/// Whether `plan` lists, in increasing order of index, exactly the materials of `names` that have
/// an edit, each with its edit.
pub open spec fn is_patch_plan(names: Seq<String>, plan: Seq<(usize, MaterialRole)>) -> bool {
    &&& forall|k: int|
        0 <= k < plan.len() ==> {
            &&& (#[trigger] plan[k]).0 < names.len()
            &&& role_of(names[plan[k].0 as int]@) == Some(plan[k].1)
        }
    &&& forall|k: int, l: int| 0 <= k < l < plan.len() ==> (#[trigger] plan[k]).0 < (#[trigger] plan[l]).0
    &&& forall|i: int|
        0 <= i < names.len() && (#[trigger] role_of(names[i]@)).is_some() ==> exists|k: int|
            0 <= k < plan.len() && (#[trigger] plan[k]).0 == i
}

/// Plans the material edits for an asset whose material table holds `names`: each material of a
/// known name gets its edit, and names that the asset lacks are simply not planned.
pub fn plan_material_patches(names: &Vec<String>) -> (plan: Vec<(usize, MaterialRole)>)
    ensures
        is_patch_plan(names@, plan@),
{
    let mut plan: Vec<(usize, MaterialRole)> = Vec::new();
    let mut i: usize = 0;
    while i < names.len()
        invariant
            i <= names@.len(),
            forall|k: int|
                0 <= k < plan@.len() ==> {
                    &&& (#[trigger] plan@[k]).0 < i
                    &&& role_of(names@[plan@[k].0 as int]@) == Some(plan@[k].1)
                },
            forall|k: int, l: int|
                0 <= k < l < plan@.len() ==> (#[trigger] plan@[k]).0 < (#[trigger] plan@[l]).0,
            forall|j: int|
                0 <= j < i && (#[trigger] role_of(names@[j]@)).is_some() ==> exists|k: int|
                    0 <= k < plan@.len() && (#[trigger] plan@[k]).0 == j,
        decreases names@.len() - i,
    {
        match role_for_material(names[i].as_str()) {
            Some(role) => {
                let ghost before = plan@;
                plan.push((i, role));
                assert forall|j: int|
                    0 <= j < i && (#[trigger] role_of(names@[j]@)).is_some() implies exists|k: int|
                        0 <= k < plan@.len() && (#[trigger] plan@[k]).0 == j by {
                    let k = choose|k: int| 0 <= k < before.len() && (#[trigger] before[k]).0 == j;
                    assert(plan@[k] == before[k]);
                }
                assert(plan@[plan@.len() - 1].0 == i);
            },
            None => {},
        }
        i = i + 1;
    }
    plan
}

} // verus!
