use vstd::prelude::*;

use crate::names::{is_effect_name, is_effect_node};

verus! {

/// Whether the scene asset has been patched and spawned.
#[derive(Clone, Copy, Debug, PartialEq, Eq, Structural)]
pub struct SceneLoadState {
    pub loaded: bool,
}

/// What the engine is to do on the current tick.
#[derive(Clone, Copy, Debug, PartialEq, Eq, Structural)]
pub enum PatcherAction {
    /// The asset is not ready yet: do nothing.
    Wait,
    /// Edit the asset's materials, then spawn one instance of its first scene.
    PatchAndSpawn,
    /// Fix up every named node that lacks the patched marker.
    Sweep,
}

/// The loaded flag after one tick.
pub open spec fn next_loaded(loaded: bool, asset_ready: bool) -> bool {
    loaded || asset_ready
}

/// The action chosen on one tick.
pub open spec fn action_of(loaded: bool, asset_ready: bool) -> PatcherAction {
    if loaded {
        PatcherAction::Sweep
    } else if asset_ready {
        PatcherAction::PatchAndSpawn
    } else {
        PatcherAction::Wait
    }
}

/// The loaded flag after a run of ticks; `ready[k]` tells whether the asset was ready on tick `k`.
pub open spec fn loaded_after(loaded: bool, ready: Seq<bool>) -> bool
    decreases ready.len(),
{
    if ready.len() == 0 {
        loaded
    } else {
        loaded_after(next_loaded(loaded, ready[0]), ready.drop_first())
    }
}

/// How many ticks of a run spawn the scene.
pub open spec fn spawns_in(loaded: bool, ready: Seq<bool>) -> nat
    decreases ready.len(),
{
    if ready.len() == 0 {
        0
    } else {
        (if action_of(loaded, ready[0]) == PatcherAction::PatchAndSpawn { 1nat } else { 0nat })
            + spawns_in(next_loaded(loaded, ready[0]), ready.drop_first())
    }
}

impl SceneLoadState {
    /// The state at startup: the asset has been requested and is not loaded.
    pub fn new() -> (r: SceneLoadState)
        ensures
            !r.loaded,
    {
        SceneLoadState { loaded: false }
    }

    /// Decides one tick, given whether the requested asset has finished loading.
    pub fn on_tick(&mut self, asset_ready: bool) -> (a: PatcherAction)
        ensures
            final(self).loaded == next_loaded(old(self).loaded, asset_ready),
            a == action_of(old(self).loaded, asset_ready),
    {
        if self.loaded {
            PatcherAction::Sweep
        } else if asset_ready {
            self.loaded = true;
            PatcherAction::PatchAndSpawn
        } else {
            PatcherAction::Wait
        }
    }
}

/// Once loaded, the state stays loaded through any run of ticks.
pub proof fn lemma_loaded_never_reverts(ready: Seq<bool>)
    ensures
        loaded_after(true, ready),
        spawns_in(true, ready) == 0,
    decreases ready.len(),
{
    if ready.len() > 0 {
        lemma_loaded_never_reverts(ready.drop_first());
    }
}

/// From the startup state, the scene is spawned exactly once if it ends up loaded, and never otherwise.
pub proof fn lemma_loads_at_most_once(ready: Seq<bool>)
    ensures
        spawns_in(false, ready) == (if loaded_after(false, ready) { 1nat } else { 0nat }),
        spawns_in(false, ready) <= 1,
    decreases ready.len(),
{
    if ready.len() > 0 {
        if ready[0] {
            lemma_loaded_never_reverts(ready.drop_first());
        } else {
            lemma_loads_at_most_once(ready.drop_first());
        }
    }
}

/// A named node of the spawned scene, with the marks the sweep gives it.
#[derive(Debug)]
pub struct SceneNode {
    pub name: String,
    /// The node has been fixed up.
    pub patched: bool,
    /// The node casts no shadow.
    pub not_shadow_caster: bool,
    /// The node receives no shadow.
    pub not_shadow_receiver: bool,
}

/// The fix-up that a node lacking the patched marker receives.
#[derive(Clone, Copy, Debug, PartialEq, Eq, Structural)]
pub enum NodeFix {
    /// Add only the patched marker.
    MarkOnly,
    /// Add both shadow exclusions and the patched marker.
    ExcludeShadowsAndMark,
}

/// The fix-up of an unmarked node: flame and smoke effects are taken out of shadowing.
pub open spec fn fix_of(name: Seq<char>) -> NodeFix {
    if is_effect_name(name) {
        NodeFix::ExcludeShadowsAndMark
    } else {
        NodeFix::MarkOnly
    }
}

/// Chooses the fix-up for an unmarked node by its name.
pub fn fix_for_node(name: &str) -> (r: NodeFix)
    ensures
        r == fix_of(name@),
{
    if is_effect_node(name) {
        NodeFix::ExcludeShadowsAndMark
    } else {
        NodeFix::MarkOnly
    }
}

/// A node's marks after one sweep, in the order of `marks`.
pub open spec fn swept_marks(name: Seq<char>, patched: bool, caster: bool, receiver: bool) -> (
    bool,
    bool,
    bool,
) {
    if patched {
        (patched, caster, receiver)
    } else if is_effect_name(name) {
        (true, true, true)
    } else {
        (true, caster, receiver)
    }
}

/// A node's marks as `(patched, not_shadow_caster, not_shadow_receiver)`.
pub open spec fn marks(n: SceneNode) -> (bool, bool, bool) {
    (n.patched, n.not_shadow_caster, n.not_shadow_receiver)
}

/// Whether `after` is `before` as one sweep leaves it.
pub open spec fn is_swept(before: Seq<SceneNode>, after: Seq<SceneNode>) -> bool {
    &&& after.len() == before.len()
    &&& forall|i: int|
        #![trigger after[i]]
        0 <= i < before.len() ==> {
            &&& after[i].name@ == before[i].name@
            &&& marks(after[i]) == swept_marks(
                before[i].name@,
                before[i].patched,
                before[i].not_shadow_caster,
                before[i].not_shadow_receiver,
            )
        }
}

/// Every node of the graph carries the patched marker.
pub open spec fn all_patched(nodes: Seq<SceneNode>) -> bool {
    forall|i: int| 0 <= i < nodes.len() ==> #[trigger] nodes[i].patched
}

/// Runs one sweep over the named nodes: each node without the patched marker gets its fix-up.
pub fn sweep_nodes(nodes: &mut Vec<SceneNode>)
    ensures
        is_swept(old(nodes)@, final(nodes)@),
{
    let n: usize = nodes.len();
    let mut i: usize = 0;
    while i < n
        invariant
            n == nodes@.len(),
            n == old(nodes)@.len(),
            i <= n,
            forall|k: int|
                #![trigger nodes@[k]]
                0 <= k < i ==> {
                    &&& nodes@[k].name@ == old(nodes)@[k].name@
                    &&& marks(nodes@[k]) == swept_marks(
                        old(nodes)@[k].name@,
                        old(nodes)@[k].patched,
                        old(nodes)@[k].not_shadow_caster,
                        old(nodes)@[k].not_shadow_receiver,
                    )
                },
            forall|k: int| i <= k < n ==> #[trigger] nodes@[k] == old(nodes)@[k],
        decreases n - i,
    {
        if !nodes[i].patched {
            let fix = fix_for_node(nodes[i].name.as_str());
            if fix == NodeFix::ExcludeShadowsAndMark {
                nodes[i].not_shadow_caster = true;
                nodes[i].not_shadow_receiver = true;
            }
            nodes[i].patched = true;
        }
        i = i + 1;
    }
}

/// After one sweep every node carries the patched marker; a node whose name contains "fire" or
/// "smoke" and that was unmarked now casts and receives no shadow, and any other node keeps its
/// shadow settings.
pub proof fn lemma_sweep_covers(before: Seq<SceneNode>, after: Seq<SceneNode>)
    requires
        is_swept(before, after),
    ensures
        all_patched(after),
        forall|i: int|
            0 <= i < before.len() && !before[i].patched && is_effect_name(before[i].name@)
                ==> #[trigger] after[i].not_shadow_caster && after[i].not_shadow_receiver,
        forall|i: int|
            0 <= i < before.len() && !is_effect_name(before[i].name@) ==> {
                &&& #[trigger] after[i].not_shadow_caster == before[i].not_shadow_caster
                &&& after[i].not_shadow_receiver == before[i].not_shadow_receiver
            },
{
    assert forall|i: int| 0 <= i < after.len() implies #[trigger] after[i].patched by {
        assert(after[i].name@ == before[i].name@);
    }
    assert forall|i: int|
        0 <= i < before.len() && !before[i].patched && is_effect_name(before[i].name@)
        implies #[trigger] after[i].not_shadow_caster && after[i].not_shadow_receiver by {
        assert(after[i].name@ == before[i].name@);
    }
    assert forall|i: int| 0 <= i < before.len() && !is_effect_name(before[i].name@) implies {
        &&& #[trigger] after[i].not_shadow_caster == before[i].not_shadow_caster
        &&& after[i].not_shadow_receiver == before[i].not_shadow_receiver
    } by {
        assert(after[i].name@ == before[i].name@);
    }
}

/// Sweeping a graph whose nodes all carry the patched marker changes no node's marks.
pub proof fn lemma_sweep_idempotent(before: Seq<SceneNode>, after: Seq<SceneNode>)
    requires
        all_patched(before),
        is_swept(before, after),
    ensures
        forall|i: int|
            0 <= i < before.len() ==> #[trigger] marks(after[i]) == marks(before[i])
                && after[i].name@ == before[i].name@,
{
    assert forall|i: int| 0 <= i < before.len() implies #[trigger] marks(after[i]) == marks(
        before[i],
    ) && after[i].name@ == before[i].name@ by {
        assert(after[i].name@ == before[i].name@);
        assert(before[i].patched);
    }
}

} // verus!
