//! What holds of every run of the drawing core, proved over its tick model.

use vstd::prelude::*;

use crate::drawer::{
    action_entity, announced, marked, step, BoxAction, DrawerModel, TickInputModel,
    TickOutputModel,
};
use crate::events::DrawShapeEvent;

verus! {

/// The core after running the ticks `inputs` in order from `d`.
pub open spec fn run(d: DrawerModel, inputs: Seq<TickInputModel>) -> DrawerModel
    decreases inputs.len(),
{
    if inputs.len() == 0 {
        d
    } else {
        step(run(d, inputs.drop_last()), inputs.last()).0
    }
}

/// What tick `k` of the run hands back.
pub open spec fn output_at(d: DrawerModel, inputs: Seq<TickInputModel>, k: int) -> TickOutputModel {
    step(run(d, inputs.take(k)), inputs[k]).1
}

/// Whether the drawing state is disabled before every tick of the run and after the last.
pub open spec fn disabled_throughout(d: DrawerModel, inputs: Seq<TickInputModel>) -> bool {
    forall|k: int| 0 <= k <= inputs.len() ==> (#[trigger] run(d, inputs.take(k))).state.is_disabled()
}

/// A tick that starts disabled asks nothing of the scene, moves no box,
/// enqueues no event and keeps the editing mark and the followed touch.
pub proof fn lemma_disabled_tick_is_inert(d: DrawerModel, i: TickInputModel)
    requires
        d.state.is_disabled(),
    ensures
        step(d, i).1.action == BoxAction::Nothing,
        step(d, i).1.resized is None,
        step(d, i).0.pending.len() == 0,
        step(d, i).0.editing == d.editing,
        step(d, i).0.touch == d.touch,
{
}

/// While drawing stays disabled, whatever the input, no tick creates or
/// changes a box, and no lifecycle event is enqueued.
pub proof fn lemma_disabled_run_is_inert(d: DrawerModel, inputs: Seq<TickInputModel>)
    requires
        disabled_throughout(d, inputs),
    ensures
        forall|k: int| 0 <= k < inputs.len() ==> (#[trigger] output_at(d, inputs, k)).action == BoxAction::Nothing,
        forall|k: int| 0 <= k < inputs.len() ==> (#[trigger] output_at(d, inputs, k)).resized is None,
        forall|k: int| 0 <= k <= inputs.len() ==> (#[trigger] run(d, inputs.take(k))).editing == d.editing,
        forall|k: int| 0 < k <= inputs.len() ==> (#[trigger] run(d, inputs.take(k))).pending.len() == 0,
    decreases inputs.len(),
{
    if inputs.len() > 0 {
        let n = inputs.len() - 1;
        let prefix = inputs.drop_last();
        assert forall|k: int| 0 <= k <= prefix.len() implies (#[trigger] run(d, prefix.take(k))).state.is_disabled() by {
            assert(prefix.take(k) =~= inputs.take(k));
            assert(run(d, inputs.take(k)).state.is_disabled());
        }
        lemma_disabled_run_is_inert(d, prefix);
        assert(inputs.take(n) =~= prefix);
        assert(run(d, inputs.take(n)).state.is_disabled());
        lemma_disabled_tick_is_inert(run(d, prefix), inputs.last());
        assert forall|k: int| 0 <= k < inputs.len() implies (#[trigger] output_at(d, inputs, k)).action == BoxAction::Nothing
            && output_at(d, inputs, k).resized is None by {
            if k < n {
                assert(prefix.take(k) =~= inputs.take(k));
                assert(output_at(d, prefix, k) == output_at(d, inputs, k));
            }
        }
        assert(inputs.take(inputs.len() as int) =~= inputs);
        assert forall|k: int| 0 <= k <= inputs.len() implies (#[trigger] run(d, inputs.take(k))).editing == d.editing
            && (k > 0 ==> run(d, inputs.take(k)).pending.len() == 0) by {
            if k <= n {
                assert(prefix.take(k) =~= inputs.take(k));
            } else {
                assert(prefix.take(n) =~= prefix);
                assert(run(d, prefix.take(n)).editing == d.editing);
            }
        }
    } else {
        assert(inputs.take(0) =~= inputs);
    }
}

/// At most one entity carries the editing mark, in every state a run reaches.
pub proof fn lemma_single_editor(d: DrawerModel, inputs: Seq<TickInputModel>)
    ensures
        marked(run(d, inputs).editing).finite(),
        marked(run(d, inputs).editing).len() <= 1,
{
    match run(d, inputs).editing {
        Some(ed) => {
            assert(marked(run(d, inputs).editing) =~= Set::<u64>::empty().insert(ed.entity));
        },
        None => {},
    }
}

/// The events enqueued during a tick reach observers with the next tick, and
/// not before: a tick delivers exactly what the ticks before it enqueued.
pub proof fn lemma_event_delay(d: DrawerModel, first: TickInputModel, second: TickInputModel)
    ensures
        step(d, first).1.delivered == d.pending,
        step(d, first).0.pending == announced(step(d, first).1.action),
        step(step(d, first).0, second).1.delivered == announced(step(d, first).1.action),
{
}

/// Every event delivered names an entity that the scene has by then: one
/// created or given its box by the previous tick's action, or, for
/// `Finished`, one that was marked as being drawn.
pub proof fn lemma_deferred_existence(d: DrawerModel, first: TickInputModel, second: TickInputModel)
    ensures
        forall|k: int| 0 <= k < step(step(d, first).0, second).1.delivered.len() ==> {
            let ev = #[trigger] step(step(d, first).0, second).1.delivered[k];
            &&& action_entity(step(d, first).1.action) == Some(ev.subject())
            &&& (ev is Spawned ==> step(d, first).1.action is Spawn)
            &&& (ev is Redrawing ==> step(d, first).1.action is Redraw)
            &&& (ev is Finished ==> marked(d.editing).contains(ev.subject()))
        },
{
    let (d1, o1) = step(d, first);
    let delivered = step(d1, second).1.delivered;
    assert(delivered == announced(o1.action));
    assert forall|k: int| 0 <= k < delivered.len() implies {
        let ev = #[trigger] delivered[k];
        &&& action_entity(o1.action) == Some(ev.subject())
        &&& (ev is Spawned ==> o1.action is Spawn)
        &&& (ev is Redrawing ==> o1.action is Redraw)
        &&& (ev is Finished ==> marked(d.editing).contains(ev.subject()))
    } by {
        assert(k == 0);
    }
}

} // verus!
