//! The laws the core keeps, stated and proved over the same spec
//! functions the executable contracts use.

use vstd::prelude::*;
use crate::controller::ConfirmState;
use crate::controller::FlowVariant;
use crate::controller::HostAction;
use crate::controller::key_step;
use crate::keys::KeyBindings;
use crate::keys::KeyIdentity;
use crate::registry::PaneInfoView;
use crate::registry::PaneView;
use crate::registry::RegistryView;
use crate::registry::TabInfoView;
use crate::registry::group_records;
use crate::registry::last_focus;
use crate::registry::last_matching_tab;
use crate::registry::pane_snapshot_applied;
use crate::registry::placeholder_tab;
use crate::registry::snapshot_records;
use crate::registry::tab_snapshot_applied;

verus! {

/// Whether some record of the sequence carries the pane identity.
pub open spec fn has_pane(records: Seq<PaneView>, pane_id: u32) -> bool {
    exists|k: int| 0 <= k < records.len() && (#[trigger] records[k]).pane_info.id == pane_id
}

/// The records of one snapshot group are its panes, in order, each under
/// the group's placeholder tab.
pub proof fn lemma_group_records_shape(position: usize, panes: Seq<PaneInfoView>)
    ensures
        group_records(position, panes).len() == panes.len(),
        forall|k: int|
            0 <= k < panes.len() ==> (#[trigger] group_records(position, panes)[k]) == (PaneView {
                pane_info: panes[k],
                tab_info: placeholder_tab(position),
            }),
    decreases panes.len(),
{
    if panes.len() > 0 {
        lemma_group_records_shape(position, panes.drop_last());
    }
}

/// Every record a pane snapshot produces carries a placeholder tab: its
/// tab field is fully synthesized from its slot, never taken from the
/// snapshot itself.
pub proof fn lemma_snapshot_records_placeholder(groups: Seq<(usize, Seq<PaneInfoView>)>)
    ensures
        forall|k: int|
            0 <= k < snapshot_records(groups).len() ==> (#[trigger] snapshot_records(groups)[k])
                .tab_info == placeholder_tab(snapshot_records(groups)[k].tab_info.position),
    decreases groups.len(),
{
    if groups.len() > 0 {
        lemma_snapshot_records_placeholder(groups.drop_last());
        lemma_group_records_shape(groups.last().0, groups.last().1);
        let prefix = snapshot_records(groups.drop_last());
        let tail = group_records(groups.last().0, groups.last().1);
        assert forall|k: int| 0 <= k < snapshot_records(groups).len() implies (
        #[trigger] snapshot_records(groups)[k]).tab_info == placeholder_tab(
            snapshot_records(groups)[k].tab_info.position,
        ) by {
            if k < prefix.len() {
                assert(snapshot_records(groups)[k] == prefix[k]);
            } else {
                assert(snapshot_records(groups)[k] == tail[k - prefix.len()]);
            }
        }
    }
}

/// Law (replace, then patch): after a pane snapshot followed by a tab
/// snapshot, the records are exactly the snapshot's panes in order — any
/// record absent from the pane snapshot is gone — and each record's tab
/// field is the last tab of the tab snapshot occupying its slot, or the
/// synthesized placeholder where none does: tab fields never carry pane
/// snapshot data beyond the slot itself.
pub proof fn lemma_replace_then_patch(
    before: RegistryView,
    groups: Seq<(usize, Seq<PaneInfoView>)>,
    tabs: Seq<TabInfoView>,
)
    ensures
        ({
            let payload = snapshot_records(groups);
            let after = tab_snapshot_applied(pane_snapshot_applied(before, groups), tabs);
            &&& after.panes.len() == payload.len()
            &&& forall|k: int|
                0 <= k < payload.len() ==> (#[trigger] after.panes[k]).pane_info
                    == payload[k].pane_info
            &&& forall|k: int|
                0 <= k < payload.len() ==> (#[trigger] after.panes[k]).tab_info == (
                match last_matching_tab(tabs, payload[k].tab_info.position) {
                    Some(t) => t,
                    None => placeholder_tab(payload[k].tab_info.position),
                })
            &&& forall|pane_id: u32|
                #[trigger] has_pane(after.panes, pane_id) == has_pane(payload, pane_id)
        }),
{
    let payload = snapshot_records(groups);
    let after = tab_snapshot_applied(pane_snapshot_applied(before, groups), tabs);
    lemma_snapshot_records_placeholder(groups);
    assert forall|k: int| 0 <= k < payload.len() implies (#[trigger] after.panes[k]).pane_info
        == payload[k].pane_info by {
        assert(after.panes[k] == crate::registry::patched_record(payload[k], tabs));
    }
    assert forall|k: int| 0 <= k < payload.len() implies (#[trigger] after.panes[k]).tab_info == (
    match last_matching_tab(tabs, payload[k].tab_info.position) {
        Some(t) => t,
        None => placeholder_tab(payload[k].tab_info.position),
    }) by {
        assert(after.panes[k] == crate::registry::patched_record(payload[k], tabs));
    }
    assert forall|pane_id: u32| #[trigger] has_pane(after.panes, pane_id) == has_pane(
        payload,
        pane_id,
    ) by {
        if has_pane(after.panes, pane_id) {
            let k = choose|k: int|
                0 <= k < after.panes.len() && (#[trigger] after.panes[k]).pane_info.id == pane_id;
            assert(payload[k].pane_info.id == pane_id);
        }
        if has_pane(payload, pane_id) {
            let k = choose|k: int|
                0 <= k < payload.len() && (#[trigger] payload[k]).pane_info.id == pane_id;
            assert(after.panes[k].pane_info.id == pane_id);
        }
    }
}

/// When every focused record carries identity `p` and at least one record
/// is focused, the snapshot's focus is `p`.
pub proof fn lemma_last_focus_unique(records: Seq<PaneView>, p: u32)
    requires
        exists|k: int| 0 <= k < records.len() && (#[trigger] records[k]).pane_info.is_focused,
        forall|k: int|
            0 <= k < records.len() && (#[trigger] records[k]).pane_info.is_focused
                ==> records[k].pane_info.id == p,
    ensures
        last_focus(records) == Some(p),
    decreases records.len(),
{
    if !records.last().pane_info.is_focused {
        let k = choose|k: int|
            0 <= k < records.len() && (#[trigger] records[k]).pane_info.is_focused;
        assert(records.drop_last()[k] == records[k]);
        assert forall|j: int|
            0 <= j < records.drop_last().len() && (#[trigger] records.drop_last()[j])
                .pane_info.is_focused implies records.drop_last()[j].pane_info.id == p by {
            assert(records.drop_last()[j] == records[j]);
        }
        lemma_last_focus_unique(records.drop_last(), p);
    }
}

/// When no record is focused, the snapshot reports no focus.
pub proof fn lemma_last_focus_none(records: Seq<PaneView>)
    requires
        forall|k: int| 0 <= k < records.len() ==> !(#[trigger] records[k]).pane_info.is_focused,
    ensures
        last_focus(records) is None,
    decreases records.len(),
{
    if records.len() > 0 {
        assert forall|j: int| 0 <= j < records.drop_last().len() implies !(
        #[trigger] records.drop_last()[j]).pane_info.is_focused by {
            assert(records.drop_last()[j] == records[j]);
        }
        lemma_last_focus_none(records.drop_last());
    }
}

/// Law (focus capture): when exactly one pane of the snapshot is flagged
/// focused — here: some pane is focused, and every focused pane carries
/// identity `p` — both the focused pane and the target come out as `p`.
pub proof fn lemma_focus_capture(
    before: RegistryView,
    groups: Seq<(usize, Seq<PaneInfoView>)>,
    p: u32,
)
    requires
        exists|k: int|
            0 <= k < snapshot_records(groups).len() && (#[trigger] snapshot_records(groups)[k])
                .pane_info.is_focused,
        forall|k: int|
            0 <= k < snapshot_records(groups).len() && (#[trigger] snapshot_records(groups)[k])
                .pane_info.is_focused ==> snapshot_records(groups)[k].pane_info.id == p,
    ensures
        pane_snapshot_applied(before, groups).focused == Some(p),
        pane_snapshot_applied(before, groups).target == Some(p),
{
    lemma_last_focus_unique(snapshot_records(groups), p);
}

/// Law (no-focus idempotence): a pane snapshot flagging no pane focused
/// leaves both the focused pane and the target exactly as they were.
pub proof fn lemma_no_focus_keeps_previous(
    before: RegistryView,
    groups: Seq<(usize, Seq<PaneInfoView>)>,
)
    requires
        forall|k: int|
            0 <= k < snapshot_records(groups).len() ==> !(#[trigger] snapshot_records(groups)[k])
                .pane_info.is_focused,
    ensures
        pane_snapshot_applied(before, groups).focused == before.focused,
        pane_snapshot_applied(before, groups).target == before.target,
{
    lemma_last_focus_none(snapshot_records(groups));
}

/// Law (confirm with no target is a no-op): in the two-key and three-key
/// flows, a keystroke bound to confirm or accept — and not to cancel —
/// while no target is captured emits no close request; in the two-key
/// flow it does not move the state at all, so it cannot reach `Hidden`.
pub proof fn lemma_confirm_without_target_is_noop(
    variant: FlowVariant,
    state: ConfirmState,
    bindings: KeyBindings,
    key: KeyIdentity,
)
    requires
        state != ConfirmState::Hidden,
        key == bindings.confirm || key == bindings.accept,
        key != bindings.cancel,
        variant == FlowVariant::TwoKey || variant == FlowVariant::ThreeKey,
    ensures
        forall|p: u32|
            !(#[trigger] key_step(variant, state, bindings, key, None).actions.contains(
                HostAction::ClosePane(p),
            )),
        variant == FlowVariant::TwoKey ==> key_step(variant, state, bindings, key, None).state
            == state,
{
}

/// Law (cancel always terminates): a keystroke bound to cancel, from any
/// state still receiving keys, moves every flow to `Hidden` and emits
/// exactly one hide request, whatever the captured target.
pub proof fn lemma_cancel_always_terminates(
    variant: FlowVariant,
    state: ConfirmState,
    bindings: KeyBindings,
    target: Option<u32>,
)
    requires
        state != ConfirmState::Hidden,
    ensures
        key_step(variant, state, bindings, bindings.cancel, target).state == ConfirmState::Hidden,
        key_step(variant, state, bindings, bindings.cancel, target).actions == seq![
            HostAction::HideSelf,
        ],
{
}

/// A keystroke bound to none of the three actions is ignored: no state
/// movement, no host request, and never a redraw.
pub proof fn lemma_unbound_key_is_ignored(
    variant: FlowVariant,
    state: ConfirmState,
    bindings: KeyBindings,
    key: KeyIdentity,
    target: Option<u32>,
)
    requires
        key != bindings.cancel,
        key != bindings.confirm,
        key != bindings.accept,
    ensures
        key_step(variant, state, bindings, key, target).state == state,
        key_step(variant, state, bindings, key, target).actions == Seq::<HostAction>::empty(),
        !key_step(variant, state, bindings, key, target).redraw,
{
}

/// Once `Hidden`, the controller is detached: every further keystroke
/// leaves the state alone, emits nothing and asks for no redraw.
pub proof fn lemma_hidden_is_terminal(
    variant: FlowVariant,
    bindings: KeyBindings,
    key: KeyIdentity,
    target: Option<u32>,
)
    ensures
        key_step(variant, ConfirmState::Hidden, bindings, key, target).state
            == ConfirmState::Hidden,
        key_step(variant, ConfirmState::Hidden, bindings, key, target).actions
            == Seq::<HostAction>::empty(),
        !key_step(variant, ConfirmState::Hidden, bindings, key, target).redraw,
{
}

} // verus!
