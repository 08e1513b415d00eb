//! The event dispatcher: the whole core behind one entry point.
//!
//! The host delivers one event at a time; the dispatcher routes key events
//! to the confirmation controller and snapshot events to the registry, and
//! reports the host requests to perform plus whether a redraw is needed.
//! Event kinds the core does not care about arrive as `Other` and are
//! accepted and ignored.

use vstd::prelude::*;
use crate::controller::ConfirmState;
use crate::controller::ConfirmationController;
use crate::controller::FlowVariant;
use crate::controller::HostAction;
use crate::controller::key_step;
use crate::keys::KeyBindings;
use crate::keys::KeyIdentity;
use crate::keys::default_bindings;
use crate::keys::or_base;
use crate::registry::PaneInfo;
use crate::registry::SnapshotRegistry;
use crate::registry::TabInfo;
use crate::registry::empty_registry;
use crate::registry::groups_view;
use crate::registry::pane_snapshot_applied;
use crate::registry::tab_snapshot_applied;
use crate::registry::tabs_view;

verus! {

/// One host event as the core sees it, already reduced to plain values:
/// a keystroke, a full pane snapshot grouped by owning tab, a full tab
/// list, or anything else.
pub enum HostEvent {
    Key(KeyIdentity),
    PaneUpdate(Vec<(usize, Vec<PaneInfo>)>),
    TabUpdate(Vec<TabInfo>),
    Other,
}

/// The whole core: the binding table, the merged snapshot view, and the
/// confirmation state machine, owned together and mutated only through
/// `update`.
pub struct PluginCore {
    pub bindings: KeyBindings,
    pub registry: SnapshotRegistry,
    pub controller: ConfirmationController,
}

impl PluginCore {
    /// The core as configured at load time: each recognized binding
    /// replaced by its supplied, successfully parsed override, the
    /// compiled-in default otherwise; the registry empty; the controller
    /// idle. Configuration can never block startup.
    pub fn load(
        variant: FlowVariant,
        confirm: Option<KeyIdentity>,
        cancel: Option<KeyIdentity>,
        accept: Option<KeyIdentity>,
    ) -> (r: PluginCore)
        ensures
            r.bindings.confirm == or_base(confirm, default_bindings().confirm),
            r.bindings.cancel == or_base(cancel, default_bindings().cancel),
            r.bindings.accept == or_base(accept, default_bindings().accept),
            r.registry@ == empty_registry(),
            r.controller.variant == variant,
            r.controller.state == ConfirmState::Idle,
    {
        PluginCore {
            bindings: KeyBindings::defaults().with_overrides(confirm, cancel, accept),
            registry: SnapshotRegistry::new(),
            controller: ConfirmationController::new(variant),
        }
    }

    /// Process one host event. A key event is interpreted against the
    /// target captured by the most recent pane snapshot and leaves the
    /// registry untouched; a snapshot event reconciles the registry,
    /// leaves the controller untouched, and always asks for a redraw; any
    /// other event changes nothing. The returned requests are performed by
    /// the host-facing shell in order.
    pub fn update(&mut self, event: &HostEvent) -> (r: (Vec<HostAction>, bool))
        ensures
            final(self).bindings == old(self).bindings,
            final(self).controller.variant == old(self).controller.variant,
            match *event {
                HostEvent::Key(key) => {
                    let step = key_step(
                        old(self).controller.variant,
                        old(self).controller.state,
                        old(self).bindings,
                        key,
                        old(self).registry@.target,
                    );
                    &&& final(self).registry == old(self).registry
                    &&& final(self).controller.state == step.state
                    &&& r.0@ == step.actions
                    &&& r.1 == step.redraw
                },
                HostEvent::PaneUpdate(groups) => {
                    &&& final(self).registry@ == pane_snapshot_applied(
                        old(self).registry@,
                        groups_view(groups@),
                    )
                    &&& final(self).controller == old(self).controller
                    &&& r.0@ == Seq::<HostAction>::empty()
                    &&& r.1 == true
                },
                HostEvent::TabUpdate(tabs) => {
                    &&& final(self).registry@ == tab_snapshot_applied(
                        old(self).registry@,
                        tabs_view(tabs@),
                    )
                    &&& final(self).controller == old(self).controller
                    &&& r.0@ == Seq::<HostAction>::empty()
                    &&& r.1 == true
                },
                HostEvent::Other => {
                    &&& final(self).registry == old(self).registry
                    &&& final(self).controller == old(self).controller
                    &&& r.0@ == Seq::<HostAction>::empty()
                    &&& r.1 == false
                },
            },
    {
        match event {
            HostEvent::Key(key) => {
                let target = self.registry.target();
                self.controller.handle_key(&self.bindings, key, target)
            },
            HostEvent::PaneUpdate(groups) => {
                self.registry.apply_pane_snapshot(groups);
                (Vec::new(), true)
            },
            HostEvent::TabUpdate(tabs) => {
                self.registry.apply_tab_snapshot(tabs);
                (Vec::new(), true)
            },
            HostEvent::Other => (Vec::new(), false),
        }
    }
}

impl Default for PluginCore {
    /// The core before any configuration arrived: compiled-in bindings,
    /// empty registry, idle three-key flow.
    fn default() -> (r: PluginCore)
        ensures
            r.bindings == default_bindings(),
            r.registry@ == empty_registry(),
            r.controller.variant == FlowVariant::ThreeKey,
            r.controller.state == ConfirmState::Idle,
    {
        PluginCore {
            bindings: KeyBindings::defaults(),
            registry: SnapshotRegistry::new(),
            controller: ConfirmationController::new(FlowVariant::ThreeKey),
        }
    }
}

} // verus!
