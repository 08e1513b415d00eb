//! The confirmation state machine.
//!
//! Keystrokes are interpreted against the binding table and the registry's
//! captured target pane. The controller decides the next state, which
//! fire-and-forget requests to hand the host, and whether the presentation
//! needs a redraw; it performs no host work itself.

use vstd::prelude::*;
use crate::keys::KeyBindings;
use crate::keys::KeyIdentity;

verus! {

/// Where the confirmation flow stands. `Hidden` is terminal: the
/// controller has asked the host to hide it and processes no further key.
#[derive(Clone, Copy, PartialEq, Eq, Structural, Debug)]
pub enum ConfirmState {
    Idle,
    AwaitingConfirmation,
    Hidden,
}

/// Which keyboard flow the controller runs.
///
/// - `TwoKey`: confirm closes the target at once; cancel aborts.
/// - `ThreeKey`: accept first marks readiness, confirm then closes; cancel
///   aborts from any state.
/// - `Diagnostic`: confirm only emits a fixed diagnostic payload.
#[derive(Clone, Copy, PartialEq, Eq, Structural, Debug)]
pub enum FlowVariant {
    TwoKey,
    ThreeKey,
    Diagnostic,
}

/// A fire-and-forget request toward the host. The core never observes a
/// completion signal for any of these.
#[derive(Clone, Copy, PartialEq, Eq, Structural, Debug)]
pub enum HostAction {
    ClosePane(u32),
    HideSelf,
    EmitDiagnostic,
}

/// What one keystroke produces: the next state, the requests to perform in
/// order, and whether a redraw is needed.
pub struct StepOutcome {
    pub state: ConfirmState,
    pub actions: Seq<HostAction>,
    pub redraw: bool,
}

/// The transition relation of the confirmation flow, one keystroke at a
/// time. Once `Hidden`, every key is ignored. The cancel binding takes
/// precedence over the others when a configuration binds one key to
/// several actions; in the three-key flow the accept binding takes
/// precedence over confirm. An unbound key is ignored and never redraws.
pub open spec fn key_step(
    variant: FlowVariant,
    state: ConfirmState,
    bindings: KeyBindings,
    key: KeyIdentity,
    target: Option<u32>,
) -> StepOutcome {
    if state == ConfirmState::Hidden {
        StepOutcome { state, actions: Seq::empty(), redraw: false }
    } else if key == bindings.cancel {
        StepOutcome {
            state: ConfirmState::Hidden,
            actions: seq![HostAction::HideSelf],
            redraw: false,
        }
    } else if variant == FlowVariant::TwoKey && key == bindings.confirm {
        match target {
            Some(p) => StepOutcome {
                state: ConfirmState::Hidden,
                actions: seq![HostAction::ClosePane(p), HostAction::HideSelf],
                redraw: true,
            },
            None => StepOutcome { state, actions: Seq::empty(), redraw: false },
        }
    } else if variant == FlowVariant::ThreeKey && key == bindings.accept {
        StepOutcome { state: ConfirmState::AwaitingConfirmation, actions: Seq::empty(), redraw: true }
    } else if variant == FlowVariant::ThreeKey && key == bindings.confirm {
        if state == ConfirmState::AwaitingConfirmation && target is Some {
            StepOutcome {
                state: ConfirmState::Hidden,
                actions: seq![HostAction::ClosePane(target->Some_0), HostAction::HideSelf],
                redraw: true,
            }
        } else {
            StepOutcome { state, actions: Seq::empty(), redraw: false }
        }
    } else if variant == FlowVariant::Diagnostic && key == bindings.confirm {
        StepOutcome { state, actions: seq![HostAction::EmitDiagnostic], redraw: false }
    } else {
        StepOutcome { state, actions: Seq::empty(), redraw: false }
    }
}

/// The state machine interpreting keystrokes as confirm, cancel or accept
/// decisions for one flow variant.
#[derive(Clone, Copy, PartialEq, Eq, Structural, Debug)]
pub struct ConfirmationController {
    pub variant: FlowVariant,
    pub state: ConfirmState,
}

impl ConfirmationController {
    /// A controller at rest: no target chosen yet.
    pub fn new(variant: FlowVariant) -> (r: ConfirmationController)
        ensures
            r.variant == variant,
            r.state == ConfirmState::Idle,
    {
        ConfirmationController { variant, state: ConfirmState::Idle }
    }

    /// Interpret one keystroke against the bindings and the captured
    /// target. Returns the host requests to perform, in order, and whether
    /// the presentation needs a redraw; the next state and both results
    /// are exactly what `key_step` gives.
    pub fn handle_key(
        &mut self,
        bindings: &KeyBindings,
        key: &KeyIdentity,
        target: Option<u32>,
    ) -> (r: (Vec<HostAction>, bool))
        ensures
            final(self).variant == old(self).variant,
            final(self).state == key_step(
                old(self).variant,
                old(self).state,
                *bindings,
                *key,
                target,
            ).state,
            r.0@ == key_step(old(self).variant, old(self).state, *bindings, *key, target).actions,
            r.1 == key_step(old(self).variant, old(self).state, *bindings, *key, target).redraw,
    {
        if self.state == ConfirmState::Hidden {
            (Vec::new(), false)
        } else if *key == bindings.cancel {
            self.state = ConfirmState::Hidden;
            let mut actions: Vec<HostAction> = Vec::new();
            actions.push(HostAction::HideSelf);
            proof {
                assert(actions@ =~= seq![HostAction::HideSelf]);
            }
            (actions, false)
        } else {
            match self.variant {
                FlowVariant::TwoKey => {
                    if *key == bindings.confirm {
                        match target {
                            Some(p) => {
                                self.state = ConfirmState::Hidden;
                                let mut actions: Vec<HostAction> = Vec::new();
                                actions.push(HostAction::ClosePane(p));
                                actions.push(HostAction::HideSelf);
                                proof {
                                    assert(actions@ =~= seq![
                                        HostAction::ClosePane(p),
                                        HostAction::HideSelf,
                                    ]);
                                }
                                (actions, true)
                            },
                            None => (Vec::new(), false),
                        }
                    } else {
                        (Vec::new(), false)
                    }
                },
                FlowVariant::ThreeKey => {
                    if *key == bindings.accept {
                        self.state = ConfirmState::AwaitingConfirmation;
                        (Vec::new(), true)
                    } else if *key == bindings.confirm {
                        if self.state == ConfirmState::AwaitingConfirmation {
                            match target {
                                Some(p) => {
                                    self.state = ConfirmState::Hidden;
                                    let mut actions: Vec<HostAction> = Vec::new();
                                    actions.push(HostAction::ClosePane(p));
                                    actions.push(HostAction::HideSelf);
                                    proof {
                                        assert(actions@ =~= seq![
                                            HostAction::ClosePane(p),
                                            HostAction::HideSelf,
                                        ]);
                                    }
                                    (actions, true)
                                },
                                None => (Vec::new(), false),
                            }
                        } else {
                            (Vec::new(), false)
                        }
                    } else {
                        (Vec::new(), false)
                    }
                },
                FlowVariant::Diagnostic => {
                    if *key == bindings.confirm {
                        let mut actions: Vec<HostAction> = Vec::new();
                        actions.push(HostAction::EmitDiagnostic);
                        proof {
                            assert(actions@ =~= seq![HostAction::EmitDiagnostic]);
                        }
                        (actions, false)
                    } else {
                        (Vec::new(), false)
                    }
                },
            }
        }
    }
}

} // verus!
