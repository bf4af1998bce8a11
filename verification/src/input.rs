//! Semantic gameplay actions. Physical keys are mapped to [`Action`] here;
//! the window layer only names the key.

use vstd::prelude::*;

verus! {

/// Gameplay action. Simulation never sees key codes.
#[derive(Clone, Copy, Debug, PartialEq, Eq, Structural)]
pub enum Action {
    MoveLeft,
    MoveRight,
    MoveDown,
    Jump,
    Interact,
    ActivatePortal,
    BasicStrike,
}

/// The physical keys the development bindings distinguish.
#[derive(Clone, Copy, Debug, PartialEq, Eq, Structural)]
pub enum GameKey {
    KeyA,
    KeyD,
    KeyS,
    KeyE,
    KeyJ,
    Space,
    ArrowLeft,
    ArrowRight,
    ArrowDown,
    ArrowUp,
    /// The debug overlay toggle; no gameplay binding.
    Backquote,
    /// Any other key; no gameplay binding.
    Unbound,
}

/// Development key bindings: A/← left, D/→ right, S/↓ down, Space jump,
/// E interact, J basic strike, ↑ portal.
pub open spec fn key_action(key: GameKey) -> Option<Action> {
    match key {
        GameKey::KeyA | GameKey::ArrowLeft => Some(Action::MoveLeft),
        GameKey::KeyD | GameKey::ArrowRight => Some(Action::MoveRight),
        GameKey::KeyS | GameKey::ArrowDown => Some(Action::MoveDown),
        GameKey::Space => Some(Action::Jump),
        GameKey::KeyE => Some(Action::Interact),
        GameKey::KeyJ => Some(Action::BasicStrike),
        GameKey::ArrowUp => Some(Action::ActivatePortal),
        GameKey::Backquote | GameKey::Unbound => None,
    }
}

pub fn map_key(key: GameKey) -> (a: Option<Action>)
    ensures
        a == key_action(key),
{
    match key {
        GameKey::KeyA | GameKey::ArrowLeft => Some(Action::MoveLeft),
        GameKey::KeyD | GameKey::ArrowRight => Some(Action::MoveRight),
        GameKey::KeyS | GameKey::ArrowDown => Some(Action::MoveDown),
        GameKey::Space => Some(Action::Jump),
        GameKey::KeyE => Some(Action::Interact),
        GameKey::KeyJ => Some(Action::BasicStrike),
        GameKey::ArrowUp => Some(Action::ActivatePortal),
        GameKey::Backquote | GameKey::Unbound => None,
    }
}

/// Horizontal movement intent.
#[derive(Clone, Copy, Debug, PartialEq, Eq, Structural)]
pub enum MoveAxis {
    Left,
    Neutral,
    Right,
}

/// Buttons sampled for one simulation tick. `move_axis` is `-1` (left),
/// `0` (neutral or both) or `1` (right).
#[derive(Clone, Copy, Debug, PartialEq, Eq, Structural)]
pub struct PlayerInput {
    pub move_axis: i8,
    pub jump_pressed: bool,
    pub down_held: bool,
}

/// Held buttons plus edges queued for the next consumer.
#[derive(Clone, Copy, Debug)]
pub struct ActionState {
    move_left: bool,
    move_right: bool,
    move_down: bool,
    jump_held: bool,
    jump_edge: bool,
    interact_edge: bool,
    portal_edge: bool,
    portal_held: bool,
    ability_edge: bool,
}

/// Model of [`ActionState`].
pub struct ActionModel {
    pub move_left: bool,
    pub move_right: bool,
    pub move_down: bool,
    pub jump_held: bool,
    pub jump_edge: bool,
    pub interact_edge: bool,
    pub portal_edge: bool,
    pub portal_held: bool,
    pub ability_edge: bool,
}

impl View for ActionState {
    type V = ActionModel;

    closed spec fn view(&self) -> ActionModel {
        ActionModel {
            move_left: self.move_left,
            move_right: self.move_right,
            move_down: self.move_down,
            jump_held: self.jump_held,
            jump_edge: self.jump_edge,
            interact_edge: self.interact_edge,
            portal_edge: self.portal_edge,
            portal_held: self.portal_held,
            ability_edge: self.ability_edge,
        }
    }
}

pub open spec fn neutral_model() -> ActionModel {
    ActionModel {
        move_left: false,
        move_right: false,
        move_down: false,
        jump_held: false,
        jump_edge: false,
        interact_edge: false,
        portal_edge: false,
        portal_held: false,
        ability_edge: false,
    }
}

/// Effect of one key event. Repeats never change anything; jump and portal
/// fire an edge only on a press that was not already held; interact and
/// strike fire an edge on every non-repeat press.
pub open spec fn set_action_model(
    m: ActionModel,
    action: Action,
    pressed: bool,
    repeat: bool,
) -> ActionModel {
    if repeat {
        m
    } else {
        match action {
            Action::MoveLeft => ActionModel { move_left: pressed, ..m },
            Action::MoveRight => ActionModel { move_right: pressed, ..m },
            Action::MoveDown => ActionModel { move_down: pressed, ..m },
            Action::Jump => if pressed {
                ActionModel { jump_edge: m.jump_edge || !m.jump_held, jump_held: true, ..m }
            } else {
                ActionModel { jump_held: false, ..m }
            },
            Action::Interact => ActionModel { interact_edge: m.interact_edge || pressed, ..m },
            Action::ActivatePortal => if pressed {
                ActionModel {
                    portal_edge: m.portal_edge || !m.portal_held,
                    portal_held: true,
                    ..m
                }
            } else {
                ActionModel { portal_held: false, ..m }
            },
            Action::BasicStrike => ActionModel { ability_edge: m.ability_edge || pressed, ..m },
        }
    }
}

pub open spec fn axis_of(left: bool, right: bool) -> MoveAxis {
    if left && !right {
        MoveAxis::Left
    } else if !left && right {
        MoveAxis::Right
    } else {
        MoveAxis::Neutral
    }
}

pub open spec fn axis_value(a: MoveAxis) -> int {
    match a {
        MoveAxis::Left => -1,
        MoveAxis::Neutral => 0,
        MoveAxis::Right => 1,
    }
}

pub open spec fn discard_edges_model(m: ActionModel) -> ActionModel {
    ActionModel {
        jump_edge: false,
        interact_edge: false,
        portal_edge: false,
        ability_edge: false,
        ..m
    }
}

pub open spec fn held_input(m: ActionModel) -> bool {
    m.move_left || m.move_right || m.move_down || m.jump_held || m.jump_edge
}

impl Default for ActionState {
    fn default() -> (s: Self)
        ensures
            s@ == neutral_model(),
    {
        ActionState {
            move_left: false,
            move_right: false,
            move_down: false,
            jump_held: false,
            jump_edge: false,
            interact_edge: false,
            portal_edge: false,
            portal_held: false,
            ability_edge: false,
        }
    }
}

impl ActionState {
    /// A key event: bound keys become their action; other keys are ignored.
    pub fn apply_key(&mut self, key: GameKey, pressed: bool, repeat: bool)
        ensures
            final(self)@ == (match key_action(key) {
                Some(a) => set_action_model(old(self)@, a, pressed, repeat),
                None => old(self)@,
            }),
    {
        match map_key(key) {
            Some(action) => self.set_action(action, pressed, repeat),
            None => {},
        }
    }

    pub fn set_action(&mut self, action: Action, pressed: bool, repeat: bool)
        ensures
            final(self)@ == set_action_model(old(self)@, action, pressed, repeat),
    {
        match action {
            Action::MoveLeft => {
                if !repeat {
                    self.move_left = pressed;
                }
            },
            Action::MoveRight => {
                if !repeat {
                    self.move_right = pressed;
                }
            },
            Action::MoveDown => {
                if !repeat {
                    self.move_down = pressed;
                }
            },
            Action::Jump => {
                if repeat {
                    return;
                }
                if pressed {
                    if !self.jump_held {
                        self.jump_edge = true;
                    }
                    self.jump_held = true;
                } else {
                    self.jump_held = false;
                }
            },
            Action::Interact => {
                if repeat {
                    return;
                }
                if pressed {
                    self.interact_edge = true;
                }
            },
            Action::ActivatePortal => {
                if repeat {
                    return;
                }
                if pressed {
                    if !self.portal_held {
                        self.portal_edge = true;
                    }
                    self.portal_held = true;
                } else {
                    self.portal_held = false;
                }
            },
            Action::BasicStrike => {
                if repeat {
                    return;
                }
                if pressed {
                    self.ability_edge = true;
                }
            },
        }
    }

    /// Snapshot for one simulation tick. Consumes the jump edge only.
    pub fn consume_tick_input(&mut self) -> (input: PlayerInput)
        ensures
            input.move_axis == axis_value(axis_of(old(self)@.move_left, old(self)@.move_right)),
            input.jump_pressed == old(self)@.jump_edge,
            input.down_held == old(self)@.move_down,
            final(self)@ == (ActionModel { jump_edge: false, ..old(self)@ }),
    {
        let jump_pressed = self.jump_edge;
        self.jump_edge = false;
        let move_axis: i8 = if self.move_left && !self.move_right {
            -1
        } else if !self.move_left && self.move_right {
            1
        } else {
            0
        };
        PlayerInput { move_axis, jump_pressed, down_held: self.move_down }
    }

    pub fn move_axis(&self) -> (a: MoveAxis)
        ensures
            a == axis_of(self@.move_left, self@.move_right),
    {
        if self.move_left && !self.move_right {
            MoveAxis::Left
        } else if !self.move_left && self.move_right {
            MoveAxis::Right
        } else {
            MoveAxis::Neutral
        }
    }

    pub fn down_held(&self) -> (b: bool)
        ensures
            b == self@.move_down,
    {
        self.move_down
    }

    pub fn jump_pending(&self) -> (b: bool)
        ensures
            b == self@.jump_edge,
    {
        self.jump_edge
    }

    /// Drop held gameplay buttons (screen transitions / focus loss).
    pub fn clear(&mut self)
        ensures
            final(self)@ == neutral_model(),
    {
        self.move_left = false;
        self.move_right = false;
        self.move_down = false;
        self.jump_held = false;
        self.jump_edge = false;
        self.interact_edge = false;
        self.portal_edge = false;
        self.portal_held = false;
        self.ability_edge = false;
    }

    /// Drop jump/interact/portal/strike edges without releasing held movement.
    pub fn discard_locked_edges(&mut self)
        ensures
            final(self)@ == discard_edges_model(old(self)@),
    {
        self.jump_edge = false;
        self.interact_edge = false;
        self.portal_edge = false;
        self.ability_edge = false;
    }

    /// Edge-triggered interact.
    pub fn consume_interact_edge(&mut self) -> (edge: bool)
        ensures
            edge == old(self)@.interact_edge,
            final(self)@ == (ActionModel { interact_edge: false, ..old(self)@ }),
    {
        let edge = self.interact_edge;
        self.interact_edge = false;
        edge
    }

    /// Edge-triggered Basic Strike.
    pub fn consume_ability_edge(&mut self) -> (edge: bool)
        ensures
            edge == old(self)@.ability_edge,
            final(self)@ == (ActionModel { ability_edge: false, ..old(self)@ }),
    {
        let edge = self.ability_edge;
        self.ability_edge = false;
        edge
    }

    /// Edge-triggered portal activate. Holding does not retrigger.
    pub fn consume_portal_edge(&mut self) -> (edge: bool)
        ensures
            edge == old(self)@.portal_edge,
            final(self)@ == (ActionModel { portal_edge: false, ..old(self)@ }),
    {
        let edge = self.portal_edge;
        self.portal_edge = false;
        edge
    }

    pub fn portal_held(&self) -> (b: bool)
        ensures
            b == self@.portal_held,
    {
        self.portal_held
    }

    /// True when any persistent held gameplay control is active.
    pub fn has_held_input(&self) -> (b: bool)
        ensures
            b == held_input(self@),
    {
        self.move_left || self.move_right || self.move_down || self.jump_held || self.jump_edge
    }

    /// Focus-loss path: release all held controls.
    pub fn release_on_focus_loss(&mut self)
        ensures
            final(self)@ == neutral_model(),
    {
        self.clear();
    }
}

/// A key repeat never changes the action state.
pub proof fn lemma_repeat_is_ignored(m: ActionModel, action: Action, pressed: bool)
    ensures
        set_action_model(m, action, pressed, true) == m,
{
}

/// Holding jump or portal and pressing again (without a release) does not
/// queue a new edge once the previous one was consumed.
pub proof fn lemma_held_press_does_not_retrigger(m: ActionModel)
    ensures
        m.portal_held ==> !set_action_model(
            ActionModel { portal_edge: false, ..m },
            Action::ActivatePortal,
            true,
            false,
        ).portal_edge,
        m.jump_held ==> !set_action_model(
            ActionModel { jump_edge: false, ..m },
            Action::Jump,
            true,
            false,
        ).jump_edge,
{
}

/// Release then press of the portal key always queues exactly one edge.
pub proof fn lemma_release_then_press_fires(m: ActionModel)
    ensures
        set_action_model(
            set_action_model(m, Action::ActivatePortal, false, false),
            Action::ActivatePortal,
            true,
            false,
        ).portal_edge,
        set_action_model(
            set_action_model(m, Action::Jump, false, false),
            Action::Jump,
            true,
            false,
        ).jump_edge,
{
}

/// Dropping locked edges keeps every held control and leaves no edge behind;
/// a held portal key stays held without arming a new edge.
pub proof fn lemma_discard_keeps_held_controls(m: ActionModel)
    ensures
        ({
            let d = discard_edges_model(m);
            &&& d.move_left == m.move_left && d.move_right == m.move_right
            &&& d.move_down == m.move_down && d.jump_held == m.jump_held
            &&& d.portal_held == m.portal_held
            &&& !d.jump_edge && !d.interact_edge && !d.portal_edge && !d.ability_edge
            &&& axis_of(d.move_left, d.move_right) == axis_of(m.move_left, m.move_right)
        }),
{
}

/// The neutral state holds nothing and moves nowhere.
pub proof fn lemma_neutral_has_no_input()
    ensures
        !held_input(neutral_model()),
        axis_of(neutral_model().move_left, neutral_model().move_right) == MoveAxis::Neutral,
{
}

/// One call a caller can make on an [`ActionState`].
pub enum ActionCall {
    ApplyKey(GameKey, bool, bool),
    SetAction(Action, bool, bool),
    ConsumeTickInput,
    Clear,
    DiscardLockedEdges,
    ConsumeInteractEdge,
    ConsumeAbilityEdge,
    ConsumePortalEdge,
    ReleaseOnFocusLoss,
}

/// The action (with its press flag and repeat flag) a call reports, if any.
pub open spec fn call_action(c: ActionCall) -> Option<(Action, bool, bool)> {
    match c {
        ActionCall::ApplyKey(k, p, r) => match key_action(k) {
            Some(a) => Some((a, p, r)),
            None => None,
        },
        ActionCall::SetAction(a, p, r) => Some((a, p, r)),
        _ => None,
    }
}

/// The model after one call, as that call's contract gives it.
pub open spec fn action_step(m: ActionModel, c: ActionCall) -> ActionModel {
    match c {
        ActionCall::ApplyKey(k, p, r) => match key_action(k) {
            Some(a) => set_action_model(m, a, p, r),
            None => m,
        },
        ActionCall::SetAction(a, p, r) => set_action_model(m, a, p, r),
        ActionCall::ConsumeTickInput => ActionModel { jump_edge: false, ..m },
        ActionCall::Clear => neutral_model(),
        ActionCall::DiscardLockedEdges => discard_edges_model(m),
        ActionCall::ConsumeInteractEdge => ActionModel { interact_edge: false, ..m },
        ActionCall::ConsumeAbilityEdge => ActionModel { ability_edge: false, ..m },
        ActionCall::ConsumePortalEdge => ActionModel { portal_edge: false, ..m },
        ActionCall::ReleaseOnFocusLoss => neutral_model(),
    }
}

/// The model after a sequence of calls on a fresh state, first call first.
pub open spec fn action_run(calls: Seq<ActionCall>) -> ActionModel
    decreases calls.len(),
{
    if calls.len() == 0 {
        neutral_model()
    } else {
        action_step(action_run(calls.drop_last()), calls.last())
    }
}

/// The held flag a holdable action keeps (`false` for the edge-only ones).
pub open spec fn held_flag(m: ActionModel, a: Action) -> bool {
    match a {
        Action::MoveLeft => m.move_left,
        Action::MoveRight => m.move_right,
        Action::MoveDown => m.move_down,
        Action::Jump => m.jump_held,
        Action::ActivatePortal => m.portal_held,
        _ => false,
    }
}

pub open spec fn holdable(a: Action) -> bool {
    match a {
        Action::Interact | Action::BasicStrike => false,
        _ => true,
    }
}

/// The press value of the most recent non-repeat event of `a` since the last
/// clear or focus loss; `false` when there is none.
pub open spec fn last_press(calls: Seq<ActionCall>, a: Action) -> bool
    decreases calls.len(),
{
    if calls.len() == 0 {
        false
    } else {
        match calls.last() {
            ActionCall::Clear | ActionCall::ReleaseOnFocusLoss => false,
            c => match call_action(c) {
                Some((b, p, r)) if b == a && !r => p,
                _ => last_press(calls.drop_last(), a),
            },
        }
    }
}

/// Interact was pressed (not as a repeat) since the last consume, clear,
/// discard or focus loss.
pub open spec fn interact_pressed_since_consume(calls: Seq<ActionCall>) -> bool
    decreases calls.len(),
{
    if calls.len() == 0 {
        false
    } else {
        match calls.last() {
            ActionCall::Clear | ActionCall::ReleaseOnFocusLoss | ActionCall::DiscardLockedEdges
            | ActionCall::ConsumeInteractEdge => false,
            c => match call_action(c) {
                Some((Action::Interact, true, false)) => true,
                _ => interact_pressed_since_consume(calls.drop_last()),
            },
        }
    }
}

/// A held control reflects its most recent press or release since the last
/// clear or focus loss (so `down_held` is the last MoveDown value); the
/// interact edge is pending exactly when Interact was pressed since it was
/// last consumed, cleared or discarded.
pub proof fn lemma_run_tracks_last_presses(calls: Seq<ActionCall>, a: Action)
    ensures
        holdable(a) ==> held_flag(action_run(calls), a) == last_press(calls, a),
        action_run(calls).interact_edge == interact_pressed_since_consume(calls),
    decreases calls.len(),
{
    if calls.len() > 0 {
        lemma_run_tracks_last_presses(calls.drop_last(), a);
    }
}

/// `has_held_input` is the OR of the held movement and jump controls and the
/// pending jump edge; portal, interact and strike never count.
pub proof fn lemma_held_input_is_held_controls(calls: Seq<ActionCall>)
    ensures
        held_input(action_run(calls)) == (last_press(calls, Action::MoveLeft) || last_press(
            calls,
            Action::MoveRight,
        ) || last_press(calls, Action::MoveDown) || last_press(calls, Action::Jump)
            || action_run(calls).jump_edge),
{
    lemma_run_tracks_last_presses(calls, Action::MoveLeft);
    lemma_run_tracks_last_presses(calls, Action::MoveRight);
    lemma_run_tracks_last_presses(calls, Action::MoveDown);
    lemma_run_tracks_last_presses(calls, Action::Jump);
}

/// Consuming the interact edge leaves none pending and no held control
/// changed: an immediate second consume reports nothing.
pub proof fn lemma_interact_consumed_once(calls: Seq<ActionCall>, a: Action)
    ensures
        !action_step(action_run(calls), ActionCall::ConsumeInteractEdge).interact_edge,
        held_flag(action_step(action_run(calls), ActionCall::ConsumeInteractEdge), a)
            == held_flag(action_run(calls), a),
{
}

} // verus!
