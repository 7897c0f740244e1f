//! A named, positioned game entity wrapping a battler, with a
//! turn-readiness timer, movement, and action dispatch.

use vstd::prelude::*;
use crate::advantage::{EAlignment, EAttribute};
use crate::battler::{attack_fits, damage_spec, Aspects, Battler, EBattlerState, EModifiers, Status};
use crate::log::{pos_update_msg, actor_pos_update, Log};

verus! {

/// Role tag of an actor.
#[derive(Clone, Copy, Debug, PartialEq, Eq, Structural)]
pub enum EActorType {
    Player,
    Enemy,
    NPC,
}

/// Disposition tag for computer-driven actors.
#[derive(Clone, Copy, Debug, PartialEq, Eq, Structural)]
pub enum EAIType {
    Pacific,
    Aggressive,
}

/// Menu-level action choices offered to a player.
#[derive(Clone, Copy, Debug, PartialEq, Eq, Structural)]
pub enum EMenuAction {
    Attack,
    Defend,
    Techs,
    Items,
    Wait,
    LookGround,
    LookFront,
}

/// Action kinds an actor can dispatch on.
#[derive(Clone, Copy, Debug, PartialEq, Eq, Structural)]
pub enum EAction {
    Attacking,
    UsingSkill,
    UsingItem,
    Waiting,
    LookingGround,
}

/// Outcome of dispatching an action: the action ran, the action kind is
/// not yet supported, or the dispatch was a deliberate no-op.
#[derive(Clone, Copy, Debug, PartialEq, Eq, Structural)]
pub enum EActionResult {
    Performed,
    NotSupported,
    Ignored,
}

/// The outcome `take_action` owes for each action kind: only an attack with
/// a present target runs; waiting is not yet supported; all else is ignored.
pub open spec fn action_outcome(action: EAction, has_target: bool) -> EActionResult {
    match action {
        EAction::Attacking => if has_target {
            EActionResult::Performed
        } else {
            EActionResult::Ignored
        },
        EAction::Waiting => EActionResult::NotSupported,
        _ => EActionResult::Ignored,
    }
}

/// A named, positioned game entity owning one battler.
pub struct Actor {
    pub id: i16,
    pub role: EActorType,
    pub name: String,
    pub battler: Battler,
    pub position: (i16, i16),
    pub action_timer: i16,
}

impl Actor {
    /// Well-formedness: the readiness timer never goes negative and the
    /// battler's modifier slots form a set.
    pub open spec fn wf(self) -> bool {
        self.action_timer >= 0 && self.battler.wf()
    }

    /// The baseline fields every freshly created actor starts from.
    pub open spec fn is_baseline(self) -> bool {
        self.id == 1 && self.battler.hp == 100 && self.battler.mp == 100
            && self.battler.state == EBattlerState::Alive && self.battler.status == (Status {
            max_hp: 100,
            max_mp: 100,
            str: 50,
            sta: 50,
            wis: 50,
            spd: 50,
        }) && self.battler.modifiers@ == Seq::<EModifiers>::empty() && self.battler.aspects == (
        Aspects { alignment: EAlignment::Free, attribute: EAttribute::Neutral })
            && self.position == (5i16, 5i16) && self.action_timer == 0
    }
}

impl Default for Actor {
    /// The stock test actor: an NPC named `Teste` with the baseline stats.
    fn default() -> (r: Self)
        ensures
            r.is_baseline(),
            r.role == EActorType::NPC,
            r.name@ == "Teste"@,
            r.wf(),
    {
        Self {
            name: "Teste".to_owned(),
            id: 1,
            role: EActorType::NPC,
            battler: Battler {
                hp: 100,
                mp: 100,
                state: EBattlerState::Alive,
                status: Status { max_hp: 100, max_mp: 100, str: 50, sta: 50, wis: 50, spd: 50 },
                modifiers: Vec::new(),
                aspects: Aspects { alignment: EAlignment::Free, attribute: EAttribute::Neutral },
            },
            position: (5, 5),
            action_timer: 0,
        }
    }
}

impl Actor {
    /// An actor is ready to act once its timer has accumulated past 500.
    pub fn can_act(&self) -> (r: bool)
        ensures
            r == (self.action_timer > 500),
    {
        self.action_timer > 500
    }

    /// One tick of the turn gate: the battler's speed accrues onto the
    /// readiness timer. There is no upper clamp.
    pub fn update_action_timer(&mut self)
        requires
            old(self).wf(),
            0 <= old(self).battler.status.spd,
            old(self).action_timer + old(self).battler.status.spd <= i16::MAX,
        ensures
            final(self).action_timer == old(self).action_timer + old(self).battler.status.spd,
            final(self).id == old(self).id,
            final(self).role == old(self).role,
            final(self).name == old(self).name,
            final(self).battler == old(self).battler,
            final(self).position == old(self).position,
            final(self).wf(),
    {
        let spd: i32 = self.battler.get_spd();
        self.action_timer = self.action_timer + (spd as i16);
    }

    /// A new player-role actor with the given display name and the
    /// baseline stats.
    pub fn new_player(name: String) -> (r: Self)
        ensures
            r.is_baseline(),
            r.role == EActorType::Player,
            r.name == name,
            r.wf(),
    {
        let mut r = Actor::default();
        r.name = name;
        r.role = EActorType::Player;
        r
    }

    /// The actor's display name.
    pub fn get_name(&self) -> (r: &String)
        ensures
            r@ == self.name@,
    {
        &self.name
    }

    /// The actor's grid position.
    pub fn get_position(&self) -> (r: (i16, i16))
        ensures
            r == self.position,
    {
        self.position
    }

    /// Moves the actor by the given delta, unconditionally — bounds are the
    /// world's business, not the actor's — and narrates the new position.
    pub fn move_to_direction(&mut self, mv: (i16, i16), log: &mut Log)
        requires
            i16::MIN <= old(self).position.0 + mv.0 <= i16::MAX,
            i16::MIN <= old(self).position.1 + mv.1 <= i16::MAX,
        ensures
            final(self).position.0 == old(self).position.0 + mv.0,
            final(self).position.1 == old(self).position.1 + mv.1,
            final(self).id == old(self).id,
            final(self).role == old(self).role,
            final(self).name == old(self).name,
            final(self).battler == old(self).battler,
            final(self).action_timer == old(self).action_timer,
            final(log)@ == old(log)@.push(
                pos_update_msg(
                    old(self).name@,
                    old(self).position.0 + mv.0,
                    old(self).position.1 + mv.1,
                ),
            ),
    {
        self.position.0 = self.position.0 + mv.0;
        self.position.1 = self.position.1 + mv.1;
        actor_pos_update(log, &self.name, &self.position);
    }

    /// Dispatches one action: attacking a present target resolves the
    /// attack against the target's battler; waiting is not yet supported;
    /// every other kind is a deliberate no-op. The returned tag says which
    /// of the three happened.
    pub fn take_action(&self, action: EAction, a_target: &mut Option<Actor>) -> (r: EActionResult)
        requires
            action == EAction::Attacking && (*old(a_target)) is Some ==> attack_fits(
                self.battler,
                (*old(a_target))->Some_0.battler,
            ),
        ensures
            r == action_outcome(action, (*old(a_target)) is Some),
            action == EAction::Attacking && (*old(a_target)) is Some ==> {
                let t1 = (*old(a_target))->Some_0;
                (*final(a_target)) == Some(
                    Actor {
                        battler: Battler {
                            hp: (t1.battler.hp - damage_spec(self.battler, t1.battler)) as i32,
                            mp: t1.battler.mp,
                            state: t1.battler.state,
                            status: t1.battler.status,
                            modifiers: t1.battler.modifiers,
                            aspects: t1.battler.aspects,
                        },
                        id: t1.id,
                        role: t1.role,
                        name: t1.name,
                        position: t1.position,
                        action_timer: t1.action_timer,
                    },
                )
            },
            !(action == EAction::Attacking && (*old(a_target)) is Some) ==> (*final(a_target)) == (*old(
                a_target,
            )),
    {
        match action {
            EAction::Attacking => {
                match a_target {
                    Some(x) => {
                        self.battler.attack(&mut x.battler);
                        EActionResult::Performed
                    },
                    None => EActionResult::Ignored,
                }
            },
            EAction::Waiting => EActionResult::NotSupported,
            _ => EActionResult::Ignored,
        }
    }
}

} // verus!
