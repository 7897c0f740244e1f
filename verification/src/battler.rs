//! Combat-capable entity: hit points, mana, stat block, categorical tags,
//! liveness state, and attack resolution.

use vstd::prelude::*;
use crate::advantage::{EAlignment, EAttribute};

verus! {

/// Liveness state of a battler.
#[derive(Clone, Copy, Debug, PartialEq, Eq, Structural)]
pub enum EBattlerState {
    Alive,
    Dead,
}

/// Stat-modifier tags; a battler holds a set of the active ones.
#[derive(Clone, Copy, Debug, PartialEq, Eq, Structural)]
pub enum EModifiers {
    STR,
    STA,
    WIS,
    SPD,
}

/// The pair of categorical combat tags attached to a battler at creation.
#[derive(Clone, Copy, Debug, PartialEq, Eq, Structural)]
pub struct Aspects {
    pub alignment: EAlignment,
    pub attribute: EAttribute,
}

/// Immutable baseline stats, set once at creation.
#[derive(Clone, Copy, Debug, PartialEq, Eq, Structural)]
pub struct Status {
    pub max_hp: i32,
    pub max_mp: i32,
    pub str: i32,
    pub sta: i32,
    pub wis: i32,
    pub spd: i32,
}

/// A combat-capable entity. `hp` is intentionally never clamped at zero:
/// it may go negative, and only `update_check` turns that into `Dead`.
pub struct Battler {
    pub hp: i32,
    pub mp: i32,
    pub state: EBattlerState,
    pub status: Status,
    pub modifiers: Vec<EModifiers>,
    pub aspects: Aspects,
}

/// Integer division truncating toward zero, as the executable `/` of the
/// machine does on signed operands.
pub open spec fn trunc_div(a: int, d: int) -> int
    recommends
        0 < d,
{
    if a >= 0 {
        a / d
    } else {
        -((-a) / d)
    }
}

/// The attack-power term: `(str - sta) / 500` (truncating) scales the
/// attacker's strength, added on top of the strength itself.
pub open spec fn power_mod_spec(atk: int, def: int) -> int {
    trunc_div(atk - def, 500) * atk + atk
}

/// The combined advantage factor, rounded to the nearest integer
/// (half away from zero). The two factors come in quarter units, so their
/// product is in sixteenths.
pub open spec fn round_quarters(qa: int, qb: int) -> int
    recommends
        0 <= qa,
        0 <= qb,
{
    (qa * qb + 8) / 16
}

/// Damage dealt by `attacker` to `defender`: the power term times the
/// rounded advantage product, integer-divided by 20 (truncating).
pub open spec fn damage_spec(attacker: Battler, defender: Battler) -> int {
    trunc_div(
        power_mod_spec(attacker.status.str as int, defender.status.sta as int) * round_quarters(
            attacker.aspects.alignment.advantage_spec(defender.aspects.alignment) as int,
            attacker.aspects.attribute.advantage_spec(defender.aspects.attribute) as int,
        ),
        20,
    )
}

/// The defender's hit points stay within the machine's integer range when
/// `attacker` deals one round of damage.
pub open spec fn attack_fits(attacker: Battler, defender: Battler) -> bool {
    i32::MIN <= defender.hp - damage_spec(attacker, defender) <= i32::MAX
}

/// A battler's modifier slots behave as a set: no tag is active twice.
pub open spec fn modifiers_wf(m: Seq<EModifiers>) -> bool {
    forall|i: int, j: int| 0 <= i < j < m.len() ==> m[i] != m[j]
}

impl Battler {
    /// Well-formedness: the active modifiers form a set.
    pub open spec fn wf(self) -> bool {
        modifiers_wf(self.modifiers@)
    }

    /// Attack stat of this battler.
    pub fn get_atk(&self) -> (r: i32)
        ensures
            r == self.status.str,
    {
        self.status.str
    }

    /// Defense stat of this battler.
    pub fn get_def(&self) -> (r: i32)
        ensures
            r == self.status.sta,
    {
        self.status.sta
    }

    /// Speed stat of this battler.
    pub fn get_spd(&self) -> (r: i32)
        ensures
            r == self.status.spd,
    {
        self.status.spd
    }

    /// Resolves one attack of `self` against `b`: subtracts `damage_spec`
    /// hit points from `b`. No death check and no floor at zero happens
    /// here; `b.hp` may go negative.
    pub fn attack(&self, b: &mut Battler)
        requires
            attack_fits(*self, *old(b)),
        ensures
            final(b).hp == old(b).hp - damage_spec(*self, *old(b)),
            final(b).mp == old(b).mp,
            final(b).state == old(b).state,
            final(b).status == old(b).status,
            final(b).modifiers == old(b).modifiers,
            final(b).aspects == old(b).aspects,
    {
        let atk: i32 = self.get_atk();
        let def: i32 = b.get_def();
        let diff: i64 = atk as i64 - def as i64;

        let q: i64;
        if diff >= 0 {
            let mag: u64 = diff as u64;
            let qmag: u64 = mag / 500;
            assert(qmag <= mag) by (nonlinear_arith)
                requires
                    qmag == mag / 500,
            ;
            q = qmag as i64;
        } else {
            let mag: u64 = (-diff) as u64;
            let qmag: u64 = mag / 500;
            assert(qmag <= mag) by (nonlinear_arith)
                requires
                    qmag == mag / 500,
            ;
            q = -(qmag as i64);
        }
        assert(q == trunc_div(atk - def, 500));
        assert(-4294967296 <= q && q <= 4294967295);

        let atk_w: i128 = atk as i128;
        assert((q as i128) * atk_w <= 9223372036854775808 && -9223372036854775808 <= (q as i128)
            * atk_w) by (nonlinear_arith)
            requires
                -4294967296 <= q && q <= 4294967295,
                -2147483648 <= atk_w && atk_w <= 2147483647,
        ;
        let power: i128 = (q as i128) * atk_w + atk_w;
        assert(power == power_mod_spec(atk as int, def as int));

        let qa: u32 = self.aspects.alignment.get_advantage(&b.aspects.alignment);
        let qb: u32 = self.aspects.attribute.get_advantage(&b.aspects.attribute);
        assert(qa == 2 || qa == 4 || qa == 8);
        assert(qb == 3 || qb == 4 || qb == 6);
        let rm: u32 = (qa * qb + 8) / 16;
        assert(rm as int == round_quarters(qa as int, qb as int));
        assert(rm <= 3);

        let scaled: i128 = power * (rm as i128);
        assert(scaled == power_mod_spec(atk as int, def as int) * round_quarters(
            qa as int,
            qb as int,
        ));

        let damage: i128;
        if scaled >= 0 {
            let mag: u128 = scaled as u128;
            let dmag: u128 = mag / 20;
            assert(dmag <= mag) by (nonlinear_arith)
                requires
                    dmag == mag / 20,
            ;
            damage = dmag as i128;
        } else {
            let mag: u128 = (-scaled) as u128;
            let dmag: u128 = mag / 20;
            assert(dmag <= mag) by (nonlinear_arith)
                requires
                    dmag == mag / 20,
            ;
            damage = -(dmag as i128);
        }
        assert(damage == damage_spec(*self, *b));

        let new_hp: i128 = (b.hp as i128) - damage;
        b.hp = new_hp as i32;
    }

    /// Death check: a battler whose hit points have fallen below 1 becomes
    /// Dead; otherwise the state is left as it was (no revival).
    pub fn update_check(&mut self)
        ensures
            final(self).state == (if old(self).hp < 1 {
                EBattlerState::Dead
            } else {
                old(self).state
            }),
            final(self).hp == old(self).hp,
            final(self).mp == old(self).mp,
            final(self).status == old(self).status,
            final(self).modifiers == old(self).modifiers,
            final(self).aspects == old(self).aspects,
    {
        if self.hp < 1 {
            self.state = EBattlerState::Dead;
        }
    }
}

} // verus!
