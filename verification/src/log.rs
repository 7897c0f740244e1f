//! Append-only record of narrated events, queryable for its earliest
//! entries. The log is an explicitly owned value handed by mutable
//! reference to whichever component narrates an event.

use vstd::prelude::*;
use vstd::string::StringExecFns;
use crate::decimal::{dec_int, i16_dec};

verus! {

/// Narration of an attack: `A attacks D.`
pub open spec fn attack_msg(attacker: Seq<char>, defender: Seq<char>) -> Seq<char> {
    attacker + " attacks "@ + defender + "."@
}

/// Narration of a position change: `A moved to X/Y`.
pub open spec fn pos_update_msg(actor: Seq<char>, x: int, y: int) -> Seq<char> {
    actor + " moved to "@ + dec_int(x) + "/"@ + dec_int(y)
}

/// The append-only event history.
pub struct Log {
    pub history: Vec<String>,
}

impl View for Log {
    type V = Seq<Seq<char>>;

    open spec fn view(&self) -> Seq<Seq<char>> {
        Seq::new(self.history@.len(), |i: int| self.history@[i]@)
    }
}

impl Log {
    /// A fresh, empty log.
    pub fn new() -> (r: Log)
        ensures
            r@ == Seq::<Seq<char>>::empty(),
    {
        let r = Log { history: Vec::new() };
        proof {
            assert(r@ =~= Seq::<Seq<char>>::empty());
        }
        r
    }
}

/// Appends one raw narration entry to the log.
pub fn add_to_log(log: &mut Log, text: String)
    ensures
        final(log)@ == old(log)@.push(text@),
{
    let ghost t: Seq<char> = text@;
    log.history.push(text);
    proof {
        assert(log@ =~= old(log)@.push(t));
    }
}

/// Appends the attack narration for the two named combatants.
pub fn actor_attack(log: &mut Log, attacker: &String, defender: &String)
    ensures
        final(log)@ == old(log)@.push(attack_msg(attacker@, defender@)),
{
    let mut m = attacker.as_str().to_owned();
    m.append(" attacks ");
    m.append(defender.as_str());
    m.append(".");
    add_to_log(log, m);
}

/// Appends the position-change narration for the named actor.
pub fn actor_pos_update(log: &mut Log, actor: &String, position: &(i16, i16))
    ensures
        final(log)@ == old(log)@.push(
            pos_update_msg(actor@, position.0 as int, position.1 as int),
        ),
{
    let mut m = actor.as_str().to_owned();
    m.append(" moved to ");
    let xs = i16_dec(position.0);
    m.append(xs.as_str());
    m.append("/");
    let ys = i16_dec(position.1);
    m.append(ys.as_str());
    add_to_log(log, m);
}

/// Returns up to the first 10 entries of the log, in insertion order.
/// Despite the name this is the oldest end of the history, kept as the
/// established behaviour of this core.
pub fn tail(log: &Log) -> (r: Vec<String>)
    ensures
        r@.len() == if log@.len() < 10 {
            log@.len()
        } else {
            10
        },
        forall|i: int| 0 <= i < r@.len() ==> r@[i]@ == log@[i],
{
    let mut out: Vec<String> = Vec::new();
    let mut n: usize = 0;
    while n < 10
        invariant
            n <= 10,
            out@.len() == if log@.len() < n {
                log@.len() as int
            } else {
                n as int
            },
            forall|i: int| 0 <= i < out@.len() ==> out@[i]@ == log@[i],
        decreases 10 - n,
    {
        if n < log.history.len() {
            let entry = log.history[n].clone();
            out.push(entry);
        }
        n = n + 1;
    }
    out
}

} // verus!
