use vstd::prelude::*;

use crate::command::Command;
use crate::error::SvfError;
use crate::player::{plan_command, Plan, PlanView, Svf, SvfView};

verus! {

/// The outcome of a run over a command sequence: the final state, the plans
/// of the commands carried out, in order, and the error that stopped the
/// run, if one did.
pub type RunOutcome = (SvfView, Seq<PlanView>, Option<SvfError>);

/// Runs `cmds` in order from state `s`, stopping at the first command that
/// fails; that command and every later one leave the state unchanged and
/// add no plan.
pub open spec fn run_spec(s: SvfView, cmds: Seq<Command>) -> RunOutcome
    decreases cmds.len(),
{
    if cmds.len() == 0 {
        (s, seq![], None)
    } else {
        let prev = run_spec(s, cmds.drop_last());
        if prev.2 is Some {
            prev
        } else {
            match plan_command(prev.0, cmds.last()) {
                Ok((s2, p)) => (s2, prev.1.push(p), None),
                Err(e) => (prev.0, prev.1, Some(e)),
            }
        }
    }
}

/// Once a command has stopped the run, the commands after it change
/// nothing: the run over the whole sequence ends exactly as the run over the
/// prefix that holds the failing command.
pub proof fn lemma_fail_fast(s: SvfView, cmds: Seq<Command>, k: int)
    requires
        0 <= k <= cmds.len(),
        run_spec(s, cmds.subrange(0, k)).2 is Some,
    ensures
        run_spec(s, cmds) == run_spec(s, cmds.subrange(0, k)),
    decreases cmds.len(),
{
    if k == cmds.len() {
        assert(cmds.subrange(0, k) =~= cmds);
    } else {
        let front = cmds.drop_last();
        assert(front.subrange(0, k) =~= cmds.subrange(0, k));
        lemma_fail_fast(s, front, k);
    }
}

/// Commands are carried out in the order given: running `a` and then `b`
/// is running `b` from where `a` left off, with `b`'s plans after `a`'s.
pub proof fn lemma_run_in_order(s: SvfView, a: Seq<Command>, b: Seq<Command>)
    requires
        run_spec(s, a).2 is None,
    ensures
        ({
            let mid = run_spec(s, a);
            let rest = run_spec(mid.0, b);
            run_spec(s, a + b) == (rest.0, mid.1 + rest.1, rest.2)
        }),
    decreases b.len(),
{
    let mid = run_spec(s, a);
    if b.len() == 0 {
        assert(a + b =~= a);
        assert(mid.1 + seq![] =~= mid.1);
    } else {
        let b0 = b.drop_last();
        assert((a + b).drop_last() =~= a + b0);
        assert((a + b).last() == b.last());
        lemma_run_in_order(s, a, b0);
        let rest0 = run_spec(mid.0, b0);
        if rest0.2 is None {
            match plan_command(rest0.0, b.last()) {
                Ok((s2, p)) => {
                    assert(mid.1 + rest0.1.push(p) =~= (mid.1 + rest0.1).push(p));
                },
                Err(e) => {},
            }
        }
    }
}

/// The plan of each command carried out is the plan of that command from
/// the state the commands before it left.
pub proof fn lemma_plan_of_each(s: SvfView, cmds: Seq<Command>, i: int)
    requires
        0 <= i < run_spec(s, cmds).1.len(),
    ensures
        i < cmds.len(),
        run_spec(s, cmds.subrange(0, i)).2 is None,
        plan_command(run_spec(s, cmds.subrange(0, i)).0, cmds[i])
            == Ok::<(SvfView, PlanView), SvfError>(
            (run_spec(s, cmds.subrange(0, i + 1)).0, run_spec(s, cmds).1[i]),
        ),
    decreases cmds.len(),
{
    lemma_plans_len(s, cmds);
    let front = cmds.drop_last();
    lemma_plans_len(s, front);
    let prev = run_spec(s, front);
    if i < prev.1.len() {
        lemma_plan_of_each(s, front, i);
        assert(front.subrange(0, i) =~= cmds.subrange(0, i));
        assert(front.subrange(0, i + 1) =~= cmds.subrange(0, i + 1));
        assert(front[i] == cmds[i]);
    } else {
        assert(front =~= cmds.subrange(0, i));
        assert(cmds.subrange(0, i + 1) =~= cmds);
    }
}

/// A run carries out no more commands than it is given, and stops early
/// only on an error.
pub proof fn lemma_plans_len(s: SvfView, cmds: Seq<Command>)
    ensures
        run_spec(s, cmds).1.len() <= cmds.len(),
        run_spec(s, cmds).2 is None ==> run_spec(s, cmds).1.len() == cmds.len(),
    decreases cmds.len(),
{
    if cmds.len() > 0 {
        lemma_plans_len(s, cmds.drop_last());
    }
}

impl Svf {
    /// Runs a command sequence in order and stops at the first command that
    /// fails. Returns the plans of the commands carried out, in order, for a
    /// driver to perform one after the other, and the error, if any.
    pub fn run_commands(&mut self, cmds: Vec<Command>) -> (r: (Vec<Plan>, Option<SvfError>))
        ensures
            final(self)@ == run_spec(old(self)@, cmds@).0,
            r.0@.map_values(|p: Plan| p@) == run_spec(old(self)@, cmds@).1,
            r.1 == run_spec(old(self)@, cmds@).2,
    {
        let ghost s0 = self@;
        let ghost all = cmds@;
        let mut rest = cmds;
        let mut plans: Vec<Plan> = Vec::new();
        let mut i: usize = 0;
        let n = rest.len();
        while rest.len() > 0
            invariant
                s0 == old(self)@,
                all == cmds@,
                n == all.len(),
                i + rest@.len() == n,
                rest@ == all.subrange(i as int, n as int),
                run_spec(s0, all.subrange(0, i as int)) == (self@, plans@.map_values(|p: Plan| p@), None::<SvfError>),
            decreases rest.len(),
        {
            let cmd = rest.remove(0);
            assert(all.subrange(0, i + 1).drop_last() =~= all.subrange(0, i as int));
            assert(all.subrange(0, i + 1).last() == cmd);
            let res = self.run_command(cmd);
            match res {
                Ok(p) => {
                    let ghost old_plans = plans@.map_values(|p: Plan| p@);
                    plans.push(p);
                    assert(plans@.map_values(|p: Plan| p@) =~= old_plans.push(p@));
                    i += 1;
                },
                Err(e) => {
                    proof {
                        lemma_fail_fast(s0, all, i + 1);
                    }
                    return (plans, Some(e));
                },
            }
        }
        assert(all.subrange(0, i as int) =~= all);
        (plans, None)
    }
}

} // verus!
