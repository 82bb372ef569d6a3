//! The navigation stack: the ordered sequence of panels the operator has
//! drilled into, and the instructions that reshape it.
//!
//! The last panel is the current one. An empty stack is the signal to
//! leave the application.

use crate::app::AppState;
use crate::menus::Panel;
use crate::menus::panel_label_spec;
use crate::menus::tick_rel;
use vstd::prelude::*;
use vstd::string::StringExecFns;

verus! {

/// The effect an activation has on the stack's shape, interpreted by the
/// stack alone.
#[derive(Debug)]
pub enum Instruction {
    /// Leave the stack as it is.
    Continue,
    /// Drill down into a new panel.
    Push(Panel),
    /// Replace the current panel.
    PopPush(Panel),
    /// Go back one level; on a single panel this empties the stack.
    Pop,
}

/// The stack after one instruction: `Push` appends, `Pop` removes the top
/// of a non-empty stack, `PopPush` replaces it.
pub open spec fn apply_spec(stack: Seq<Panel>, inst: Instruction) -> Seq<Panel> {
    match inst {
        Instruction::Continue => stack,
        Instruction::Push(p) => stack.push(p),
        Instruction::Pop => if stack.len() == 0 {
            stack
        } else {
            stack.drop_last()
        },
        Instruction::PopPush(p) => if stack.len() == 0 {
            stack.push(p)
        } else {
            stack.drop_last().push(p)
        },
    }
}

/// The stack after `k` `Pop` instructions.
pub open spec fn pop_n(stack: Seq<Panel>, k: nat) -> Seq<Panel>
    decreases k,
{
    if k == 0 {
        stack
    } else {
        apply_spec(pop_n(stack, (k - 1) as nat), Instruction::Pop)
    }
}

/// Each of `k` `Pop` instructions removes exactly one panel while any are
/// left, so the stack shrinks through every intermediate depth; a stack
/// `k` deep is empty after `k` of them.
pub proof fn lemma_pop_n_len(stack: Seq<Panel>, k: nat)
    requires
        k <= stack.len(),
    ensures
        pop_n(stack, k).len() == stack.len() - k,
    decreases k,
{
    if k > 0 {
        lemma_pop_n_len(stack, (k - 1) as nat);
    }
}

/// A session drained by as many `Pop` instructions as it is deep ends:
/// nothing is left on the stack, so the loop stops at its next iteration.
pub proof fn lemma_session_ends(stack: Seq<Panel>)
    ensures
        pop_n(stack, stack.len()).len() == 0,
{
    lemma_pop_n_len(stack, stack.len());
}

/// Replacing the top of a non-empty stack keeps its depth and puts the
/// new panel on top.
pub proof fn lemma_pop_push(stack: Seq<Panel>, p: Panel)
    requires
        stack.len() >= 1,
    ensures
        apply_spec(stack, Instruction::PopPush(p)).len() == stack.len(),
        apply_spec(stack, Instruction::PopPush(p)).last() == p,
{
}

/// The navigation stack machine.
#[derive(Debug)]
pub struct Machine {
    pub stack: Vec<Panel>,
}

impl Machine {
    /// A stack holding the one panel the session starts on.
    pub fn new(initial: Panel) -> (r: Machine)
        ensures
            r.stack@ =~= seq![initial],
    {
        let mut stack: Vec<Panel> = Vec::new();
        stack.push(initial);
        Machine { stack }
    }

    /// The current panel.
    pub fn last(&self) -> (r: &Panel)
        requires
            self.stack@.len() > 0,
        ensures
            *r == self.stack@.last(),
    {
        let i = self.stack.len() - 1;
        &self.stack[i]
    }

    /// The current panel, for mutation.
    pub fn last_mut(&mut self) -> (r: &mut Panel)
        requires
            old(self).stack@.len() > 0,
        ensures
            *r == old(self).stack@.last(),
            final(self).stack@ == old(self).stack@.update(
                old(self).stack@.len() - 1,
                *final(r),
            ),
    {
        let i = self.stack.len() - 1;
        &mut self.stack[i]
    }

    /// Apply one instruction to the stack.
    pub fn handle_instruction(&mut self, inst: Instruction)
        ensures
            final(self).stack@ == apply_spec(old(self).stack@, inst),
    {
        match inst {
            Instruction::Continue => {},
            Instruction::Pop => {
                let _ = self.stack.pop();
                proof {
                    if old(self).stack@.len() > 0 {
                        assert(self.stack@ =~= old(self).stack@.drop_last());
                    }
                }
            },
            Instruction::Push(menu) => {
                self.stack.push(menu);
            },
            Instruction::PopPush(menu) => {
                let _ = self.stack.pop();
                proof {
                    if old(self).stack@.len() > 0 {
                        assert(self.stack@ =~= old(self).stack@.drop_last());
                    }
                }
                self.stack.push(menu);
            },
        }
    }

    /// Give the current panel its clock tick and apply whatever
    /// instruction it returns. The panels here always answer `Continue`,
    /// so the stack's shape is untouched; only the top panel refreshes.
    pub fn tick(&mut self, app_state: &AppState)
        ensures
            old(self).stack@.len() == 0 ==> *final(self) == *old(self),
            old(self).stack@.len() > 0 ==> final(self).stack@.len() == old(self).stack@.len()
                && (forall|j: int|
                0 <= j < old(self).stack@.len() - 1 ==> final(self).stack@[j] == old(
                self,
            ).stack@[j]) && tick_rel(
                old(self).stack@.last(),
                final(self).stack@.last(),
                app_state.devices@,
            ),
    {
        if !self.stack.is_empty() {
            let inst = self.last_mut().tick(app_state);
            self.handle_instruction(inst);
        }
    }

    /// The session goes on exactly while a panel is left on the stack.
    pub fn is_running(&self) -> (r: bool)
        ensures
            r == (self.stack@.len() > 0),
    {
        !self.stack.is_empty()
    }

    /// The drill-down path for the status line: the stacked panels'
    /// names, oldest first, joined by slashes.
    pub fn breadcrumb(&self) -> (r: String)
        ensures
            r@ == breadcrumb_spec(self.stack@),
    {
        let mut out = String::new();
        let mut i: usize = 0;
        while i < self.stack.len()
            invariant
                i <= self.stack@.len(),
                out@ == breadcrumb_spec(self.stack@.take(i as int)),
            decreases self.stack@.len() - i,
        {
            if i > 0 {
                out.append("/");
            }
            let name = self.stack[i].label();
            out.append(name.as_str());
            i = i + 1;
            proof {
                assert(self.stack@.take(i as int).drop_last() =~= self.stack@.take(i - 1));
                assert(self.stack@.take(i as int).last() == self.stack@[i - 1]);
            }
        }
        proof {
            assert(self.stack@.take(self.stack@.len() as int) =~= self.stack@);
        }
        out
    }
}

/// The breadcrumb of a stack: each panel's name, oldest first, joined by
/// slashes.
pub open spec fn breadcrumb_spec(stack: Seq<Panel>) -> Seq<char>
    decreases stack.len(),
{
    if stack.len() == 0 {
        Seq::empty()
    } else if stack.len() == 1 {
        panel_label_spec(stack[0])
    } else {
        breadcrumb_spec(stack.drop_last()) + "/"@ + panel_label_spec(stack.last())
    }
}

} // verus!
