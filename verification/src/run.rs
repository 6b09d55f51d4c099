//! Running a program: the start, one step, and the loop.

use vstd::prelude::*;

use crate::blob::{clone_blobs, clone_blocks, Prog};
use crate::error::{Error, ErrorKind};
use crate::eval::step_of;
use crate::host::{consult, Host, HostRequest};
use crate::laws::lemma_quiet_run;
use crate::machine::{
    lemma_run_ended, lemma_run_prefix, Frame, Machine, OpResult, Reply, Step,
};
use crate::model::{group_models, models};
use crate::op::Op;
use crate::value::Value;
use crate::vm::VM;

verus! {

broadcast use group_models;

impl VM {
    /// A copy of the stack from `from` up to, not including, `to`.
    pub fn window(&self, from: usize, to: usize) -> (r: Vec<Value>)
        requires
            from <= to <= self@.stack.len(),
        ensures
            models(r@) == self@.stack.subrange(from as int, to as int),
    {
        let mut r: Vec<Value> = Vec::new();
        let mut i: usize = from;
        while i < to
            invariant
                from <= i <= to <= self@.stack.len(),
                r.len() == i - from,
                forall|j: int| 0 <= j < i - from ==> (#[trigger] r@[j])@ == self@.stack[from + j],
            decreases to - i,
        {
            match self.peek(i) {
                Some(v) => {
                    r.push(v);
                },
                None => {},
            }
            i += 1;
        }
        assert(models(r@) =~= self@.stack.subrange(from as int, to as int));
        r
    }

    /// What the step of `op` asks of the host.
    pub fn request(&self, op: &Op) -> (r: HostRequest)
        ensures
            r@ == self@.request(op@),
    {
        let n = self.depth();
        if self.frame().is_none() {
            return HostRequest::Nothing;
        }
        match op {
            Op::Add | Op::Sub | Op::Mul | Op::Div => {
                if n >= 2 {
                    match (self.peek(n - 2), self.peek(n - 1)) {
                        (Some(Value::Float(a)), Some(Value::Float(b))) => HostRequest::Float(
                            op.clone(),
                            a,
                            b,
                        ),
                        _ => HostRequest::Nothing,
                    }
                } else {
                    HostRequest::Nothing
                }
            },
            Op::Print => {
                if n >= 1 {
                    match self.peek(n - 1) {
                        Some(v) => HostRequest::Print(v),
                        None => HostRequest::Nothing,
                    }
                } else {
                    HostRequest::Nothing
                }
            },
            Op::Call(k) => {
                if *k < n {
                    match self.peek(n - 1 - *k) {
                        Some(Value::ExternFunction(slot)) => HostRequest::Call(
                            slot,
                            self.window(n - *k, n),
                        ),
                        _ => HostRequest::Nothing,
                    }
                } else {
                    HostRequest::Nothing
                }
            },
            _ => HostRequest::Nothing,
        }
    }

    /// Takes the step of `op`: asks the host what the step needs and applies
    /// the opcode with the host's reply.
    pub fn eval_op<H: Host>(&mut self, host: &mut H, op: Op) -> (r: Result<OpResult, Error>)
        ensures
            exists|reply: Reply| step_of(final(self)@, r) == #[trigger] old(self)@.eval(op@, reply),
            old(self)@.request(op@).is_silent() ==> step_of(final(self)@, r) == old(self)@.eval(
                op@,
                Reply::silent(),
            ),
            final(self).switches() == old(self).switches(),
            old(self)@.registry_sound() ==> final(self)@.registry_sound(),
            old(self)@.registry_sound() ==> old(self)@.cells_live_on(final(self)@),
    {
        let request = self.request(&op);
        let reply = consult(host, &request);
        self.apply(op, reply)
    }

    /// A copy of the instruction that the running frame stands at.
    pub fn op(&self) -> (r: Option<Op>)
        ensures
            match r {
                Some(op) => self@.fetch() == Some(op@),
                None => self@.fetch() is None,
            },
    {
        match self.frame() {
            Some(frame) => match self.block(frame.block) {
                Some(block) => {
                    if frame.ip < block.ops.len() {
                        Some(block.ops[frame.ip].clone())
                    } else {
                        None
                    }
                },
                None => None,
            },
            None => None,
        }
    }

    /// Takes the next step.
    pub fn step<H: Host>(&mut self, host: &mut H) -> (r: Result<OpResult, Error>)
        ensures
            exists|reply: Reply| step_of(final(self)@, r) == #[trigger] old(self)@.cycle(reply),
            old(self)@.next_request().is_silent() ==> step_of(final(self)@, r) == old(
                self,
            )@.cycle(Reply::silent()),
            final(self).switches() == old(self).switches(),
            old(self)@.registry_sound() ==> final(self)@.registry_sound(),
            old(self)@.registry_sound() ==> old(self)@.cells_live_on(final(self)@),
    {
        match self.op() {
            Some(op) => {
                if self.prints_blocks() {
                    self.show_callee(host, &op);
                }
                let r = self.eval_op(host, op);
                proof {
                    let reply = choose|reply: Reply|
                        step_of(self@, r) == #[trigger] old(self)@.eval(op@, reply);
                    assert(step_of(self@, r) == old(self)@.cycle(reply));
                }
                r
            },
            None => {
                let r = self.fail(ErrorKind::InvalidProgram);
                proof {
                    assert(step_of(self@, r) == old(self)@.cycle(Reply::silent()));
                }
                r
            },
        }
    }

    /// Shows the host the block that a call is about to enter.
    fn show_callee<H: Host>(&self, host: &mut H, op: &Op) {
        if let Some(block) = self.callee(op) {
            if let Some(b) = self.block(block) {
                host.show_block(b, false);
            }
        }
    }

    /// The block that the step of `op` enters, if it enters one.
    pub fn callee(&self, op: &Op) -> (r: Option<usize>)
        ensures
            r == self@.callee(op@),
    {
        if let Op::Call(n) = op {
            let depth = self.depth();
            if *n < depth {
                if let Some(Value::Function(_, block)) = self.peek(depth - 1 - *n) {
                    if let Some(b) = self.block(block) {
                        if let crate::types::Type::Function(args, _) = &b.ty {
                            if args.len() == *n {
                                assert(b@.args().len() == args.len()) by {
                                    assert(b@.args() =~= models(args@));
                                }
                                return Some(block);
                            }
                        }
                    }
                }
            }
        }
        None
    }

    /// Readies the machine for a program: the stack holds the entry block
    /// as a closure, the one frame runs it from its first instruction, and
    /// the store is empty.
    pub fn init(&mut self, prog: &Prog)
        ensures
            final(self)@ == Machine::start(prog@.blocks, prog@.blobs),
            final(self)@.registry_sound(),
            final(self).switches() == old(self).switches(),
    {
        self.load(clone_blocks(&prog.blocks), clone_blobs(&prog.blobs));
        self.push(Value::Function(Vec::new(), 0));
        self.enter(Frame { stack_offset: 0, block: 0, ip: 0 });
        assert(self@.stack =~= seq![crate::value::ValueModel::Function(Seq::empty(), 0)]);
        assert(self@.frames =~= seq![Frame { stack_offset: 0, block: 0, ip: 0 }]);
    }

    /// Runs the machine for at most `budget` steps: until a step ends the
    /// run, as done, suspended or failed, or the budget is used up, which
    /// ends the run in `Continue`.
    pub fn run<H: Host>(&mut self, host: &mut H, budget: usize) -> (r: Result<OpResult, Error>)
        ensures
            exists|replies: Seq<Reply>|
                {
                    &&& replies.len() <= budget
                    &&& step_of(final(self)@, r) == #[trigger] old(self)@.run(
                        replies,
                        replies.len(),
                    )
                    &&& r == Ok::<OpResult, Error>(OpResult::Continue) ==> replies.len() == budget
                },
            old(self)@.quiet(budget as nat) ==> step_of(final(self)@, r) == old(self)@.run(
                Seq::empty(),
                budget as nat,
            ),
            final(self).switches() == old(self).switches(),
            old(self)@.registry_sound() ==> final(self)@.registry_sound(),
            old(self)@.registry_sound() ==> old(self)@.cells_live_on(final(self)@),
    {
        if self.prints_blocks() {
            if let Some(frame) = self.frame() {
                if let Some(block) = self.block(frame.block) {
                    host.show_block(block, false);
                }
            }
        }
        let ghost mut replies: Seq<Reply> = Seq::empty();
        let mut steps: usize = 0;
        while steps < budget
            invariant
                self.switches() == old(self).switches(),
                steps <= budget,
                replies.len() == steps,
                old(self)@.run(replies, steps as nat) == (Step {
                    machine: self@,
                    result: Ok(OpResult::Continue),
                }),
                old(self)@.registry_sound() ==> self@.registry_sound(),
                old(self)@.registry_sound() ==> old(self)@.cells_live_on(self@),
            decreases budget - steps,
        {
            if self.prints_ops() {
                host.show_stack(self);
            }
            let ghost before = self@;
            let r = self.step(host);
            proof {
                let reply = choose|reply: Reply| step_of(self@, r) == #[trigger] before.cycle(reply);
                lemma_run_prefix(old(self)@, replies, seq![reply], steps as nat);
                replies = replies + seq![reply];
                assert(old(self)@.run(replies, (steps + 1) as nat) == step_of(self@, r));
            }
            match r {
                Ok(OpResult::Continue) => {},
                _ => {
                    proof {
                        assert(old(self)@.run(replies, replies.len()) == step_of(self@, r));
                        lemma_quiet_ends(old(self)@, replies, budget as nat);
                    }
                    return r;
                },
            }
            steps += 1;
        }
        proof {
            lemma_quiet_ends(old(self)@, replies, budget as nat);
        }
        Ok(OpResult::Continue)
    }
}

/// Where a run of which no step asks the host for an answer has come to
/// its end after some of its replies, it has come to the end that it has
/// without replies and with the whole budget.
pub proof fn lemma_quiet_ends(m: Machine, replies: Seq<Reply>, budget: nat)
    requires
        replies.len() <= budget,
        m.run(replies, replies.len()).result == Ok::<OpResult, crate::error::ErrorModel>(
            OpResult::Continue,
        ) ==> replies.len() == budget,
    ensures
        m.quiet(budget) ==> m.run(replies, replies.len()) == m.run(Seq::empty(), budget),
{
    if m.quiet(budget) {
        let n = replies.len();
        assert(m.quiet(n)) by {
            assert forall|j: nat|
                j < n && (#[trigger] m.run(Seq::empty(), j)).result == Ok::<
                    OpResult,
                    crate::error::ErrorModel,
                >(OpResult::Continue) implies m.run(
                Seq::empty(),
                j,
            ).machine.next_request().is_silent() by {}
        }
        lemma_quiet_run(m, replies, n);
        if n < budget {
            lemma_run_ended(m, Seq::empty(), n, budget);
        }
    }
}

} // verus!
