//! The evaluation of opcodes.

use vstd::prelude::*;
use vstd::string::StringExecFns;

use crate::arith::{
    float_eq, float_lt, float_neg, int_add, int_div, int_mul, int_neg, int_sub, str_less,
};
use crate::error::{Error, ErrorKind, ErrorModel};
use crate::host::HostReply;
use crate::machine::{binary, unary, Frame, Machine, OpResult, Step};
use crate::model::{group_models, models};
use crate::op::Op;
use crate::value::Value;
use crate::vm::VM;

verus! {

broadcast use group_models;

/// The model of how a step ended.
pub open spec fn outcome(r: Result<OpResult, Error>) -> Result<OpResult, ErrorModel> {
    match r {
        Ok(result) => Ok(result),
        Err(e) => Err(e@),
    }
}

/// A machine and how its last step ended, as one.
pub open spec fn step_of(machine: Machine, r: Result<OpResult, Error>) -> Step {
    Step { machine, result: outcome(r) }
}

/// The result of an opcode of two operands.
pub fn compute_binary(op: &Op, a: &Value, b: &Value, float: u64) -> (r: Option<Value>)
    ensures
        match r {
            Some(v) => binary(op@, a@, b@, float) == Some(v@),
            None => binary(op@, a@, b@, float) is None,
        },
{
    match (op, a, b) {
        (Op::Add, Value::Float(_), Value::Float(_)) => Some(Value::Float(float)),
        (Op::Sub, Value::Float(_), Value::Float(_)) => Some(Value::Float(float)),
        (Op::Mul, Value::Float(_), Value::Float(_)) => Some(Value::Float(float)),
        (Op::Div, Value::Float(_), Value::Float(_)) => Some(Value::Float(float)),
        (Op::Add, Value::Int(x), Value::Int(y)) => int_result(int_add(*x, *y)),
        (Op::Sub, Value::Int(x), Value::Int(y)) => int_result(int_sub(*x, *y)),
        (Op::Mul, Value::Int(x), Value::Int(y)) => int_result(int_mul(*x, *y)),
        (Op::Div, Value::Int(x), Value::Int(y)) => int_result(int_div(*x, *y)),
        (Op::Add, Value::String(x), Value::String(y)) => Some(
            Value::String(x.clone().concat(y.as_str())),
        ),
        (Op::Equal, Value::Float(x), Value::Float(y)) => Some(Value::Bool(float_eq(*x, *y))),
        (Op::Equal, Value::Int(x), Value::Int(y)) => Some(Value::Bool(*x == *y)),
        (Op::Equal, Value::String(x), Value::String(y)) => Some(Value::Bool(*x == *y)),
        (Op::Equal, Value::Bool(x), Value::Bool(y)) => Some(Value::Bool(*x == *y)),
        (Op::Less, Value::Float(x), Value::Float(y)) => Some(Value::Bool(float_lt(*x, *y))),
        (Op::Less, Value::Int(x), Value::Int(y)) => Some(Value::Bool(*x < *y)),
        (Op::Less, Value::String(x), Value::String(y)) => Some(
            Value::Bool(str_less(x.as_str(), y.as_str())),
        ),
        (Op::Less, Value::Bool(x), Value::Bool(y)) => Some(Value::Bool(!*x && *y)),
        (Op::Greater, Value::Float(x), Value::Float(y)) => Some(Value::Bool(float_lt(*y, *x))),
        (Op::Greater, Value::Int(x), Value::Int(y)) => Some(Value::Bool(*x > *y)),
        (Op::Greater, Value::String(x), Value::String(y)) => Some(
            Value::Bool(str_less(y.as_str(), x.as_str())),
        ),
        (Op::Greater, Value::Bool(x), Value::Bool(y)) => Some(Value::Bool(*x && !*y)),
        (Op::And, Value::Bool(x), Value::Bool(y)) => Some(Value::Bool(*x && *y)),
        (Op::Or, Value::Bool(x), Value::Bool(y)) => Some(Value::Bool(*x || *y)),
        _ => None,
    }
}

fn int_result(v: Option<i64>) -> (r: Option<Value>)
    ensures
        match r {
            Some(value) => crate::machine::int_value(v) == Some(value@),
            None => crate::machine::int_value(v) is None,
        },
{
    match v {
        Some(v) => Some(Value::Int(v)),
        None => None,
    }
}

/// The result of an opcode of one operand.
pub fn compute_unary(op: &Op, a: &Value) -> (r: Option<Value>)
    ensures
        match r {
            Some(v) => unary(op@, a@) == Some(v@),
            None => unary(op@, a@) is None,
        },
{
    match (op, a) {
        (Op::Neg, Value::Float(x)) => Some(Value::Float(float_neg(*x))),
        (Op::Neg, Value::Int(x)) => int_result(int_neg(*x)),
        (Op::Not, Value::Bool(x)) => Some(Value::Bool(!*x)),
        _ => None,
    }
}

/// The message of the error for a call with a wrong number of arguments.
pub fn arity_text(got: usize, expected: usize) -> (r: String)
    ensures
        r@ == crate::machine::arity_message(got as nat, expected as nat),
{
    let mut r = "Invalid number of arguments, got ".to_owned();
    r.append(crate::text::decimal(got).as_str());
    r.append(" expected ");
    r.append(crate::text::decimal(expected).as_str());
    r.append(".");
    r
}

/// The operand of a failed opcode, for its error.
pub(crate) fn one(a: Value) -> (r: Vec<Value>)
    ensures
        models(r@) == seq![a@],
{
    let mut r: Vec<Value> = Vec::new();
    r.push(a);
    assert(models(r@) =~= seq![a@]);
    r
}

/// The operands of a failed opcode, for its error.
fn two(a: Value, b: Value) -> (r: Vec<Value>)
    ensures
        models(r@) == seq![a@, b@],
{
    let mut r: Vec<Value> = Vec::new();
    r.push(a);
    r.push(b);
    assert(models(r@) =~= seq![a@, b@]);
    r
}

impl VM {
    pub(crate) fn fail(&self, kind: ErrorKind) -> (r: Result<OpResult, Error>)
        ensures
            step_of(self@, r) == self@.fail(kind@),
    {
        Err(self.error(kind, None))
    }

    pub(crate) fn fail_with(&self, kind: ErrorKind, message: &str) -> (r: Result<OpResult, Error>)
        ensures
            step_of(self@, r) == self@.fail_with(kind@, message@),
    {
        Err(self.error(kind, Some(message.to_owned())))
    }

    pub(crate) fn advance(&mut self) -> (r: Result<OpResult, Error>)
        ensures
            step_of(final(self)@, r) == old(self)@.advance(),
            final(self).switches() == old(self).switches(),
    {
        match self.frame() {
            Some(f) => {
                if f.ip < usize::MAX {
                    self.jump(f.ip + 1);
                    Ok(OpResult::Continue)
                } else {
                    self.fail(ErrorKind::InvalidProgram)
                }
            },
            None => self.fail(ErrorKind::InvalidProgram),
        }
    }

    fn apply_pop(&mut self) -> (r: Result<OpResult, Error>)
        ensures
            step_of(final(self)@, r) == old(self)@.eval_pop(),
            final(self).switches() == old(self).switches(),
    {
        match self.pop() {
            Some(_) => self.advance(),
            None => self.fail(ErrorKind::InvalidProgram),
        }
    }

    fn apply_pop_upvalue(&mut self) -> (r: Result<OpResult, Error>)
        ensures
            step_of(final(self)@, r) == old(self)@.eval_pop_upvalue(),
            final(self).switches() == old(self).switches(),
    {
        match self.pop() {
            Some(v) => {
                let slot = self.depth();
                self.close_slot(slot, v);
                self.advance()
            },
            None => self.fail(ErrorKind::InvalidProgram),
        }
    }

    /// Binds one entry of a capture descriptor in the running frame.
    pub(crate) fn capture(&mut self, slot: usize, is_up: bool) -> (r: Option<usize>)
        ensures
            (final(self)@, r) == old(self)@.capture(slot, is_up),
            final(self).switches() == old(self).switches(),
    {
        if is_up {
            self.running_capture(slot)
        } else {
            match self.frame() {
                Some(frame) => {
                    if slot <= usize::MAX - frame.stack_offset && frame.stack_offset + slot > 0 {
                        Some(self.capture_slot(frame.stack_offset + slot))
                    } else {
                        None
                    }
                },
                None => None,
            }
        }
    }

    fn apply_constant(&mut self, v: Value) -> (r: Result<OpResult, Error>)
        ensures
            step_of(final(self)@, r) == old(self)@.eval_constant(v@),
            final(self).switches() == old(self).switches(),
    {
        match v {
            Value::Function(_, block) => {
                if block >= self.blocks_len() {
                    return self.fail(ErrorKind::InvalidProgram);
                }
                let ups = self.descriptor(block);
                let ghost descriptor = models(ups@);
                let mut cells: Vec<usize> = Vec::new();
                let mut i: usize = 0;
                while i < ups.len()
                    invariant
                        self.switches() == old(self).switches(),
                        i <= ups.len(),
                        descriptor == models(ups@),
                        descriptor.len() == ups.len(),
                        v@ is Function,
                        v@->Function_1 == block,
                        block < old(self)@.blocks.len(),
                        descriptor == old(self)@.blocks[block as int].ups,
                        (self@, Some(cells@)) == old(self)@.capture_all(descriptor, i as int),
                    decreases ups.len() - i,
                {
                    let entry = &ups[i];
                    match self.capture(entry.0, entry.1) {
                        Some(cell) => {
                            cells.push(cell);
                        },
                        None => {
                            proof {
                                assert(old(self)@.capture_all(descriptor, i + 1) == (
                                    self@,
                                    None::<Seq<usize>>,
                                ));
                                lemma_capture_all_stops(
                                    old(self)@,
                                    descriptor,
                                    i + 1,
                                    ups.len() as int,
                                );
                            }
                            return self.fail(ErrorKind::InvalidProgram);
                        },
                    }
                    i += 1;
                }
                self.push(Value::Function(cells, block));
                self.advance()
            },
            other => {
                self.push(other);
                self.advance()
            },
        }
    }

    /// The slot of a field in a layout of the machine.
    pub(crate) fn field_slot(&self, blob: usize, name: &String) -> (r: Option<usize>)
        ensures
            match r {
                Some(slot) => self@.field_slot(blob, name@) == Some(slot as int),
                None => self@.field_slot(blob, name@) is None,
            },
    {
        match self.blob(blob) {
            Some(layout) => layout.slot_of(name),
            None => None,
        }
    }

    fn apply_get(&mut self, field: String) -> (r: Result<OpResult, Error>)
        ensures
            step_of(final(self)@, r) == old(self)@.eval_get(field@),
            final(self).switches() == old(self).switches(),
    {
        match self.pop() {
            None => self.fail(ErrorKind::InvalidProgram),
            Some(inst) => {
                if let Value::BlobInstance(blob, cells) = inst {
                    if let Some(slot) = self.field_slot(blob, &field) {
                        return match self.field(cells, slot) {
                            Some(v) => {
                                self.push(v);
                                self.advance()
                            },
                            None => self.fail(ErrorKind::InvalidProgram),
                        };
                    }
                }
                self.fail(ErrorKind::RuntimeTypeError(Op::Get(field), one(inst)))
            },
        }
    }

    fn apply_set(&mut self, field: String) -> (r: Result<OpResult, Error>)
        ensures
            step_of(final(self)@, r) == old(self)@.eval_set(field@),
            final(self).switches() == old(self).switches(),
    {
        if self.depth() < 2 {
            return self.fail(ErrorKind::InvalidProgram);
        }
        let value = self.take();
        let inst = self.take();
        if let Value::BlobInstance(blob, cells) = inst {
            if let Some(slot) = self.field_slot(blob, &field) {
                return if self.field(cells, slot).is_some() {
                    self.store(cells, slot, value);
                    self.advance()
                } else {
                    self.fail(ErrorKind::InvalidProgram)
                };
            }
        }
        self.fail(ErrorKind::RuntimeTypeError(Op::SetField(field), one(inst)))
    }

    /// Pops the top of a stack that is not empty.
    pub(crate) fn take(&mut self) -> (r: Value)
        requires
            old(self)@.stack.len() > 0,
        ensures
            r@ == old(self)@.stack.last(),
            final(self)@ == old(self)@.pop(),
            final(self).switches() == old(self).switches(),
    {
        match self.pop() {
            Some(v) => v,
            None => vstd::pervasive::unreached(),
        }
    }

    fn apply_unary(&mut self, op: Op) -> (r: Result<OpResult, Error>)
        ensures
            step_of(final(self)@, r) == old(self)@.eval_unary(op@),
            final(self).switches() == old(self).switches(),
    {
        match self.pop() {
            None => self.fail(ErrorKind::InvalidProgram),
            Some(a) => match compute_unary(&op, &a) {
                Some(v) => {
                    self.push(v);
                    self.advance()
                },
                None => self.fail(ErrorKind::RuntimeTypeError(op, one(a))),
            },
        }
    }

    fn apply_binary(&mut self, op: Op, float: u64) -> (r: Result<OpResult, Error>)
        ensures
            step_of(final(self)@, r) == old(self)@.eval_binary(op@, float),
            final(self).switches() == old(self).switches(),
    {
        if self.depth() < 2 {
            return self.fail(ErrorKind::InvalidProgram);
        }
        let b = self.take();
        let a = self.take();
        match compute_binary(&op, &a, &b, float) {
            Some(v) => {
                self.push(v);
                self.advance()
            },
            None => self.fail(ErrorKind::RuntimeTypeError(op, two(a, b))),
        }
    }

    fn apply_jmp_false(&mut self, target: usize) -> (r: Result<OpResult, Error>)
        requires
            old(self)@.frames.len() > 0,
        ensures
            step_of(final(self)@, r) == old(self)@.eval_jmp_false(target),
            final(self).switches() == old(self).switches(),
    {
        match self.pop() {
            None => self.fail(ErrorKind::InvalidProgram),
            Some(v) => match v {
                Value::Bool(false) => {
                    self.jump(target);
                    Ok(OpResult::Continue)
                },
                Value::Bool(true) => self.advance(),
                other => self.fail(ErrorKind::RuntimeTypeError(Op::JmpFalse(target), one(other))),
            },
        }
    }

    fn apply_assert(&mut self) -> (r: Result<OpResult, Error>)
        ensures
            step_of(final(self)@, r) == old(self)@.eval_assert(),
            final(self).switches() == old(self).switches(),
    {
        match self.pop() {
            None => self.fail(ErrorKind::InvalidProgram),
            Some(Value::Bool(false)) => self.fail(ErrorKind::Assert),
            Some(_) => {
                self.push(Value::Bool(true));
                self.advance()
            },
        }
    }

    /// The stack index of a local of the running frame.
    fn local(&self, slot: usize) -> (r: Option<usize>)
        requires
            self@.frames.len() > 0,
        ensures
            match r {
                Some(at) => at == self@.top().stack_offset + slot,
                None => self@.top().stack_offset + slot > usize::MAX,
            },
    {
        match self.frame() {
            Some(frame) => {
                if slot <= usize::MAX - frame.stack_offset {
                    Some(frame.stack_offset + slot)
                } else {
                    None
                }
            },
            None => None,
        }
    }

    fn apply_read_local(&mut self, slot: usize) -> (r: Result<OpResult, Error>)
        requires
            old(self)@.frames.len() > 0,
        ensures
            step_of(final(self)@, r) == old(self)@.eval_read_local(slot),
            final(self).switches() == old(self).switches(),
    {
        proof {
            self.lemma_sizes();
        }
        if let Some(at) = self.local(slot) {
            if let Some(v) = self.peek(at) {
                self.push(v);
                return self.advance();
            }
        }
        self.fail(ErrorKind::InvalidProgram)
    }

    fn apply_assign_local(&mut self, slot: usize) -> (r: Result<OpResult, Error>)
        requires
            old(self)@.frames.len() > 0,
        ensures
            step_of(final(self)@, r) == old(self)@.eval_assign_local(slot),
            final(self).switches() == old(self).switches(),
    {
        match self.pop() {
            None => self.fail(ErrorKind::InvalidProgram),
            Some(v) => {
                proof {
                    self.lemma_sizes();
                }
                if let Some(at) = self.local(slot) {
                    if at < self.depth() {
                        self.write(at, v);
                        return self.advance();
                    }
                }
                self.fail(ErrorKind::InvalidProgram)
            },
        }
    }

    /// The cell of a capture of the running closure.
    pub(crate) fn running_cell(&self, index: usize) -> (r: Option<usize>)
        ensures
            r == self@.running_cell(index),
    {
        match self.running_capture(index) {
            Some(cell) => {
                if cell < self.cells_len() {
                    Some(cell)
                } else {
                    None
                }
            },
            None => None,
        }
    }

    fn apply_read_upvalue(&mut self, index: usize) -> (r: Result<OpResult, Error>)
        ensures
            step_of(final(self)@, r) == old(self)@.eval_read_upvalue(index),
            final(self).switches() == old(self).switches(),
    {
        if let Some(cell) = self.running_cell(index) {
            if let Some(v) = self.cell_read(cell) {
                self.push(v);
                return self.advance();
            }
        }
        self.fail(ErrorKind::InvalidProgram)
    }

    fn apply_assign_upvalue(&mut self, index: usize) -> (r: Result<OpResult, Error>)
        ensures
            step_of(final(self)@, r) == old(self)@.eval_assign_upvalue(index),
            final(self).switches() == old(self).switches(),
    {
        match self.pop() {
            None => self.fail(ErrorKind::InvalidProgram),
            Some(v) => {
                if let Some(cell) = self.running_cell(index) {
                    if self.cell_write(cell, v) {
                        return self.advance();
                    }
                }
                self.fail(ErrorKind::InvalidProgram)
            },
        }
    }

    /// A list of `n` nil values.
    fn nils(n: usize) -> (r: Vec<Value>)
        ensures
            models(r@) == Seq::new(n as nat, |i: int| crate::value::ValueModel::Nil),
    {
        let mut r: Vec<Value> = Vec::new();
        let mut i: usize = 0;
        while i < n
            invariant
                i <= n,
                r.len() == i,
                forall|j: int| 0 <= j < i ==> (#[trigger] r@[j])@ == crate::value::ValueModel::Nil,
            decreases n - i,
        {
            r.push(Value::Nil);
            i += 1;
        }
        assert(models(r@) =~= Seq::new(n as nat, |i: int| crate::value::ValueModel::Nil));
        r
    }

    fn apply_call(&mut self, n: usize, outcome: Result<Value, ErrorKind>) -> (r: Result<
        OpResult,
        Error,
    >)
        ensures
            step_of(final(self)@, r) == old(self)@.eval_call(
                n,
                crate::host::outcome_model(outcome),
            ),
            final(self).switches() == old(self).switches(),
    {
        let depth = self.depth();
        if n >= depth {
            return self.fail(ErrorKind::InvalidProgram);
        }
        let base = depth - 1 - n;
        match self.peek(base) {
            Some(Value::Blob(blob)) => {
                let fields = match self.blob(blob) {
                    Some(layout) => layout.fields.len(),
                    None => {
                        return self.fail(ErrorKind::InvalidProgram);
                    },
                };
                self.truncate(base);
                let inst = self.instantiate(blob, Self::nils(fields));
                self.push(inst);
                self.advance()
            },
            Some(Value::Function(_, block)) => {
                let arity = match self.block(block) {
                    Some(b) => match &b.ty {
                        crate::types::Type::Function(args, _) => Some(args.len()),
                        _ => None,
                    },
                    None => None,
                };
                match arity {
                    Some(arity) => {
                        if arity != n {
                            self.fail_with(
                                ErrorKind::InvalidProgram,
                                arity_text(n, arity).as_str(),
                            )
                        } else {
                            self.enter(Frame { stack_offset: base, block, ip: 0 });
                            Ok(OpResult::Continue)
                        }
                    },
                    None => self.fail(ErrorKind::InvalidProgram),
                }
            },
            Some(Value::ExternFunction(_)) => match outcome {
                Ok(v) => {
                    self.truncate(base);
                    self.push(v);
                    self.advance()
                },
                Err(kind) => self.fail_with(kind, "Wrong arguments to external function"),
            },
            _ => self.fail(ErrorKind::InvalidProgram),
        }
    }

    fn apply_print(&mut self) -> (r: Result<OpResult, Error>)
        ensures
            step_of(final(self)@, r) == old(self)@.eval_print(),
            final(self).switches() == old(self).switches(),
    {
        match self.pop() {
            Some(_) => self.advance(),
            None => self.fail(ErrorKind::InvalidProgram),
        }
    }

    fn apply_return(&mut self) -> (r: Result<OpResult, Error>)
        requires
            old(self)@.frames.len() > 0,
        ensures
            step_of(final(self)@, r) == old(self)@.eval_return(),
            final(self).switches() == old(self).switches(),
    {
        let frame = match self.frame() {
            Some(frame) => frame,
            None => vstd::pervasive::unreached(),
        };
        let value = match self.pop() {
            Some(value) => value,
            None => {
                return self.fail(ErrorKind::InvalidProgram);
            },
        };
        self.leave();
        let ghost left = self@;
        if self.frame().is_none() {
            return Ok(OpResult::Done);
        }
        let base = frame.stack_offset;
        let depth = self.depth();
        if base >= depth {
            return self.fail(ErrorKind::InvalidProgram);
        }
        self.write(base, value);
        let ghost written = self@;
        let mut slot: usize = base + 1;
        while slot < depth
            invariant
                self.switches() == old(self).switches(),
                base < slot <= depth,
                depth == written.stack.len(),
                self@ == written.sweep(base + 1, slot as int),
                self@.stack == written.stack,
            decreases depth - slot,
        {
            if self.is_open(slot) {
                match self.peek(slot) {
                    Some(v) => {
                        self.close_slot(slot, v);
                    },
                    None => {},
                }
            }
            slot += 1;
        }
        self.truncate(base + 1);
        self.advance()
    }

    fn apply_yield(&mut self) -> (r: Result<OpResult, Error>)
        requires
            old(self)@.frames.len() > 0,
        ensures
            step_of(final(self)@, r) == old(self)@.eval_yield(),
            final(self).switches() == old(self).switches(),
    {
        match self.frame() {
            Some(f) => {
                if f.ip < usize::MAX {
                    self.jump(f.ip + 1);
                    Ok(OpResult::Yield)
                } else {
                    self.fail(ErrorKind::InvalidProgram)
                }
            },
            None => self.fail(ErrorKind::InvalidProgram),
        }
    }

    /// Takes the step of `op`, given what the host answered to the request
    /// of that step. The step keeps the discipline of capture cells.
    pub fn apply(&mut self, op: Op, reply: HostReply) -> (r: Result<OpResult, Error>)
        ensures
            step_of(final(self)@, r) == old(self)@.eval(op@, reply@),
            final(self).switches() == old(self).switches(),
            old(self)@.registry_sound() ==> final(self)@.registry_sound(),
            old(self)@.registry_sound() ==> old(self)@.cells_live_on(final(self)@),
    {
        let ghost asked = op@;
        let ghost answered = reply@;
        proof {
            self.lemma_sizes();
        }
        let r = self.dispatch(op, reply);
        proof {
            self.lemma_sizes();
            if old(self)@.registry_sound() {
                crate::laws::lemma_eval_keeps_cells(old(self)@, asked, answered);
            }
        }
        r
    }

    fn dispatch(&mut self, op: Op, reply: HostReply) -> (r: Result<OpResult, Error>)
        ensures
            step_of(final(self)@, r) == old(self)@.eval(op@, reply@),
            final(self).switches() == old(self).switches(),
    {
        if self.frame().is_none() {
            return self.fail(ErrorKind::InvalidProgram);
        }
        match op {
            Op::Illegal => self.fail(ErrorKind::InvalidProgram),
            Op::Unreachable => self.fail(ErrorKind::Unreachable),
            Op::Pop => self.apply_pop(),
            Op::PopUpvalue => self.apply_pop_upvalue(),
            Op::Constant(v) => self.apply_constant(v),
            Op::Get(field) => self.apply_get(field),
            Op::SetField(field) => self.apply_set(field),
            Op::Neg => self.apply_unary(op),
            Op::Not => self.apply_unary(op),
            Op::Jmp(target) => {
                self.jump(target);
                Ok(OpResult::Continue)
            },
            Op::JmpFalse(target) => self.apply_jmp_false(target),
            Op::Assert => self.apply_assert(),
            Op::ReadLocal(slot) => self.apply_read_local(slot),
            Op::AssignLocal(slot) => self.apply_assign_local(slot),
            Op::ReadUpvalue(index) => self.apply_read_upvalue(index),
            Op::AssignUpvalue(index) => self.apply_assign_upvalue(index),
            Op::Define(_) => self.advance(),
            Op::Call(n) => self.apply_call(n, reply.outcome),
            Op::Print => self.apply_print(),
            Op::Return => self.apply_return(),
            Op::Yield => self.apply_yield(),
            other => self.apply_binary(other, reply.float),
        }
    }
}

/// Once an entry of a capture descriptor binds no cell, no longer prefix of
/// the descriptor binds its cells, and the machine stays as that entry
/// found it.
pub proof fn lemma_capture_all_stops(
    m: Machine,
    ups: Seq<(usize, bool, crate::types::TypeModel)>,
    at: int,
    n: int,
)
    requires
        0 <= at <= n,
        m.capture_all(ups, at).1 is None,
    ensures
        m.capture_all(ups, n) == m.capture_all(ups, at),
    decreases n - at,
{
    if at < n {
        lemma_capture_all_stops(m, ups, at, n - 1);
    }
}

} // verus!
