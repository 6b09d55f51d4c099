//! The machine as a mathematical object: its state, and what one opcode
//! does to it.

use vstd::prelude::*;

use crate::arith::{
    checked, checked_quotient, float_equal, float_less, float_negated, text_less,
};
use crate::blob::BlobModel;
use crate::block::BlockModel;
use crate::error::{ErrorKindModel, ErrorModel};
use crate::op::OpModel;
use crate::types::TypeModel;
use crate::value::{UpValueModel, ValueModel};

verus! {

/// A call record. `stack_offset` is the stack index of the function that
/// the frame runs; its first argument sits one above.
#[derive(Clone, Copy, Debug, PartialEq, Eq, Structural)]
pub struct Frame {
    pub stack_offset: usize,
    pub block: usize,
    pub ip: usize,
}

/// How a step ended: the machine is suspended, goes on, or is done.
#[derive(Clone, Copy, Debug, PartialEq, Eq, Structural)]
pub enum OpResult {
    Yield,
    Continue,
    Done,
}

/// What the host answered to the request of one step. A step reads at most
/// one of the two fields.
pub struct Reply {
    /// The bits of the float that float arithmetic gave.
    pub float: u64,
    /// What a call of an external function gave.
    pub outcome: Result<ValueModel, ErrorKindModel>,
}

impl Reply {
    /// The reply to a request that asks for no answer.
    pub open spec fn silent() -> Reply {
        Reply { float: 0, outcome: Err(ErrorKindModel::InvalidProgram) }
    }
}

/// What a step needs from the host before it can be taken.
pub enum Request {
    /// Nothing.
    Nothing,
    /// The result of the arithmetic opcode on two floats, given by their
    /// bits.
    Float(OpModel, u64, u64),
    /// The result of the external function in that slot on those arguments.
    Call(usize, Seq<ValueModel>),
    /// That the value be printed.
    Print(ValueModel),
}

/// The state of the machine.
pub struct Machine {
    /// The operand stack.
    pub stack: Seq<ValueModel>,
    /// The call records, the running one last.
    pub frames: Seq<Frame>,
    /// The code blocks that closures and frames refer to.
    pub blocks: Seq<BlockModel>,
    /// The layouts that blobs and instances refer to.
    pub blobs: Seq<BlobModel>,
    /// The capture cells that closures refer to.
    pub cells: Seq<UpValueModel>,
    /// The open cell of each captured stack slot.
    pub open: Map<usize, usize>,
    /// The field cells that instances refer to.
    pub instances: Seq<Seq<ValueModel>>,
}

/// The machine after a step, and how the step ended.
pub struct Step {
    pub machine: Machine,
    pub result: Result<OpResult, ErrorModel>,
}

impl Machine {
    /// The machine that holds nothing.
    pub open spec fn empty() -> Machine {
        Machine {
            stack: Seq::empty(),
            frames: Seq::empty(),
            blocks: Seq::empty(),
            blobs: Seq::empty(),
            cells: Seq::empty(),
            open: Map::empty(),
            instances: Seq::empty(),
        }
    }

    /// The machine with `v` on top of the stack.
    pub open spec fn push(self, v: ValueModel) -> Machine {
        Machine { stack: self.stack.push(v), ..self }
    }

    /// The machine without the top of the stack.
    pub open spec fn pop(self) -> Machine {
        Machine { stack: self.stack.drop_last(), ..self }
    }

    /// The machine with `v` in a stack slot.
    pub open spec fn write(self, slot: int, v: ValueModel) -> Machine {
        Machine { stack: self.stack.update(slot, v), ..self }
    }

    /// The machine with the stack cut down to `len` values.
    pub open spec fn truncate(self, len: int) -> Machine {
        Machine { stack: self.stack.subrange(0, len), ..self }
    }

    /// The running frame.
    pub open spec fn top(self) -> Frame {
        self.frames.last()
    }

    /// The machine with the running frame at `ip`.
    pub open spec fn jump(self, ip: usize) -> Machine {
        Machine {
            frames: self.frames.update(self.frames.len() - 1, Frame { ip, ..self.top() }),
            ..self
        }
    }

    /// The machine with one more frame, which then runs.
    pub open spec fn enter(self, frame: Frame) -> Machine {
        Machine { frames: self.frames.push(frame), ..self }
    }

    /// The machine without the running frame.
    pub open spec fn leave(self) -> Machine {
        Machine { frames: self.frames.drop_last(), ..self }
    }

    /// The static type of a value. A closure has the type of its block, and
    /// void where the machine has no such block.
    pub open spec fn type_of(self, v: ValueModel) -> TypeModel {
        match v {
            ValueModel::Function(_, block) => if block < self.blocks.len() {
                self.blocks[block as int].ty
            } else {
                TypeModel::Void
            },
            _ => v.plain_type().unwrap(),
        }
    }

    /// The type that a field assignment compares with the field's: that of
    /// the value, with void for the unknown value.
    pub open spec fn assigned_type(self, v: ValueModel) -> TypeModel {
        match v {
            ValueModel::Unknown => TypeModel::Void,
            _ => self.type_of(v),
        }
    }

    /// The types of a list of values.
    pub open spec fn types_of(self, values: Seq<ValueModel>) -> Seq<TypeModel> {
        Seq::new(values.len(), |i: int| self.type_of(values[i]))
    }

    /// An error raised where the running frame stands: in the file of its
    /// block, at the line of its instruction. With no running frame the
    /// error names no place.
    pub open spec fn error(self, kind: ErrorKindModel, message: Option<Seq<char>>) -> ErrorModel {
        if self.frames.len() > 0 && self.top().block < self.blocks.len() {
            let block = self.blocks[self.top().block as int];
            ErrorModel { kind, file: block.file, line: block.line(self.top().ip), message }
        } else {
            ErrorModel { kind, file: Seq::empty(), line: 0, message }
        }
    }

    /// The step that fails where the running frame stands.
    pub open spec fn fail(self, kind: ErrorKindModel) -> Step {
        Step { machine: self, result: Err(self.error(kind, None)) }
    }

    /// The step that fails where the running frame stands, with a message.
    pub open spec fn fail_with(self, kind: ErrorKindModel, message: Seq<char>) -> Step {
        Step { machine: self, result: Err(self.error(kind, Some(message))) }
    }

    /// The step that moves the running frame to its next instruction.
    pub open spec fn advance(self) -> Step {
        if self.frames.len() > 0 && self.top().ip < usize::MAX {
            Step { machine: self.jump((self.top().ip + 1) as usize), result: Ok(OpResult::Continue) }
        } else {
            self.fail(ErrorKindModel::InvalidProgram)
        }
    }

    /// The machine once the open cell over `slot`, if there is one, is
    /// closed over `v` and taken out of the registry.
    pub open spec fn close_slot(self, slot: usize, v: ValueModel) -> Machine {
        if self.open.contains_key(slot) {
            let cell = self.open[slot];
            Machine {
                cells: if cell < self.cells.len() {
                    self.cells.update(cell as int, self.cells[cell as int].close(v))
                } else {
                    self.cells
                },
                open: self.open.remove(slot),
                ..self
            }
        } else {
            self
        }
    }

    /// The open cell over `slot`, made and registered where there was none.
    pub open spec fn capture_slot(self, slot: usize) -> (Machine, usize) {
        if self.open.contains_key(slot) {
            (self, self.open[slot])
        } else {
            let cell = self.cells.len() as usize;
            (
                Machine {
                    cells: self.cells.push(UpValueModel { slot, value: ValueModel::Nil }),
                    open: self.open.insert(slot, cell),
                    ..self
                },
                cell,
            )
        }
    }

    /// The machine once every open cell over a slot from `from` up to, not
    /// including, `to` is closed over the value in its slot.
    pub open spec fn sweep(self, from: int, to: int) -> Machine
        decreases to - from,
    {
        if to <= from {
            self
        } else {
            let swept = self.sweep(from, to - 1);
            swept.close_slot((to - 1) as usize, swept.stack[to - 1])
        }
    }

    /// The closure that the running frame runs: its capture cells.
    pub open spec fn running_captures(self) -> Option<Seq<usize>> {
        if self.frames.len() > 0 && self.top().stack_offset < self.stack.len() {
            match self.stack[self.top().stack_offset as int] {
                ValueModel::Function(captures, _) => Some(captures),
                _ => None,
            }
        } else {
            None
        }
    }

    /// The cell that one entry of a capture descriptor binds, in the
    /// running frame: for an entry that names a capture of the running
    /// closure (`is_up`), that capture; for one that names a local, the open
    /// cell over the local's slot. `None` where the entry names what is not
    /// there, or the slot zero, over which no cell may be opened.
    pub open spec fn capture(self, slot: usize, is_up: bool) -> (Machine, Option<usize>) {
        if is_up {
            (self, self.running_capture(slot))
        } else if self.frames.len() > 0 && 0 < self.top().stack_offset + slot <= usize::MAX {
            let (after, cell) = self.capture_slot((self.top().stack_offset + slot) as usize);
            (after, Some(cell))
        } else {
            (self, None)
        }
    }

    /// The cells that the first `n` entries of a capture descriptor bind,
    /// in order; `None` from the first entry on that binds none, with the
    /// machine as that entry found it.
    pub open spec fn capture_all(self, ups: Seq<(usize, bool, TypeModel)>, n: int) -> (
        Machine,
        Option<Seq<usize>>,
    )
        decreases n,
    {
        if n <= 0 {
            (self, Some(Seq::empty()))
        } else {
            let (before, cells) = self.capture_all(ups, n - 1);
            match cells {
                None => (before, None),
                Some(cells) => {
                    let (after, cell) = before.capture(ups[n - 1].0, ups[n - 1].1);
                    match cell {
                        None => (after, None),
                        Some(cell) => (after, Some(cells.push(cell))),
                    }
                },
            }
        }
    }

    /// A new instance with the field cells given.
    pub open spec fn instantiate(self, blob: usize, cells: Seq<ValueModel>) -> (
        Machine,
        ValueModel,
    ) {
        (
            Machine { instances: self.instances.push(cells), ..self },
            ValueModel::BlobInstance(blob, self.instances.len() as usize),
        )
    }
}

/// The message of the error for a call with a wrong number of arguments.
pub open spec fn arity_message(got: nat, expected: nat) -> Seq<char> {
    "Invalid number of arguments, got "@ + crate::text::digits(got) + " expected "@
        + crate::text::digits(expected) + "."@
}

/// The message of the error that an external function gave.
pub open spec fn extern_message() -> Seq<char> {
    "Wrong arguments to external function"@
}

impl Machine {
    /// The slot of the field `name` in the layout `blob`, where the machine
    /// has that layout and the layout that field.
    pub open spec fn field_slot(self, blob: usize, name: Seq<char>) -> Option<int> {
        if blob < self.blobs.len() && self.blobs[blob as int].has(name) {
            Some(self.blobs[blob as int].slot_of(name))
        } else {
            None
        }
    }

    /// Whether the instance cells `cells` have the slot `slot`.
    pub open spec fn has_field_cell(self, cells: usize, slot: int) -> bool {
        cells < self.instances.len() && 0 <= slot < self.instances[cells as int].len()
    }

    /// The machine with `v` in one field cell.
    pub open spec fn store(self, cells: usize, slot: int, v: ValueModel) -> Machine {
        Machine {
            instances: self.instances.update(
                cells as int,
                self.instances[cells as int].update(slot, v),
            ),
            ..self
        }
    }

    /// The capture `index` of the running closure.
    pub open spec fn running_capture(self, index: usize) -> Option<usize> {
        match self.running_captures() {
            Some(captures) => if index < captures.len() {
                Some(captures[index as int])
            } else {
                None
            },
            None => None,
        }
    }

    /// The cell of the capture `index` of the running closure.
    pub open spec fn running_cell(self, index: usize) -> Option<usize> {
        match self.running_capture(index) {
            Some(cell) => if cell < self.cells.len() {
                Some(cell)
            } else {
                None
            },
            None => None,
        }
    }

    /// What the step of `op` asks of the host.
    pub open spec fn request(self, op: OpModel) -> Request {
        let n = self.stack.len();
        if self.frames.len() == 0 {
            Request::Nothing
        } else if is_arithmetic(op) && n >= 2 && self.stack[n - 2] is Float && self.stack[n
            - 1] is Float {
            Request::Float(op, self.stack[n - 2]->Float_0, self.stack[n - 1]->Float_0)
        } else if op is Print && n >= 1 {
            Request::Print(self.stack.last())
        } else if op is Call && op->Call_0 < n && self.stack[n - 1 - op->Call_0] is ExternFunction {
            Request::Call(
                self.stack[n - 1 - op->Call_0]->ExternFunction_0,
                self.stack.subrange(n - op->Call_0, n as int),
            )
        } else {
            Request::Nothing
        }
    }

    /// Discards the top.
    pub open spec fn eval_pop(self) -> Step {
        if self.stack.len() == 0 {
            self.fail(ErrorKindModel::InvalidProgram)
        } else {
            self.pop().advance()
        }
    }

    /// Pops the top, and closes the open cell over the slot it leaves, if
    /// there is one, over the popped value.
    pub open spec fn eval_pop_upvalue(self) -> Step {
        if self.stack.len() == 0 {
            self.fail(ErrorKindModel::InvalidProgram)
        } else {
            let popped = self.pop();
            popped.close_slot(popped.stack.len() as usize, self.stack.last()).advance()
        }
    }

    /// Pushes a constant. A function constant becomes a closure of the
    /// running frame: its capture cells are those that the descriptor of its
    /// block binds.
    pub open spec fn eval_constant(self, v: ValueModel) -> Step {
        match v {
            ValueModel::Function(_, block) => if block < self.blocks.len() {
                let ups = self.blocks[block as int].ups;
                let (bound, cells) = self.capture_all(ups, ups.len() as int);
                match cells {
                    Some(cells) => bound.push(ValueModel::Function(cells, block)).advance(),
                    None => bound.fail(ErrorKindModel::InvalidProgram),
                }
            } else {
                self.fail(ErrorKindModel::InvalidProgram)
            },
            _ => self.push(v).advance(),
        }
    }

    /// Replaces the instance on top by the value of its field `field`.
    pub open spec fn eval_get(self, field: Seq<char>) -> Step {
        if self.stack.len() == 0 {
            self.fail(ErrorKindModel::InvalidProgram)
        } else {
            let inst = self.stack.last();
            let popped = self.pop();
            let mismatch = ErrorKindModel::RuntimeTypeError(OpModel::Get(field), seq![inst]);
            match inst {
                ValueModel::BlobInstance(blob, cells) => match popped.field_slot(blob, field) {
                    Some(slot) => if popped.has_field_cell(cells, slot) {
                        popped.push(popped.instances[cells as int][slot]).advance()
                    } else {
                        popped.fail(ErrorKindModel::InvalidProgram)
                    },
                    None => popped.fail(mismatch),
                },
                _ => popped.fail(mismatch),
            }
        }
    }

    /// Pops a value and the instance below it, and writes the value to the
    /// instance's field `field`.
    pub open spec fn eval_set(self, field: Seq<char>) -> Step {
        if self.stack.len() < 2 {
            self.fail(ErrorKindModel::InvalidProgram)
        } else {
            let value = self.stack.last();
            let inst = self.stack[self.stack.len() - 2];
            let popped = self.pop().pop();
            let mismatch = ErrorKindModel::RuntimeTypeError(OpModel::SetField(field), seq![inst]);
            match inst {
                ValueModel::BlobInstance(blob, cells) => match popped.field_slot(blob, field) {
                    Some(slot) => if popped.has_field_cell(cells, slot) {
                        popped.store(cells, slot, value).advance()
                    } else {
                        popped.fail(ErrorKindModel::InvalidProgram)
                    },
                    None => popped.fail(mismatch),
                },
                _ => popped.fail(mismatch),
            }
        }
    }

    /// Replaces the top by the result of an opcode of one operand.
    pub open spec fn eval_unary(self, op: OpModel) -> Step {
        if self.stack.len() == 0 {
            self.fail(ErrorKindModel::InvalidProgram)
        } else {
            let a = self.stack.last();
            match unary(op, a) {
                Some(v) => self.pop().push(v).advance(),
                None => self.pop().fail(ErrorKindModel::RuntimeTypeError(op, seq![a])),
            }
        }
    }

    /// Replaces the two values on top by the result of an opcode of two
    /// operands.
    pub open spec fn eval_binary(self, op: OpModel, float: u64) -> Step {
        if self.stack.len() < 2 {
            self.fail(ErrorKindModel::InvalidProgram)
        } else {
            let a = self.stack[self.stack.len() - 2];
            let b = self.stack.last();
            match binary(op, a, b, float) {
                Some(v) => self.pop().pop().push(v).advance(),
                None => self.pop().pop().fail(ErrorKindModel::RuntimeTypeError(op, seq![a, b])),
            }
        }
    }

    /// Pops a boolean and jumps where it is false.
    pub open spec fn eval_jmp_false(self, target: usize) -> Step {
        if self.stack.len() == 0 {
            self.fail(ErrorKindModel::InvalidProgram)
        } else {
            let v = self.stack.last();
            match v {
                ValueModel::Bool(false) => Step {
                    machine: self.pop().jump(target),
                    result: Ok(OpResult::Continue),
                },
                ValueModel::Bool(true) => self.pop().advance(),
                _ => self.pop().fail(
                    ErrorKindModel::RuntimeTypeError(OpModel::JmpFalse(target), seq![v]),
                ),
            }
        }
    }

    /// Pops a value; false is an error, anything else leaves true.
    pub open spec fn eval_assert(self) -> Step {
        if self.stack.len() == 0 {
            self.fail(ErrorKindModel::InvalidProgram)
        } else if self.stack.last() == ValueModel::Bool(false) {
            self.pop().fail(ErrorKindModel::Assert)
        } else {
            self.pop().push(ValueModel::Bool(true)).advance()
        }
    }

    /// Pushes a copy of a local of the running frame.
    pub open spec fn eval_read_local(self, slot: usize) -> Step {
        let at = self.top().stack_offset + slot;
        if at < self.stack.len() {
            self.push(self.stack[at]).advance()
        } else {
            self.fail(ErrorKindModel::InvalidProgram)
        }
    }

    /// Pops a value and writes it to a local of the running frame.
    pub open spec fn eval_assign_local(self, slot: usize) -> Step {
        let at = self.top().stack_offset + slot;
        if self.stack.len() == 0 {
            self.fail(ErrorKindModel::InvalidProgram)
        } else if at < self.stack.len() - 1 {
            self.pop().write(at, self.stack.last()).advance()
        } else {
            self.pop().fail(ErrorKindModel::InvalidProgram)
        }
    }

    /// Pushes what a read through a capture of the running closure gives.
    pub open spec fn eval_read_upvalue(self, index: usize) -> Step {
        match self.running_cell(index) {
            Some(cell) => match self.cells[cell as int].get(self.stack) {
                Some(v) => self.push(v).advance(),
                None => self.fail(ErrorKindModel::InvalidProgram),
            },
            None => self.fail(ErrorKindModel::InvalidProgram),
        }
    }

    /// Pops a value and writes it through a capture of the running closure.
    pub open spec fn eval_assign_upvalue(self, index: usize) -> Step {
        if self.stack.len() == 0 {
            self.fail(ErrorKindModel::InvalidProgram)
        } else {
            let popped = self.pop();
            match popped.running_cell(index) {
                Some(cell) => match popped.cells[cell as int].set(popped.stack, self.stack.last()) {
                    Some((written, stack)) => (Machine {
                        cells: popped.cells.update(cell as int, written),
                        stack,
                        ..popped
                    }).advance(),
                    None => popped.fail(ErrorKindModel::InvalidProgram),
                },
                None => popped.fail(ErrorKindModel::InvalidProgram),
            }
        }
    }

    /// The block that the step of `op` enters: that of the closure below the
    /// arguments of a call, where the machine has the block and the block
    /// declares as many parameters as the call passes arguments. `None`
    /// where the step enters no block.
    pub open spec fn callee(self, op: OpModel) -> Option<usize> {
        match op {
            OpModel::Call(n) => if n < self.stack.len() {
                match self.stack[self.stack.len() - 1 - n] {
                    ValueModel::Function(_, block) => if block < self.blocks.len()
                        && self.blocks[block as int].ty is Function
                        && self.blocks[block as int].args().len() == n {
                        Some(block)
                    } else {
                        None
                    },
                    _ => None,
                }
            } else {
                None
            },
            _ => None,
        }
    }

    /// Calls the value below the `n` arguments on top. A blob gives a new
    /// instance in place of itself and its arguments, each field nil. A
    /// closure of `n` parameters gets a frame over its arguments. An
    /// external function is the host's: its result takes the place of the
    /// function and its arguments, and its error is raised with a message.
    pub open spec fn eval_call(self, n: usize, outcome: Result<ValueModel, ErrorKindModel>) -> Step {
        if n >= self.stack.len() {
            self.fail(ErrorKindModel::InvalidProgram)
        } else {
            let base = self.stack.len() - 1 - n;
            match self.stack[base] {
                ValueModel::Blob(blob) => if blob < self.blobs.len() {
                    let (made, inst) = self.truncate(base).instantiate(
                        blob,
                        Seq::new(self.blobs[blob as int].fields.len(), |i: int| ValueModel::Nil),
                    );
                    made.push(inst).advance()
                } else {
                    self.fail(ErrorKindModel::InvalidProgram)
                },
                ValueModel::Function(_, block) => if block < self.blocks.len()
                    && self.blocks[block as int].ty is Function {
                    if self.blocks[block as int].args().len() != n {
                        self.fail_with(
                            ErrorKindModel::InvalidProgram,
                            arity_message(n as nat, self.blocks[block as int].args().len()),
                        )
                    } else {
                        Step {
                            machine: self.enter(
                                Frame { stack_offset: base as usize, block, ip: 0 },
                            ),
                            result: Ok(OpResult::Continue),
                        }
                    }
                } else {
                    self.fail(ErrorKindModel::InvalidProgram)
                },
                ValueModel::ExternFunction(_) => match outcome {
                    Ok(v) => self.truncate(base).push(v).advance(),
                    Err(kind) => self.fail_with(kind, extern_message()),
                },
                _ => self.fail(ErrorKindModel::InvalidProgram),
            }
        }
    }

    /// Pops the value that the host prints.
    pub open spec fn eval_print(self) -> Step {
        if self.stack.len() == 0 {
            self.fail(ErrorKindModel::InvalidProgram)
        } else {
            self.pop().advance()
        }
    }

    /// Pops the return value and the running frame. With no frame left the
    /// machine is done. Else the value takes the place of the function that
    /// returns, every open cell over a slot above it is closed over the
    /// slot's value, the stack ends after the returned value, and the
    /// caller goes on.
    pub open spec fn eval_return(self) -> Step {
        if self.stack.len() == 0 {
            self.fail(ErrorKindModel::InvalidProgram)
        } else {
            let left = self.pop().leave();
            let base = self.top().stack_offset;
            if left.frames.len() == 0 {
                Step { machine: left, result: Ok(OpResult::Done) }
            } else if base < left.stack.len() {
                left.write(base as int, self.stack.last()).sweep(
                    base + 1,
                    left.stack.len() as int,
                ).truncate(base + 1).advance()
            } else {
                left.fail(ErrorKindModel::InvalidProgram)
            }
        }
    }

    /// Moves past the opcode and suspends the machine.
    pub open spec fn eval_yield(self) -> Step {
        if self.top().ip < usize::MAX {
            Step { machine: self.jump((self.top().ip + 1) as usize), result: Ok(OpResult::Yield) }
        } else {
            self.fail(ErrorKindModel::InvalidProgram)
        }
    }

    /// What the opcode `op` does to the machine, given the host's reply to
    /// the request of this step. Without a running frame, and wherever the
    /// opcode meets a stack, a handle or an index that does not fit, the
    /// step fails as an invalid program.
    pub open spec fn eval(self, op: OpModel, reply: Reply) -> Step {
        if self.frames.len() == 0 {
            self.fail(ErrorKindModel::InvalidProgram)
        } else {
            match op {
                OpModel::Illegal => self.fail(ErrorKindModel::InvalidProgram),
                OpModel::Unreachable => self.fail(ErrorKindModel::Unreachable),
                OpModel::Pop => self.eval_pop(),
                OpModel::PopUpvalue => self.eval_pop_upvalue(),
                OpModel::Constant(v) => self.eval_constant(v),
                OpModel::Get(field) => self.eval_get(field),
                OpModel::SetField(field) => self.eval_set(field),
                OpModel::Neg => self.eval_unary(op),
                OpModel::Not => self.eval_unary(op),
                OpModel::Jmp(target) => Step {
                    machine: self.jump(target),
                    result: Ok(OpResult::Continue),
                },
                OpModel::JmpFalse(target) => self.eval_jmp_false(target),
                OpModel::Assert => self.eval_assert(),
                OpModel::ReadLocal(slot) => self.eval_read_local(slot),
                OpModel::AssignLocal(slot) => self.eval_assign_local(slot),
                OpModel::ReadUpvalue(index) => self.eval_read_upvalue(index),
                OpModel::AssignUpvalue(index) => self.eval_assign_upvalue(index),
                OpModel::Define(_) => self.advance(),
                OpModel::Call(n) => self.eval_call(n, reply.outcome),
                OpModel::Print => self.eval_print(),
                OpModel::Return => self.eval_return(),
                OpModel::Yield => self.eval_yield(),
                _ => self.eval_binary(op, reply.float),
            }
        }
    }
}

impl Machine {
    /// The machine at the start of a program: the entry block, which is the
    /// first, runs as a closure without captures in the stack's first slot.
    pub open spec fn start(blocks: Seq<BlockModel>, blobs: Seq<BlobModel>) -> Machine {
        Machine {
            stack: seq![ValueModel::Function(Seq::empty(), 0)],
            frames: seq![Frame { stack_offset: 0, block: 0, ip: 0 }],
            blocks,
            blobs,
            ..Machine::empty()
        }
    }

    /// The instruction that the running frame stands at.
    pub open spec fn fetch(self) -> Option<OpModel> {
        if self.frames.len() > 0 && self.top().block < self.blocks.len() && self.top().ip
            < self.blocks[self.top().block as int].ops.len() {
            Some(self.blocks[self.top().block as int].ops[self.top().ip as int])
        } else {
            None
        }
    }

    /// What the next step asks of the host.
    pub open spec fn next_request(self) -> Request {
        match self.fetch() {
            Some(op) => self.request(op),
            None => Request::Nothing,
        }
    }

    /// The next step: that of the instruction the running frame stands at.
    /// Where it stands at none, the step fails as an invalid program.
    pub open spec fn cycle(self, reply: Reply) -> Step {
        match self.fetch() {
            Some(op) => self.eval(op, reply),
            None => self.fail(ErrorKindModel::InvalidProgram),
        }
    }

    /// The machine after at most `budget` steps, the step `i` taken with the
    /// reply `i` of `replies`, or with the silent reply where `replies` has
    /// none. Steps are taken while each one ends in `Continue`; the first
    /// that ends otherwise ends the run. A run that uses up its budget ends
    /// in `Continue`.
    pub open spec fn run(self, replies: Seq<Reply>, budget: nat) -> Step
        decreases budget,
    {
        if budget == 0 {
            Step { machine: self, result: Ok(OpResult::Continue) }
        } else {
            let before = self.run(replies, (budget - 1) as nat);
            if before.result == Ok::<OpResult, ErrorModel>(OpResult::Continue) {
                before.machine.cycle(reply_at(replies, budget - 1))
            } else {
                before
            }
        }
    }

    /// Whether no step of a run without replies asks the host for an
    /// answer.
    pub open spec fn quiet(self, budget: nat) -> bool {
        forall|k: nat|
            k < budget && (#[trigger] self.run(Seq::empty(), k)).result == Ok::<
                OpResult,
                ErrorModel,
            >(OpResult::Continue) ==> self.run(
                Seq::empty(),
                k,
            ).machine.next_request().is_silent()
    }
}

impl Request {
    /// Whether the request asks for no answer.
    pub open spec fn is_silent(self) -> bool {
        self is Nothing || self is Print
    }
}

/// The reply `i` of a list of replies, and the silent reply where the list
/// has none.
pub open spec fn reply_at(replies: Seq<Reply>, i: int) -> Reply {
    if 0 <= i < replies.len() {
        replies[i]
    } else {
        Reply::silent()
    }
}

/// A run reads only as many replies as it has budget.
pub proof fn lemma_run_prefix(m: Machine, replies: Seq<Reply>, more: Seq<Reply>, budget: nat)
    requires
        budget <= replies.len(),
    ensures
        m.run(replies + more, budget) == m.run(replies, budget),
    decreases budget,
{
    if budget > 0 {
        lemma_run_prefix(m, replies, more, (budget - 1) as nat);
        assert((replies + more)[budget - 1] == replies[budget - 1]);
    }
}

/// A run that has ended stays ended, whatever budget is left.
pub proof fn lemma_run_ended(m: Machine, replies: Seq<Reply>, at: nat, budget: nat)
    requires
        at <= budget,
        m.run(replies, at).result != Ok::<OpResult, ErrorModel>(OpResult::Continue),
    ensures
        m.run(replies, budget) == m.run(replies, at),
    decreases budget,
{
    if at < budget {
        lemma_run_ended(m, replies, at, (budget - 1) as nat);
    }
}

/// The result of an opcode of two operands, `a` below `b` on the stack;
/// `None` where the opcode does not work on such operands. Arithmetic on
/// floats is the host's: its result is `float`. Integer arithmetic that
/// leaves the integers, and division by zero, have no result.
pub open spec fn binary(op: OpModel, a: ValueModel, b: ValueModel, float: u64) -> Option<
    ValueModel,
> {
    match (op, a, b) {
        (OpModel::Add, ValueModel::Float(_), ValueModel::Float(_)) => Some(ValueModel::Float(float)),
        (OpModel::Sub, ValueModel::Float(_), ValueModel::Float(_)) => Some(ValueModel::Float(float)),
        (OpModel::Mul, ValueModel::Float(_), ValueModel::Float(_)) => Some(ValueModel::Float(float)),
        (OpModel::Div, ValueModel::Float(_), ValueModel::Float(_)) => Some(ValueModel::Float(float)),
        (OpModel::Add, ValueModel::Int(x), ValueModel::Int(y)) => int_value(checked(x + y)),
        (OpModel::Sub, ValueModel::Int(x), ValueModel::Int(y)) => int_value(checked(x - y)),
        (OpModel::Mul, ValueModel::Int(x), ValueModel::Int(y)) => int_value(checked(x * y)),
        (OpModel::Div, ValueModel::Int(x), ValueModel::Int(y)) => int_value(checked_quotient(x, y)),
        (OpModel::Add, ValueModel::String(x), ValueModel::String(y)) => Some(
            ValueModel::String(x + y),
        ),
        (OpModel::Equal, ValueModel::Float(x), ValueModel::Float(y)) => Some(
            ValueModel::Bool(float_equal(x, y)),
        ),
        (OpModel::Equal, ValueModel::Int(x), ValueModel::Int(y)) => Some(ValueModel::Bool(x == y)),
        (OpModel::Equal, ValueModel::String(x), ValueModel::String(y)) => Some(
            ValueModel::Bool(x == y),
        ),
        (OpModel::Equal, ValueModel::Bool(x), ValueModel::Bool(y)) => Some(ValueModel::Bool(x == y)),
        (OpModel::Less, ValueModel::Float(x), ValueModel::Float(y)) => Some(
            ValueModel::Bool(float_less(x, y)),
        ),
        (OpModel::Less, ValueModel::Int(x), ValueModel::Int(y)) => Some(ValueModel::Bool(x < y)),
        (OpModel::Less, ValueModel::String(x), ValueModel::String(y)) => Some(
            ValueModel::Bool(text_less(x, y)),
        ),
        (OpModel::Less, ValueModel::Bool(x), ValueModel::Bool(y)) => Some(ValueModel::Bool(!x && y)),
        (OpModel::Greater, ValueModel::Float(x), ValueModel::Float(y)) => Some(
            ValueModel::Bool(float_less(y, x)),
        ),
        (OpModel::Greater, ValueModel::Int(x), ValueModel::Int(y)) => Some(ValueModel::Bool(x > y)),
        (OpModel::Greater, ValueModel::String(x), ValueModel::String(y)) => Some(
            ValueModel::Bool(text_less(y, x)),
        ),
        (OpModel::Greater, ValueModel::Bool(x), ValueModel::Bool(y)) => Some(
            ValueModel::Bool(x && !y),
        ),
        (OpModel::And, ValueModel::Bool(x), ValueModel::Bool(y)) => Some(ValueModel::Bool(x && y)),
        (OpModel::Or, ValueModel::Bool(x), ValueModel::Bool(y)) => Some(ValueModel::Bool(x || y)),
        _ => None,
    }
}

/// An integer result as a value.
pub open spec fn int_value(v: Option<i64>) -> Option<ValueModel> {
    match v {
        Some(v) => Some(ValueModel::Int(v)),
        None => None,
    }
}

/// The result of an opcode of one operand; `None` where the opcode does
/// not work on such an operand.
pub open spec fn unary(op: OpModel, a: ValueModel) -> Option<ValueModel> {
    match (op, a) {
        (OpModel::Neg, ValueModel::Float(x)) => Some(ValueModel::Float(float_negated(x))),
        (OpModel::Neg, ValueModel::Int(x)) => int_value(checked(-x)),
        (OpModel::Not, ValueModel::Bool(x)) => Some(ValueModel::Bool(!x)),
        _ => None,
    }
}

/// Whether the opcode takes two operands and computes a value from them.
pub open spec fn is_binary(op: OpModel) -> bool {
    op is Add || op is Sub || op is Mul || op is Div || op is Equal || op is Less || op is Greater
        || op is And || op is Or
}

/// Whether the opcode is arithmetic, which on floats is the host's.
pub open spec fn is_arithmetic(op: OpModel) -> bool {
    op is Add || op is Sub || op is Mul || op is Div
}

} // verus!
