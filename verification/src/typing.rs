//! The type checker as a mathematical object: the same opcodes, run over
//! canonical values, each block on its own and in a straight line.

use vstd::prelude::*;

use crate::blob::ProgModel;
use crate::block::BlockModel;
use crate::error::{ErrorKindModel, ErrorModel};
use crate::machine::{
    arity_message, extern_message, reply_at, Frame, Machine, Reply, Request, Step,
};
use crate::op::OpModel;
use crate::types::{lists_equal, TypeModel};
use crate::value::{ValueModel, FLOAT_ONE};

verus! {

/// The message of the error for a capture whose types disagree.
pub open spec fn infer_message() -> Seq<char> {
    "Failed to infer type."@
}

/// The message of the error for a write of a wrong type through a capture.
pub open spec fn upvalue_message() -> Seq<char> {
    "Incorrect type for upvalue."@
}

/// The message of the error for a return of a wrong type.
pub open spec fn return_message() -> Seq<char> {
    "Not matching return type."@
}

/// The message of the error for a definition of a wrong type.
pub open spec fn define_message() -> Seq<char> {
    "Tried to assign a value to a variable of another type."@
}

/// The message of the error for arguments of wrong types.
pub open spec fn arguments_message() -> Seq<char> {
    "Expected arguments of other types."@
}

/// The message of the error for a call of what is no function.
pub open spec fn callee_message() -> Seq<char> {
    "Tried to call non-function."@
}

/// The capture descriptor after the first `n` entries took the types
/// suggested for them, and the first conflict met, if any: an entry that
/// names a local takes the suggested type where its own is unknown, and is
/// in conflict where its own is known and differs. Entries after a conflict
/// stay as they are.
pub open spec fn refine(
    ups: Seq<(usize, bool, TypeModel)>,
    suggested: Seq<TypeModel>,
    n: int,
) -> (Seq<(usize, bool, TypeModel)>, Option<(TypeModel, TypeModel)>)
    decreases n,
{
    if n <= 0 {
        (ups, None)
    } else {
        let (before, conflict) = refine(ups, suggested, n - 1);
        let entry = before[n - 1];
        if conflict is Some || entry.1 {
            (before, conflict)
        } else if entry.2 == TypeModel::Unknown {
            (before.update(n - 1, (entry.0, entry.1, suggested[n - 1])), None)
        } else if !entry.2.equals(suggested[n - 1]) {
            (before, Some((entry.2, suggested[n - 1])))
        } else {
            (before, None)
        }
    }
}

impl Machine {
    /// The canonical value of a type: one for the numbers, true, the empty
    /// text, nil for void, a new instance without field cells, and for a
    /// function type a closure of a new empty block of that type.
    pub open spec fn default_value(self, ty: TypeModel) -> (Machine, ValueModel) {
        match ty {
            TypeModel::Void => (self, ValueModel::Nil),
            TypeModel::Unknown => (self, ValueModel::Unknown),
            TypeModel::Int => (self, ValueModel::Int(1)),
            TypeModel::Float => (self, ValueModel::Float(FLOAT_ONE)),
            TypeModel::Bool => (self, ValueModel::Bool(true)),
            TypeModel::String => (self, ValueModel::String(Seq::empty())),
            TypeModel::Blob(blob) => (self, ValueModel::Blob(blob)),
            TypeModel::BlobInstance(blob) => self.instantiate(blob, Seq::empty()),
            TypeModel::Function(_, _) => (
                Machine { blocks: self.blocks.push(BlockModel::of_type(ty)), ..self },
                ValueModel::Function(Seq::empty(), self.blocks.len() as usize),
            ),
        }
    }

    /// The canonical values of the first `n` of a list of types, in order.
    pub open spec fn default_values(self, types: Seq<TypeModel>, n: int) -> (
        Machine,
        Seq<ValueModel>,
    )
        decreases n,
    {
        if n <= 0 {
            (self, Seq::empty())
        } else {
            let (before, values) = self.default_values(types, n - 1);
            let (after, value) = before.default_value(types[n - 1]);
            (after, values.push(value))
        }
    }

    /// The types that the stack suggests for the first `n` entries of a
    /// capture descriptor: for an entry that names a local, the type of the
    /// value in that stack slot; for any other, the entry's own. `None`
    /// where an entry names a slot that the stack does not have.
    pub open spec fn suggestions(self, ups: Seq<(usize, bool, TypeModel)>, n: int) -> Option<
        Seq<TypeModel>,
    >
        decreases n,
    {
        if n <= 0 {
            Some(Seq::empty())
        } else {
            match self.suggestions(ups, n - 1) {
                None => None,
                Some(types) => {
                    let entry = ups[n - 1];
                    if entry.1 {
                        Some(types.push(entry.2))
                    } else if entry.0 < self.stack.len() {
                        Some(types.push(self.type_of(self.stack[entry.0 as int])))
                    } else {
                        None
                    }
                },
            }
        }
    }

    /// The machine with another capture descriptor in one block.
    pub open spec fn with_ups(self, block: usize, ups: Seq<(usize, bool, TypeModel)>) -> Machine {
        Machine {
            blocks: self.blocks.update(
                block as int,
                BlockModel { ups, ..self.blocks[block as int] },
            ),
            ..self
        }
    }

    /// Pushes a constant. A function constant is pushed without captures,
    /// and the capture descriptor of its block is refined by the types that
    /// the stack then suggests; a conflict is a type error.
    pub open spec fn check_constant(self, v: ValueModel) -> Step {
        match v {
            ValueModel::Function(_, block) => if block < self.blocks.len() {
                let pushed = self.push(ValueModel::Function(Seq::empty(), block));
                let ups = self.blocks[block as int].ups;
                match pushed.suggestions(ups, ups.len() as int) {
                    None => pushed.fail(ErrorKindModel::InvalidProgram),
                    Some(suggested) => {
                        let (refined, conflict) = refine(ups, suggested, ups.len() as int);
                        let after = pushed.with_ups(block, refined);
                        match conflict {
                            Some((own, other)) => after.fail_with(
                                ErrorKindModel::TypeError(OpModel::Constant(v), seq![own, other]),
                                infer_message(),
                            ),
                            None => after.advance(),
                        }
                    },
                }
            } else {
                self.fail(ErrorKindModel::InvalidProgram)
            },
            _ => self.push(v).advance(),
        }
    }

    /// The declared type of a field.
    pub open spec fn field_type(self, blob: usize, slot: int) -> TypeModel {
        self.blobs[blob as int].fields[slot].1
    }

    /// Replaces the instance on top by the canonical value of the type of
    /// its field; what is no instance, or has no such field, is replaced by
    /// nil and is an error.
    pub open spec fn check_get(self, field: Seq<char>) -> Step {
        if self.stack.len() == 0 {
            self.fail(ErrorKindModel::InvalidProgram)
        } else {
            let inst = self.stack.last();
            let popped = self.pop();
            let mismatch = ErrorKindModel::RuntimeTypeError(OpModel::Get(field), seq![inst]);
            match inst {
                ValueModel::BlobInstance(blob, _) => match popped.field_slot(blob, field) {
                    Some(slot) => {
                        let (made, value) = popped.default_value(popped.field_type(blob, slot));
                        made.push(value).advance()
                    },
                    None => popped.push(ValueModel::Nil).fail(mismatch),
                },
                _ => popped.push(ValueModel::Nil).fail(mismatch),
            }
        }
    }

    /// Pops a value and the instance below it; the value's type must equal
    /// that of the instance's field.
    pub open spec fn check_set(self, field: Seq<char>) -> Step {
        if self.stack.len() < 2 {
            self.fail(ErrorKindModel::InvalidProgram)
        } else {
            let value = self.stack.last();
            let inst = self.stack[self.stack.len() - 2];
            let popped = self.pop().pop();
            let mismatch = ErrorKindModel::RuntimeTypeError(OpModel::SetField(field), seq![inst]);
            match inst {
                ValueModel::BlobInstance(blob, _) => match popped.field_slot(blob, field) {
                    Some(slot) => {
                        let declared = popped.field_type(blob, slot);
                        let found = popped.assigned_type(value);
                        if declared.equals(found) {
                            popped.advance()
                        } else {
                            popped.fail(
                                ErrorKindModel::TypeError(
                                    OpModel::SetField(field),
                                    seq![declared, found],
                                ),
                            )
                        }
                    },
                    None => popped.fail(mismatch),
                },
                _ => popped.fail(mismatch),
            }
        }
    }

    /// The declared type of the capture `index` of the block that is
    /// checked.
    pub open spec fn capture_type(self, index: usize) -> Option<TypeModel> {
        if self.frames.len() > 0 && self.top().block < self.blocks.len() && index
            < self.blocks[self.top().block as int].ups.len() {
            Some(self.blocks[self.top().block as int].ups[index as int].2)
        } else {
            None
        }
    }

    /// Pushes the canonical value of the declared type of a capture.
    pub open spec fn check_read_upvalue(self, index: usize) -> Step {
        match self.capture_type(index) {
            Some(ty) => {
                let (made, value) = self.default_value(ty);
                made.push(value).advance()
            },
            None => self.fail(ErrorKindModel::InvalidProgram),
        }
    }

    /// Pops a value, whose type must equal the declared type of the
    /// capture.
    pub open spec fn check_assign_upvalue(self, index: usize) -> Step {
        if self.stack.len() == 0 {
            self.fail(ErrorKindModel::InvalidProgram)
        } else {
            match self.capture_type(index) {
                Some(declared) => {
                    let found = self.type_of(self.stack.last());
                    if declared.equals(found) {
                        self.pop().advance()
                    } else {
                        self.pop().fail_with(
                            ErrorKindModel::TypeError(
                                OpModel::AssignUpvalue(index),
                                seq![declared, found],
                            ),
                            upvalue_message(),
                        )
                    }
                },
                None => self.fail(ErrorKindModel::InvalidProgram),
            }
        }
    }

    /// Pops a value, whose type must equal the return type that the checked
    /// block declares.
    pub open spec fn check_return(self) -> Step {
        if self.stack.len() == 0 {
            self.fail(ErrorKindModel::InvalidProgram)
        } else if self.top().block < self.blocks.len() && self.blocks[self.top().block as int].ty
            is Function {
            let declared = self.blocks[self.top().block as int].ret();
            let found = self.type_of(self.stack.last());
            if found.equals(declared) {
                self.pop().advance()
            } else {
                self.pop().fail_with(
                    ErrorKindModel::TypeError(OpModel::Return, seq![found, declared]),
                    return_message(),
                )
            }
        } else {
            self.pop().fail(ErrorKindModel::InvalidProgram)
        }
    }

    /// The type of the top must equal `ty`, unless `ty` is unknown, which
    /// accepts any.
    pub open spec fn check_define(self, ty: TypeModel) -> Step {
        if self.stack.len() == 0 {
            self.fail(ErrorKindModel::InvalidProgram)
        } else {
            let found = self.type_of(self.stack.last());
            if ty == TypeModel::Unknown || ty.equals(found) {
                self.advance()
            } else {
                self.fail_with(
                    ErrorKindModel::TypeError(OpModel::Define(ty), seq![ty, found]),
                    define_message(),
                )
            }
        }
    }

    /// The declared types of the fields of a layout, in the order of their
    /// slots.
    pub open spec fn field_types(self, blob: usize) -> Seq<TypeModel> {
        Seq::new(self.blobs[blob as int].fields.len(), |i: int| self.field_type(blob, i))
    }

    /// Checks the call of the value below the `n` arguments on top. A blob
    /// gives an instance whose fields hold the canonical values of their
    /// types. A closure must take `n` parameters, of the types of the
    /// arguments; it gives the canonical value of its return type, its body
    /// is not entered. An external function is called.
    pub open spec fn check_call(self, n: usize, outcome: Result<ValueModel, ErrorKindModel>) -> Step {
        if n >= self.stack.len() {
            self.fail(ErrorKindModel::InvalidProgram)
        } else {
            let base = self.stack.len() - 1 - n;
            let callee = self.stack[base];
            match callee {
                ValueModel::Blob(blob) => if blob < self.blobs.len() {
                    let types = self.field_types(blob);
                    let (filled, values) = self.truncate(base).default_values(
                        types,
                        types.len() as int,
                    );
                    let (made, inst) = filled.instantiate(blob, values);
                    made.push(inst).advance()
                } else {
                    self.fail(ErrorKindModel::InvalidProgram)
                },
                ValueModel::Function(_, block) => if block < self.blocks.len()
                    && self.blocks[block as int].ty is Function {
                    let declared = self.blocks[block as int].args();
                    let found = self.types_of(self.stack.subrange(base + 1, self.stack.len() as int));
                    if declared.len() != n {
                        self.fail_with(
                            ErrorKindModel::InvalidProgram,
                            arity_message(n as nat, declared.len()),
                        )
                    } else if !lists_equal(declared, found) {
                        self.fail_with(
                            ErrorKindModel::TypeError(OpModel::Call(n), Seq::empty()),
                            arguments_message(),
                        )
                    } else {
                        let (made, value) = self.default_value(self.blocks[block as int].ret());
                        made.write(base, value).truncate(base + 1).advance()
                    }
                } else {
                    self.fail(ErrorKindModel::InvalidProgram)
                },
                ValueModel::ExternFunction(_) => match outcome {
                    Ok(v) => self.truncate(base).push(v).advance(),
                    Err(kind) => self.truncate(base).push(ValueModel::Nil).fail_with(
                        kind,
                        extern_message(),
                    ),
                },
                _ => self.fail_with(
                    ErrorKindModel::TypeError(OpModel::Call(n), seq![self.type_of(callee)]),
                    callee_message(),
                ),
            }
        }
    }

    /// Pops a value, which must be a boolean. No jump is taken.
    pub open spec fn check_jmp_false(self, target: usize) -> Step {
        if self.stack.len() == 0 {
            self.fail(ErrorKindModel::InvalidProgram)
        } else {
            let v = self.stack.last();
            if v is Bool {
                self.pop().advance()
            } else {
                self.pop().fail(
                    ErrorKindModel::TypeError(OpModel::JmpFalse(target), seq![self.type_of(v)]),
                )
            }
        }
    }

    /// What the check of `op` asks of the host: what its evaluation asks,
    /// but that nothing is printed.
    pub open spec fn check_request(self, op: OpModel) -> Request {
        if op is Print {
            Request::Nothing
        } else {
            self.request(op)
        }
    }

    /// What the check of the opcode `op` does to the machine. Opcodes that
    /// move control only move on; opcodes that observe types compare them;
    /// every other opcode is evaluated.
    pub open spec fn check(self, op: OpModel, reply: Reply) -> Step {
        if self.frames.len() == 0 {
            self.fail(ErrorKindModel::InvalidProgram)
        } else {
            match op {
                OpModel::Unreachable => self.advance(),
                OpModel::Jmp(_) => self.advance(),
                OpModel::Yield => self.advance(),
                OpModel::Constant(v) => self.check_constant(v),
                OpModel::Get(field) => self.check_get(field),
                OpModel::SetField(field) => self.check_set(field),
                OpModel::PopUpvalue => self.eval_pop(),
                OpModel::ReadUpvalue(index) => self.check_read_upvalue(index),
                OpModel::AssignUpvalue(index) => self.check_assign_upvalue(index),
                OpModel::Return => self.check_return(),
                OpModel::Print => self.eval_print(),
                OpModel::Define(ty) => self.check_define(ty),
                OpModel::Call(n) => self.check_call(n, reply.outcome),
                OpModel::JmpFalse(target) => self.check_jmp_false(target),
                _ => self.eval(op, reply),
            }
        }
    }

    /// The machine with the running frame moved past its instruction.
    pub open spec fn skip(self) -> Machine {
        if self.frames.len() > 0 && self.top().ip < usize::MAX {
            self.jump((self.top().ip + 1) as usize)
        } else {
            self
        }
    }

    /// The machine with the top of the stack, if there is one, replaced by
    /// the canonical representative of its type.
    pub open spec fn canonical(self) -> Machine {
        if self.stack.len() > 0 {
            self.write(self.stack.len() - 1, self.stack.last().identity())
        } else {
            self
        }
    }

    /// One round of the checker: the check of the instruction at hand, a
    /// move past it where the check failed, and the top made canonical.
    /// With no instruction at hand nothing happens.
    pub open spec fn check_next(self, reply: Reply) -> (Machine, Option<ErrorModel>) {
        match self.fetch() {
            None => (self, None),
            Some(op) => {
                let step = self.check(op, reply);
                match step.result {
                    Ok(_) => (step.machine.canonical(), None),
                    Err(e) => (step.machine.skip().canonical(), Some(e)),
                }
            },
        }
    }

    /// `n` rounds of the checker, the round `i` taken with the reply `i` of
    /// `replies`, or with the silent reply where `replies` has none, and the
    /// errors met, in order.
    pub open spec fn check_rounds(self, replies: Seq<Reply>, n: int) -> (Machine, Seq<ErrorModel>)
        decreases n,
    {
        if n <= 0 {
            (self, Seq::empty())
        } else {
            let (before, errors) = self.check_rounds(replies, n - 1);
            let (after, error) = before.check_next(reply_at(replies, n - 1));
            match error {
                Some(e) => (after, errors.push(e)),
                None => (after, errors),
            }
        }
    }

    /// The machine made ready to check one block: the stack holds the block
    /// as a closure and the canonical value of each declared parameter, and
    /// the one frame stands at the block's first instruction.
    pub open spec fn check_start(self, block: usize) -> Machine {
        let cleared = Machine {
            stack: seq![ValueModel::Function(Seq::empty(), block)],
            frames: seq![Frame { stack_offset: 0, block, ip: 0 }],
            ..self
        };
        let params = self.blocks[block as int].args();
        let (made, values) = cleared.default_values(params, params.len() as int);
        Machine { stack: cleared.stack + values, ..made }
    }

    /// The check of one block: one round for each of its instructions. A
    /// block that the machine does not have is not checked.
    pub open spec fn check_block(self, block: usize, replies: Seq<Reply>) -> (
        Machine,
        Seq<ErrorModel>,
    ) {
        if block < self.blocks.len() {
            self.check_start(block).check_rounds(
                replies,
                self.blocks[block as int].ops.len() as int,
            )
        } else {
            (self, Seq::empty())
        }
    }

    /// The check of the first `n` blocks, the block `i` with the replies `i`
    /// of `replies`, or with none where `replies` has none: the errors of
    /// all of them, in order.
    pub open spec fn check_blocks(self, replies: Seq<Seq<Reply>>, n: int) -> (
        Machine,
        Seq<ErrorModel>,
    )
        decreases n,
    {
        if n <= 0 {
            (self, Seq::empty())
        } else {
            let (before, errors) = self.check_blocks(replies, n - 1);
            let (after, found) = before.check_block((n - 1) as usize, replies_at(replies, n - 1));
            (after, errors + found)
        }
    }

    /// An empty machine with the blocks and the layouts of a program.
    pub open spec fn loaded(prog: ProgModel) -> Machine {
        Machine { blocks: prog.blocks, blobs: prog.blobs, ..Machine::empty() }
    }

    /// The check of a whole program on an empty machine.
    pub open spec fn typecheck(prog: ProgModel, replies: Seq<Seq<Reply>>) -> (
        Machine,
        Seq<ErrorModel>,
    ) {
        Machine::loaded(prog).check_blocks(replies, prog.blocks.len() as int)
    }

    /// What the next round of the checker asks of the host.
    pub open spec fn next_check_request(self) -> Request {
        match self.fetch() {
            Some(op) => self.check_request(op),
            None => Request::Nothing,
        }
    }

    /// Whether none of `n` rounds without replies asks the host for an
    /// answer.
    pub open spec fn rounds_quiet(self, n: int) -> bool {
        forall|k: int|
            0 <= k < n ==> (#[trigger] self.check_rounds(
                Seq::empty(),
                k,
            )).0.next_check_request().is_silent()
    }

    /// Whether the check of a block without replies asks the host for no
    /// answer.
    pub open spec fn block_quiet(self, block: usize) -> bool {
        block < self.blocks.len() ==> self.check_start(block).rounds_quiet(
            self.blocks[block as int].ops.len() as int,
        )
    }

    /// Whether the check of the first `n` blocks without replies asks the
    /// host for no answer.
    pub open spec fn blocks_quiet(self, n: int) -> bool {
        forall|k: int|
            0 <= k < n ==> (#[trigger] self.check_blocks(Seq::empty(), k)).0.block_quiet(
                k as usize,
            )
    }
}

/// The replies `i` of a list of lists of replies, and none where the list
/// has none.
pub open spec fn replies_at(replies: Seq<Seq<Reply>>, i: int) -> Seq<Reply> {
    if 0 <= i < replies.len() {
        replies[i]
    } else {
        Seq::empty()
    }
}

impl ProgModel {
    /// Whether the check of the program asks the host for no answer: it
    /// calls no external function and computes on no floats.
    pub open spec fn hostless(self) -> bool {
        Machine::loaded(self).blocks_quiet(self.blocks.len() as int)
    }

    /// The errors that the check of a program gives where it asks the host
    /// for no answer.
    pub open spec fn type_errors(self) -> Seq<ErrorModel> {
        Machine::typecheck(self, Seq::empty()).1
    }

    /// Whether the check of a program that asks the host for no answer
    /// gives no error.
    pub open spec fn well_typed(self) -> bool {
        self.type_errors().len() == 0
    }
}

} // verus!
