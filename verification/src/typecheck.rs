//! The type checker: every block is run once over canonical values, in a
//! straight line, and each mismatch is reported.

use vstd::prelude::*;

use crate::blob::{clone_blobs, clone_blocks, Prog};
use crate::block::Block;
use crate::error::{Error, ErrorKind, ErrorModel};
use crate::eval::step_of;
use crate::host::{consult, Host, HostReply, HostRequest};
use crate::laws::lemma_default_values_keep_cells;
use crate::machine::{Frame, Machine, OpResult, Reply};
use crate::model::{group_models, models};
use crate::op::Op;
use crate::types::{clone_types, same_types, Type, TypeModel};
use crate::typing::refine;
use crate::value::{Value, ValueModel, FLOAT_ONE};
use crate::vm::VM;

verus! {

broadcast use group_models;

/// The model of an error that a round may have met.
pub open spec fn met(e: Option<Error>) -> Option<ErrorModel> {
    match e {
        Some(e) => Some(e@),
        None => None,
    }
}

fn one_type(a: Type) -> (r: Vec<Type>)
    ensures
        models(r@) == seq![a@],
{
    let mut r: Vec<Type> = Vec::new();
    r.push(a);
    assert(models(r@) =~= seq![a@]);
    r
}

fn two_types(a: Type, b: Type) -> (r: Vec<Type>)
    ensures
        models(r@) == seq![a@, b@],
{
    let mut r: Vec<Type> = Vec::new();
    r.push(a);
    r.push(b);
    assert(models(r@) =~= seq![a@, b@]);
    r
}

impl Value {
    /// The static type of the value, in a machine.
    pub fn as_type(&self, vm: &VM) -> (r: Type)
        ensures
            r@ == vm@.type_of(self@),
    {
        match self {
            Value::BlobInstance(blob, _) => Type::BlobInstance(*blob),
            Value::Blob(blob) => Type::Blob(*blob),
            Value::Float(_) => Type::Float,
            Value::Int(_) => Type::Int,
            Value::Bool(_) => Type::Bool,
            Value::String(_) => Type::String,
            Value::Function(_, block) => match vm.block(*block) {
                Some(b) => b.ty.clone(),
                None => Type::Void,
            },
            Value::ExternFunction(_) => Type::Void,
            Value::Unkown => Type::UnknownType,
            Value::Nil => Type::Void,
        }
    }
}

impl Type {
    /// The type that a field assignment compares with the field's: that of
    /// the value, with void for the unknown value.
    pub fn of_value(value: &Value, vm: &VM) -> (r: Type)
        ensures
            r@ == vm@.assigned_type(value@),
    {
        match value {
            Value::Unkown => Type::Void,
            _ => value.as_type(vm),
        }
    }

    /// The canonical value of the type, made in a machine.
    pub fn as_value(&self, vm: &mut VM) -> (r: Value)
        ensures
            (final(vm)@, r@) == old(vm)@.default_value(self@),
            final(vm).switches() == old(vm).switches(),
    {
        match self {
            Type::Void => Value::Nil,
            Type::Blob(blob) => Value::Blob(*blob),
            Type::BlobInstance(blob) => {
                let cells: Vec<Value> = Vec::new();
                vm.instantiate(*blob, cells)
            },
            Type::UnknownType => Value::Unkown,
            Type::Int => Value::Int(1),
            Type::Float => Value::Float(FLOAT_ONE),
            Type::Bool => Value::Bool(true),
            Type::String => Value::String(String::new()),
            Type::Function(_, _) => {
                let block = vm.add_block(Block::from_type(self));
                Value::Function(Vec::new(), block)
            },
        }
    }
}

/// Once two types are in conflict, the refinement of a capture descriptor
/// goes no further.
pub proof fn lemma_refine_stops(
    ups: Seq<(usize, bool, TypeModel)>,
    suggested: Seq<TypeModel>,
    at: int,
    n: int,
)
    requires
        0 <= at <= n,
        refine(ups, suggested, at).1 is Some,
    ensures
        refine(ups, suggested, n) == refine(ups, suggested, at),
    decreases n - at,
{
    if at < n {
        lemma_refine_stops(ups, suggested, at, n - 1);
    }
}

/// The rounds of the checker read only as many replies as there are
/// rounds.
pub proof fn lemma_rounds_prefix(m: Machine, replies: Seq<Reply>, more: Seq<Reply>, n: int)
    requires
        n <= replies.len(),
    ensures
        m.check_rounds(replies + more, n) == m.check_rounds(replies, n),
    decreases n,
{
    if n > 0 {
        lemma_rounds_prefix(m, replies, more, n - 1);
        assert((replies + more)[n - 1] == replies[n - 1]);
    }
}

/// Rounds of which none asks the host for an answer are the same whatever
/// the replies.
pub proof fn lemma_quiet_rounds(m: Machine, replies: Seq<Reply>, n: int)
    requires
        m.rounds_quiet(n),
    ensures
        m.check_rounds(replies, n) == m.check_rounds(Seq::empty(), n),
    decreases n,
{
    if n > 0 {
        assert(m.rounds_quiet(n - 1));
        lemma_quiet_rounds(m, replies, n - 1);
        let before = m.check_rounds(Seq::empty(), n - 1).0;
        match before.fetch() {
            Some(op) => {
                crate::laws::lemma_check_reply_read_as_asked(
                    before,
                    op,
                    crate::machine::reply_at(replies, n - 1),
                    Reply::silent(),
                );
            },
            None => {},
        }
    }
}

/// The check of blocks which asks the host for no answer is the same
/// whatever the replies.
pub proof fn lemma_quiet_blocks(m: Machine, replies: Seq<Seq<Reply>>, n: int)
    requires
        m.blocks_quiet(n),
    ensures
        m.check_blocks(replies, n) == m.check_blocks(Seq::empty(), n),
    decreases n,
{
    if n > 0 {
        assert(m.blocks_quiet(n - 1));
        lemma_quiet_blocks(m, replies, n - 1);
        let before = m.check_blocks(Seq::empty(), n - 1).0;
        let block = (n - 1) as usize;
        if block < before.blocks.len() {
            lemma_quiet_rounds(
                before.check_start(block),
                crate::typing::replies_at(replies, n - 1),
                before.blocks[block as int].ops.len() as int,
            );
        }
    }
}

/// The check of the first blocks reads only the replies given for them.
pub proof fn lemma_blocks_prefix(
    m: Machine,
    replies: Seq<Seq<Reply>>,
    more: Seq<Seq<Reply>>,
    n: int,
)
    requires
        n <= replies.len(),
    ensures
        m.check_blocks(replies + more, n) == m.check_blocks(replies, n),
    decreases n,
{
    if n > 0 {
        lemma_blocks_prefix(m, replies, more, n - 1);
        assert((replies + more)[n - 1] == replies[n - 1]);
    }
}

impl VM {
    /// The canonical values of a list of types, in order.
    pub(crate) fn default_values(&mut self, types: &Vec<Type>) -> (r: Vec<Value>)
        ensures
            (final(self)@, models(r@)) == old(self)@.default_values(
                models(types@),
                types.len() as int,
            ),
            final(self).switches() == old(self).switches(),
    {
        let mut values: Vec<Value> = Vec::new();
        let mut i: usize = 0;
        while i < types.len()
            invariant
                self.switches() == old(self).switches(),
                i <= types.len(),
                (self@, models(values@)) == old(self)@.default_values(models(types@), i as int),
            decreases types.len() - i,
        {
            let v = types[i].as_value(self);
            values.push(v);
            i += 1;
        }
        values
    }

    /// The types that the stack suggests for the entries of a capture
    /// descriptor.
    fn suggestions(&self, ups: &Vec<(usize, bool, Type)>) -> (r: Option<Vec<Type>>)
        ensures
            match r {
                Some(types) => {
                    &&& types.len() == ups.len()
                    &&& self@.suggestions(models(ups@), ups.len() as int) == Some(models(types@))
                },
                None => self@.suggestions(models(ups@), ups.len() as int) is None,
            },
    {
        let mut types: Vec<Type> = Vec::new();
        let mut i: usize = 0;
        while i < ups.len()
            invariant
                i <= ups.len(),
                types.len() == i,
                self@.suggestions(models(ups@), i as int) == Some(models(types@)),
            decreases ups.len() - i,
        {
            let entry = &ups[i];
            if entry.1 {
                types.push(entry.2.clone());
            } else {
                match self.peek(entry.0) {
                    Some(v) => {
                        types.push(v.as_type(self));
                    },
                    None => {
                        proof {
                            assert(self@.suggestions(models(ups@), i + 1) is None);
                            lemma_suggestions_stop(
                                self@,
                                models(ups@),
                                i + 1,
                                ups.len() as int,
                            );
                        }
                        return None;
                    },
                }
            }
            i += 1;
        }
        Some(types)
    }

    fn verify_constant(&mut self, v: Value) -> (r: Result<OpResult, Error>)
        ensures
            step_of(final(self)@, r) == old(self)@.check_constant(v@),
            final(self).switches() == old(self).switches(),
    {
        match &v {
            Value::Function(_, block) => {
                let block = *block;
                if block >= self.blocks_len() {
                    return self.fail(ErrorKind::InvalidProgram);
                }
                let mut ups = self.descriptor(block);
                let ghost given = models(ups@);
                self.push(Value::Function(Vec::new(), block));
                let suggested = match self.suggestions(&ups) {
                    Some(suggested) => suggested,
                    None => {
                        return self.fail(ErrorKind::InvalidProgram);
                    },
                };
                let mut conflict: Option<(Type, Type)> = None;
                let mut i: usize = 0;
                while i < ups.len() && conflict.is_none()
                    invariant
                        self.switches() == old(self).switches(),
                        i <= ups.len(),
                        ups.len() == given.len(),
                        suggested.len() == given.len(),
                        conflict is None ==> refine(given, models(suggested@), i as int) == (
                            models(ups@),
                            None::<(TypeModel, TypeModel)>,
                        ),
                        conflict matches Some(pair) ==> refine(
                            given,
                            models(suggested@),
                            ups.len() as int,
                        ) == (models(ups@), Some((pair.0@, pair.1@))),
                    decreases ups.len() - i + (if conflict is None { 1int } else { 0int }),
                {
                    let entry = &ups[i];
                    if !entry.1 {
                        if entry.2.is_unkown() {
                            let refined = (entry.0, entry.1, suggested[i].clone());
                            ups.set(i, refined);
                        } else if !entry.2.same(&suggested[i]) {
                            conflict = Some((entry.2.clone(), suggested[i].clone()));
                            proof {
                                assert(refine(given, models(suggested@), i + 1).1 is Some);
                                lemma_refine_stops(
                                    given,
                                    models(suggested@),
                                    i + 1,
                                    ups.len() as int,
                                );
                            }
                        }
                    }
                    i += 1;
                }
                proof {
                    if conflict is None {
                        assert(i == ups.len());
                    }
                }
                self.set_ups(block, ups);
                match conflict {
                    Some((own, other)) => self.fail_with(
                        ErrorKind::TypeError(Op::Constant(v), two_types(own, other)),
                        "Failed to infer type.",
                    ),
                    None => self.advance(),
                }
            },
            _ => {
                self.push(v);
                self.advance()
            },
        }
    }

    /// A copy of the declared type of a field.
    fn field_type(&self, blob: usize, slot: usize) -> (r: Type)
        requires
            blob < self@.blobs.len(),
            slot < self@.blobs[blob as int].fields.len(),
        ensures
            r@ == self@.field_type(blob, slot as int),
    {
        match self.blob(blob) {
            Some(layout) => layout.fields[slot].1.clone(),
            None => vstd::pervasive::unreached(),
        }
    }

    fn verify_get(&mut self, field: String) -> (r: Result<OpResult, Error>)
        ensures
            step_of(final(self)@, r) == old(self)@.check_get(field@),
            final(self).switches() == old(self).switches(),
    {
        match self.pop() {
            None => self.fail(ErrorKind::InvalidProgram),
            Some(inst) => {
                if let Value::BlobInstance(blob, _) = inst {
                    if let Some(slot) = self.field_slot(blob, &field) {
                        let ty = self.field_type(blob, slot);
                        let value = ty.as_value(self);
                        self.push(value);
                        return self.advance();
                    }
                }
                self.push(Value::Nil);
                self.fail(ErrorKind::RuntimeTypeError(Op::Get(field), crate::eval::one(inst)))
            },
        }
    }

    fn verify_set(&mut self, field: String) -> (r: Result<OpResult, Error>)
        ensures
            step_of(final(self)@, r) == old(self)@.check_set(field@),
            final(self).switches() == old(self).switches(),
    {
        if self.depth() < 2 {
            return self.fail(ErrorKind::InvalidProgram);
        }
        let value = self.take();
        let inst = self.take();
        if let Value::BlobInstance(blob, _) = inst {
            if let Some(slot) = self.field_slot(blob, &field) {
                let declared = self.field_type(blob, slot);
                let found = Type::of_value(&value, self);
                return if declared.same(&found) {
                    self.advance()
                } else {
                    self.fail(
                        ErrorKind::TypeError(Op::SetField(field), two_types(declared, found)),
                    )
                };
            }
        }
        self.fail(ErrorKind::RuntimeTypeError(Op::SetField(field), crate::eval::one(inst)))
    }

    /// A copy of the declared type of a capture of the checked block.
    fn capture_type(&self, index: usize) -> (r: Option<Type>)
        ensures
            match r {
                Some(ty) => self@.capture_type(index) == Some(ty@),
                None => self@.capture_type(index) is None,
            },
    {
        match self.frame() {
            Some(frame) => match self.block(frame.block) {
                Some(block) => {
                    if index < block.ups.len() {
                        Some(block.ups[index].2.clone())
                    } else {
                        None
                    }
                },
                None => None,
            },
            None => None,
        }
    }

    fn verify_read_upvalue(&mut self, index: usize) -> (r: Result<OpResult, Error>)
        ensures
            step_of(final(self)@, r) == old(self)@.check_read_upvalue(index),
            final(self).switches() == old(self).switches(),
    {
        match self.capture_type(index) {
            Some(ty) => {
                let value = ty.as_value(self);
                self.push(value);
                self.advance()
            },
            None => self.fail(ErrorKind::InvalidProgram),
        }
    }

    fn verify_assign_upvalue(&mut self, index: usize) -> (r: Result<OpResult, Error>)
        ensures
            step_of(final(self)@, r) == old(self)@.check_assign_upvalue(index),
            final(self).switches() == old(self).switches(),
    {
        if self.depth() == 0 {
            return self.fail(ErrorKind::InvalidProgram);
        }
        match self.capture_type(index) {
            Some(declared) => {
                let value = self.take();
                let found = value.as_type(self);
                if declared.same(&found) {
                    self.advance()
                } else {
                    self.fail_with(
                        ErrorKind::TypeError(Op::AssignUpvalue(index), two_types(declared, found)),
                        "Incorrect type for upvalue.",
                    )
                }
            },
            None => self.fail(ErrorKind::InvalidProgram),
        }
    }

    /// A copy of the return type that the checked block declares.
    fn declared_return(&self) -> (r: Option<Type>)
        requires
            self@.frames.len() > 0,
        ensures
            match r {
                Some(ty) => {
                    &&& self@.top().block < self@.blocks.len()
                    &&& self@.blocks[self@.top().block as int].ty is Function
                    &&& ty@ == self@.blocks[self@.top().block as int].ret()
                },
                None => !(self@.top().block < self@.blocks.len()
                    && self@.blocks[self@.top().block as int].ty is Function),
            },
    {
        match self.frame() {
            Some(frame) => match self.block(frame.block) {
                Some(block) => match &block.ty {
                    Type::Function(_, _) => Some(block.ret().clone()),
                    _ => None,
                },
                None => None,
            },
            None => None,
        }
    }

    fn verify_return(&mut self) -> (r: Result<OpResult, Error>)
        requires
            old(self)@.frames.len() > 0,
        ensures
            step_of(final(self)@, r) == old(self)@.check_return(),
            final(self).switches() == old(self).switches(),
    {
        match self.pop() {
            None => self.fail(ErrorKind::InvalidProgram),
            Some(value) => match self.declared_return() {
                Some(declared) => {
                    let found = value.as_type(self);
                    if found.same(&declared) {
                        self.advance()
                    } else {
                        self.fail_with(
                            ErrorKind::TypeError(Op::Return, two_types(found, declared)),
                            "Not matching return type.",
                        )
                    }
                },
                None => self.fail(ErrorKind::InvalidProgram),
            },
        }
    }

    fn verify_define(&mut self, ty: Type) -> (r: Result<OpResult, Error>)
        ensures
            step_of(final(self)@, r) == old(self)@.check_define(ty@),
            final(self).switches() == old(self).switches(),
    {
        let depth = self.depth();
        if depth == 0 {
            return self.fail(ErrorKind::InvalidProgram);
        }
        let found = match self.peek(depth - 1) {
            Some(top) => top.as_type(self),
            None => vstd::pervasive::unreached(),
        };
        if ty.is_unkown() || ty.same(&found) {
            self.advance()
        } else {
            let declared = ty.clone();
            self.fail_with(
                ErrorKind::TypeError(Op::Define(ty), two_types(declared, found)),
                "Tried to assign a value to a variable of another type.",
            )
        }
    }

    /// Copies of the declared types of the fields of a layout.
    fn field_types(&self, blob: usize) -> (r: Vec<Type>)
        requires
            blob < self@.blobs.len(),
        ensures
            models(r@) == self@.field_types(blob),
    {
        let layout = match self.blob(blob) {
            Some(layout) => layout,
            None => vstd::pervasive::unreached(),
        };
        let mut types: Vec<Type> = Vec::new();
        let mut i: usize = 0;
        while i < layout.fields.len()
            invariant
                i <= layout.fields.len(),
                layout@ == self@.blobs[blob as int],
                types.len() == i,
                forall|j: int| 0 <= j < i ==> (#[trigger] types@[j])@ == self@.field_type(blob, j),
            decreases layout.fields.len() - i,
        {
            types.push(layout.fields[i].1.clone());
            i += 1;
        }
        assert(models(types@) =~= self@.field_types(blob));
        types
    }

    /// The types of the values on the stack from `from` on.
    fn types_above(&self, from: usize) -> (r: Vec<Type>)
        requires
            from <= self@.stack.len(),
        ensures
            models(r@) == self@.types_of(
                self@.stack.subrange(from as int, self@.stack.len() as int),
            ),
    {
        let depth = self.depth();
        let mut types: Vec<Type> = Vec::new();
        let mut i: usize = from;
        while i < depth
            invariant
                from <= i <= depth,
                depth == self@.stack.len(),
                types.len() == i - from,
                forall|j: int|
                    0 <= j < i - from ==> (#[trigger] types@[j])@ == self@.type_of(
                        self@.stack[from + j],
                    ),
            decreases depth - i,
        {
            match self.peek(i) {
                Some(v) => {
                    types.push(v.as_type(self));
                },
                None => {},
            }
            i += 1;
        }
        assert(models(types@) =~= self@.types_of(
            self@.stack.subrange(from as int, self@.stack.len() as int),
        ));
        types
    }

    /// What a closure declares, if the machine has its block and the block
    /// a function type: the number of its parameters, whether their types
    /// are those of the `n` values on top, and its return type.
    fn signature(&self, block: usize, n: usize) -> (r: Option<(usize, bool, Type)>)
        requires
            n < self@.stack.len(),
        ensures
            match r {
                Some((arity, matching, ret)) => {
                    &&& block < self@.blocks.len()
                    &&& self@.blocks[block as int].ty is Function
                    &&& arity == self@.blocks[block as int].args().len()
                    &&& matching == crate::types::lists_equal(
                        self@.blocks[block as int].args(),
                        self@.types_of(
                            self@.stack.subrange(
                                self@.stack.len() - n,
                                self@.stack.len() as int,
                            ),
                        ),
                    )
                    &&& ret@ == self@.blocks[block as int].ret()
                },
                None => !(block < self@.blocks.len() && self@.blocks[block as int].ty is Function),
            },
    {
        let found = self.types_above(self.depth() - n);
        match self.block(block) {
            Some(b) => match &b.ty {
                Type::Function(_, _) => {
                    let declared = b.args();
                    Some((declared.len(), same_types(declared, &found), b.ret().clone()))
                },
                _ => None,
            },
            None => None,
        }
    }

    fn verify_call(&mut self, n: usize, outcome: Result<Value, ErrorKind>) -> (r: Result<
        OpResult,
        Error,
    >)
        ensures
            step_of(final(self)@, r) == old(self)@.check_call(
                n,
                crate::host::outcome_model(outcome),
            ),
            final(self).switches() == old(self).switches(),
    {
        let depth = self.depth();
        if n >= depth {
            return self.fail(ErrorKind::InvalidProgram);
        }
        let base = depth - 1 - n;
        let callee = match self.peek(base) {
            Some(callee) => callee,
            None => vstd::pervasive::unreached(),
        };
        match callee {
            Value::Blob(blob) => {
                if blob >= self.blobs_len() {
                    return self.fail(ErrorKind::InvalidProgram);
                }
                let types = self.field_types(blob);
                self.truncate(base);
                let values = self.default_values(&types);
                let inst = self.instantiate(blob, values);
                self.push(inst);
                self.advance()
            },
            Value::Function(_, block) => match self.signature(block, n) {
                Some((arity, matching, ret)) => {
                    if arity != n {
                        self.fail_with(
                            ErrorKind::InvalidProgram,
                            crate::eval::arity_text(n, arity).as_str(),
                        )
                    } else if !matching {
                        self.fail_with(
                            ErrorKind::TypeError(Op::Call(n), Vec::new()),
                            "Expected arguments of other types.",
                        )
                    } else {
                        let value = ret.as_value(self);
                        self.write(base, value);
                        self.truncate(base + 1);
                        self.advance()
                    }
                },
                None => self.fail(ErrorKind::InvalidProgram),
            },
            Value::ExternFunction(_) => match outcome {
                Ok(v) => {
                    self.truncate(base);
                    self.push(v);
                    self.advance()
                },
                Err(kind) => {
                    self.truncate(base);
                    self.push(Value::Nil);
                    self.fail_with(kind, "Wrong arguments to external function")
                },
            },
            other => {
                let found = other.as_type(self);
                self.fail_with(
                    ErrorKind::TypeError(Op::Call(n), one_type(found)),
                    "Tried to call non-function.",
                )
            },
        }
    }

    fn verify_jmp_false(&mut self, target: usize) -> (r: Result<OpResult, Error>)
        ensures
            step_of(final(self)@, r) == old(self)@.check_jmp_false(target),
            final(self).switches() == old(self).switches(),
    {
        match self.pop() {
            None => self.fail(ErrorKind::InvalidProgram),
            Some(Value::Bool(_)) => self.advance(),
            Some(other) => {
                let found = other.as_type(self);
                self.fail(ErrorKind::TypeError(Op::JmpFalse(target), one_type(found)))
            },
        }
    }

    /// What the check of `op` asks of the host.
    pub fn check_request(&self, op: &Op) -> (r: HostRequest)
        ensures
            r@ == self@.check_request(op@),
    {
        match op {
            Op::Print => HostRequest::Nothing,
            _ => self.request(op),
        }
    }

    /// Checks `op`, given what the host answered to the request of that
    /// check. The check opens and closes no capture cell.
    pub fn apply_check(&mut self, op: Op, reply: HostReply) -> (r: Result<OpResult, Error>)
        ensures
            step_of(final(self)@, r) == old(self)@.check(op@, reply@),
            final(self).switches() == old(self).switches(),
            final(self)@.cells == old(self)@.cells,
            final(self)@.open == old(self)@.open,
    {
        let ghost asked = op@;
        let ghost answered = reply@;
        let r = self.dispatch_check(op, reply);
        proof {
            crate::laws::lemma_check_keeps_cells(old(self)@, asked, answered);
        }
        r
    }

    fn dispatch_check(&mut self, op: Op, reply: HostReply) -> (r: Result<OpResult, Error>)
        ensures
            step_of(final(self)@, r) == old(self)@.check(op@, reply@),
            final(self).switches() == old(self).switches(),
    {
        if self.frame().is_none() {
            return self.fail(ErrorKind::InvalidProgram);
        }
        match op {
            Op::Unreachable => self.advance(),
            Op::Jmp(_) => self.advance(),
            Op::Yield => self.advance(),
            Op::Constant(v) => self.verify_constant(v),
            Op::Get(field) => self.verify_get(field),
            Op::SetField(field) => self.verify_set(field),
            Op::PopUpvalue => self.verify_pop(),
            Op::ReadUpvalue(index) => self.verify_read_upvalue(index),
            Op::AssignUpvalue(index) => self.verify_assign_upvalue(index),
            Op::Return => self.verify_return(),
            Op::Print => self.verify_print(),
            Op::Define(ty) => self.verify_define(ty),
            Op::Call(n) => self.verify_call(n, reply.outcome),
            Op::JmpFalse(target) => self.verify_jmp_false(target),
            other => self.apply(other, reply),
        }
    }

    fn verify_pop(&mut self) -> (r: Result<OpResult, Error>)
        ensures
            step_of(final(self)@, r) == old(self)@.eval_pop(),
            final(self).switches() == old(self).switches(),
    {
        match self.pop() {
            Some(_) => self.advance(),
            None => self.fail(ErrorKind::InvalidProgram),
        }
    }

    fn verify_print(&mut self) -> (r: Result<OpResult, Error>)
        ensures
            step_of(final(self)@, r) == old(self)@.eval_print(),
            final(self).switches() == old(self).switches(),
    {
        match self.pop() {
            Some(_) => self.advance(),
            None => self.fail(ErrorKind::InvalidProgram),
        }
    }

    /// Checks `op`: asks the host what the check needs and applies the
    /// check with the host's reply.
    pub fn check_op<H: Host>(&mut self, host: &mut H, op: Op) -> (r: Result<(), Error>)
        ensures
            exists|reply: Reply|
                {
                    let step = #[trigger] old(self)@.check(op@, reply);
                    &&& final(self)@ == step.machine
                    &&& match r {
                        Ok(_) => step.result is Ok,
                        Err(e) => step.result == Err::<OpResult, ErrorModel>(e@),
                    }
                },
            old(self)@.check_request(op@).is_silent() ==> {
                let step = old(self)@.check(op@, Reply::silent());
                &&& final(self)@ == step.machine
                &&& match r {
                    Ok(_) => step.result is Ok,
                    Err(e) => step.result == Err::<OpResult, ErrorModel>(e@),
                }
            },
            final(self).switches() == old(self).switches(),
            final(self)@.cells == old(self)@.cells,
            final(self)@.open == old(self)@.open,
    {
        let request = self.check_request(&op);
        let reply = consult(host, &request);
        match self.apply_check(op, reply) {
            Ok(_) => Ok(()),
            Err(e) => Err(e),
        }
    }

    /// Moves the running frame past its instruction.
    fn skip(&mut self)
        ensures
            final(self)@ == old(self)@.skip(),
            final(self).switches() == old(self).switches(),
    {
        match self.frame() {
            Some(frame) => {
                if frame.ip < usize::MAX {
                    self.jump(frame.ip + 1);
                }
            },
            None => {},
        }
    }

    /// Replaces the top of the stack by the canonical representative of its
    /// type.
    fn canonicalize(&mut self)
        ensures
            final(self)@ == old(self)@.canonical(),
            final(self).switches() == old(self).switches(),
    {
        match self.pop() {
            Some(v) => {
                self.push(v.identity());
                assert(self@.stack =~= old(self)@.canonical().stack);
            },
            None => {},
        }
    }

    /// One round of the checker, and the error it met.
    pub fn check_next<H: Host>(&mut self, host: &mut H) -> (r: Option<Error>)
        ensures
            exists|reply: Reply|
                (final(self)@, met(r)) == #[trigger] old(self)@.check_next(reply),
            old(self)@.next_check_request().is_silent() ==> (final(self)@, met(r)) == old(
                self,
            )@.check_next(Reply::silent()),
            final(self).switches() == old(self).switches(),
            final(self)@.cells == old(self)@.cells,
            final(self)@.open == old(self)@.open,
    {
        match self.op() {
            None => {
                proof {
                    assert((self@, None::<ErrorModel>) == old(self)@.check_next(Reply::silent()));
                }
                None
            },
            Some(op) => {
                let ghost reply: Reply;
                let r = self.check_op(host, op);
                proof {
                    reply = choose|reply: Reply|
                        {
                            let step = #[trigger] old(self)@.check(op@, reply);
                            &&& self@ == step.machine
                            &&& match r {
                                Ok(_) => step.result is Ok,
                                Err(e) => step.result == Err::<OpResult, ErrorModel>(e@),
                            }
                        };
                }
                let e = match r {
                    Ok(_) => None,
                    Err(e) => {
                        self.skip();
                        Some(e)
                    },
                };
                self.canonicalize();
                proof {
                    assert((self@, met(e)) == old(self)@.check_next(reply));
                }
                e
            },
        }
    }

    /// Copies of the declared parameter types of a block, and the number of
    /// its instructions.
    fn outline(&self, block: usize) -> (r: (Vec<Type>, usize))
        requires
            block < self@.blocks.len(),
        ensures
            models(r.0@) == self@.blocks[block as int].args(),
            r.1 == self@.blocks[block as int].ops.len(),
    {
        match self.block(block) {
            Some(b) => {
                let params = match &b.ty {
                    Type::Function(_, _) => clone_types(b.args()),
                    _ => Vec::new(),
                };
                (params, b.ops.len())
            },
            None => vstd::pervasive::unreached(),
        }
    }

    /// Checks one block and gives the errors met, in order.
    pub fn typecheck_block<H: Host>(&mut self, host: &mut H, block: usize) -> (errors: Vec<Error>)
        ensures
            exists|replies: Seq<Reply>|
                (final(self)@, models(errors@)) == #[trigger] old(self)@.check_block(
                    block,
                    replies,
                ),
            old(self)@.block_quiet(block) ==> (final(self)@, models(errors@)) == old(
                self,
            )@.check_block(block, Seq::empty()),
            final(self).switches() == old(self).switches(),
            final(self)@.cells == old(self)@.cells,
            final(self)@.open == old(self)@.open,
    {
        let mut errors: Vec<Error> = Vec::new();
        if block >= self.blocks_len() {
            proof {
                assert((self@, models(errors@)) == old(self)@.check_block(block, Seq::empty()));
            }
            return errors;
        }
        let (params, rounds) = self.outline(block);
        self.rewind();
        self.push(Value::Function(Vec::new(), block));
        self.enter(Frame { stack_offset: 0, block, ip: 0 });
        let ghost cleared = self@;
        proof {
            assert(cleared.stack =~= seq![ValueModel::Function(Seq::empty(), block)]);
            assert(cleared.frames =~= seq![Frame { stack_offset: 0, block, ip: 0 }]);
            lemma_default_values_keep_cells(cleared, models(params@), params.len() as int);
        }
        let values = self.default_values(&params);
        self.extend(values);
        let ghost started = self@;
        proof {
            assert(started == old(self)@.check_start(block));
            assert(started.cells == old(self)@.cells);
            assert(started.open == old(self)@.open);
        }
        if self.prints_blocks() {
            if let Some(b) = self.block(block) {
                host.show_block(b, true);
            }
        }
        let ghost mut replies: Seq<Reply> = Seq::empty();
        let mut i: usize = 0;
        while i < rounds
            invariant
                self.switches() == old(self).switches(),
                i <= rounds,
                replies.len() == i,
                (self@, models(errors@)) == started.check_rounds(replies, i as int),
                self@.cells == old(self)@.cells,
                self@.open == old(self)@.open,
            decreases rounds - i,
        {
            if self.prints_ops() {
                host.show_stack(self);
            }
            let ghost before = self@;
            let e = self.check_next(host);
            proof {
                let reply = choose|reply: Reply|
                    (self@, met(e)) == #[trigger] before.check_next(reply);
                lemma_rounds_prefix(started, replies, seq![reply], i as int);
                replies = replies + seq![reply];
            }
            match e {
                Some(e) => {
                    errors.push(e);
                },
                None => {},
            }
            i += 1;
        }
        proof {
            assert((self@, models(errors@)) == old(self)@.check_block(block, replies));
            if old(self)@.block_quiet(block) {
                lemma_quiet_rounds(started, replies, rounds as int);
            }
        }
        errors
    }

    /// Checks every block of a program. The program is well typed if and
    /// only if no block gives an error; else all the errors are returned,
    /// in the order of the blocks.
    pub fn typecheck<H: Host>(&mut self, host: &mut H, prog: &Prog) -> (r: Result<(), Vec<Error>>)
        ensures
            exists|replies: Seq<Seq<Reply>>|
                {
                    let (machine, errors) = #[trigger] Machine::typecheck(prog@, replies);
                    &&& final(self)@ == machine
                    &&& match r {
                        Ok(_) => errors.len() == 0,
                        Err(found) => found.len() > 0 && models(found@) == errors,
                    }
                },
            prog@.hostless() ==> {
                &&& final(self)@ == Machine::typecheck(prog@, Seq::empty()).0
                &&& r is Ok <==> prog@.well_typed()
                &&& r matches Err(found) ==> models(found@) == prog@.type_errors()
            },
            final(self).switches() == old(self).switches(),
            final(self)@.cells.len() == 0,
            final(self)@.registry_sound(),
    {
        self.load(clone_blocks(&prog.blocks), clone_blobs(&prog.blobs));
        let ghost loaded = self@;
        let n = prog.blocks.len();
        let mut errors: Vec<Error> = Vec::new();
        let ghost mut replies: Seq<Seq<Reply>> = Seq::empty();
        let mut i: usize = 0;
        while i < n
            invariant
                self.switches() == old(self).switches(),
                i <= n,
                replies.len() == i,
                (self@, models(errors@)) == loaded.check_blocks(replies, i as int),
                self@.cells == loaded.cells,
                self@.open == loaded.open,
            decreases n - i,
        {
            let ghost before = self@;
            let ghost sofar = models(errors@);
            let mut found = self.typecheck_block(host, i);
            proof {
                let given = choose|given: Seq<Reply>|
                    (self@, models(found@)) == #[trigger] before.check_block(i, given);
                lemma_blocks_prefix(loaded, replies, seq![given], i as int);
                replies = replies + seq![given];
            }
            let ghost added = models(found@);
            errors.append(&mut found);
            proof {
                assert(models(errors@) =~= sofar + added);
            }
            i += 1;
        }
        proof {
            assert((self@, models(errors@)) == Machine::typecheck(prog@, replies));
            if prog@.hostless() {
                lemma_quiet_blocks(loaded, replies, n as int);
            }
        }
        if errors.len() == 0 {
            Ok(())
        } else {
            Err(errors)
        }
    }
}

/// Once an entry of a capture descriptor names a slot that the stack does
/// not have, no longer prefix of the descriptor has its suggestions.
pub proof fn lemma_suggestions_stop(
    m: Machine,
    ups: Seq<(usize, bool, TypeModel)>,
    at: int,
    n: int,
)
    requires
        0 <= at <= n,
        m.suggestions(ups, at) is None,
    ensures
        m.suggestions(ups, n) is None,
    decreases n - at,
{
    if at < n {
        lemma_suggestions_stop(m, ups, at, n - 1);
    }
}

} // verus!
