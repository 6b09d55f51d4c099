//! Runtime values and the cells through which closures share captured
//! variables.

use vstd::prelude::*;

use crate::types::TypeModel;

verus! {

/// A runtime value.
///
/// A float is held as its 64 IEEE-754 bits. An instance and a closure refer
/// to the machine's store by handle: an instance to its field cells, a
/// closure to its capture cells and to its code block.
#[derive(Debug, PartialEq)]
pub enum Value {
    Blob(usize),
    BlobInstance(usize, usize),
    Float(u64),
    Int(i64),
    Bool(bool),
    String(String),
    Function(Vec<usize>, usize),
    ExternFunction(usize),
    Unkown,
    Nil,
}

/// Mathematical model of a [`Value`].
pub enum ValueModel {
    Blob(usize),
    BlobInstance(usize, usize),
    Float(u64),
    Int(i64),
    Bool(bool),
    String(Seq<char>),
    Function(Seq<usize>, usize),
    ExternFunction(usize),
    Unknown,
    Nil,
}

/// The bits of the float one.
pub const FLOAT_ONE: u64 = 0x3FF0_0000_0000_0000;

impl View for Value {
    type V = ValueModel;

    open spec fn view(&self) -> ValueModel {
        match self {
            Value::Blob(id) => ValueModel::Blob(*id),
            Value::BlobInstance(id, cells) => ValueModel::BlobInstance(*id, *cells),
            Value::Float(bits) => ValueModel::Float(*bits),
            Value::Int(i) => ValueModel::Int(*i),
            Value::Bool(b) => ValueModel::Bool(*b),
            Value::String(s) => ValueModel::String(s@),
            Value::Function(captures, block) => ValueModel::Function(captures@, *block),
            Value::ExternFunction(slot) => ValueModel::ExternFunction(*slot),
            Value::Unkown => ValueModel::Unknown,
            Value::Nil => ValueModel::Nil,
        }
    }
}

impl ValueModel {
    /// The canonical representative of this value's type: every integer
    /// becomes one, every float one, every boolean true; any other value
    /// stands for itself.
    pub open spec fn identity(self) -> ValueModel {
        match self {
            ValueModel::Float(_) => ValueModel::Float(FLOAT_ONE),
            ValueModel::Int(_) => ValueModel::Int(1),
            ValueModel::Bool(_) => ValueModel::Bool(true),
            other => other,
        }
    }

    /// The type that a value's variant alone determines; `None` for a
    /// closure, whose type is that of its block.
    pub open spec fn plain_type(self) -> Option<TypeModel> {
        match self {
            ValueModel::BlobInstance(id, _) => Some(TypeModel::BlobInstance(id)),
            ValueModel::Blob(id) => Some(TypeModel::Blob(id)),
            ValueModel::Float(_) => Some(TypeModel::Float),
            ValueModel::Int(_) => Some(TypeModel::Int),
            ValueModel::Bool(_) => Some(TypeModel::Bool),
            ValueModel::String(_) => Some(TypeModel::String),
            ValueModel::Function(_, _) => None,
            ValueModel::ExternFunction(_) => Some(TypeModel::Void),
            ValueModel::Unknown => Some(TypeModel::Unknown),
            ValueModel::Nil => Some(TypeModel::Void),
        }
    }
}

impl Clone for Value {
    fn clone(&self) -> (r: Self)
        ensures
            r@ == self@,
    {
        match self {
            Value::Blob(id) => Value::Blob(*id),
            Value::BlobInstance(id, cells) => Value::BlobInstance(*id, *cells),
            Value::Float(bits) => Value::Float(*bits),
            Value::Int(i) => Value::Int(*i),
            Value::Bool(b) => Value::Bool(*b),
            Value::String(s) => Value::String(s.clone()),
            Value::Function(captures, block) => {
                let copy = captures.clone();
                assert(copy@ =~= captures@);
                Value::Function(copy, *block)
            },
            Value::ExternFunction(slot) => Value::ExternFunction(*slot),
            Value::Unkown => Value::Unkown,
            Value::Nil => Value::Nil,
        }
    }
}

impl Value {
    /// The canonical representative of the value's type.
    pub fn identity(self) -> (r: Value)
        ensures
            r@ == self@.identity(),
    {
        match self {
            Value::Float(_) => Value::Float(FLOAT_ONE),
            Value::Int(_) => Value::Int(1),
            Value::Bool(_) => Value::Bool(true),
            a => a,
        }
    }
}

/// A copy of a list of values.
pub fn clone_values(values: &Vec<Value>) -> (r: Vec<Value>)
    ensures
        crate::model::models(r@) == crate::model::models(values@),
{
    let mut copy: Vec<Value> = Vec::new();
    let mut i: usize = 0;
    while i < values.len()
        invariant
            i <= values.len(),
            copy.len() == i,
            forall|j: int| 0 <= j < i ==> (#[trigger] copy@[j])@ == values@[j]@,
        decreases values.len() - i,
    {
        copy.push(values[i].clone());
        i += 1;
    }
    assert(crate::model::models(copy@) =~= crate::model::models(values@));
    copy
}

/// A cell that holds a captured variable. While `slot` is not zero the cell
/// is open and stands for the stack slot of that index; once it is zero the
/// cell is closed and holds the variable's value itself.
#[derive(Debug, PartialEq)]
pub struct UpValue {
    pub slot: usize,
    pub value: Value,
}

/// Mathematical model of an [`UpValue`].
pub struct UpValueModel {
    pub slot: usize,
    pub value: ValueModel,
}

impl View for UpValue {
    type V = UpValueModel;

    open spec fn view(&self) -> UpValueModel {
        UpValueModel { slot: self.slot, value: self.value@ }
    }
}

impl UpValueModel {
    /// Whether the cell is closed.
    pub open spec fn is_closed(self) -> bool {
        self.slot == 0
    }

    /// What a read through the cell gives: the cell's own value once it is
    /// closed, else the stack slot it stands for, if the stack has it.
    pub open spec fn get(self, stack: Seq<ValueModel>) -> Option<ValueModel> {
        if self.is_closed() {
            Some(self.value)
        } else if self.slot < stack.len() {
            Some(stack[self.slot as int])
        } else {
            None
        }
    }

    /// The cell and the stack after a write through the cell; `None` where
    /// the cell is open over a slot that the stack does not have.
    pub open spec fn set(self, stack: Seq<ValueModel>, value: ValueModel) -> Option<
        (UpValueModel, Seq<ValueModel>),
    > {
        if self.is_closed() {
            Some((UpValueModel { slot: 0, value }, stack))
        } else if self.slot < stack.len() {
            Some((self, stack.update(self.slot as int, value)))
        } else {
            None
        }
    }

    /// The cell once closed over `value`.
    pub open spec fn close(self, value: ValueModel) -> UpValueModel {
        UpValueModel { slot: 0, value }
    }
}

impl Clone for UpValue {
    fn clone(&self) -> (r: Self)
        ensures
            r@ == self@,
    {
        UpValue { slot: self.slot, value: self.value.clone() }
    }
}

impl UpValue {
    /// An open cell over the stack slot `slot`; with `slot` zero the cell is
    /// closed from the start and holds nil.
    pub fn new(slot: usize) -> (r: UpValue)
        ensures
            r@ == (UpValueModel { slot, value: ValueModel::Nil }),
    {
        UpValue { slot, value: Value::Nil }
    }

    /// Whether the cell is closed.
    pub fn is_closed(&self) -> (r: bool)
        ensures
            r == self@.is_closed(),
    {
        self.slot == 0
    }

    /// What a read through the cell gives; `None` where the cell is open over a
    /// slot that the stack does not have.
    pub fn get(&self, stack: &Vec<Value>) -> (r: Option<Value>)
        ensures
            match r {
                Some(v) => self@.get(crate::model::models(stack@)) == Some(v@),
                None => self@.get(crate::model::models(stack@)) is None,
            },
    {
        broadcast use crate::model::group_models;

        if self.is_closed() {
            Some(self.value.clone())
        } else if self.slot < stack.len() {
            Some(stack[self.slot].clone())
        } else {
            None
        }
    }

    /// Writes through the cell and says whether the write took place.
    pub fn set(&mut self, stack: &mut Vec<Value>, value: Value) -> (r: bool)
        ensures
            match old(self)@.set(crate::model::models(old(stack)@), value@) {
                Some((cell, after)) => r && final(self)@ == cell && crate::model::models(
                    final(stack)@,
                ) == after,
                None => !r && final(self)@ == old(self)@ && final(stack)@ == old(stack)@,
            },
    {
        broadcast use crate::model::group_models;

        if self.is_closed() {
            self.value = value;
            true
        } else if self.slot < stack.len() {
            stack.set(self.slot, value);
            true
        } else {
            false
        }
    }

    /// Closes the cell over `value`.
    pub fn close(&mut self, value: Value)
        ensures
            final(self)@ == old(self)@.close(value@),
    {
        self.slot = 0;
        self.value = value;
    }
}

} // verus!
