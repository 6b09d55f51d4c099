//! The opcodes of the machine.

use vstd::prelude::*;

use crate::types::{Type, TypeModel};
use crate::value::{Value, ValueModel};

verus! {

/// One instruction. Operands come from the top of the stack and results
/// replace them.
#[derive(Debug, PartialEq)]
pub enum Op {
    Illegal,
    Pop,
    PopUpvalue,
    Constant(Value),
    Get(String),
    SetField(String),
    Add,
    Sub,
    Mul,
    Div,
    Neg,
    And,
    Or,
    Not,
    Jmp(usize),
    JmpFalse(usize),
    Equal,
    Less,
    Greater,
    Assert,
    Unreachable,
    ReadLocal(usize),
    AssignLocal(usize),
    ReadUpvalue(usize),
    AssignUpvalue(usize),
    Define(Type),
    Call(usize),
    Print,
    Return,
    Yield,
}

/// Mathematical model of an [`Op`].
pub enum OpModel {
    Illegal,
    Pop,
    PopUpvalue,
    Constant(ValueModel),
    Get(Seq<char>),
    SetField(Seq<char>),
    Add,
    Sub,
    Mul,
    Div,
    Neg,
    And,
    Or,
    Not,
    Jmp(usize),
    JmpFalse(usize),
    Equal,
    Less,
    Greater,
    Assert,
    Unreachable,
    ReadLocal(usize),
    AssignLocal(usize),
    ReadUpvalue(usize),
    AssignUpvalue(usize),
    Define(TypeModel),
    Call(usize),
    Print,
    Return,
    Yield,
}

impl View for Op {
    type V = OpModel;

    open spec fn view(&self) -> OpModel {
        match self {
            Op::Illegal => OpModel::Illegal,
            Op::Pop => OpModel::Pop,
            Op::PopUpvalue => OpModel::PopUpvalue,
            Op::Constant(v) => OpModel::Constant(v@),
            Op::Get(field) => OpModel::Get(field@),
            Op::SetField(field) => OpModel::SetField(field@),
            Op::Add => OpModel::Add,
            Op::Sub => OpModel::Sub,
            Op::Mul => OpModel::Mul,
            Op::Div => OpModel::Div,
            Op::Neg => OpModel::Neg,
            Op::And => OpModel::And,
            Op::Or => OpModel::Or,
            Op::Not => OpModel::Not,
            Op::Jmp(target) => OpModel::Jmp(*target),
            Op::JmpFalse(target) => OpModel::JmpFalse(*target),
            Op::Equal => OpModel::Equal,
            Op::Less => OpModel::Less,
            Op::Greater => OpModel::Greater,
            Op::Assert => OpModel::Assert,
            Op::Unreachable => OpModel::Unreachable,
            Op::ReadLocal(slot) => OpModel::ReadLocal(*slot),
            Op::AssignLocal(slot) => OpModel::AssignLocal(*slot),
            Op::ReadUpvalue(slot) => OpModel::ReadUpvalue(*slot),
            Op::AssignUpvalue(slot) => OpModel::AssignUpvalue(*slot),
            Op::Define(ty) => OpModel::Define(ty@),
            Op::Call(n) => OpModel::Call(*n),
            Op::Print => OpModel::Print,
            Op::Return => OpModel::Return,
            Op::Yield => OpModel::Yield,
        }
    }
}

impl Clone for Op {
    fn clone(&self) -> (r: Self)
        ensures
            r@ == self@,
    {
        match self {
            Op::Illegal => Op::Illegal,
            Op::Pop => Op::Pop,
            Op::PopUpvalue => Op::PopUpvalue,
            Op::Constant(v) => Op::Constant(v.clone()),
            Op::Get(field) => Op::Get(field.clone()),
            Op::SetField(field) => Op::SetField(field.clone()),
            Op::Add => Op::Add,
            Op::Sub => Op::Sub,
            Op::Mul => Op::Mul,
            Op::Div => Op::Div,
            Op::Neg => Op::Neg,
            Op::And => Op::And,
            Op::Or => Op::Or,
            Op::Not => Op::Not,
            Op::Jmp(target) => Op::Jmp(*target),
            Op::JmpFalse(target) => Op::JmpFalse(*target),
            Op::Equal => Op::Equal,
            Op::Less => Op::Less,
            Op::Greater => Op::Greater,
            Op::Assert => Op::Assert,
            Op::Unreachable => Op::Unreachable,
            Op::ReadLocal(slot) => Op::ReadLocal(*slot),
            Op::AssignLocal(slot) => Op::AssignLocal(*slot),
            Op::ReadUpvalue(slot) => Op::ReadUpvalue(*slot),
            Op::AssignUpvalue(slot) => Op::AssignUpvalue(*slot),
            Op::Define(ty) => Op::Define(ty.clone()),
            Op::Call(n) => Op::Call(*n),
            Op::Print => Op::Print,
            Op::Return => Op::Return,
            Op::Yield => Op::Yield,
        }
    }
}

/// A copy of a list of opcodes.
pub fn clone_ops(ops: &Vec<Op>) -> (r: Vec<Op>)
    ensures
        crate::model::models(r@) == crate::model::models(ops@),
{
    let mut copy: Vec<Op> = Vec::new();
    let mut i: usize = 0;
    while i < ops.len()
        invariant
            i <= ops.len(),
            copy.len() == i,
            forall|j: int| 0 <= j < i ==> (#[trigger] copy@[j])@ == ops@[j]@,
        decreases ops.len() - i,
    {
        copy.push(ops[i].clone());
        i += 1;
    }
    assert(crate::model::models(copy@) =~= crate::model::models(ops@));
    copy
}

} // verus!
