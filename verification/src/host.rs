//! What the machine asks of its host: external functions, arithmetic on
//! floats, and output.

use vstd::prelude::*;

use crate::block::Block;
use crate::error::{ErrorKind, ErrorKindModel};
use crate::machine::{Reply, Request};
use crate::model::models;
use crate::op::Op;
use crate::value::{Value, ValueModel};
use crate::vm::VM;

verus! {

/// The host of a machine. The machine promises nothing of what a host
/// answers and relies on nothing.
pub trait Host {
    /// Calls the external function in `slot` on `args`. The machine passes
    /// `false` for `typecheck`, also while it checks types.
    fn call(&mut self, slot: usize, args: &Vec<Value>, typecheck: bool) -> Result<Value, ErrorKind>;

    /// The result of the arithmetic opcode `op` on the floats of bits `a`
    /// and `b`, as bits.
    fn float_arith(&mut self, op: &Op, a: u64, b: u64) -> u64;

    /// Prints a value.
    fn print(&mut self, value: &Value);

    /// Dumps a block that the machine is about to run or to check.
    fn show_block(&mut self, block: &Block, checking: bool);

    /// Dumps the stack of the running frame and the instruction at hand.
    fn show_stack(&mut self, vm: &VM);
}

/// What a step needs from the host before it can be taken.
#[derive(Debug, PartialEq)]
pub enum HostRequest {
    Nothing,
    Float(Op, u64, u64),
    Call(usize, Vec<Value>),
    Print(Value),
}

impl View for HostRequest {
    type V = Request;

    open spec fn view(&self) -> Request {
        match self {
            HostRequest::Nothing => Request::Nothing,
            HostRequest::Float(op, a, b) => Request::Float(op@, *a, *b),
            HostRequest::Call(slot, args) => Request::Call(*slot, models(args@)),
            HostRequest::Print(v) => Request::Print(v@),
        }
    }
}

/// What the host answered to the request of one step.
#[derive(Debug, PartialEq)]
pub struct HostReply {
    pub float: u64,
    pub outcome: Result<Value, ErrorKind>,
}

/// The model of what an external function gave.
pub open spec fn outcome_model(outcome: Result<Value, ErrorKind>) -> Result<
    ValueModel,
    ErrorKindModel,
> {
    match outcome {
        Ok(v) => Ok(v@),
        Err(kind) => Err(kind@),
    }
}

impl View for HostReply {
    type V = Reply;

    open spec fn view(&self) -> Reply {
        Reply { float: self.float, outcome: outcome_model(self.outcome) }
    }
}

impl HostReply {
    /// The reply to a request for nothing.
    pub fn nothing() -> (r: HostReply)
        ensures
            r@ == Reply::silent(),
    {
        HostReply { float: 0, outcome: Err(ErrorKind::InvalidProgram) }
    }
}

/// Has the host answer a request. Where the request asks for no answer the
/// reply is the silent one; else the reply holds what the host gave.
pub fn consult<H: Host>(host: &mut H, request: &HostRequest) -> (r: HostReply)
    ensures
        request@.is_silent() ==> r@ == Reply::silent(),
        request@ is Float ==> r@.outcome == Reply::silent().outcome,
        request@ is Call ==> r@.float == Reply::silent().float,
{
    match request {
        HostRequest::Nothing => HostReply::nothing(),
        HostRequest::Float(op, a, b) => HostReply {
            float: host.float_arith(op, *a, *b),
            outcome: Err(ErrorKind::InvalidProgram),
        },
        HostRequest::Call(slot, args) => HostReply { float: 0, outcome: host.call(*slot, args, false) },
        HostRequest::Print(v) => {
            host.print(v);
            HostReply::nothing()
        },
    }
}

} // verus!
