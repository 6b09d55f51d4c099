//! What holds of the machine in every state: the discipline of capture
//! cells, the refinement of capture types, and the fields of instances.

use vstd::prelude::*;

use crate::block::BlockModel;
use crate::error::{ErrorKindModel, ErrorModel};
use crate::machine::{binary, reply_at, Frame, Machine, OpResult, Reply};
use crate::op::OpModel;
use crate::types::TypeModel;
use crate::typing::refine;
use crate::value::{UpValueModel, ValueModel};

verus! {

impl Machine {
    /// The registry and the cells agree: the registry names, for a slot
    /// other than zero, an open cell over that slot, and every open cell is
    /// the one that the registry names for its slot. So no slot has two open
    /// cells, and no closed cell is registered.
    pub open spec fn registry_sound(self) -> bool {
        &&& forall|slot: usize| #[trigger]
            self.open.contains_key(slot) ==> {
                &&& slot != 0
                &&& self.open[slot] < self.cells.len()
                &&& self.cells[self.open[slot] as int].slot == slot
            }
        &&& forall|cell: int|
            0 <= cell < self.cells.len() && (#[trigger] self.cells[cell]).slot != 0 ==> {
                &&& self.open.contains_key(self.cells[cell].slot)
                &&& self.open[self.cells[cell].slot] == cell
            }
    }
}

/// Closing the cell over a slot keeps the registry sound.
pub proof fn lemma_close_slot_sound(m: Machine, slot: usize, v: ValueModel)
    requires
        m.registry_sound(),
    ensures
        m.close_slot(slot, v).registry_sound(),
        m.close_slot(slot, v).stack == m.stack,
        m.close_slot(slot, v).cells.len() == m.cells.len(),
        !m.close_slot(slot, v).open.contains_key(slot),
        forall|other: usize|
            other != slot ==> (#[trigger] m.close_slot(slot, v).open.contains_key(other)
                == m.open.contains_key(other)),
        forall|other: usize|
            other != slot && m.open.contains_key(other) ==> #[trigger] m.close_slot(
                slot,
                v,
            ).open[other] == m.open[other],
        forall|cell: int|
            0 <= cell < m.cells.len() && !(m.open.contains_key(slot) && m.open[slot] == cell)
                ==> #[trigger] m.close_slot(slot, v).cells[cell] == m.cells[cell],
{
    let after = m.close_slot(slot, v);
    if m.open.contains_key(slot) {
        assert forall|cell: int|
            0 <= cell < after.cells.len() && (#[trigger] after.cells[cell]).slot != 0 implies {
            &&& after.open.contains_key(after.cells[cell].slot)
            &&& after.open[after.cells[cell].slot] == cell
        } by {
            assert(m.cells[cell].slot != 0);
        }
    }
}

/// Capturing a slot other than zero keeps the registry sound, where the
/// cells are then no more than a machine can hold.
pub proof fn lemma_capture_slot_sound(m: Machine, slot: usize)
    requires
        m.registry_sound(),
        m.capture_slot(slot).0.cells.len() <= usize::MAX,
        slot != 0,
    ensures
        m.capture_slot(slot).0.registry_sound(),
        m.capture_slot(slot).0.open.contains_key(slot),
        m.capture_slot(slot).0.open[slot] == m.capture_slot(slot).1,
{
    let (after, cell) = m.capture_slot(slot);
    if !m.open.contains_key(slot) {
        assert forall|other: usize| #[trigger] after.open.contains_key(other) implies {
            &&& other != 0
            &&& after.open[other] < after.cells.len()
            &&& after.cells[after.open[other] as int].slot == other
        } by {
            if other != slot {
                assert(m.open.contains_key(other));
            }
        }
        assert forall|c: int|
            0 <= c < after.cells.len() && (#[trigger] after.cells[c]).slot != 0 implies {
            &&& after.open.contains_key(after.cells[c].slot)
            &&& after.open[after.cells[c].slot] == c
        } by {
            if c < m.cells.len() {
                assert(m.cells[c].slot != 0);
                assert(m.open.contains_key(m.cells[c].slot));
            }
        }
    }
}

/// Shared capture: closures made in one activation over one local share
/// one cell. A second capture of a slot gives the cell of the first and
/// changes nothing.
pub proof fn lemma_shared_capture(m: Machine, slot: usize)
    ensures
        m.capture_slot(slot).0.capture_slot(slot) == m.capture_slot(slot),
{
}

/// A write through a cell is what the next read through it gives, whoever
/// holds the cell.
pub proof fn lemma_write_then_read(cell: UpValueModel, stack: Seq<ValueModel>, v: ValueModel)
    requires
        cell.set(stack, v) is Some,
    ensures
        cell.set(stack, v).unwrap().0.get(cell.set(stack, v).unwrap().1) == Some(v),
        cell.set(stack, v).unwrap().0.is_closed() == cell.is_closed(),
{
}

/// Closure identity: once the cell over a slot is closed, a new capture of
/// that slot makes a new cell, and the closed one keeps its value. So the
/// closures of two activations of one function do not share their
/// captures.
pub proof fn lemma_closure_identity(m: Machine, slot: usize, v: ValueModel)
    requires
        m.registry_sound(),
        m.cells.len() <= usize::MAX,
        m.open.contains_key(slot),
    ensures
        ({
            let closed = m.close_slot(slot, v);
            let (again, fresh) = closed.capture_slot(slot);
            &&& fresh == m.cells.len()
            &&& fresh != m.open[slot]
            &&& again.cells[m.open[slot] as int] == (UpValueModel { slot: 0, value: v })
            &&& again.cells[fresh as int] == (UpValueModel { slot, value: ValueModel::Nil })
        }),
{
}

/// A sweep changes neither the stack nor the number of cells, and keeps
/// the registry sound.
pub proof fn lemma_sweep_sound(m: Machine, from: int, to: int)
    requires
        m.registry_sound(),
        0 <= from,
        to <= usize::MAX + 1,
    ensures
        m.sweep(from, to).registry_sound(),
        m.sweep(from, to).stack == m.stack,
        m.sweep(from, to).frames == m.frames,
        m.sweep(from, to).cells.len() == m.cells.len(),
        forall|slot: usize|
            !(from <= slot < to) ==> (#[trigger] m.sweep(from, to).open.contains_key(slot)
                == m.open.contains_key(slot)),
        forall|slot: usize|
            !(from <= slot < to) && m.open.contains_key(slot) ==> #[trigger] m.sweep(
                from,
                to,
            ).open[slot] == m.open[slot],
        forall|slot: usize| from <= slot < to ==> !(#[trigger] m.sweep(from, to).open.contains_key(slot)),
        forall|cell: int|
            0 <= cell < m.cells.len() && (m.cells[cell].slot == 0 || !(from <= m.cells[cell].slot
                < to)) ==> #[trigger] m.sweep(from, to).cells[cell] == m.cells[cell],
        forall|cell: int|
            0 <= cell < m.cells.len() && m.cells[cell].slot != 0 && from <= m.cells[cell].slot < to
                ==> #[trigger] m.sweep(from, to).cells[cell] == (UpValueModel {
                slot: 0,
                value: m.stack[m.cells[cell].slot as int],
            }),
    decreases to - from,
{
    if to > from {
        lemma_sweep_sound(m, from, to - 1);
        let swept = m.sweep(from, to - 1);
        let last = (to - 1) as usize;
        lemma_close_slot_sound(swept, last, swept.stack[to - 1]);
        let after = m.sweep(from, to);
        assert(after == swept.close_slot(last, swept.stack[to - 1]));
        assert forall|cell: int|
            0 <= cell < m.cells.len() && (m.cells[cell].slot == 0 || !(from <= m.cells[cell].slot
                < to)) implies #[trigger] after.cells[cell] == m.cells[cell] by {
            assert(swept.cells[cell] == m.cells[cell]);
            if swept.open.contains_key(last) && swept.open[last] == cell {
                assert(swept.cells[swept.open[last] as int].slot == last);
            }
        }
        assert forall|cell: int|
            0 <= cell < m.cells.len() && m.cells[cell].slot != 0 && from <= m.cells[cell].slot
                < to implies #[trigger] after.cells[cell] == (UpValueModel {
            slot: 0,
            value: m.stack[m.cells[cell].slot as int],
        }) by {
            if m.cells[cell].slot == last {
                assert(swept.cells[cell] == m.cells[cell]);
                assert(swept.open.contains_key(last));
                assert(swept.open[last] == cell);
            } else {
                assert(swept.cells[cell].slot == 0);
                if swept.open.contains_key(last) && swept.open[last] == cell {
                    assert(swept.cells[swept.open[last] as int].slot == last);
                }
            }
        }
    }
}

/// Capture cells on frame exit: once the slots from `from` up to `to` are
/// swept, a read through a cell that was open over one of them gives the
/// value which that slot held, whatever the stack holds by then.
pub proof fn lemma_sweep_freezes(m: Machine, from: int, to: int, slot: usize, later: Seq<ValueModel>)
    requires
        m.registry_sound(),
        0 <= from <= slot < to <= m.stack.len(),
        to <= usize::MAX + 1,
        m.open.contains_key(slot),
    ensures
        m.sweep(from, to).cells[m.open[slot] as int].get(later) == Some(m.stack[slot as int]),
        !m.sweep(from, to).open.contains_key(slot),
{
    lemma_sweep_sound(m, from, to);
    let cell = m.open[slot] as int;
    assert(m.cells[cell].slot == slot);
}

/// A refinement changes no slot, no flag and no known type of a capture
/// descriptor; an entry of unknown type that names a local takes the type
/// suggested for it, unless a conflict was met before it.
pub proof fn lemma_refine_once(
    ups: Seq<(usize, bool, TypeModel)>,
    suggested: Seq<TypeModel>,
    n: int,
)
    requires
        0 <= n <= ups.len(),
    ensures
        refine(ups, suggested, n).0.len() == ups.len(),
        forall|i: int|
            0 <= i < ups.len() ==> {
                let before = #[trigger] ups[i];
                let after = refine(ups, suggested, n).0[i];
                &&& after.0 == before.0
                &&& after.1 == before.1
                &&& (before.2 != TypeModel::Unknown || before.1 || i >= n ==> after.2 == before.2)
                &&& (before.2 == TypeModel::Unknown && !before.1 && i < n && refine(
                    ups,
                    suggested,
                    n,
                ).1 is None ==> after.2 == suggested[i])
            },
        refine(ups, suggested, n).1 matches Some(pair) ==> exists|i: int|
            0 <= i < n && !(#[trigger] ups[i]).1 && ups[i].2 == pair.0 && suggested[i] == pair.1
                && pair.0 != TypeModel::Unknown && !pair.0.equals(pair.1),
    decreases n,
{
    if n > 0 {
        lemma_refine_once(ups, suggested, n - 1);
        let (before, conflict) = refine(ups, suggested, n - 1);
        let entry = before[n - 1];
        assert(entry.2 == ups[n - 1].2);
        if conflict is None && !entry.1 && entry.2 != TypeModel::Unknown && !entry.2.equals(
            suggested[n - 1],
        ) {
            assert(!ups[n - 1].1 && ups[n - 1].2 == entry.2);
        }
    }
}

/// A refinement with no conflict has none at any entry: each entry that
/// names a local either had an unknown type or a type equal to the
/// suggested one.
pub proof fn lemma_refine_agrees(
    ups: Seq<(usize, bool, TypeModel)>,
    suggested: Seq<TypeModel>,
    n: int,
    i: int,
)
    requires
        0 <= i < n <= ups.len(),
        refine(ups, suggested, n).1 is None,
        !ups[i].1,
        ups[i].2 != TypeModel::Unknown,
    ensures
        ups[i].2.equals(suggested[i]),
    decreases n,
{
    lemma_refine_once(ups, suggested, n - 1);
    if i < n - 1 {
        lemma_refine_agrees(ups, suggested, n - 1, i);
    }
}

/// Type inference: where a first refinement gave the capture `i` a type,
/// a second refinement that suggests a type not equal to it is in conflict.
pub proof fn lemma_conflicting_refinements(
    ups: Seq<(usize, bool, TypeModel)>,
    first: Seq<TypeModel>,
    second: Seq<TypeModel>,
    n: int,
    i: int,
)
    requires
        0 <= i < n <= ups.len(),
        !ups[i].1,
        refine(ups, first, n).1 is None,
        refine(ups, first, n).0[i].2 != TypeModel::Unknown,
        !refine(ups, first, n).0[i].2.equals(second[i]),
    ensures
        refine(refine(ups, first, n).0, second, n).1 is Some,
{
    let refined = refine(ups, first, n).0;
    lemma_refine_once(ups, first, n);
    if refine(refined, second, n).1 is None {
        lemma_refine_agrees(refined, second, n, i);
    }
}

/// Field round trip: a value written to a field of an instance is the
/// value that a read of that field gives.
pub proof fn lemma_field_round_trip(m: Machine, field: Seq<char>, reply: Reply)
    requires
        m.frames.len() > 0,
        m.top().ip < usize::MAX,
        m.stack.len() >= 2,
        m.stack[m.stack.len() - 2] matches ValueModel::BlobInstance(blob, cells) && {
            &&& m.field_slot(blob, field) is Some
            &&& m.has_field_cell(cells, m.field_slot(blob, field).unwrap())
        },
    ensures
        ({
            let value = m.stack.last();
            let inst = m.stack[m.stack.len() - 2];
            let written = m.eval(OpModel::SetField(field), reply);
            let read = written.machine.push(inst).eval(OpModel::Get(field), reply);
            &&& written.result == Ok::<OpResult, ErrorModel>(OpResult::Continue)
            &&& written.machine.stack == m.stack.subrange(0, m.stack.len() - 2)
            &&& (written.machine.top().ip < usize::MAX ==> read.result == Ok::<
                OpResult,
                ErrorModel,
            >(OpResult::Continue) && read.machine.stack.last() == value)
        }),
{
    let written = m.eval(OpModel::SetField(field), reply);
    assert(written.machine.stack =~= m.stack.subrange(0, m.stack.len() - 2));
}

impl Machine {
    /// Every cell of `self` is a cell of `after`, and the closed ones are
    /// closed there too: no cell is lost and none is opened again.
    pub open spec fn cells_live_on(self, after: Machine) -> bool {
        &&& self.cells.len() <= after.cells.len()
        &&& forall|cell: int|
            0 <= cell < self.cells.len() && (#[trigger] self.cells[cell]).is_closed()
                ==> after.cells[cell].is_closed()
    }

    /// The stack and the cells are no more than a machine can hold.
    pub open spec fn fits(self) -> bool {
        self.stack.len() <= usize::MAX && self.cells.len() <= usize::MAX
    }
}

/// Binding the entries of a capture descriptor keeps the registry sound,
/// changes no cell that was there, and makes at most one cell for each
/// entry, where the cells are then no more than a machine can hold.
pub proof fn lemma_capture_all_sound(m: Machine, ups: Seq<(usize, bool, TypeModel)>, n: int)
    requires
        m.registry_sound(),
        0 <= n,
        m.capture_all(ups, n).0.cells.len() <= usize::MAX,
    ensures
        m.capture_all(ups, n).0.registry_sound(),
        m.cells.len() <= m.capture_all(ups, n).0.cells.len() <= m.cells.len() + n,
        forall|cell: int|
            0 <= cell < m.cells.len() ==> #[trigger] m.capture_all(ups, n).0.cells[cell]
                == m.cells[cell],
    decreases n,
{
    if n > 0 {
        let (before, cells) = m.capture_all(ups, n - 1);
        assert(before.cells.len() <= m.capture_all(ups, n).0.cells.len());
        lemma_capture_all_sound(m, ups, n - 1);
        if cells is Some && !ups[n - 1].1 && before.frames.len() > 0 && 0
            < before.top().stack_offset + ups[n - 1].0 <= usize::MAX {
            lemma_capture_slot_sound(
                before,
                (before.top().stack_offset + ups[n - 1].0) as usize,
            );
        }
    }
}

/// Whether the opcode works on capture cells or on the registry.
pub open spec fn works_on_cells(op: OpModel) -> bool {
    op is PopUpvalue || op is Constant || op is Return || op is AssignUpvalue
}

/// A step of an opcode that does not work on capture cells leaves the cells
/// and the registry as they were.
pub proof fn lemma_eval_leaves_cells(m: Machine, op: OpModel, reply: Reply)
    requires
        !works_on_cells(op),
    ensures
        m.eval(op, reply).machine.cells == m.cells,
        m.eval(op, reply).machine.open == m.open,
{
}

/// Popping a captured slot keeps the discipline of capture cells.
pub proof fn lemma_pop_upvalue_keeps_cells(m: Machine)
    requires
        m.registry_sound(),
        m.fits(),
    ensures
        m.eval_pop_upvalue().machine.registry_sound(),
        m.cells_live_on(m.eval_pop_upvalue().machine),
{
    if m.stack.len() > 0 {
        let popped = m.pop();
        lemma_close_slot_sound(popped, popped.stack.len() as usize, m.stack.last());
    }
}

/// Pushing a constant keeps the discipline of capture cells.
pub proof fn lemma_constant_keeps_cells(m: Machine, v: ValueModel)
    requires
        m.registry_sound(),
        m.eval_constant(v).machine.fits(),
    ensures
        m.eval_constant(v).machine.registry_sound(),
        m.cells_live_on(m.eval_constant(v).machine),
{
    if let ValueModel::Function(_, block) = v {
        if block < m.blocks.len() {
            let ups = m.blocks[block as int].ups;
            lemma_capture_all_sound(m, ups, ups.len() as int);
        }
    }
}

/// A write through a capture keeps the discipline of capture cells.
pub proof fn lemma_assign_upvalue_keeps_cells(m: Machine, index: usize)
    requires
        m.registry_sound(),
    ensures
        m.eval_assign_upvalue(index).machine.registry_sound(),
        m.cells_live_on(m.eval_assign_upvalue(index).machine),
{
    if m.stack.len() > 0 {
        let popped = m.pop();
        if let Some(cell) = popped.running_cell(index) {
            if let Some((written, stack)) = popped.cells[cell as int].set(
                popped.stack,
                m.stack.last(),
            ) {
                let after = Machine {
                    cells: popped.cells.update(cell as int, written),
                    stack,
                    ..popped
                };
                assert(written.slot == m.cells[cell as int].slot);
                assert forall|c: int|
                    0 <= c < after.cells.len() && (#[trigger] after.cells[c]).slot != 0 implies {
                    &&& after.open.contains_key(after.cells[c].slot)
                    &&& after.open[after.cells[c].slot] == c
                } by {
                    assert(m.cells[c].slot == after.cells[c].slot);
                }
                assert(after.registry_sound());
            }
        }
    }
}

/// A return keeps the discipline of capture cells.
pub proof fn lemma_return_keeps_cells(m: Machine)
    requires
        m.registry_sound(),
        m.fits(),
    ensures
        m.eval_return().machine.registry_sound(),
        m.cells_live_on(m.eval_return().machine),
{
    if m.stack.len() > 0 {
        let left = m.pop().leave();
        let base = m.top().stack_offset;
        if left.frames.len() > 0 && base < left.stack.len() {
            let written = left.write(base as int, m.stack.last());
            lemma_sweep_sound(written, base + 1, left.stack.len() as int);
            let swept = written.sweep(base + 1, left.stack.len() as int);
            assert forall|cell: int|
                0 <= cell < m.cells.len() && (#[trigger] m.cells[cell]).is_closed() implies swept.cells[cell].is_closed() by {
                assert(swept.cells[cell] == written.cells[cell]);
            }
        }
    }
}

/// The discipline of capture cells holds in every state that evaluation
/// reaches: a step keeps the registry sound, loses no cell and opens no
/// closed cell again.
pub proof fn lemma_eval_keeps_cells(m: Machine, op: OpModel, reply: Reply)
    requires
        m.registry_sound(),
        m.fits(),
        m.eval(op, reply).machine.fits(),
    ensures
        m.eval(op, reply).machine.registry_sound(),
        m.cells_live_on(m.eval(op, reply).machine),
{
    if m.frames.len() > 0 {
        match op {
            OpModel::PopUpvalue => {
                lemma_pop_upvalue_keeps_cells(m);
            },
            OpModel::Constant(v) => {
                lemma_constant_keeps_cells(m, v);
            },
            OpModel::AssignUpvalue(index) => {
                lemma_assign_upvalue_keeps_cells(m, index);
            },
            OpModel::Return => {
                lemma_return_keeps_cells(m);
            },
            _ => {
                lemma_eval_leaves_cells(m, op, reply);
            },
        }
    }
}

/// The checker opens and closes no cell: the check of an opcode leaves the
/// cells and the registry as they were.
pub proof fn lemma_check_keeps_cells(m: Machine, op: OpModel, reply: Reply)
    ensures
        m.check(op, reply).machine.cells == m.cells,
        m.check(op, reply).machine.open == m.open,
{
    if let OpModel::Call(n) = op {
        if n < m.stack.len() {
            if let ValueModel::Blob(blob) = m.stack[m.stack.len() - 1 - n] {
                if blob < m.blobs.len() {
                    let types = m.field_types(blob);
                    lemma_default_values_keep_cells(
                        m.truncate(m.stack.len() - 1 - n),
                        types,
                        types.len() as int,
                    );
                }
            }
        }
    }
}

/// A round of the checker leaves the cells and the registry as they were.
pub proof fn lemma_round_keeps_cells(m: Machine, reply: Reply)
    ensures
        m.check_next(reply).0.cells == m.cells,
        m.check_next(reply).0.open == m.open,
{
    match m.fetch() {
        Some(op) => {
            lemma_check_keeps_cells(m, op, reply);
        },
        None => {},
    }
}

/// The canonical values of a list of types are one for each type; making
/// them leaves the cells, the registry, the stack and the frames as they
/// were, and changes no block that was there.
pub proof fn lemma_default_values_keep_cells(m: Machine, types: Seq<TypeModel>, n: int)
    requires
        0 <= n,
    ensures
        m.default_values(types, n).0.cells == m.cells,
        m.default_values(types, n).0.open == m.open,
        m.default_values(types, n).0.stack == m.stack,
        m.default_values(types, n).0.frames == m.frames,
        m.default_values(types, n).0.blobs == m.blobs,
        m.default_values(types, n).1.len() == n,
        m.default_values(types, n).0.blocks.len() >= m.blocks.len(),
        forall|block: int|
            0 <= block < m.blocks.len() ==> #[trigger] m.default_values(types, n).0.blocks[block]
                == m.blocks[block],
    decreases n,
{
    if n > 0 {
        lemma_default_values_keep_cells(m, types, n - 1);
    }
}

/// The checker goes through a block in a straight line: a round moves the
/// frame to the next instruction of the same block, whatever the opcode
/// and whether or not the check failed.
pub proof fn lemma_check_linear(m: Machine, reply: Reply)
    requires
        m.fetch() is Some,
        m.top().ip < usize::MAX,
    ensures
        m.check_next(reply).0.frames == m.frames.update(
            m.frames.len() - 1,
            Frame { ip: (m.top().ip + 1) as usize, ..m.top() },
        ),
{
    let op = m.fetch().unwrap();
    let step = m.check(op, reply);
    if let OpModel::Call(n) = op {
        if n < m.stack.len() {
            if let ValueModel::Blob(blob) = m.stack[m.stack.len() - 1 - n] {
                if blob < m.blobs.len() {
                    let types = m.field_types(blob);
                    lemma_default_values_keep_cells(
                        m.truncate(m.stack.len() - 1 - n),
                        types,
                        types.len() as int,
                    );
                }
            }
        }
    }
    let moved = match step.result {
        Ok(_) => step.machine,
        Err(_) => step.machine.skip(),
    };
    assert(moved.frames == m.frames.update(
        m.frames.len() - 1,
        Frame { ip: (m.top().ip + 1) as usize, ..m.top() },
    ));
}

/// Binding the entries of a capture descriptor changes nothing of the
/// program, the stack, the frames and the instances.
pub proof fn lemma_capture_all_keeps_program(m: Machine, ups: Seq<(usize, bool, TypeModel)>, n: int)
    ensures
        m.capture_all(ups, n).0.blocks == m.blocks,
        m.capture_all(ups, n).0.blobs == m.blobs,
        m.capture_all(ups, n).0.stack == m.stack,
        m.capture_all(ups, n).0.frames == m.frames,
        m.capture_all(ups, n).0.instances == m.instances,
    decreases n,
{
    if n > 0 {
        lemma_capture_all_keeps_program(m, ups, n - 1);
    }
}

/// A sweep changes nothing of the program, the stack, the frames and the
/// instances.
pub proof fn lemma_sweep_keeps_program(m: Machine, from: int, to: int)
    ensures
        m.sweep(from, to).blocks == m.blocks,
        m.sweep(from, to).blobs == m.blobs,
        m.sweep(from, to).stack == m.stack,
        m.sweep(from, to).frames == m.frames,
        m.sweep(from, to).instances == m.instances,
    decreases to - from,
{
    if to > from {
        lemma_sweep_keeps_program(m, from, to - 1);
    }
}

/// Evaluation changes no block and no layout: the code that was checked
/// is the code that runs.
pub proof fn lemma_eval_keeps_program(m: Machine, op: OpModel, reply: Reply)
    ensures
        m.eval(op, reply).machine.blocks == m.blocks,
        m.eval(op, reply).machine.blobs == m.blobs,
{
    if m.frames.len() > 0 {
        match op {
            OpModel::Constant(v) => {
                if let ValueModel::Function(_, block) = v {
                    if block < m.blocks.len() {
                        let ups = m.blocks[block as int].ups;
                        lemma_capture_all_keeps_program(m, ups, ups.len() as int);
                    }
                }
            },
            OpModel::Return => {
                if m.stack.len() > 0 {
                    let left = m.pop().leave();
                    let base = m.top().stack_offset;
                    if left.frames.len() > 0 && base < left.stack.len() {
                        let written = left.write(base as int, m.stack.last());
                        lemma_sweep_keeps_program(written, base + 1, left.stack.len() as int);
                    }
                }
            },
            _ => {},
        }
    }
}

/// Whether `after` is the block `before` but for capture types that were
/// unknown.
pub open spec fn refines(before: BlockModel, after: BlockModel) -> bool {
    &&& after == (BlockModel { ups: after.ups, ..before })
    &&& after.ups.len() == before.ups.len()
    &&& forall|i: int|
        0 <= i < before.ups.len() ==> {
            &&& (#[trigger] after.ups[i]).0 == before.ups[i].0
            &&& after.ups[i].1 == before.ups[i].1
            &&& (before.ups[i].2 != TypeModel::Unknown ==> after.ups[i].2 == before.ups[i].2)
        }
}

impl Machine {
    /// Whether `after` holds the code of `self`: the same layouts, and
    /// every block of `self`, each as it was but for capture types that were
    /// unknown.
    pub open spec fn code_lives_on(self, after: Machine) -> bool {
        &&& after.blobs == self.blobs
        &&& after.blocks.len() >= self.blocks.len()
        &&& forall|block: int|
            0 <= block < self.blocks.len() ==> refines(
                self.blocks[block],
                #[trigger] after.blocks[block],
            )
    }
}

/// The canonical value of a type adds at most a block.
pub proof fn lemma_default_value_keeps_code(m: Machine, ty: TypeModel)
    ensures
        m.code_lives_on(m.default_value(ty).0),
        m.default_value(ty).0.stack == m.stack,
        m.default_value(ty).0.frames == m.frames,
{
}

/// The check of a constant changes no code but capture types that were
/// unknown.
pub proof fn lemma_check_constant_keeps_code(m: Machine, v: ValueModel)
    ensures
        m.code_lives_on(m.check_constant(v).machine),
{
    if let ValueModel::Function(_, block) = v {
        if block < m.blocks.len() {
            let ups = m.blocks[block as int].ups;
            let pushed = m.push(ValueModel::Function(Seq::empty(), block));
            if let Some(suggested) = pushed.suggestions(ups, ups.len() as int) {
                lemma_refine_once(ups, suggested, ups.len() as int);
                let refined = refine(ups, suggested, ups.len() as int).0;
                let after = pushed.with_ups(block, refined);
                assert(refines(m.blocks[block as int], after.blocks[block as int]));
                assert(m.code_lives_on(after));
            }
        }
    }
}

/// The check of a call changes no code.
pub proof fn lemma_check_call_keeps_code(
    m: Machine,
    n: usize,
    outcome: Result<ValueModel, ErrorKindModel>,
)
    ensures
        m.code_lives_on(m.check_call(n, outcome).machine),
{
    if n < m.stack.len() {
        let base = m.stack.len() - 1 - n;
        match m.stack[base] {
            ValueModel::Blob(blob) => {
                if blob < m.blobs.len() {
                    let types = m.field_types(blob);
                    lemma_default_values_keep_cells(m.truncate(base), types, types.len() as int);
                }
            },
            ValueModel::Function(_, block) => {
                if block < m.blocks.len() {
                    lemma_default_value_keeps_code(m, m.blocks[block as int].ret());
                }
            },
            _ => {},
        }
    }
}

/// The checker changes no code: the check of an opcode leaves every block
/// as it was but for capture types that were unknown, and leaves the
/// layouts as they were.
pub proof fn lemma_check_keeps_code(m: Machine, op: OpModel, reply: Reply)
    ensures
        m.code_lives_on(m.check(op, reply).machine),
{
    if m.frames.len() > 0 {
        match op {
            OpModel::Constant(v) => {
                lemma_check_constant_keeps_code(m, v);
            },
            OpModel::Call(n) => {
                lemma_check_call_keeps_code(m, n, reply.outcome);
            },
            OpModel::Get(field) => {
                if m.stack.len() > 0 {
                    if let ValueModel::BlobInstance(blob, _) = m.stack.last() {
                        if let Some(slot) = m.pop().field_slot(blob, field) {
                            lemma_default_value_keeps_code(m.pop(), m.pop().field_type(blob, slot));
                        }
                    }
                }
            },
            OpModel::ReadUpvalue(index) => {
                if let Some(ty) = m.capture_type(index) {
                    lemma_default_value_keeps_code(m, ty);
                }
            },
            OpModel::Unreachable | OpModel::Jmp(_) | OpModel::Yield | OpModel::SetField(_)
            | OpModel::PopUpvalue | OpModel::AssignUpvalue(_) | OpModel::Return | OpModel::Print
            | OpModel::Define(_) | OpModel::JmpFalse(_) => {},
            _ => {
                lemma_eval_keeps_program(m, op, reply);
            },
        }
    }
}

/// A step reads of the host's reply only what it asked for: the float
/// where it asked for arithmetic, the outcome where it asked for a call,
/// and nothing where it asked for nothing or for a print.
pub proof fn lemma_reply_read_as_asked(m: Machine, op: OpModel, a: Reply, b: Reply)
    requires
        m.request(op) is Float ==> a.float == b.float,
        m.request(op) is Call ==> a.outcome == b.outcome,
    ensures
        m.eval(op, a) == m.eval(op, b),
{
    if m.frames.len() > 0 {
        let n = m.stack.len();
        match op {
            OpModel::Add | OpModel::Sub | OpModel::Mul | OpModel::Div => {
                if n >= 2 && !(m.stack[n - 2] is Float && m.stack[n - 1] is Float) {
                    assert(binary(op, m.stack[n - 2], m.stack[n - 1], a.float)
                        == binary(op, m.stack[n - 2], m.stack[n - 1], b.float));
                }
            },
            OpModel::Equal | OpModel::Less | OpModel::Greater | OpModel::And | OpModel::Or => {
                if n >= 2 {
                    assert(binary(op, m.stack[n - 2], m.stack[n - 1], a.float)
                        == binary(op, m.stack[n - 2], m.stack[n - 1], b.float));
                }
            },
            _ => {},
        }
    }
}

/// A check reads of the host's reply only what it asked for.
pub proof fn lemma_check_reply_read_as_asked(m: Machine, op: OpModel, a: Reply, b: Reply)
    requires
        m.check_request(op) is Float ==> a.float == b.float,
        m.check_request(op) is Call ==> a.outcome == b.outcome,
    ensures
        m.check(op, a) == m.check(op, b),
{
    if m.frames.len() > 0 {
        match op {
            OpModel::Unreachable | OpModel::Jmp(_) | OpModel::Yield | OpModel::Constant(_)
            | OpModel::Get(_) | OpModel::SetField(_) | OpModel::PopUpvalue | OpModel::ReadUpvalue(
                _,
            ) | OpModel::AssignUpvalue(_) | OpModel::Return | OpModel::Print | OpModel::Define(_)
            | OpModel::JmpFalse(_) => {},
            OpModel::Call(n) => {},
            _ => {
                lemma_reply_read_as_asked(m, op, a, b);
            },
        }
    }
}

/// The rounds of the checker, started at the first instruction of a block,
/// come to each instruction of the block once and in order: after `n`
/// rounds the frame stands at the instruction `n`, and the instructions
/// are those the block had.
pub proof fn lemma_rounds_linear(m: Machine, replies: Seq<Reply>, n: int)
    requires
        m.frames.len() == 1,
        m.top().block < m.blocks.len(),
        m.top().ip == 0,
        0 <= n <= m.blocks[m.top().block as int].ops.len() <= usize::MAX,
    ensures
        ({
            let after = m.check_rounds(replies, n).0;
            &&& after.frames == seq![Frame { ip: n as usize, ..m.top() }]
            &&& m.top().block < after.blocks.len()
            &&& after.blocks[m.top().block as int].ops == m.blocks[m.top().block as int].ops
        }),
    decreases n,
{
    if n > 0 {
        lemma_rounds_linear(m, replies, n - 1);
        let before = m.check_rounds(replies, n - 1).0;
        let reply = reply_at(replies, n - 1);
        assert(before.top() == Frame { ip: (n - 1) as usize, ..m.top() });
        assert(before.fetch() is Some);
        lemma_check_linear(before, reply);
        lemma_check_keeps_code(before, before.fetch().unwrap(), reply);
        let after = before.check_next(reply).0;
        assert(after.blocks == before.check(before.fetch().unwrap(), reply).machine.blocks);
        assert(refines(
            before.blocks[m.top().block as int],
            after.blocks[m.top().block as int],
        ));
        assert(after.frames =~= seq![Frame { ip: n as usize, ..m.top() }]);
    } else {
        assert(m.frames =~= seq![m.top()]);
    }
}

/// The block that a step is said to enter is the block it enters: the
/// step goes on with one more frame, which runs that block from its first
/// instruction over the arguments of the call. A step that is said to
/// enter no block leaves as many frames as there were, or fewer.
pub proof fn lemma_callee_is_entered(m: Machine, op: OpModel, reply: Reply)
    requires
        m.frames.len() > 0,
    ensures
        m.callee(op) matches Some(block) ==> {
            &&& op is Call
            &&& m.eval(op, reply).result == Ok::<OpResult, ErrorModel>(OpResult::Continue)
            &&& m.eval(op, reply).machine == m.enter(
                Frame {
                    stack_offset: (m.stack.len() - 1 - op->Call_0) as usize,
                    block,
                    ip: 0,
                },
            )
        },
        m.callee(op) is None ==> m.eval(op, reply).machine.frames.len() <= m.frames.len(),
{
    if m.callee(op) is None {
        match op {
            OpModel::Constant(v) => {
                if let ValueModel::Function(_, block) = v {
                    if block < m.blocks.len() {
                        let ups = m.blocks[block as int].ups;
                        lemma_capture_all_keeps_program(m, ups, ups.len() as int);
                    }
                }
            },
            OpModel::Return => {
                if m.stack.len() > 0 {
                    let left = m.pop().leave();
                    let base = m.top().stack_offset;
                    if left.frames.len() > 0 && base < left.stack.len() {
                        let written = left.write(base as int, m.stack.last());
                        lemma_sweep_keeps_program(written, base + 1, left.stack.len() as int);
                    }
                }
            },
            _ => {},
        }
    }
}

/// A run of which no step asks the host for an answer is the same
/// whatever the replies.
pub proof fn lemma_quiet_run(m: Machine, replies: Seq<Reply>, budget: nat)
    requires
        m.quiet(budget),
    ensures
        m.run(replies, budget) == m.run(Seq::empty(), budget),
    decreases budget,
{
    if budget > 0 {
        let k = (budget - 1) as nat;
        assert(m.quiet(k)) by {
            assert forall|j: nat|
                j < k && (#[trigger] m.run(Seq::empty(), j)).result == Ok::<OpResult, ErrorModel>(
                    OpResult::Continue,
                ) implies m.run(Seq::empty(), j).machine.next_request().is_silent() by {}
        }
        lemma_quiet_run(m, replies, k);
        let before = m.run(Seq::empty(), k);
        if before.result == Ok::<OpResult, ErrorModel>(OpResult::Continue) {
            match before.machine.fetch() {
                Some(op) => {
                    lemma_reply_read_as_asked(
                        before.machine,
                        op,
                        reply_at(replies, budget - 1),
                        Reply::silent(),
                    );
                },
                None => {},
            }
        }
    }
}

/// A run that ends without an error and within its budget ends done or
/// suspended.
pub proof fn lemma_run_ends(m: Machine, replies: Seq<Reply>, budget: nat)
    requires
        m.run(replies, budget).result is Ok,
        m.run(replies, budget).result != Ok::<OpResult, ErrorModel>(OpResult::Continue),
    ensures
        m.run(replies, budget).result == Ok::<OpResult, ErrorModel>(OpResult::Done) || m.run(
            replies,
            budget,
        ).result == Ok::<OpResult, ErrorModel>(OpResult::Yield),
{
    match m.run(replies, budget).result {
        Ok(OpResult::Done) => {},
        Ok(OpResult::Yield) => {},
        Ok(OpResult::Continue) => {},
        Err(_) => {},
    }
}

} // verus!
