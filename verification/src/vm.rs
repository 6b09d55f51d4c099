//! The machine itself: its store, and the elementary operations that the
//! evaluation loop and the type checker are made of.

use std::collections::HashMap;
use vstd::prelude::*;

use crate::blob::Blob;
use crate::block::Block;
use crate::error::{text_model, Error, ErrorKind};
use crate::machine::{Frame, Machine};
use crate::model::{group_models, models};
use crate::types::Type;
use crate::value::{UpValue, Value};

verus! {

broadcast use {group_models, vstd::std_specs::hash::group_hash_axioms};

/// The machine. It owns the operand stack, the call records, the program's
/// blocks and layouts, and the store that values refer into: the capture
/// cells of closures, with the registry of the open ones, and the field
/// cells of instances.
pub struct VM {
    upvalues: HashMap<usize, usize>,
    cells: Vec<UpValue>,
    instances: Vec<Vec<Value>>,
    stack: Vec<Value>,
    frames: Vec<Frame>,
    blocks: Vec<Block>,
    blobs: Vec<Blob>,
    print_blocks: bool,
    print_ops: bool,
}

impl View for VM {
    type V = Machine;

    closed spec fn view(&self) -> Machine {
        Machine {
            stack: models(self.stack@),
            frames: self.frames@,
            blocks: models(self.blocks@),
            blobs: models(self.blobs@),
            cells: models(self.cells@),
            open: self.upvalues@,
            instances: Seq::new(self.instances@.len(), |i: int| models(self.instances@[i]@)),
        }
    }
}

impl VM {
    /// The two switches of the diagnostic dumps: whether blocks are dumped
    /// as they are entered, and whether the stack is dumped before each
    /// step.
    pub closed spec fn switches(&self) -> (bool, bool) {
        (self.print_blocks, self.print_ops)
    }

    /// Whether blocks are dumped as they are entered.
    pub open spec fn shows_blocks(&self) -> bool {
        self.switches().0
    }

    /// Whether the stack is dumped before each step.
    pub open spec fn shows_ops(&self) -> bool {
        self.switches().1
    }

    /// An empty machine with both dumps off.
    pub fn new() -> (r: VM)
        ensures
            r@ == Machine::empty(),
            r@.registry_sound(),
            !r.shows_blocks(),
            !r.shows_ops(),
    {
        let r = VM {
            upvalues: HashMap::new(),
            cells: Vec::new(),
            instances: Vec::new(),
            stack: Vec::new(),
            frames: Vec::new(),
            blocks: Vec::new(),
            blobs: Vec::new(),
            print_blocks: false,
            print_ops: false,
        };
        assert(r@.instances =~= Seq::empty());
        r
    }

    /// The machine with the dump of blocks switched on or off.
    pub fn print_blocks(self, b: bool) -> (r: VM)
        ensures
            r@ == self@,
            r.shows_blocks() == b,
            r.shows_ops() == self.shows_ops(),
    {
        let mut vm = self;
        vm.print_blocks = b;
        vm
    }

    /// The machine with the dump of the stack switched on or off.
    pub fn print_ops(self, b: bool) -> (r: VM)
        ensures
            r@ == self@,
            r.shows_ops() == b,
            r.shows_blocks() == self.shows_blocks(),
    {
        let mut vm = self;
        vm.print_ops = b;
        vm
    }

    /// Whether blocks are dumped as they are entered.
    pub fn prints_blocks(&self) -> (r: bool)
        ensures
            r == self.shows_blocks(),
    {
        self.print_blocks
    }

    /// Whether the stack is dumped before each step.
    pub fn prints_ops(&self) -> (r: bool)
        ensures
            r == self.shows_ops(),
    {
        self.print_ops
    }

    /// Empties the machine and gives it the blocks and layouts of a
    /// program.
    pub(crate) fn load(&mut self, blocks: Vec<Block>, blobs: Vec<Blob>)
        ensures
            final(self)@ == (Machine {
                blocks: models(blocks@),
                blobs: models(blobs@),
                ..Machine::empty()
            }),
            final(self).switches() == old(self).switches(),
    {
        self.blocks = blocks;
        self.blobs = blobs;
        self.stack.clear();
        self.frames.clear();
        self.cells.clear();
        self.instances.clear();
        self.upvalues.clear();
        assert(self@.instances =~= Seq::empty());
        assert(self@.stack =~= Seq::empty());
        assert(self@.cells =~= Seq::empty());
    }

    /// Empties the stack and the list of frames.
    pub(crate) fn rewind(&mut self)
        ensures
            final(self)@ == (Machine { stack: Seq::empty(), frames: Seq::empty(), ..old(self)@ }),
            final(self).switches() == old(self).switches(),
    {
        self.stack.clear();
        self.frames.clear();
        assert(self@.stack =~= Seq::empty());
    }

    /// Puts a list of values on the stack, the first lowest.
    pub(crate) fn extend(&mut self, values: Vec<Value>)
        ensures
            final(self)@ == (Machine { stack: old(self)@.stack + models(values@), ..old(self)@ }),
            final(self).switches() == old(self).switches(),
    {
        let mut values = values;
        let ghost given = values@;
        self.stack.append(&mut values);
        assert(models(self.stack@) =~= models(old(self).stack@) + models(given));
    }

    /// Adds a block and gives its handle.
    pub(crate) fn add_block(&mut self, block: Block) -> (r: usize)
        ensures
            r == old(self)@.blocks.len(),
            final(self)@ == (Machine { blocks: old(self)@.blocks.push(block@), ..old(self)@ }),
            final(self).switches() == old(self).switches(),
    {
        let handle = self.blocks.len();
        self.blocks.push(block);
        handle
    }

    /// Gives a block another capture descriptor.
    pub(crate) fn set_ups(&mut self, block: usize, ups: Vec<(usize, bool, Type)>)
        requires
            block < old(self)@.blocks.len(),
        ensures
            final(self)@ == old(self)@.with_ups(block, models(ups@)),
            final(self).switches() == old(self).switches(),
    {
        let target = &mut self.blocks[block];
        target.ups = ups;
    }

    /// The machine's lists are no longer than a list can be.
    pub proof fn lemma_sizes(&self)
        ensures
            self@.stack.len() <= usize::MAX,
            self@.frames.len() <= usize::MAX,
            self@.blocks.len() <= usize::MAX,
            self@.blobs.len() <= usize::MAX,
            self@.cells.len() <= usize::MAX,
            self@.instances.len() <= usize::MAX,
    {
        assert(self.stack.len() == self@.stack.len());
        assert(self.frames.len() == self@.frames.len());
        assert(self.blocks.len() == self@.blocks.len());
        assert(self.blobs.len() == self@.blobs.len());
        assert(self.cells.len() == self@.cells.len());
        assert(self.instances.len() == self@.instances.len());
    }

    /// The height of the stack.
    pub fn depth(&self) -> (r: usize)
        ensures
            r == self@.stack.len(),
    {
        self.stack.len()
    }

    /// A copy of the value in a stack slot.
    pub fn peek(&self, slot: usize) -> (r: Option<Value>)
        ensures
            match r {
                Some(v) => slot < self@.stack.len() && v@ == self@.stack[slot as int],
                None => slot >= self@.stack.len(),
            },
    {
        if slot < self.stack.len() {
            Some(self.stack[slot].clone())
        } else {
            None
        }
    }

    pub(crate) fn push(&mut self, v: Value)
        ensures
            final(self)@ == old(self)@.push(v@),
            final(self).switches() == old(self).switches(),
    {
        self.stack.push(v);
    }

    pub(crate) fn pop(&mut self) -> (r: Option<Value>)
        ensures
            match r {
                Some(v) => {
                    &&& old(self)@.stack.len() > 0
                    &&& v@ == old(self)@.stack.last()
                    &&& final(self)@ == old(self)@.pop()
                },
                None => old(self)@.stack.len() == 0 && final(self)@ == old(self)@,
            },
            final(self).switches() == old(self).switches(),
    {
        let r = self.stack.pop();
        proof {
            if r is Some {
                assert(models(self.stack@) =~= models(old(self).stack@).drop_last());
            }
        }
        r
    }

    pub(crate) fn write(&mut self, slot: usize, v: Value)
        requires
            slot < old(self)@.stack.len(),
        ensures
            final(self)@ == old(self)@.write(slot as int, v@),
            final(self).switches() == old(self).switches(),
    {
        self.stack.set(slot, v);
    }

    pub(crate) fn truncate(&mut self, len: usize)
        requires
            len <= old(self)@.stack.len(),
        ensures
            final(self)@ == old(self)@.truncate(len as int),
            final(self).switches() == old(self).switches(),
    {
        self.stack.truncate(len);
    }

    /// The running frame.
    pub fn frame(&self) -> (r: Option<Frame>)
        ensures
            match r {
                Some(f) => self@.frames.len() > 0 && f == self@.top(),
                None => self@.frames.len() == 0,
            },
    {
        let n = self.frames.len();
        if n == 0 {
            None
        } else {
            Some(self.frames[n - 1])
        }
    }

    pub(crate) fn jump(&mut self, ip: usize)
        requires
            old(self)@.frames.len() > 0,
        ensures
            final(self)@ == old(self)@.jump(ip),
            final(self).switches() == old(self).switches(),
    {
        let n = self.frames.len();
        let f = self.frames[n - 1];
        self.frames.set(n - 1, Frame { ip, ..f });
    }

    pub(crate) fn enter(&mut self, frame: Frame)
        ensures
            final(self)@ == old(self)@.enter(frame),
            final(self).switches() == old(self).switches(),
    {
        self.frames.push(frame);
    }

    pub(crate) fn leave(&mut self)
        requires
            old(self)@.frames.len() > 0,
        ensures
            final(self)@ == old(self)@.leave(),
            final(self).switches() == old(self).switches(),
    {
        self.frames.pop();
    }

    /// The number of blocks.
    pub fn blocks_len(&self) -> (r: usize)
        ensures
            r == self@.blocks.len(),
    {
        self.blocks.len()
    }

    /// The number of layouts.
    pub fn blobs_len(&self) -> (r: usize)
        ensures
            r == self@.blobs.len(),
    {
        self.blobs.len()
    }

    /// The number of capture cells.
    pub fn cells_len(&self) -> (r: usize)
        ensures
            r == self@.cells.len(),
    {
        self.cells.len()
    }

    /// A block of the machine.
    pub fn block(&self, id: usize) -> (r: Option<&Block>)
        ensures
            match r {
                Some(b) => id < self@.blocks.len() && b@ == self@.blocks[id as int],
                None => id >= self@.blocks.len(),
            },
    {
        if id < self.blocks.len() {
            Some(&self.blocks[id])
        } else {
            None
        }
    }

    /// A layout of the machine.
    pub fn blob(&self, id: usize) -> (r: Option<&Blob>)
        ensures
            match r {
                Some(b) => id < self@.blobs.len() && b@ == self@.blobs[id as int],
                None => id >= self@.blobs.len(),
            },
    {
        if id < self.blobs.len() {
            Some(&self.blobs[id])
        } else {
            None
        }
    }

    /// The capture `index` of the closure that the running frame runs.
    pub fn running_capture(&self, index: usize) -> (r: Option<usize>)
        ensures
            r == self@.running_capture(index),
    {
        match self.frame() {
            Some(frame) => {
                if frame.stack_offset < self.stack.len() {
                    match &self.stack[frame.stack_offset] {
                        Value::Function(captures, _) => {
                            if index < captures.len() {
                                Some(captures[index])
                            } else {
                                None
                            }
                        },
                        _ => None,
                    }
                } else {
                    None
                }
            },
            None => None,
        }
    }

    /// A copy of the capture descriptor of a block.
    pub fn descriptor(&self, block: usize) -> (r: Vec<(usize, bool, Type)>)
        requires
            block < self@.blocks.len(),
        ensures
            models(r@) == self@.blocks[block as int].ups,
    {
        let ups = &self.blocks[block].ups;
        let mut copy: Vec<(usize, bool, Type)> = Vec::new();
        let mut i: usize = 0;
        while i < ups.len()
            invariant
                i <= ups.len(),
                copy.len() == i,
                forall|j: int| 0 <= j < i ==> (#[trigger] copy@[j])@ == ups@[j]@,
            decreases ups.len() - i,
        {
            let entry = &ups[i];
            copy.push((entry.0, entry.1, entry.2.clone()));
            i += 1;
        }
        assert(models(copy@) =~= models(ups@));
        copy
    }

    /// A copy of a capture cell.
    pub fn cell(&self, id: usize) -> (r: Option<UpValue>)
        ensures
            match r {
                Some(c) => id < self@.cells.len() && c@ == self@.cells[id as int],
                None => id >= self@.cells.len(),
            },
    {
        if id < self.cells.len() {
            Some(self.cells[id].clone())
        } else {
            None
        }
    }

    /// What a read through a capture cell gives.
    pub fn cell_read(&self, id: usize) -> (r: Option<Value>)
        requires
            id < self@.cells.len(),
        ensures
            match r {
                Some(v) => self@.cells[id as int].get(self@.stack) == Some(v@),
                None => self@.cells[id as int].get(self@.stack) is None,
            },
    {
        self.cells[id].get(&self.stack)
    }

    pub(crate) fn cell_write(&mut self, id: usize, v: Value) -> (r: bool)
        requires
            id < old(self)@.cells.len(),
        ensures
            match old(self)@.cells[id as int].set(old(self)@.stack, v@) {
                Some((written, stack)) => r && final(self)@ == (Machine {
                    cells: old(self)@.cells.update(id as int, written),
                    stack,
                    ..old(self)@
                }),
                None => !r && final(self)@ == old(self)@,
            },
            final(self).switches() == old(self).switches(),
    {
        let slot = self.cells[id].slot;
        if slot == 0 {
            self.cells.set(id, UpValue { slot: 0, value: v });
            true
        } else if slot < self.stack.len() {
            self.stack.set(slot, v);
            assert(models(self.cells@) =~= models(self.cells@).update(
                id as int,
                models(self.cells@)[id as int],
            ));
            true
        } else {
            false
        }
    }

    /// Whether an open cell stands over the stack slot.
    pub fn is_open(&self, slot: usize) -> (r: bool)
        ensures
            r == self@.open.contains_key(slot),
    {
        self.upvalues.contains_key(&slot)
    }

    pub(crate) fn close_slot(&mut self, slot: usize, v: Value)
        ensures
            final(self)@ == old(self)@.close_slot(slot, v@),
            final(self).switches() == old(self).switches(),
    {
        match self.upvalues.remove(&slot) {
            Some(cell) => {
                if cell < self.cells.len() {
                    self.cells.set(cell, UpValue { slot: 0, value: v });
                }
            },
            None => {
                assert(self.upvalues@ =~= old(self).upvalues@);
            },
        }
    }

    pub(crate) fn capture_slot(&mut self, slot: usize) -> (r: usize)
        ensures
            (final(self)@, r) == old(self)@.capture_slot(slot),
            final(self).switches() == old(self).switches(),
    {
        match self.upvalues.get(&slot) {
            Some(cell) => *cell,
            None => {
                let cell = self.cells.len();
                self.cells.push(UpValue::new(slot));
                self.upvalues.insert(slot, cell);
                cell
            },
        }
    }

    pub(crate) fn instantiate(&mut self, blob: usize, cells: Vec<Value>) -> (r: Value)
        ensures
            (final(self)@, r@) == old(self)@.instantiate(blob, models(cells@)),
            final(self).switches() == old(self).switches(),
    {
        let handle = self.instances.len();
        self.instances.push(cells);
        assert(self@.instances =~= old(self)@.instances.push(models(cells@)));
        Value::BlobInstance(blob, handle)
    }

    /// A copy of the value in a field cell.
    pub fn field(&self, cells: usize, slot: usize) -> (r: Option<Value>)
        ensures
            match r {
                Some(v) => self@.has_field_cell(cells, slot as int) && v@
                    == self@.instances[cells as int][slot as int],
                None => !self@.has_field_cell(cells, slot as int),
            },
    {
        if cells < self.instances.len() && slot < self.instances[cells].len() {
            Some(self.instances[cells][slot].clone())
        } else {
            None
        }
    }

    pub(crate) fn store(&mut self, cells: usize, slot: usize, v: Value)
        requires
            old(self)@.has_field_cell(cells, slot as int),
        ensures
            final(self)@ == old(self)@.store(cells, slot as int, v@),
            final(self).switches() == old(self).switches(),
    {
        let inner = &mut self.instances[cells];
        inner.set(slot, v);
        assert(self@.instances =~= old(self)@.store(cells, slot as int, v@).instances);
    }

    /// An error raised where the running frame stands.
    pub fn error(&self, kind: ErrorKind, message: Option<String>) -> (r: Error)
        ensures
            r@ == self@.error(kind@, text_model(message)),
    {
        match self.frame() {
            Some(frame) => {
                if frame.block < self.blocks.len() {
                    let block = &self.blocks[frame.block];
                    Error { kind, file: block.file.clone(), line: block.line(frame.ip), message }
                } else {
                    Error { kind, file: String::new(), line: 0, message }
                }
            },
            None => Error { kind, file: String::new(), line: 0, message },
        }
    }
}

} // verus!
