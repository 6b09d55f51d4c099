//! Code blocks: a linear opcode buffer with its line map and its capture
//! descriptor.

use std::collections::HashMap;
use vstd::prelude::*;

use crate::model::{group_models, models};
use crate::op::{clone_ops, Op, OpModel};
use crate::types::{Type, TypeModel};

verus! {

broadcast use {group_models, vstd::std_specs::hash::group_hash_axioms};

/// A compiled unit of code.
///
/// Each entry of `ups` describes one captured variable by slot, a flag and
/// a type. With the flag unset the variable is a local of the enclosing
/// frame at that slot; with the flag set it is the capture of that index of
/// the enclosing closure.
#[derive(Debug)]
pub struct Block {
    pub ty: Type,
    pub ups: Vec<(usize, bool, Type)>,
    pub name: String,
    pub file: String,
    pub ops: Vec<Op>,
    pub last_line_offset: usize,
    pub line_offsets: HashMap<usize, usize>,
    pub line: usize,
}

/// Mathematical model of a [`Block`].
pub struct BlockModel {
    pub ty: TypeModel,
    pub ups: Seq<(usize, bool, TypeModel)>,
    pub name: Seq<char>,
    pub file: Seq<char>,
    pub ops: Seq<OpModel>,
    pub last_line_offset: usize,
    pub line_offsets: Map<usize, usize>,
    pub line: usize,
}

impl View for Block {
    type V = BlockModel;

    open spec fn view(&self) -> BlockModel {
        BlockModel {
            ty: self.ty@,
            ups: models(self.ups@),
            name: self.name@,
            file: self.file@,
            ops: models(self.ops@),
            last_line_offset: self.last_line_offset,
            line_offsets: self.line_offsets@,
            line: self.line,
        }
    }
}

/// The line recorded for the nearest opcode index at or before `ip`, and
/// zero where none is recorded there.
pub open spec fn line_at(offsets: Map<usize, usize>, ip: usize) -> usize
    decreases ip,
{
    if offsets.contains_key(ip) {
        offsets[ip]
    } else if ip == 0 {
        0
    } else {
        line_at(offsets, (ip - 1) as usize)
    }
}

impl BlockModel {
    /// An empty block of type void.
    pub open spec fn empty(name: Seq<char>, file: Seq<char>, line: usize) -> BlockModel {
        BlockModel {
            ty: TypeModel::Void,
            ups: Seq::empty(),
            name,
            file,
            ops: Seq::empty(),
            last_line_offset: 0,
            line_offsets: Map::empty(),
            line,
        }
    }

    /// The empty block that stands for a function of type `ty`.
    pub open spec fn of_type(ty: TypeModel) -> BlockModel {
        BlockModel { ty, ..Self::empty("/empty/"@, ""@, 0) }
    }

    /// The declared argument types; none where the block's type is not a
    /// function type.
    pub open spec fn args(self) -> Seq<TypeModel> {
        match self.ty {
            TypeModel::Function(args, _) => args,
            _ => Seq::empty(),
        }
    }

    /// The declared return type; void where the block's type is not a
    /// function type.
    pub open spec fn ret(self) -> TypeModel {
        match self.ty {
            TypeModel::Function(_, ret) => *ret,
            _ => TypeModel::Void,
        }
    }

    /// The source line of the instruction at `ip`.
    pub open spec fn line(self, ip: usize) -> usize {
        line_at(self.line_offsets, ip)
    }

    /// The block once the source position of the next opcode is noted: a
    /// position that differs from the last one noted is recorded at the
    /// index of the next opcode.
    pub open spec fn add_line(self, token_position: usize) -> BlockModel {
        if token_position != self.last_line_offset {
            BlockModel {
                line_offsets: self.line_offsets.insert(self.ops.len() as usize, token_position),
                last_line_offset: token_position,
                ..self
            }
        } else {
            self
        }
    }

    /// The block with `ops` appended at the source position given.
    pub open spec fn add_from(self, ops: Seq<OpModel>, token_position: usize) -> BlockModel {
        BlockModel { ops: self.ops + ops, ..self.add_line(token_position) }
    }
}

impl Clone for Block {
    fn clone(&self) -> (r: Self)
        ensures
            r@ == self@,
    {
        let mut ups: Vec<(usize, bool, Type)> = Vec::new();
        let mut i: usize = 0;
        while i < self.ups.len()
            invariant
                i <= self.ups.len(),
                ups.len() == i,
                forall|j: int| 0 <= j < i ==> (#[trigger] ups@[j])@ == self.ups@[j]@,
            decreases self.ups.len() - i,
        {
            let entry = &self.ups[i];
            ups.push((entry.0, entry.1, entry.2.clone()));
            i += 1;
        }
        assert(models(ups@) =~= models(self.ups@));
        Block {
            ty: self.ty.clone(),
            ups,
            name: self.name.clone(),
            file: self.file.clone(),
            ops: clone_ops(&self.ops),
            last_line_offset: self.last_line_offset,
            line_offsets: self.line_offsets.clone(),
            line: self.line,
        }
    }
}

impl Block {
    /// An empty block of type void.
    pub fn new(name: &str, file: &str, line: usize) -> (r: Block)
        ensures
            r@ == BlockModel::empty(name@, file@, line),
    {
        Block {
            ty: Type::Void,
            ups: Vec::new(),
            name: name.to_owned(),
            file: file.to_owned(),
            ops: Vec::new(),
            last_line_offset: 0,
            line_offsets: HashMap::new(),
            line,
        }
    }

    /// The empty block that stands for a function of type `ty`.
    pub fn from_type(ty: &Type) -> (r: Block)
        ensures
            r@ == BlockModel::of_type(ty@),
    {
        let mut block = Block::new("/empty/", "", 0);
        block.ty = ty.clone();
        block
    }

    /// The declared argument types of a block whose type is a function type.
    pub fn args(&self) -> (r: &Vec<Type>)
        requires
            self@.ty is Function,
        ensures
            models(r@) == self@.args(),
    {
        match &self.ty {
            Type::Function(args, _) => {
                assert(models(args@) =~= self@.args());
                args
            },
            _ => vstd::pervasive::unreached(),
        }
    }

    /// The declared return type of a block whose type is a function type.
    pub fn ret(&self) -> (r: &Type)
        requires
            self@.ty is Function,
        ensures
            r@ == self@.ret(),
    {
        match &self.ty {
            Type::Function(_, ret) => &**ret,
            _ => vstd::pervasive::unreached(),
        }
    }

    /// What tells the block from others: its file and the line of its
    /// definition.
    pub fn id(&self) -> (r: (String, usize))
        ensures
            r.0@ == self@.file,
            r.1 == self@.line,
    {
        (self.file.clone(), self.line)
    }

    /// The last opcode, if there is one.
    pub fn last_op(&self) -> (r: Option<&Op>)
        ensures
            match r {
                Some(op) => self@.ops.len() > 0 && op@ == self@.ops.last(),
                None => self@.ops.len() == 0,
            },
    {
        let len = self.ops.len();
        if len == 0 {
            None
        } else {
            Some(&self.ops[len - 1])
        }
    }

    /// Notes the source position of the next opcode.
    pub fn add_line(&mut self, token_position: usize)
        ensures
            final(self)@ == old(self)@.add_line(token_position),
    {
        if token_position != self.last_line_offset {
            let at = self.curr();
            self.line_offsets.insert(at, token_position);
            self.last_line_offset = token_position;
        }
    }

    /// The source line of the instruction at `ip`: that of the nearest
    /// instruction at or before it for which one is noted, else zero.
    pub fn line(&self, ip: usize) -> (r: usize)
        ensures
            r == self@.line(ip),
    {
        let mut i: usize = ip;
        loop
            invariant
                i <= ip,
                line_at(self.line_offsets@, ip) == line_at(self.line_offsets@, i),
            decreases i,
        {
            match self.line_offsets.get(&i) {
                Some(line) => {
                    return *line;
                },
                None => {},
            }
            if i == 0 {
                return 0;
            }
            i -= 1;
        }
    }

    /// The last opcode of a block that is not empty.
    pub fn last_instruction(&mut self) -> (r: &Op)
        requires
            old(self)@.ops.len() > 0,
        ensures
            r@ == old(self)@.ops.last(),
            final(self)@ == old(self)@,
    {
        &self.ops[self.ops.len() - 1]
    }

    /// Appends an opcode at a source position and gives its index.
    pub fn add(&mut self, op: Op, token_position: usize) -> (r: usize)
        ensures
            r == old(self)@.ops.len(),
            final(self)@ == old(self)@.add_from(seq![op@], token_position),
    {
        let len = self.curr();
        self.add_line(token_position);
        self.ops.push(op);
        assert(models(self.ops@) =~= models(old(self).ops@) + seq![op@]);
        len
    }

    /// Appends opcodes at a source position and gives the index of the
    /// first.
    pub fn add_from(&mut self, ops: &[Op], token_position: usize) -> (r: usize)
        ensures
            r == old(self)@.ops.len(),
            final(self)@ == old(self)@.add_from(models(ops@), token_position),
    {
        let len = self.curr();
        self.add_line(token_position);
        let ghost noted = self@;
        let mut i: usize = 0;
        while i < ops.len()
            invariant
                i <= ops.len(),
                self@ == (BlockModel {
                    ops: noted.ops + models(ops@).subrange(0, i as int),
                    ..noted
                }),
            decreases ops.len() - i,
        {
            let ghost before = self.ops@;
            self.ops.push(ops[i].clone());
            assert(models(self.ops@) =~= noted.ops + models(ops@).subrange(0, i + 1));
            i += 1;
        }
        assert(models(ops@).subrange(0, i as int) =~= models(ops@));
        len
    }

    /// The index that the next opcode will have.
    pub fn curr(&self) -> (r: usize)
        ensures
            r == self@.ops.len(),
    {
        self.ops.len()
    }

    /// Replaces the opcode at an index that the block has.
    pub fn patch(&mut self, op: Op, pos: usize)
        requires
            pos < old(self)@.ops.len(),
        ensures
            final(self)@ == (BlockModel { ops: old(self)@.ops.update(pos as int, op@), ..old(self)@ }),
    {
        self.ops.set(pos, op);
    }
}

} // verus!
