//! Blob layouts and whole programs.

use vstd::prelude::*;

use crate::block::{Block, BlockModel};
use crate::model::{group_models, models};
use crate::types::{Type, TypeModel};

verus! {

broadcast use group_models;

/// The layout of a user-defined product type: its name and its fields in
/// the order of their slots, each with its name and type.
#[derive(Debug)]
pub struct Blob {
    pub name: String,
    pub fields: Vec<(String, Type)>,
}

/// Mathematical model of a [`Blob`].
pub struct BlobModel {
    pub name: Seq<char>,
    pub fields: Seq<(Seq<char>, TypeModel)>,
}

impl View for Blob {
    type V = BlobModel;

    open spec fn view(&self) -> BlobModel {
        BlobModel { name: self.name@, fields: models(self.fields@) }
    }
}

impl BlobModel {
    /// Whether `slot` is the first slot whose field is called `name`.
    pub open spec fn is_slot_of(self, name: Seq<char>, slot: int) -> bool {
        &&& 0 <= slot < self.fields.len()
        &&& self.fields[slot].0 == name
        &&& forall|j: int| 0 <= j < slot ==> (#[trigger] self.fields[j]).0 != name
    }

    /// Whether a field is called `name`.
    pub open spec fn has(self, name: Seq<char>) -> bool {
        exists|slot: int| self.is_slot_of(name, slot)
    }

    /// The slot of the field called `name`.
    pub open spec fn slot_of(self, name: Seq<char>) -> int {
        choose|slot: int| self.is_slot_of(name, slot)
    }

    /// No two fields share a name.
    pub open spec fn distinct(self) -> bool {
        forall|i: int, j: int|
            0 <= i < j < self.fields.len() ==> (#[trigger] self.fields[i]).0 != (
            #[trigger] self.fields[j]).0
    }

    /// The fields by name, each with its slot and type.
    pub open spec fn name_to_field(self) -> Map<Seq<char>, (int, TypeModel)> {
        Map::new(
            |name: Seq<char>| self.has(name),
            |name: Seq<char>| (self.slot_of(name), self.fields[self.slot_of(name)].1),
        )
    }
}

impl Clone for Blob {
    fn clone(&self) -> (r: Self)
        ensures
            r@ == self@,
    {
        let mut fields: Vec<(String, Type)> = Vec::new();
        let mut i: usize = 0;
        while i < self.fields.len()
            invariant
                i <= self.fields.len(),
                fields.len() == i,
                forall|j: int| 0 <= j < i ==> (#[trigger] fields@[j])@ == self.fields@[j]@,
            decreases self.fields.len() - i,
        {
            let entry = &self.fields[i];
            fields.push((entry.0.clone(), entry.1.clone()));
            i += 1;
        }
        assert(models(fields@) =~= models(self.fields@));
        Blob { name: self.name.clone(), fields }
    }
}

impl Blob {
    /// A layout without fields.
    pub fn new(name: &str) -> (r: Blob)
        ensures
            r@ == (BlobModel { name: name@, fields: Seq::empty() }),
            r@.distinct(),
    {
        Blob { name: name.to_owned(), fields: Vec::new() }
    }

    /// The slot of the field called `name`, if there is one.
    pub fn slot_of(&self, name: &String) -> (r: Option<usize>)
        ensures
            match r {
                Some(slot) => self@.is_slot_of(name@, slot as int) && self@.slot_of(name@) == slot,
                None => !self@.has(name@),
            },
    {
        let mut i: usize = 0;
        while i < self.fields.len()
            invariant
                i <= self.fields.len(),
                forall|j: int| 0 <= j < i ==> (#[trigger] self@.fields[j]).0 != name@,
            decreases self.fields.len() - i,
        {
            if self.fields[i].0 == *name {
                assert(self@.is_slot_of(name@, i as int));
                return Some(i);
            }
            i += 1;
        }
        None
    }

    /// Adds a field in the next free slot. A second field of one name is
    /// refused, and the layout is then left as it was.
    pub fn add_field(&mut self, name: &str, ty: Type) -> (r: Result<(), ()>)
        ensures
            r is Err <==> old(self)@.has(name@),
            r is Err ==> final(self)@ == old(self)@,
            r is Ok ==> final(self)@ == (BlobModel {
                fields: old(self)@.fields.push((name@, ty@)),
                ..old(self)@
            }),
            r is Ok ==> final(self)@.name_to_field() == old(self)@.name_to_field().insert(
                name@,
                (old(self)@.fields.len() as int, ty@),
            ),
            old(self)@.distinct() ==> final(self)@.distinct(),
    {
        let owned = name.to_owned();
        match self.slot_of(&owned) {
            Some(_) => Err(()),
            None => {
                proof {
                    assert forall|j: int| 0 <= j < self@.fields.len() implies (
                    #[trigger] self@.fields[j]).0 != name@ by {
                        if self@.fields[j].0 == name@ {
                            lemma_named_field_has_slot(self@, name@, j);
                        }
                    }
                }
                self.fields.push((owned, ty));
                proof {
                    lemma_field_added(old(self)@, name@, ty@);
                }
                Ok(())
            },
        }
    }
}

/// A layout with a field of some name has a first slot of that name.
pub proof fn lemma_named_field_has_slot(blob: BlobModel, name: Seq<char>, at: int)
    requires
        0 <= at < blob.fields.len(),
        blob.fields[at].0 == name,
    ensures
        blob.has(name),
    decreases at,
{
    if forall|j: int| 0 <= j < at ==> (#[trigger] blob.fields[j]).0 != name {
        assert(blob.is_slot_of(name, at));
    } else {
        let j = choose|j: int| 0 <= j < at && (#[trigger] blob.fields[j]).0 == name;
        lemma_named_field_has_slot(blob, name, j);
    }
}

/// A field of a new name, added in the next free slot, is found by its
/// name in that slot with its type, and every other field is found as
/// before.
pub proof fn lemma_field_added(blob: BlobModel, name: Seq<char>, ty: TypeModel)
    requires
        !blob.has(name),
    ensures
        ({
            let added = BlobModel { fields: blob.fields.push((name, ty)), ..blob };
            added.name_to_field() == blob.name_to_field().insert(
                name,
                (blob.fields.len() as int, ty),
            )
        }),
{
    let added = BlobModel { fields: blob.fields.push((name, ty)), ..blob };
    let n = blob.fields.len() as int;
    assert forall|j: int| 0 <= j < n implies (#[trigger] blob.fields[j]).0 != name by {
        if blob.fields[j].0 == name {
            lemma_named_field_has_slot(blob, name, j);
        }
    }
    assert(added.is_slot_of(name, n));
    assert forall|other: Seq<char>, slot: int| other != name implies (added.is_slot_of(other, slot)
        <==> blob.is_slot_of(other, slot)) by {
        if added.is_slot_of(other, slot) {
            assert(slot < n);
            assert(added.fields[slot] == blob.fields[slot]);
            assert forall|j: int| 0 <= j < slot implies (#[trigger] blob.fields[j]).0 != other by {
                assert(added.fields[j] == blob.fields[j]);
            }
            assert(blob.is_slot_of(other, slot));
        }
        if blob.is_slot_of(other, slot) {
            assert(added.fields[slot] == blob.fields[slot]);
            assert forall|j: int| 0 <= j < slot implies (#[trigger] added.fields[j]).0 != other by {
                assert(added.fields[j] == blob.fields[j]);
            }
            assert(added.is_slot_of(other, slot));
        }
    }
    assert forall|slot: int| added.is_slot_of(name, slot) implies slot == n by {
        if slot < n {
            assert(added.fields[slot] == blob.fields[slot]);
        }
    }
    assert forall|other: Seq<char>| other != name implies added.has(other) == blob.has(other) by {
        if added.has(other) {
            let slot = choose|slot: int| added.is_slot_of(other, slot);
            assert(blob.is_slot_of(other, slot));
        }
        if blob.has(other) {
            let slot = choose|slot: int| blob.is_slot_of(other, slot);
            assert(added.is_slot_of(other, slot));
        }
    }
    assert forall|other: Seq<char>| other != name && blob.has(other) implies added.slot_of(other)
        == blob.slot_of(other) by {
        let a = added.slot_of(other);
        let b = blob.slot_of(other);
        assert(blob.is_slot_of(other, b));
        assert(added.is_slot_of(other, b));
        assert(added.is_slot_of(other, a));
        assert(blob.is_slot_of(other, a));
        if a < b {
            assert(blob.fields[a].0 != other);
        } else if b < a {
            assert(blob.fields[b].0 != other);
        }
    }
    assert(added.slot_of(name) == n);
    assert(added.name_to_field() =~= blob.name_to_field().insert(name, (n, ty)));
}

/// A whole program: its blocks, the first of which is the entry, and the
/// layouts of its blobs.
#[derive(Debug)]
pub struct Prog {
    pub blocks: Vec<Block>,
    pub blobs: Vec<Blob>,
}

/// Mathematical model of a [`Prog`].
pub struct ProgModel {
    pub blocks: Seq<BlockModel>,
    pub blobs: Seq<BlobModel>,
}

impl View for Prog {
    type V = ProgModel;

    open spec fn view(&self) -> ProgModel {
        ProgModel { blocks: models(self.blocks@), blobs: models(self.blobs@) }
    }
}

/// A copy of a list of blocks.
pub fn clone_blocks(blocks: &Vec<Block>) -> (r: Vec<Block>)
    ensures
        models(r@) == models(blocks@),
{
    let mut copy: Vec<Block> = Vec::new();
    let mut i: usize = 0;
    while i < blocks.len()
        invariant
            i <= blocks.len(),
            copy.len() == i,
            forall|j: int| 0 <= j < i ==> (#[trigger] copy@[j])@ == blocks@[j]@,
        decreases blocks.len() - i,
    {
        copy.push(blocks[i].clone());
        i += 1;
    }
    assert(models(copy@) =~= models(blocks@));
    copy
}

/// A copy of a list of layouts.
pub fn clone_blobs(blobs: &Vec<Blob>) -> (r: Vec<Blob>)
    ensures
        models(r@) == models(blobs@),
{
    let mut copy: Vec<Blob> = Vec::new();
    let mut i: usize = 0;
    while i < blobs.len()
        invariant
            i <= blobs.len(),
            copy.len() == i,
            forall|j: int| 0 <= j < i ==> (#[trigger] copy@[j])@ == blobs@[j]@,
        decreases blobs.len() - i,
    {
        copy.push(blobs[i].clone());
        i += 1;
    }
    assert(models(copy@) =~= models(blobs@));
    copy
}

impl Clone for Prog {
    fn clone(&self) -> (r: Self)
        ensures
            r@ == self@,
    {
        Prog { blocks: clone_blocks(&self.blocks), blobs: clone_blobs(&self.blobs) }
    }
}

} // verus!
