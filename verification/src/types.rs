//! Static types and their structural equality.

use vstd::prelude::*;

use crate::model::models;

verus! {

/// The static type of a value.
#[derive(Debug)]
pub enum Type {
    Void,
    UnknownType,
    Int,
    Float,
    Bool,
    String,
    Function(Vec<Type>, Box<Type>),
    Blob(usize),
    BlobInstance(usize),
}

/// Mathematical model of a [`Type`].
pub enum TypeModel {
    Void,
    Unknown,
    Int,
    Float,
    Bool,
    String,
    Function(Seq<TypeModel>, Box<TypeModel>),
    Blob(usize),
    BlobInstance(usize),
}

impl Type {
    /// The mathematical model of this type.
    pub open spec fn model(&self) -> TypeModel
        decreases self,
    {
        match self {
            Type::Void => TypeModel::Void,
            Type::UnknownType => TypeModel::Unknown,
            Type::Int => TypeModel::Int,
            Type::Float => TypeModel::Float,
            Type::Bool => TypeModel::Bool,
            Type::String => TypeModel::String,
            Type::Function(args, ret) => TypeModel::Function(
                Seq::new(
                    args@.len(),
                    |i: int|
                        if 0 <= i < args@.len() {
                            args@[i].model()
                        } else {
                            TypeModel::Void
                        },
                ),
                Box::new((**ret).model()),
            ),
            Type::Blob(id) => TypeModel::Blob(*id),
            Type::BlobInstance(id) => TypeModel::BlobInstance(*id),
        }
    }
}

impl View for Type {
    type V = TypeModel;

    open spec fn view(&self) -> TypeModel {
        self.model()
    }
}

impl TypeModel {
    /// The sentinel never occurs in this type, at any depth.
    pub open spec fn known(self) -> bool
        decreases self,
    {
        match self {
            TypeModel::Unknown => false,
            TypeModel::Function(args, ret) => {
                &&& forall|i: int| 0 <= i < args.len() ==> (#[trigger] args[i]).known()
                &&& ret.known()
            },
            _ => true,
        }
    }

    /// Structural equality of types. Two function types are equal when their
    /// argument lists are equal pairwise and their return types are equal;
    /// blobs and instances are equal when their ids are; the unknown type
    /// equals nothing, itself included.
    pub open spec fn equals(self, other: TypeModel) -> bool
        decreases self,
    {
        match (self, other) {
            (TypeModel::Void, TypeModel::Void) => true,
            (TypeModel::Int, TypeModel::Int) => true,
            (TypeModel::Float, TypeModel::Float) => true,
            (TypeModel::Bool, TypeModel::Bool) => true,
            (TypeModel::String, TypeModel::String) => true,
            (TypeModel::Blob(a), TypeModel::Blob(b)) => a == b,
            (TypeModel::BlobInstance(a), TypeModel::BlobInstance(b)) => a == b,
            (TypeModel::Function(a_args, a_ret), TypeModel::Function(b_args, b_ret)) => {
                &&& a_args.len() == b_args.len()
                &&& forall|i: int|
                    0 <= i < a_args.len() ==> (#[trigger] a_args[i]).equals(b_args[i])
                &&& a_ret.equals(*b_ret)
            },
            _ => false,
        }
    }
}

impl Type {
    /// Whether the type is the unknown type itself.
    pub fn is_unkown(&self) -> (r: bool)
        ensures
            r == (self@ == TypeModel::Unknown),
    {
        match self {
            Type::UnknownType => true,
            _ => false,
        }
    }

    /// Structural equality, as `==` computes it.
    pub fn same(&self, other: &Type) -> (r: bool)
        ensures
            r == self@.equals(other@),
        decreases self,
    {
        match (self, other) {
            (Type::Void, Type::Void) => true,
            (Type::Int, Type::Int) => true,
            (Type::Float, Type::Float) => true,
            (Type::Bool, Type::Bool) => true,
            (Type::String, Type::String) => true,
            (Type::Blob(a), Type::Blob(b)) => *a == *b,
            (Type::BlobInstance(a), Type::BlobInstance(b)) => *a == *b,
            (Type::Function(a_args, a_ret), Type::Function(b_args, b_ret)) => {
                proof {
                    assert(self@->Function_0 =~= models(a_args@));
                    assert(other@->Function_0 =~= models(b_args@));
                }
                if !same_types(a_args, b_args) {
                    return false;
                }
                (**a_ret).same(&**b_ret)
            },
            _ => false,
        }
    }
}

/// Pairwise equality of two lists of types.
pub open spec fn lists_equal(a: Seq<TypeModel>, b: Seq<TypeModel>) -> bool {
    &&& a.len() == b.len()
    &&& forall|i: int| 0 <= i < a.len() ==> (#[trigger] a[i]).equals(b[i])
}

/// Whether two lists of types are equal pairwise.
pub fn same_types(a: &Vec<Type>, b: &Vec<Type>) -> (r: bool)
    ensures
        r == lists_equal(models(a@), models(b@)),
    decreases a,
{
    if a.len() != b.len() {
        return false;
    }
    let mut i: usize = 0;
    while i < a.len()
        invariant
            i <= a.len(),
            a.len() == b.len(),
            forall|j: int| 0 <= j < i ==> (#[trigger] models(a@)[j]).equals(models(b@)[j]),
        decreases a.len() - i,
    {
        proof {
            broadcast use vstd::std_specs::vec::axiom_vec_index_decreases;

        }
        if !a[i].same(&b[i]) {
            assert(!models(a@)[i as int].equals(models(b@)[i as int]));
            return false;
        }
        i += 1;
    }
    true
}

impl PartialEq for Type {
    fn eq(&self, other: &Self) -> (r: bool) {
        self.same(other)
    }
}

impl vstd::std_specs::cmp::PartialEqSpecImpl for Type {
    open spec fn obeys_eq_spec() -> bool {
        true
    }

    open spec fn eq_spec(&self, other: &Self) -> bool {
        self@.equals(other@)
    }
}

impl Clone for Type {
    fn clone(&self) -> (r: Self)
        ensures
            r@ == self@,
        decreases self,
    {
        match self {
            Type::Void => Type::Void,
            Type::UnknownType => Type::UnknownType,
            Type::Int => Type::Int,
            Type::Float => Type::Float,
            Type::Bool => Type::Bool,
            Type::String => Type::String,
            Type::Blob(id) => Type::Blob(*id),
            Type::BlobInstance(id) => Type::BlobInstance(*id),
            Type::Function(args, ret) => {
                let r = Type::Function(clone_types(args), Box::new((**ret).clone()));
                proof {
                    assert(self@->Function_0 =~= models(args@));
                    assert(r@->Function_0 =~= models(args@));
                }
                r
            },
        }
    }
}

/// A copy of a list of types.
pub fn clone_types(types: &Vec<Type>) -> (r: Vec<Type>)
    ensures
        models(r@) == models(types@),
    decreases types,
{
    let mut copy: Vec<Type> = Vec::new();
    let mut i: usize = 0;
    while i < types.len()
        invariant
            i <= types.len(),
            copy.len() == i,
            forall|j: int| 0 <= j < i ==> (#[trigger] copy@[j])@ == types@[j]@,
        decreases types.len() - i,
    {
        proof {
            broadcast use vstd::std_specs::vec::axiom_vec_index_decreases;

        }
        copy.push(types[i].clone());
        i += 1;
    }
    assert(models(copy@) =~= models(types@));
    copy
}

/// Equality of types is equality of their models, wherever the unknown
/// type occurs in neither.
pub proof fn lemma_equals_characterised(a: TypeModel, b: TypeModel)
    ensures
        a.equals(b) <==> (a == b && a.known()),
    decreases a,
{
    match (a, b) {
        (TypeModel::Function(a_args, a_ret), TypeModel::Function(b_args, b_ret)) => {
            lemma_equals_characterised(*a_ret, *b_ret);
            assert forall|i: int| 0 <= i < a_args.len() && 0 <= i < b_args.len() implies (
            #[trigger] a_args[i]).equals(b_args[i]) <==> (a_args[i] == b_args[i]
                && a_args[i].known()) by {
                lemma_equals_characterised(a_args[i], b_args[i]);
            }
            if a.equals(b) {
                assert(a_args =~= b_args);
            }
        },
        _ => {},
    }
}

} // verus!
