//! The emission driver: binds the construction and shrink routines to the
//! implementation surface of the target type — its name, generic parameter
//! list and constraint clause, propagated unchanged — and performs the one
//! syntactic normalization the handoff to a token emitter needs: a type
//! reference that carries generic parameters is qualified so a recursive
//! construction call resolves to the specific instantiation.

use vstd::prelude::*;
use crate::model::{ConstructError, Instance, LeafTy, TypeDecl, decl_wf};
use crate::source::Gen;
use crate::construct::{construct_post, draws_needed};
use crate::shrink::ShrinkStream;
use vstd::string::StrSliceExecFns;
use vstd::string::StringExecFns;

verus! {

/// The position of the first `<` in `s` at or after `i`, or `s.len()` when
/// there is none.
pub open spec fn first_lt_from(s: Seq<char>, i: int) -> int
    decreases s.len() - i,
{
    if i < 0 || i >= s.len() {
        s.len() as int
    } else if s[i] == '<' {
        i
    } else {
        first_lt_from(s, i + 1)
    }
}

/// The qualified form of a type reference: unchanged when it carries no
/// generic parameters, else `::` spliced in front of the first `<` so the
/// reference reads as one specific instantiation.
pub open spec fn qualify_spec(s: Seq<char>) -> Seq<char> {
    let i = first_lt_from(s, 0);
    if i == s.len() {
        s
    } else {
        s.subrange(0, i) + seq![':', ':'] + s.subrange(i, s.len() as int)
    }
}

/// Qualify a type reference for use as the receiver of a recursive
/// construction call: `A<B>` becomes `A::<B>`; a reference without generic
/// parameters is returned unchanged.
pub fn qualify_type_ref(s: &str) -> (r: String)
    ensures
        r@ =~= qualify_spec(s@),
{
    let n = s.unicode_len();
    for i in 0..n
        invariant
            n == s@.len(),
            first_lt_from(s@, 0) == first_lt_from(s@, i as int),
    {
        if s.get_char(i) == '<' {
            proof {
                assert(first_lt_from(s@, i as int) == i as int);
            }
            let mut r = String::from_str(s.substring_char(0, i));
            r.append("::");
            r.append(s.substring_char(i, n));
            proof {
                reveal_strlit("::");
                assert("::"@ =~= seq![':', ':']);
                assert(r@ =~= qualify_spec(s@));
            }
            return r;
        }
        proof {
            assert(first_lt_from(s@, i as int) == first_lt_from(s@, i as int + 1));
        }
    }
    proof {
        assert(first_lt_from(s@, 0) == s@.len() as int);
    }
    let r = String::from_str(s);
    proof {
        assert(r@ =~= qualify_spec(s@));
    }
    r
}

/// The rendered reference of a leaf type.
pub open spec fn leaf_ref_spec(t: LeafTy) -> Seq<char> {
    match t {
        LeafTy::U8 => seq!['u', '8'],
        LeafTy::U16 => seq!['u', '1', '6'],
        LeafTy::U32 => seq!['u', '3', '2'],
    }
}

/// Render the reference of a leaf field type.
pub fn leaf_ref(t: LeafTy) -> (r: String)
    ensures
        r@ =~= leaf_ref_spec(t),
{
    match t {
        LeafTy::U8 => {
            let r = String::from_str("u8");
            proof {
                reveal_strlit("u8");
            }
            r
        },
        LeafTy::U16 => {
            let r = String::from_str("u16");
            proof {
                reveal_strlit("u16");
            }
            r
        },
        LeafTy::U32 => {
            let r = String::from_str("u32");
            proof {
                reveal_strlit("u32");
            }
            r
        },
    }
}

/// The reference a recursive construction call uses for a leaf field, after
/// qualification; a leaf reference carries no generic parameters, so it is
/// the rendered reference itself.
pub fn construct_ref(t: LeafTy) -> (r: String)
    ensures
        r@ =~= qualify_spec(leaf_ref_spec(t)),
        r@ =~= leaf_ref_spec(t),
{
    let s = leaf_ref(t);
    let r = qualify_type_ref(s.as_str());
    proof {
        lemma_leaf_ref_unqualified(t);
    }
    r
}

/// A leaf reference carries no generic parameters, so qualification leaves
/// it unchanged.
proof fn lemma_leaf_ref_unqualified(t: LeafTy)
    ensures
        qualify_spec(leaf_ref_spec(t)) =~= leaf_ref_spec(t),
{
    let s = leaf_ref_spec(t);
    match t {
        LeafTy::U8 => {
            assert(first_lt_from(s, 2) == 2);
            assert(first_lt_from(s, 1) == 2);
            assert(first_lt_from(s, 0) == 2);
        },
        LeafTy::U16 | LeafTy::U32 => {
            assert(first_lt_from(s, 3) == 3);
            assert(first_lt_from(s, 2) == 3);
            assert(first_lt_from(s, 1) == 3);
            assert(first_lt_from(s, 0) == 3);
        },
    }
}

/// The generated implementation bound to one target type: the binding
/// surface, propagated unchanged from the declaration, and the declaration
/// both generated routines consult.
pub struct GeneratedImpl {
    pub target: String,
    pub generics: String,
    pub constraints: String,
    pub decl: TypeDecl,
}

/// Compose the construction and shrink routines for one declared type into
/// an implementation bound to that type. The name, generic parameter list
/// and constraint clause pass through unchanged.
pub fn impl_arbitrary(decl: TypeDecl) -> (r: GeneratedImpl)
    requires
        decl_wf(decl),
    ensures
        r.target@ == decl.name@,
        r.generics@ == decl.generics@,
        r.constraints@ == decl.constraints@,
        r.decl == decl,
{
    let target = decl.name.clone();
    let generics = decl.generics.clone();
    let constraints = decl.constraints.clone();
    GeneratedImpl { target, generics, constraints, decl }
}

impl GeneratedImpl {
    /// The bound constructor: one instance of the target type, drawn from
    /// the supplied source as the construction generator prescribes.
    pub fn construct(&self, g: &mut Gen) -> (r: Result<Instance, ConstructError>)
        requires
            decl_wf(self.decl),
            old(g).stream().len() >= draws_needed(self.decl.shape),
        ensures
            final(g).spec_size() == old(g).spec_size(),
            construct_post(self.decl, old(g).spec_size(), old(g).stream(), final(g).stream(), r),
    {
        crate::construct::construct(&self.decl, g)
    }

    /// The bound shrinker: the candidate stream of an instance of the
    /// target type, as the shrink generator prescribes.
    pub fn shrink(&self, inst: Instance) -> (s: ShrinkStream)
        ensures
            s.wf(),
            s.source() == inst,
            s.count() == 0,
    {
        crate::shrink::shrink_stream(inst)
    }
}

} // verus!
