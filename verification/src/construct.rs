//! The construction generator: builds an instance of a declared type by
//! drawing field values from a caller-supplied size-bounded source, in
//! declared field order, selecting a sum variant with exactly one draw.

use vstd::prelude::*;
use crate::model::{
    FieldForm, Instance, InstForm, LeafTy, NamedVal, Shape, TypeDecl, Value, Variant,
    ConstructError, decl_wf, form_arity, form_wf, leaf_max,
};
use crate::source::Gen;

verus! {

/// How many distinct payloads a leaf drawn under `size` may take: the size
/// budget bounds leaf magnitude, the width bounds it too.
pub open spec fn leaf_cap(t: LeafTy, size: nat) -> nat {
    (if size < leaf_max(t) {
        size
    } else {
        leaf_max(t)
    }) + 1
}

/// The value a single raw draw `d` yields for a leaf of type `t` under size
/// budget `size`: the draw reduced modulo the leaf's cap.
pub open spec fn leaf_val(t: LeafTy, size: nat, d: u64) -> Value {
    match t {
        LeafTy::U8 => Value::U8(((d as nat) % leaf_cap(t, size)) as u8),
        LeafTy::U16 => Value::U16(((d as nat) % leaf_cap(t, size)) as u16),
        LeafTy::U32 => Value::U32(((d as nat) % leaf_cap(t, size)) as u32),
    }
}

/// `out` is the instance form that constructing `form` under `size` from the
/// draw stream `draws` yields: the same form kind, the declared field names,
/// and the field values drawn in declaration order, one draw each.
pub open spec fn constructed_form(form: FieldForm, size: nat, draws: Seq<u64>, out: InstForm) -> bool {
    match form {
        FieldForm::Unit => out is Unit,
        FieldForm::Positional(fs) => out matches InstForm::Positional(vs) && vs@.len() == fs@.len()
            && (forall|i: int|
            0 <= i < fs@.len() ==> vs@[i] == leaf_val(fs@[i].ty, size, #[trigger] draws[i])),
        FieldForm::Named(fs) => out matches InstForm::Named(nvs) && nvs@.len() == fs@.len() && (
        forall|i: int|
            0 <= i < fs@.len() ==> (#[trigger] fs@[i].name matches Some(nm) && nvs@[i].name@
                == nm@)) && (forall|i: int|
            0 <= i < fs@.len() ==> nvs@[i].value == leaf_val(fs@[i].ty, size, #[trigger] draws[i])),
    }
}

/// The largest field count over a sum's variants.
pub open spec fn max_arity(vs: Seq<Variant>) -> nat
    decreases vs.len(),
{
    if vs.len() == 0 {
        0
    } else {
        let rest = max_arity(vs.drop_first());
        if form_arity(vs[0].form) > rest {
            form_arity(vs[0].form)
        } else {
            rest
        }
    }
}

/// An upper bound on how many draws constructing a shape can consume: its
/// field count, plus one selection draw for a sum.
pub open spec fn draws_needed(s: Shape) -> nat {
    match s {
        Shape::Record(f) => form_arity(f),
        Shape::Sum(vs) => 1 + max_arity(vs@),
    }
}

/// Every variant's field count is bounded by the sum's largest.
pub proof fn lemma_max_arity(vs: Seq<Variant>, i: int)
    requires
        0 <= i < vs.len(),
    ensures
        form_arity(vs[i].form) <= max_arity(vs),
    decreases vs.len(),
{
    if i > 0 {
        lemma_max_arity(vs.drop_first(), i - 1);
        assert(vs.drop_first()[i - 1] == vs[i]);
    }
}

/// What construction returns, for every well-shaped declaration: a record
/// constructs its one form; a sum whose variant count exceeds the size
/// budget fails with `InsufficientSizeBudget` and consumes nothing; any
/// other sum consumes exactly one draw to select the variant index from the
/// head draw, then constructs that variant's fields from the rest.
pub open spec fn construct_post(
    decl: TypeDecl,
    size: nat,
    draws: Seq<u64>,
    after: Seq<u64>,
    r: Result<Instance, ConstructError>,
) -> bool {
    match decl.shape {
        Shape::Record(form) => r matches Ok(inst) && inst matches Instance::Record(f)
            && constructed_form(form, size, draws, f) && after =~= draws.skip(
            form_arity(form) as int,
        ),
        Shape::Sum(vs) => {
            let n = vs@.len();
            if size < n {
                r matches Err(e) && e == ConstructError::InsufficientSizeBudget && after =~= draws
            } else {
                let idx = draws[0] as nat % n;
                r matches Ok(inst) && inst matches Instance::Sum { index, name, form } && index
                    as nat == idx && name@ == vs@[idx as int].name@ && constructed_form(
                    vs@[idx as int].form,
                    size,
                    draws.skip(1),
                    form,
                ) && after =~= draws.skip(1 + form_arity(vs@[idx as int].form) as int)
            }
        },
    }
}

/// Construct one leaf value: consume the next draw and reduce it into the
/// leaf's range under the source's size budget.
pub fn construct_leaf(t: LeafTy, g: &mut Gen) -> (v: Value)
    requires
        old(g).stream().len() > 0,
    ensures
        v == leaf_val(t, old(g).spec_size(), old(g).stream()[0]),
        final(g).stream() =~= old(g).stream().skip(1),
        final(g).spec_size() == old(g).spec_size(),
{
    let size = g.size();
    let d = g.next_draw();
    match t {
        LeafTy::U8 => {
            let m: u64 = if (size as u64) < 0xff {
                size as u64
            } else {
                0xff
            };
            Value::U8((d % (m + 1)) as u8)
        },
        LeafTy::U16 => {
            let m: u64 = if (size as u64) < 0xffff {
                size as u64
            } else {
                0xffff
            };
            Value::U16((d % (m + 1)) as u16)
        },
        LeafTy::U32 => {
            let m: u64 = if (size as u64) < 0xffff_ffff {
                size as u64
            } else {
                0xffff_ffff
            };
            Value::U32((d % (m + 1)) as u32)
        },
    }
}

/// Construct the field values of one form: each field independently, in
/// declared field order, one draw per field; a unit form draws nothing.
pub fn construct_form(form: &FieldForm, g: &mut Gen) -> (out: InstForm)
    requires
        form_wf(*form),
        old(g).stream().len() >= form_arity(*form),
    ensures
        final(g).spec_size() == old(g).spec_size(),
        constructed_form(*form, old(g).spec_size(), old(g).stream(), out),
        final(g).stream() =~= old(g).stream().skip(form_arity(*form) as int),
{
    let ghost size0 = old(g).spec_size();
    let ghost draws0 = old(g).stream();
    match form {
        FieldForm::Unit => InstForm::Unit,
        FieldForm::Positional(fields) => {
            let mut vals: Vec<Value> = Vec::new();
            let nf = fields.len();
            for i in 0..nf
                invariant
                    nf == fields@.len(),
                    draws0.len() >= nf,
                    vals@.len() == i,
                    g.spec_size() == size0,
                    g.stream() =~= draws0.skip(i as int),
                    forall|j: int|
                        0 <= j < i ==> vals@[j] == leaf_val(fields@[j].ty, size0, draws0[j]),
            {
                let v = construct_leaf(fields[i].ty, g);
                vals.push(v);
                proof {
                    assert(g.stream() =~= draws0.skip(i as int + 1));
                    assert(draws0.skip(i as int)[0] == draws0[i as int]);
                }
            }
            InstForm::Positional(vals)
        },
        FieldForm::Named(fields) => {
            let mut nvals: Vec<NamedVal> = Vec::new();
            let nf = fields.len();
            for i in 0..nf
                invariant
                    nf == fields@.len(),
                    draws0.len() >= nf,
                    form_wf(FieldForm::Named(*fields)),
                    nvals@.len() == i,
                    g.spec_size() == size0,
                    g.stream() =~= draws0.skip(i as int),
                    forall|j: int|
                        0 <= j < i ==> (#[trigger] fields@[j].name matches Some(nm)
                            && nvals@[j].name@ == nm@),
                    forall|j: int|
                        0 <= j < i ==> #[trigger] nvals@[j].value == leaf_val(
                            fields@[j].ty,
                            size0,
                            draws0[j],
                        ),
            {
                let v = construct_leaf(fields[i].ty, g);
                match &fields[i].name {
                    Some(n) => {
                        nvals.push(NamedVal { name: n.clone(), value: v });
                    },
                    None => {
                        proof {
                            assert(false);
                        }
                    },
                }
                proof {
                    assert(g.stream() =~= draws0.skip(i as int + 1));
                    assert(draws0.skip(i as int)[0] == draws0[i as int]);
                }
            }
            InstForm::Named(nvals)
        },
    }
}

/// Construct one instance of the declared type from the supplied source.
///
/// A record constructs each field independently, in declared field order. A
/// sum first checks that the size budget admits all variants — failing with
/// `InsufficientSizeBudget` otherwise — then consumes exactly one draw to
/// pick the variant index uniformly from the declared range, whatever the
/// chosen variant's shape, and constructs that variant's fields.
pub fn construct(decl: &TypeDecl, g: &mut Gen) -> (r: Result<Instance, ConstructError>)
    requires
        decl_wf(*decl),
        old(g).stream().len() >= draws_needed(decl.shape),
    ensures
        final(g).spec_size() == old(g).spec_size(),
        construct_post(*decl, old(g).spec_size(), old(g).stream(), final(g).stream(), r),
{
    match &decl.shape {
        Shape::Record(form) => {
            let f = construct_form(form, g);
            Ok(Instance::Record(f))
        },
        Shape::Sum(vs) => {
            let n = vs.len();
            if g.size() < n {
                return Err(ConstructError::InsufficientSizeBudget);
            }
            let idx = g.gen_range(n);
            proof {
                lemma_max_arity(vs@, idx as int);
            }
            let variant = &vs[idx];
            let f = construct_form(&variant.form, g);
            Ok(Instance::Sum { index: idx, name: variant.name.clone(), form: f })
        },
    }
}

} // verus!
