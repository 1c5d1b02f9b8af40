//! The stated laws of the two generated routines, proved from the contracts
//! of construction and shrinking.

use vstd::prelude::*;
use crate::model::{
    FieldForm, Instance, TypeDecl, Value, form_arity, form_tys, form_vals, inst_vals,
    rewrapped, ConstructError, InstForm,
};
use crate::construct::{constructed_form, construct_post, leaf_val};
use crate::shrink::{componentwise_shrinks, cw_shrinks_from, shrink_post, shrink_value_seq};

verus! {

/// Field values are drawn in declared field order, each field independently:
/// the i-th constructed value is what constructing that field's leaf alone
/// yields from an identically seeded source advanced past the i earlier
/// fields — its head draw.
pub proof fn law_fields_in_order(
    form: FieldForm,
    size: nat,
    draws: Seq<u64>,
    out: InstForm,
    i: int,
)
    requires
        constructed_form(form, size, draws, out),
        draws.len() >= form_arity(form),
        0 <= i < form_arity(form),
    ensures
        form_vals(out)[i] == leaf_val(form_tys(form)[i], size, draws.skip(i)[0]),
{
    assert(draws.skip(i)[0] == draws[i]);
    match form {
        FieldForm::Unit => {
        },
        FieldForm::Positional(fs) => {
            assert(form_tys(form)[i] == fs@[i].ty);
        },
        FieldForm::Named(fs) => {
            assert(form_tys(form)[i] == fs@[i].ty);
            assert(form_vals(out)[i] == out->Named_0@[i].value);
        },
    }
}

/// With a size budget of at least the variant count, sum construction
/// succeeds, the head draw alone decides the variant index, the index lies
/// inside the declared range, and exactly one draw is consumed for the
/// selection whatever the chosen variant's shape: the variant's own fields
/// are constructed from the stream with just that head draw removed.
pub proof fn law_sum_selection(
    decl: TypeDecl,
    size: nat,
    draws: Seq<u64>,
    after: Seq<u64>,
    r: Result<Instance, ConstructError>,
)
    requires
        decl.shape is Sum,
        decl.shape->Sum_0@.len() > 0,
        size >= decl.shape->Sum_0@.len(),
        construct_post(decl, size, draws, after, r),
    ensures
        r is Ok,
        r->Ok_0 is Sum,
        r->Ok_0->index as nat == draws[0] as nat % decl.shape->Sum_0@.len(),
        r->Ok_0->index < decl.shape->Sum_0@.len(),
        constructed_form(
            decl.shape->Sum_0@[r->Ok_0->index as int].form,
            size,
            draws.skip(1),
            r->Ok_0->form,
        ),
{
}

/// Every declared variant index is reachable: for each index below the
/// variant count there is a head draw — the index itself — whose selection
/// yields exactly that index.
pub proof fn law_every_variant_reachable(n: nat, i: nat)
    requires
        i < n,
        n <= 0xffff_ffff_ffff_ffff,
    ensures
        exists|d: u64| #[trigger] ((d as nat) % n) == i,
{
    let d: u64 = i as u64;
    assert(d as nat == i);
    vstd::arithmetic::div_mod::lemma_small_mod(i, n);
    assert((d as nat) % n == i);
}

/// Sum construction fails exactly when the size budget is below the variant
/// count, the failure is `InsufficientSizeBudget`, and nothing is drawn.
pub proof fn law_insufficient_size(
    decl: TypeDecl,
    size: nat,
    draws: Seq<u64>,
    after: Seq<u64>,
    r: Result<Instance, ConstructError>,
)
    requires
        decl.shape is Sum,
        construct_post(decl, size, draws, after, r),
    ensures
        r is Err <==> size < decl.shape->Sum_0@.len(),
        r is Err ==> r->Err_0 == ConstructError::InsufficientSizeBudget && after =~= draws,
{
}

/// The out-of-range selection failure is structurally impossible: whatever
/// construction returns, the only failure it can carry is the size-budget
/// one; `InvariantViolation` never escapes.
pub proof fn law_no_invariant_violation(
    decl: TypeDecl,
    size: nat,
    draws: Seq<u64>,
    after: Seq<u64>,
    r: Result<Instance, ConstructError>,
)
    requires
        construct_post(decl, size, draws, after, r),
    ensures
        r matches Err(e) ==> e == ConstructError::InsufficientSizeBudget,
{
}

/// A unit-shaped instance — a unit record or a unit variant — shrinks to
/// the empty sequence.
pub proof fn law_shrink_unit(inst: Instance, out: Seq<Instance>)
    requires
        inst_vals(inst).len() == 0,
        shrink_post(inst, out),
    ensures
        out =~= Seq::<Instance>::empty(),
{
    assert(cw_shrinks_from(inst_vals(inst), 0) =~= Seq::<Seq<Value>>::empty());
}

/// A single-field instance, mapped through field extraction, shrinks to
/// exactly the field value's own shrink sequence, order preserved.
pub proof fn law_shrink_single_field(inst: Instance, out: Seq<Instance>)
    requires
        inst_vals(inst).len() == 1,
        shrink_post(inst, out),
    ensures
        out.map_values(|s: Instance| inst_vals(s)[0]) =~= shrink_value_seq(inst_vals(inst)[0]),
{
    let vals = inst_vals(inst);
    let svs = shrink_value_seq(vals[0]);
    let cw = componentwise_shrinks(vals);
    assert(cw_shrinks_from(vals, 1) =~= Seq::<Seq<Value>>::empty());
    assert(cw =~= svs.map_values(|v: Value| vals.update(0, v)));
    assert forall|j: int| 0 <= j < out.len() implies #[trigger] inst_vals(out[j])[0]
        == svs[j] by {
        assert(rewrapped(inst, cw[j], out[j]));
        assert(cw[j] == vals.update(0, svs[j]));
    }
    assert(out.map_values(|s: Instance| inst_vals(s)[0]) =~= svs);
}

/// An instance with fields, mapped to its ordered field-value tuple,
/// shrinks to exactly the componentwise tuple-shrink sequence of the same
/// field values, order preserved.
pub proof fn law_shrink_componentwise(inst: Instance, out: Seq<Instance>)
    requires
        shrink_post(inst, out),
    ensures
        out.map_values(|s: Instance| inst_vals(s)) =~= componentwise_shrinks(inst_vals(inst)),
{
    let cw = componentwise_shrinks(inst_vals(inst));
    assert forall|j: int| 0 <= j < out.len() implies #[trigger] inst_vals(out[j]) == cw[j] by {
        assert(rewrapped(inst, cw[j], out[j]));
    }
}

/// A sum instance holding one variant shrinks only into instances of that
/// same variant: the index and the variant name are kept by every
/// candidate.
pub proof fn law_shrink_within_variant(inst: Instance, out: Seq<Instance>, j: int)
    requires
        inst is Sum,
        shrink_post(inst, out),
        0 <= j < out.len(),
    ensures
        out[j] is Sum,
        out[j]->index == inst->index,
        out[j]->name@ == inst->name@,
{
    let cw = componentwise_shrinks(inst_vals(inst));
    assert(rewrapped(inst, cw[j], out[j]));
}

} // verus!
