//! The shrink generator: from one constructed instance, a finite sequence of
//! simpler candidate instances for the minimization search.
//!
//! Decomposition is shared by records and sum variants and is dispatched on
//! the shape the instance actually holds: a unit form yields nothing, and a
//! form with fields shrinks componentwise — every candidate replaces exactly
//! one field value by a smaller one, field by field in declaration order,
//! keeping the outer shape, the field names and, for sums, the variant tag.

use vstd::prelude::*;
use crate::model::{
    Instance, InstForm, NamedVal, Value, form_vals, inst_vals, rewrapped, same_form_skeleton,
    val_nat,
};

verus! {

/// A value one halving step smaller, in the same width.
pub open spec fn half_value(v: Value) -> Value {
    match v {
        Value::U8(x) => Value::U8(x / 2),
        Value::U16(x) => Value::U16(x / 2),
        Value::U32(x) => Value::U32(x / 2),
    }
}

/// The shrink sequence of one leaf value: successive halvings down to zero,
/// each strictly smaller than the one before; zero shrinks to nothing.
pub open spec fn shrink_value_seq(v: Value) -> Seq<Value>
    decreases val_nat(v),
{
    if val_nat(v) == 0 {
        Seq::empty()
    } else {
        seq![half_value(v)] + shrink_value_seq(half_value(v))
    }
}

/// The componentwise shrink candidates of `vals` from component `i` on:
/// for each component in order, each of its smaller values substituted into
/// the tuple with every other component unchanged.
pub open spec fn cw_shrinks_from(vals: Seq<Value>, i: int) -> Seq<Seq<Value>>
    decreases vals.len() - i,
{
    if i < 0 || i >= vals.len() {
        Seq::empty()
    } else {
        shrink_value_seq(vals[i]).map_values(|v: Value| vals.update(i, v)) + cw_shrinks_from(
            vals,
            i + 1,
        )
    }
}

/// The full componentwise shrink sequence of a field-value tuple.
pub open spec fn componentwise_shrinks(vals: Seq<Value>) -> Seq<Seq<Value>> {
    cw_shrinks_from(vals, 0)
}

/// What the shrink sequence of an instance is: one candidate per entry of
/// the componentwise shrink sequence of its field values, in that order,
/// each re-wrapped into the instance's own shape, names and variant tag.
pub open spec fn shrink_post(inst: Instance, out: Seq<Instance>) -> bool {
    let cw = componentwise_shrinks(inst_vals(inst));
    out.len() == cw.len() && forall|j: int|
        0 <= j < out.len() ==> rewrapped(inst, cw[j], #[trigger] out[j])
}

/// Whether a value's payload is still positive, so that it shrinks further.
fn val_pos(v: Value) -> (r: bool)
    ensures
        r == (val_nat(v) > 0),
{
    match v {
        Value::U8(x) => x > 0,
        Value::U16(x) => x > 0,
        Value::U32(x) => x > 0,
    }
}

/// One halving step, executably.
fn half(v: Value) -> (r: Value)
    ensures
        r == half_value(v),
{
    match v {
        Value::U8(x) => Value::U8(x / 2),
        Value::U16(x) => Value::U16(x / 2),
        Value::U32(x) => Value::U32(x / 2),
    }
}

/// The shrink sequence of one leaf value, materialized in order.
pub fn shrink_value(v: Value) -> (out: Vec<Value>)
    ensures
        out@ =~= shrink_value_seq(v),
{
    let mut out: Vec<Value> = Vec::new();
    let mut cur = v;
    while val_pos(cur)
        invariant
            out@ + shrink_value_seq(cur) =~= shrink_value_seq(v),
        decreases val_nat(cur),
    {
        let h = half(cur);
        out.push(h);
        proof {
            assert(shrink_value_seq(cur) =~= seq![h] + shrink_value_seq(h));
            assert(out@ + shrink_value_seq(h) =~= shrink_value_seq(v));
        }
        cur = h;
    }
    proof {
        assert(shrink_value_seq(cur) =~= Seq::<Value>::empty());
        assert(out@ =~= shrink_value_seq(v));
    }
    out
}

/// Copy a value vector.
fn copy_vals(vals: &Vec<Value>) -> (r: Vec<Value>)
    ensures
        r@ =~= vals@,
{
    let mut r: Vec<Value> = Vec::new();
    let n = vals.len();
    for i in 0..n
        invariant
            n == vals@.len(),
            r@ =~= vals@.take(i as int),
    {
        r.push(vals[i]);
        proof {
            assert(r@ =~= vals@.take(i as int + 1));
        }
    }
    proof {
        assert(vals@.take(n as int) =~= vals@);
    }
    r
}

/// Re-wrap replacement field values into the skeleton of an instance form.
fn rebuild_form(form: &InstForm, vals: &Vec<Value>) -> (r: InstForm)
    requires
        vals@.len() == form_vals(*form).len(),
    ensures
        same_form_skeleton(*form, r),
        form_vals(r) =~= vals@,
{
    match form {
        InstForm::Unit => InstForm::Unit,
        InstForm::Positional(_) => InstForm::Positional(copy_vals(vals)),
        InstForm::Named(nvs) => {
            let mut out: Vec<NamedVal> = Vec::new();
            let n = nvs.len();
            for j in 0..n
                invariant
                    n == nvs@.len(),
                    vals@.len() == n,
                    out@.len() == j,
                    forall|k: int| 0 <= k < j ==> out@[k].name@ == #[trigger] nvs@[k].name@,
                    forall|k: int| 0 <= k < j ==> #[trigger] out@[k].value == vals@[k],
            {
                out.push(NamedVal { name: nvs[j].name.clone(), value: vals[j] });
            }
            let r = InstForm::Named(out);
            proof {
                assert(form_vals(r) =~= vals@);
            }
            r
        },
    }
}

/// Re-wrap replacement field values into the full skeleton of an instance:
/// the same record or variant shape, names and tag, with the new values.
pub fn rebuild(inst: &Instance, vals: &Vec<Value>) -> (r: Instance)
    requires
        vals@.len() == inst_vals(*inst).len(),
    ensures
        rewrapped(*inst, vals@, r),
{
    match inst {
        Instance::Record(form) => Instance::Record(rebuild_form(form, vals)),
        Instance::Sum { index, name, form } => Instance::Sum {
            index: *index,
            name: name.clone(),
            form: rebuild_form(form, vals),
        },
    }
}

/// The shrink candidates contributed by the components from `i` on: for the
/// component at `i`, each smaller value re-wrapped with all other fields
/// kept, followed by the candidates of the later components.
fn shrink_components(inst: &Instance, vals: &Vec<Value>, i: usize) -> (out: Vec<Instance>)
    requires
        vals@ == inst_vals(*inst),
        i <= vals@.len(),
    ensures
        out@.len() == cw_shrinks_from(vals@, i as int).len(),
        forall|j: int|
            0 <= j < out@.len() ==> rewrapped(
                *inst,
                cw_shrinks_from(vals@, i as int)[j],
                #[trigger] out@[j],
            ),
    decreases vals@.len() - i,
{
    if i >= vals.len() {
        let out: Vec<Instance> = Vec::new();
        return out;
    }
    let svs = shrink_value(vals[i]);
    let ghost head = shrink_value_seq(vals@[i as int]).map_values(
        |v: Value| vals@.update(i as int, v),
    );
    let mut out: Vec<Instance> = Vec::new();
    let ns = svs.len();
    for k in 0..ns
        invariant
            i < vals@.len(),
            vals@ == inst_vals(*inst),
            ns == svs@.len(),
            svs@ =~= shrink_value_seq(vals@[i as int]),
            head == shrink_value_seq(vals@[i as int]).map_values(
                |v: Value| vals@.update(i as int, v),
            ),
            out@.len() == k,
            forall|j: int| 0 <= j < k ==> rewrapped(*inst, head[j], #[trigger] out@[j]),
    {
        let mut nv = copy_vals(vals);
        nv.set(i, svs[k]);
        proof {
            assert(nv@ =~= vals@.update(i as int, svs@[k as int]));
            assert(head[k as int] == vals@.update(i as int, svs@[k as int]));
        }
        let r = rebuild(inst, &nv);
        out.push(r);
    }
    let mut tail = shrink_components(inst, vals, i + 1);
    out.append(&mut tail);
    proof {
        let cw = cw_shrinks_from(vals@, i as int);
        assert(cw =~= head + cw_shrinks_from(vals@, i as int + 1));
        assert(forall|j: int|
            0 <= j < out@.len() ==> rewrapped(*inst, cw[j], #[trigger] out@[j]));
    }
    out
}

/// The field values an instance holds, in field order, materialized.
pub fn inst_vals_exec(inst: &Instance) -> (r: Vec<Value>)
    ensures
        r@ =~= inst_vals(*inst),
{
    let form = match inst {
        Instance::Record(form) => form,
        Instance::Sum { form, .. } => form,
    };
    match form {
        InstForm::Unit => Vec::new(),
        InstForm::Positional(vs) => copy_vals(vs),
        InstForm::Named(nvs) => {
            let mut r: Vec<Value> = Vec::new();
            let n = nvs.len();
            for j in 0..n
                invariant
                    n == nvs@.len(),
                    r@.len() == j,
                    forall|k: int| 0 <= k < j ==> #[trigger] r@[k] == nvs@[k].value,
            {
                r.push(nvs[j].value);
            }
            proof {
                assert(r@ =~= nvs@.map_values(|nv: NamedVal| nv.value));
            }
            r
        },
    }
}

/// The shrink sequence of an instance, produced fresh on each invocation:
/// nothing for a unit shape; for a shape with fields, the componentwise
/// candidates in field order, each re-wrapped into the same shape — a sum
/// instance shrinks only within the variant it holds.
pub fn shrink(inst: &Instance) -> (out: Vec<Instance>)
    ensures
        shrink_post(*inst, out@),
{
    let vals = inst_vals_exec(inst);
    proof {
        assert(vals@ == inst_vals(*inst));
    }
    shrink_components(inst, &vals, 0)
}

/// The componentwise shrink candidates contributed by the components before
/// `i`, in order: the prefix that `cw_shrinks_from` leaves out.
pub open spec fn cw_upto(vals: Seq<Value>, i: int) -> Seq<Seq<Value>>
    decreases i,
{
    if i <= 0 || i > vals.len() {
        Seq::empty()
    } else {
        cw_upto(vals, i - 1) + shrink_value_seq(vals[i - 1]).map_values(
            |v: Value| vals.update(i - 1, v),
        )
    }
}

/// The full componentwise sequence splits at any component boundary into
/// the candidates of the earlier components and those of the rest.
pub proof fn lemma_cw_split(vals: Seq<Value>, i: int)
    requires
        0 <= i <= vals.len(),
    ensures
        componentwise_shrinks(vals) =~= cw_upto(vals, i) + cw_shrinks_from(vals, i),
    decreases i,
{
    if i > 0 {
        lemma_cw_split(vals, i - 1);
        assert(cw_shrinks_from(vals, i - 1) =~= shrink_value_seq(vals[i - 1]).map_values(
            |v: Value| vals.update(i - 1, v),
        ) + cw_shrinks_from(vals, i));
    }
}

/// A finite, non-restartable stream of shrink candidates, produced fresh
/// for one instance and evaluated lazily: each candidate is built only when
/// asked for, candidates come in the componentwise order, each can be taken
/// once, and the consumer may abandon the stream at any point with nothing
/// held open.
pub struct ShrinkStream {
    orig: Instance,
    vals: Vec<Value>,
    comp: usize,
    cur: Value,
    count: Ghost<nat>,
}

impl ShrinkStream {
    /// The instance whose candidates the stream produces.
    pub closed spec fn source(&self) -> Instance {
        self.orig
    }

    /// How many candidates have been handed out so far.
    pub closed spec fn count(&self) -> nat {
        self.count@
    }

    /// The stream is well formed: the cursor walks the componentwise
    /// sequence, with `comp` the component being shrunk, `cur` the value
    /// whose remaining halvings are still to be emitted, and `count` the
    /// emitted prefix's length. Every stream the library hands out is well
    /// formed, and stays so.
    pub closed spec fn wf(&self) -> bool {
        let vals = self.vals@;
        &&& vals == inst_vals(self.orig)
        &&& self.comp <= vals.len()
        &&& if self.comp < vals.len() {
            let whole = shrink_value_seq(vals[self.comp as int]);
            let left = shrink_value_seq(self.cur);
            &&& left.len() <= whole.len()
            &&& whole.skip(whole.len() - left.len()) =~= left
            &&& self.count@ == cw_upto(vals, self.comp as int).len() + (whole.len() - left.len())
        } else {
            self.count@ == componentwise_shrinks(vals).len()
        }
    }

    /// Hand out the next candidate: the `count`-th entry of the instance's
    /// componentwise shrink sequence, re-wrapped into the instance's shape;
    /// nothing once the sequence is exhausted.
    pub fn next(&mut self) -> (r: Option<Instance>)
        requires
            old(self).wf(),
        ensures
            final(self).wf(),
            final(self).source() == old(self).source(),
            old(self).count() >= componentwise_shrinks(inst_vals(old(self).source())).len()
                ==> r is None && final(self).count() == old(self).count(),
            old(self).count() < componentwise_shrinks(inst_vals(old(self).source())).len() ==> (
            r matches Some(x) && rewrapped(
                old(self).source(),
                componentwise_shrinks(inst_vals(old(self).source()))[old(self).count() as int],
                x,
            ) && final(self).count() == old(self).count() + 1),
    {
        let ghost cw = componentwise_shrinks(self.vals@);
        // Skip components whose value has no halvings left.
        while self.comp < self.vals.len() && !val_pos(self.cur)
            invariant
                self.wf(),
                self.orig == old(self).orig,
                self.vals@ == old(self).vals@,
                self.count@ == old(self).count@,
            decreases self.vals@.len() - self.comp,
        {
            proof {
                assert(shrink_value_seq(self.cur) =~= Seq::<Value>::empty());
                assert(cw_upto(self.vals@, self.comp as int + 1) =~= cw_upto(
                    self.vals@,
                    self.comp as int,
                ) + shrink_value_seq(self.vals@[self.comp as int]).map_values(
                    |v: Value| self.vals@.update(self.comp as int, v),
                ));
            }
            self.comp = self.comp + 1;
            if self.comp < self.vals.len() {
                self.cur = self.vals[self.comp];
                proof {
                    let whole = shrink_value_seq(self.vals@[self.comp as int]);
                    assert(whole.skip(0) =~= whole);
                }
            } else {
                proof {
                    lemma_cw_split(self.vals@, self.vals@.len() as int);
                    assert(cw_shrinks_from(self.vals@, self.vals@.len() as int)
                        =~= Seq::<Seq<Value>>::empty());
                }
            }
        }
        if self.comp >= self.vals.len() {
            proof {
                lemma_cw_split(self.vals@, self.vals@.len() as int);
            }
            return None;
        }
        let ghost whole = shrink_value_seq(self.vals@[self.comp as int]);
        let ghost left = shrink_value_seq(self.cur);
        let ghost k = whole.len() - left.len();
        let h = half(self.cur);
        let mut nv = copy_vals(&self.vals);
        nv.set(self.comp, h);
        let x = rebuild(&self.orig, &nv);
        proof {
            lemma_cw_split(self.vals@, self.comp as int);
            assert(left =~= seq![h] + shrink_value_seq(h));
            assert(whole[k as int] == left[0]);
            assert(cw_shrinks_from(self.vals@, self.comp as int) =~= whole.map_values(
                |v: Value| self.vals@.update(self.comp as int, v),
            ) + cw_shrinks_from(self.vals@, self.comp as int + 1));
            assert(cw[self.count@ as int] == self.vals@.update(self.comp as int, h));
            assert(nv@ =~= self.vals@.update(self.comp as int, h));
            assert(whole.skip(k as int + 1) =~= whole.skip(k as int).skip(1));
            assert(whole.skip(k as int).skip(1) =~= left.skip(1));
            assert(left.skip(1) =~= shrink_value_seq(h));
        }
        self.cur = h;
        proof {
            self.count@ = self.count@ + 1;
        }
        Some(x)
    }
}

/// The shrink sequence of an instance as a lazily produced stream: nothing
/// is handed out yet, and every candidate the stream will hand out is an
/// entry of the instance's componentwise shrink sequence, in order.
pub fn shrink_stream(inst: Instance) -> (s: ShrinkStream)
    ensures
        s.wf(),
        s.source() == inst,
        s.count() == 0,
{
    let vals = inst_vals_exec(&inst);
    proof {
        assert(vals@ == inst_vals(inst));
    }
    let cur = if vals.len() > 0 {
        vals[0]
    } else {
        Value::U8(0)
    };
    proof {
        if vals@.len() > 0 {
            let whole = shrink_value_seq(vals@[0]);
            assert(whole.skip(0) =~= whole);
        } else {
            assert(componentwise_shrinks(vals@) =~= Seq::<Seq<Value>>::empty());
        }
    }
    ShrinkStream { orig: inst, vals, comp: 0, cur, count: Ghost(0nat) }
}

} // verus!
