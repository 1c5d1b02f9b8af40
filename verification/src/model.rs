//! The type-description model: a normalized in-memory representation of a
//! declared record or sum type, together with the instances that the
//! generated constructor produces and the shrinker consumes.

use vstd::prelude::*;

verus! {

/// The leaf field types the generated routines know how to draw and shrink:
/// unsigned integers of the three common widths.
#[derive(Clone, Copy, PartialEq, Eq, Structural, Debug)]
pub enum LeafTy {
    U8,
    U16,
    U32,
}

/// A concrete field value, tagged with its width.
#[derive(Clone, Copy, PartialEq, Eq, Structural, Debug)]
pub enum Value {
    U8(u8),
    U16(u16),
    U32(u32),
}

/// One declared field: an optional name (named forms reconstruct by name,
/// positional forms by declaration order) and the field's type.
#[derive(Clone, Debug)]
pub struct Field {
    pub name: Option<String>,
    pub ty: LeafTy,
}

/// The constructible form of a record or of one sum variant.
#[derive(Clone, Debug)]
pub enum FieldForm {
    Unit,
    Positional(Vec<Field>),
    Named(Vec<Field>),
}

/// One named alternative of a sum type.
#[derive(Clone, Debug)]
pub struct Variant {
    pub name: String,
    pub form: FieldForm,
}

/// The shape of a declared type: a single constructible form, or an ordered
/// list of variants whose order fixes the numeric selection index.
#[derive(Clone, Debug)]
pub enum Shape {
    Record(FieldForm),
    Sum(Vec<Variant>),
}

/// A declared type: its name, its generic parameter list and constraint
/// clause (propagated unchanged to the emitted implementation), and a shape.
#[derive(Clone, Debug)]
pub struct TypeDecl {
    pub name: String,
    pub generics: String,
    pub constraints: String,
    pub shape: Shape,
}

/// One field value of a named instance form.
#[derive(Clone, PartialEq, Debug)]
pub struct NamedVal {
    pub name: String,
    pub value: Value,
}

/// The field values of one constructed instance, in the form the declaring
/// shape prescribes.
#[derive(Clone, PartialEq, Debug)]
pub enum InstForm {
    Unit,
    Positional(Vec<Value>),
    Named(Vec<NamedVal>),
}

/// A constructed instance: either the single record form, or one variant of
/// a sum, remembering which variant it holds.
#[derive(Clone, PartialEq, Debug)]
pub enum Instance {
    Record(InstForm),
    Sum { index: usize, name: String, form: InstForm },
}

/// The two failure kinds of construction: a generator whose size budget
/// cannot select among all variants fairly, and the structurally impossible
/// out-of-range variant index.
#[derive(Clone, Copy, PartialEq, Eq, Structural, Debug)]
pub enum ConstructError {
    InsufficientSizeBudget,
    InvariantViolation,
}

/// The numeric payload of a value, as a mathematical integer.
pub open spec fn val_nat(v: Value) -> nat {
    match v {
        Value::U8(x) => x as nat,
        Value::U16(x) => x as nat,
        Value::U32(x) => x as nat,
    }
}

/// The largest payload a leaf type can hold.
pub open spec fn leaf_max(t: LeafTy) -> nat {
    match t {
        LeafTy::U8 => 0xff,
        LeafTy::U16 => 0xffff,
        LeafTy::U32 => 0xffff_ffff,
    }
}

/// Number of fields a form declares.
pub open spec fn form_arity(f: FieldForm) -> nat {
    match f {
        FieldForm::Unit => 0,
        FieldForm::Positional(fs) => fs@.len(),
        FieldForm::Named(fs) => fs@.len(),
    }
}

/// The declared field types of a form, in declaration order.
pub open spec fn form_tys(f: FieldForm) -> Seq<LeafTy> {
    match f {
        FieldForm::Unit => Seq::empty(),
        FieldForm::Positional(fs) => fs@.map_values(|fd: Field| fd.ty),
        FieldForm::Named(fs) => fs@.map_values(|fd: Field| fd.ty),
    }
}

/// A named form is well shaped when every field carries a name.
pub open spec fn form_wf(f: FieldForm) -> bool {
    match f {
        FieldForm::Unit => true,
        FieldForm::Positional(_) => true,
        FieldForm::Named(fs) => forall|j: int| 0 <= j < fs@.len() ==> fs@[j].name is Some,
    }
}

/// A declaration is well shaped when its forms are, and a sum declares at
/// least one variant: empty sums leave nothing to select.
pub open spec fn decl_wf(d: TypeDecl) -> bool {
    match d.shape {
        Shape::Record(f) => form_wf(f),
        Shape::Sum(vs) => vs@.len() > 0 && forall|j: int|
            0 <= j < vs@.len() ==> form_wf(#[trigger] vs@[j].form),
    }
}

/// The values an instance form holds, in field order.
pub open spec fn form_vals(f: InstForm) -> Seq<Value> {
    match f {
        InstForm::Unit => Seq::empty(),
        InstForm::Positional(vs) => vs@,
        InstForm::Named(nvs) => nvs@.map_values(|nv: NamedVal| nv.value),
    }
}

/// The values an instance holds, in field order.
pub open spec fn inst_vals(i: Instance) -> Seq<Value> {
    match i {
        Instance::Record(f) => form_vals(f),
        Instance::Sum { form, .. } => form_vals(form),
    }
}

/// Two instance forms share a skeleton when they have the same form kind,
/// the same field count and, for named forms, the same field names in the
/// same order; only the values may differ.
pub open spec fn same_form_skeleton(a: InstForm, b: InstForm) -> bool {
    match a {
        InstForm::Unit => b is Unit,
        InstForm::Positional(vs) => b matches InstForm::Positional(ws) && vs@.len() == ws@.len(),
        InstForm::Named(nvs) => b matches InstForm::Named(mvs) && nvs@.len() == mvs@.len()
            && forall|j: int| 0 <= j < nvs@.len() ==> nvs@[j].name@ == #[trigger] mvs@[j].name@,
    }
}

/// Two instances share a skeleton when they are the same kind of instance,
/// hold the same variant (for sums) and their forms share a skeleton.
pub open spec fn same_skeleton(a: Instance, b: Instance) -> bool {
    match a {
        Instance::Record(f) => b matches Instance::Record(g) && same_form_skeleton(f, g),
        Instance::Sum { index, name, form } => b matches Instance::Sum {
            index: bi,
            name: bn,
            form: bf,
        } && bi == index && bn@ == name@ && same_form_skeleton(form, bf),
    }
}

/// `out` is `orig` with its field values replaced by `vals`: the shape, the
/// variant tag and the field names are kept, only the values change.
pub open spec fn rewrapped(orig: Instance, vals: Seq<Value>, out: Instance) -> bool {
    same_skeleton(orig, out) && inst_vals(out) == vals
}

} // verus!
