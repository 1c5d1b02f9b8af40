use arbitrary_derive::model::{Field, FieldForm, InstForm, Instance, LeafTy, Shape, TypeDecl, Value, Variant};
use arbitrary_derive::source::Gen;
use arbitrary_derive::construct::{construct, construct_leaf};
use arbitrary_derive::shrink::shrink;

// A fixed recorded draw stream standing in for a fixed-seed generator: two
// sources built from it are identically seeded.
const SEED: [u64; 20] = [
    9000, 70000, 5_000_000_000, 13, 255, 256, 65536, 1, 2, 3, 4, 5, 6, 7, 8, 9, 10, 11, 12, 77,
];

fn get_gen() -> Gen {
    Gen::new(255, SEED.to_vec())
}

fn named(n: &str, ty: LeafTy) -> Field {
    Field { name: Some(String::from(n)), ty }
}

fn unnamed(ty: LeafTy) -> Field {
    Field { name: None, ty }
}

fn record(name: &str, form: FieldForm) -> TypeDecl {
    TypeDecl {
        name: String::from(name),
        generics: String::new(),
        constraints: String::new(),
        shape: Shape::Record(form),
    }
}

fn sum(name: &str, variants: Vec<Variant>) -> TypeDecl {
    TypeDecl {
        name: String::from(name),
        generics: String::new(),
        constraints: String::new(),
        shape: Shape::Sum(variants),
    }
}

#[test]
fn empty() {
    let mut gen = get_gen();
    let decl = record("Empty", FieldForm::Unit);
    let inst = construct(&decl, &mut gen).unwrap();
    assert_eq!(inst, Instance::Record(InstForm::Unit));
}

#[test]
fn tuple_arbitrary() {
    let mut gen = get_gen();
    let decl = record(
        "Tuple",
        FieldForm::Positional(vec![unnamed(LeafTy::U8), unnamed(LeafTy::U16), unnamed(LeafTy::U32)]),
    );
    let inst = construct(&decl, &mut gen).unwrap();
    let (a, b, c) = match inst {
        Instance::Record(InstForm::Positional(vs)) => (vs[0], vs[1], vs[2]),
        other => panic!("unexpected instance {:?}", other),
    };

    gen = get_gen();
    assert_eq!(a, construct_leaf(LeafTy::U8, &mut gen));
    assert_eq!(b, construct_leaf(LeafTy::U16, &mut gen));
    assert_eq!(c, construct_leaf(LeafTy::U32, &mut gen));
}

#[test]
fn struct_arbitrary() {
    let mut gen = get_gen();
    let decl = record(
        "Struct",
        FieldForm::Named(vec![
            named("a", LeafTy::U8),
            named("b", LeafTy::U16),
            named("c", LeafTy::U32),
        ]),
    );
    let inst = construct(&decl, &mut gen).unwrap();
    let (a, b, c) = match inst {
        Instance::Record(InstForm::Named(nvs)) => {
            assert_eq!(nvs[0].name, "a");
            assert_eq!(nvs[1].name, "b");
            assert_eq!(nvs[2].name, "c");
            (nvs[0].value, nvs[1].value, nvs[2].value)
        },
        other => panic!("unexpected instance {:?}", other),
    };

    gen = get_gen();
    assert_eq!(a, construct_leaf(LeafTy::U8, &mut gen));
    assert_eq!(b, construct_leaf(LeafTy::U16, &mut gen));
    assert_eq!(c, construct_leaf(LeafTy::U32, &mut gen));
}

fn enum_variants_decl() -> TypeDecl {
    sum(
        "EnumVariants",
        vec![
            Variant { name: String::from("Empty1"), form: FieldForm::Unit },
            Variant {
                name: String::from("Tuple"),
                form: FieldForm::Positional(vec![
                    unnamed(LeafTy::U8),
                    unnamed(LeafTy::U16),
                    unnamed(LeafTy::U32),
                ]),
            },
            Variant {
                name: String::from("Struct"),
                form: FieldForm::Named(vec![
                    named("a", LeafTy::U32),
                    named("b", LeafTy::U16),
                    named("c", LeafTy::U8),
                ]),
            },
        ],
    )
}

#[test]
fn enum_variants() {
    // Selection heads 0, 1, 2, 4 (-> 1), 5 (-> 2), each followed by enough
    // draws for the largest variant.
    let draws: Vec<u64> = vec![
        0, 1, 11, 12, 13, 2, 21, 22, 23, 4, 31, 32, 33, 5, 41, 42, 43, 0, 0, 0,
    ];
    let mut gen = Gen::new(255, draws);
    let decl = enum_variants_decl();

    let mut empty_found = false;
    let mut tuple_found = false;
    let mut struct_found = false;

    for _ in 0..5 {
        let e = construct(&decl, &mut gen).unwrap();

        match e {
            Instance::Sum { index: 0, .. } => empty_found = true,
            Instance::Sum { index: 1, .. } => tuple_found = true,
            Instance::Sum { index: 2, .. } => struct_found = true,
            other => panic!("unexpected instance {:?}", other),
        }
    }

    assert!(empty_found);
    assert!(tuple_found);
    assert!(struct_found);
}

fn enum_empty_decl() -> TypeDecl {
    sum("EnumEmpty", vec![Variant { name: String::from("Empty"), form: FieldForm::Unit }])
}

#[test]
fn enum_empty_arbitrary() {
    let mut gen = get_gen();
    let inst = construct(&enum_empty_decl(), &mut gen).unwrap();
    assert_eq!(
        inst,
        Instance::Sum { index: 0, name: String::from("Empty"), form: InstForm::Unit }
    );
}

#[test]
fn enum_empty_shrink() {
    let inst = Instance::Sum { index: 0, name: String::from("Empty"), form: InstForm::Unit };
    assert!(shrink(&inst).is_empty());
}

#[test]
fn enum_tuple_arbitrary() {
    let mut gen = get_gen();
    let decl = sum(
        "EnumTuple",
        vec![Variant {
            name: String::from("Tuple"),
            form: FieldForm::Positional(vec![unnamed(LeafTy::U8), unnamed(LeafTy::U16)]),
        }],
    );
    let inst = construct(&decl, &mut gen).unwrap();
    let (a, b) = match inst {
        Instance::Sum { index: 0, form: InstForm::Positional(vs), .. } => (vs[0], vs[1]),
        other => panic!("unexpected instance {:?}", other),
    };

    gen = get_gen();
    gen.next_draw(); // skip the variant-selection draw
    assert_eq!(a, construct_leaf(LeafTy::U8, &mut gen));
    assert_eq!(b, construct_leaf(LeafTy::U16, &mut gen));
}

#[test]
fn enum_struct_arbitrary() {
    let mut gen = get_gen();
    let decl = sum(
        "EnumStruct",
        vec![Variant {
            name: String::from("Struct"),
            form: FieldForm::Named(vec![named("a", LeafTy::U16), named("b", LeafTy::U8)]),
        }],
    );
    let inst = construct(&decl, &mut gen).unwrap();
    let (a, b) = match inst {
        Instance::Sum { index: 0, form: InstForm::Named(nvs), .. } => {
            assert_eq!(nvs[0].name, "a");
            assert_eq!(nvs[1].name, "b");
            (nvs[0].value, nvs[1].value)
        },
        other => panic!("unexpected instance {:?}", other),
    };

    gen = get_gen();
    gen.next_draw(); // skip the variant-selection draw
    assert_eq!(a, construct_leaf(LeafTy::U16, &mut gen));
    assert_eq!(b, construct_leaf(LeafTy::U8, &mut gen));
}

#[test]
fn selection_consumes_one_draw_regardless_of_variant() {
    let decl = enum_variants_decl();
    // A unit variant costs the selection draw alone.
    let mut gen = Gen::new(255, vec![0, 9, 9, 9]);
    construct(&decl, &mut gen).unwrap();
    assert_eq!(gen.remaining(), 3);
    // A three-field variant costs the selection draw plus one per field.
    let mut gen = Gen::new(255, vec![1, 9, 9, 9]);
    construct(&decl, &mut gen).unwrap();
    assert_eq!(gen.remaining(), 0);
}

#[test]
fn leaf_values_are_size_bounded() {
    // Size 255 caps every leaf at 255 + 1 distinct payloads: 9000 % 256.
    let mut gen = Gen::new(255, vec![9000, 9000, 9000]);
    assert_eq!(construct_leaf(LeafTy::U8, &mut gen), Value::U8(40));
    assert_eq!(construct_leaf(LeafTy::U16, &mut gen), Value::U16(40));
    assert_eq!(construct_leaf(LeafTy::U32, &mut gen), Value::U32(40));
}

#[test]
fn wide_budget_uses_leaf_width() {
    // A budget past the leaf width caps at the width instead.
    let mut gen = Gen::new(usize::MAX, vec![70000, 70000]);
    assert_eq!(construct_leaf(LeafTy::U8, &mut gen), Value::U8((70000 % 256) as u8));
    assert_eq!(construct_leaf(LeafTy::U16, &mut gen), Value::U16((70000 % 65536) as u16));
}
