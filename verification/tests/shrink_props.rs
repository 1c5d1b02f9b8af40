use arbitrary_derive::model::{InstForm, Instance, NamedVal, Value};
use arbitrary_derive::shrink::{shrink, shrink_stream, shrink_value};

fn positional_record(vals: Vec<Value>) -> Instance {
    Instance::Record(InstForm::Positional(vals))
}

#[test]
fn unit_record_shrinks_to_nothing() {
    assert!(shrink(&Instance::Record(InstForm::Unit)).is_empty());
}

#[test]
fn leaf_shrink_halves_to_zero() {
    let halves: Vec<Value> = shrink_value(Value::U16(500));
    let expected: Vec<Value> = vec![250, 125, 62, 31, 15, 7, 3, 1, 0]
        .into_iter()
        .map(Value::U16)
        .collect();
    assert_eq!(halves, expected);
    assert!(shrink_value(Value::U8(0)).is_empty());
    assert_eq!(shrink_value(Value::U32(1)), vec![Value::U32(0)]);
}

#[test]
fn single_field_delegates_to_field_shrink() {
    let inst = positional_record(vec![Value::U16(500)]);
    let out = shrink(&inst);
    let extracted: Vec<Value> = out
        .iter()
        .map(|s| match s {
            Instance::Record(InstForm::Positional(vs)) => vs[0],
            other => panic!("unexpected candidate {:?}", other),
        })
        .collect();
    assert_eq!(extracted, shrink_value(Value::U16(500)));
}

#[test]
fn two_field_record_shrinks_componentwise() {
    // {a = 3 (8-bit), b = 500 (16-bit)} shrinks to exactly the
    // componentwise tuple-shrink sequence of (3, 500), re-wrapped.
    let a = Value::U8(3);
    let b = Value::U16(500);
    let inst = Instance::Record(InstForm::Named(vec![
        NamedVal { name: String::from("a"), value: a },
        NamedVal { name: String::from("b"), value: b },
    ]));
    let out = shrink(&inst);

    let mut expected: Vec<(Value, Value)> = Vec::new();
    for smaller in shrink_value(a) {
        expected.push((smaller, b));
    }
    for smaller in shrink_value(b) {
        expected.push((a, smaller));
    }

    let got: Vec<(Value, Value)> = out
        .iter()
        .map(|s| match s {
            Instance::Record(InstForm::Named(nvs)) => {
                assert_eq!(nvs[0].name, "a");
                assert_eq!(nvs[1].name, "b");
                (nvs[0].value, nvs[1].value)
            },
            other => panic!("unexpected candidate {:?}", other),
        })
        .collect();
    assert_eq!(got, expected);
}

#[test]
fn sum_instance_shrinks_within_its_variant() {
    let inst = Instance::Sum {
        index: 1,
        name: String::from("Pair"),
        form: InstForm::Positional(vec![Value::U8(9), Value::U16(20)]),
    };
    let out = shrink(&inst);
    assert!(!out.is_empty());
    for cand in &out {
        match cand {
            Instance::Sum { index, name, .. } => {
                assert_eq!(*index, 1);
                assert_eq!(name, "Pair");
            },
            other => panic!("candidate left the variant: {:?}", other),
        }
    }
}

#[test]
fn shrink_stream_hands_out_in_order_then_ends() {
    let inst = positional_record(vec![Value::U8(2)]);
    let eager = shrink(&inst);
    let mut stream = shrink_stream(inst.clone());
    let mut seen: Vec<Instance> = Vec::new();
    while let Some(c) = stream.next() {
        seen.push(c);
    }
    assert_eq!(seen, eager);
    assert!(stream.next().is_none());
}
