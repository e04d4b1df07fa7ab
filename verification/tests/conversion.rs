use toolbridge::dispatch::finish_call;
use toolbridge::dispatch::kwargs_to_value_dict;
use toolbridge::error::Error;
use toolbridge::from_host::extract_voxel_shape;
use toolbridge::from_host::obj_to_event;
use toolbridge::from_host::obj_to_tissue_properties;
use toolbridge::from_host::obj_to_value;
use toolbridge::from_host::obj_to_voxel_grid_phantom;
use toolbridge::host::HostValue;
use toolbridge::to_host::value_to_obj;
use toolbridge::value::Complex;
use toolbridge::value::Event;
use toolbridge::value::EventSeq;
use toolbridge::value::Quad;
use toolbridge::value::TissueProperties;
use toolbridge::value::Value;
use toolbridge::value::ValueDict;

fn f(x: f64) -> u64 {
    x.to_bits()
}

fn obj(attrs: Vec<(&str, HostValue)>) -> HostValue {
    HostValue::Obj(attrs.into_iter().map(|(k, v)| (k.to_string(), v)).collect())
}

fn dict(entries: Vec<(&str, HostValue)>) -> HostValue {
    HostValue::Dict(entries.into_iter().map(|(k, v)| (k.to_string(), v)).collect())
}

fn floats(xs: &[f64]) -> HostValue {
    HostValue::List(xs.iter().map(|x| HostValue::Float(f(*x))).collect())
}

fn ints(xs: &[i64]) -> HostValue {
    HostValue::List(xs.iter().map(|x| HostValue::Int(*x)).collect())
}

fn tag(s: &str) -> HostValue {
    HostValue::Str(s.to_string())
}

fn tissue_host(t1: f64, t2: f64, t2dash: f64, d: f64) -> HostValue {
    obj(vec![
        ("_type", tag("TissueProperties")),
        ("t1", HostValue::Float(f(t1))),
        ("t2", HostValue::Float(f(t2))),
        ("t2dash", HostValue::Float(f(t2dash))),
        ("d", HostValue::Float(f(d))),
    ])
}

fn attr_of<'a>(h: &'a HostValue, name: &str) -> &'a HostValue {
    match h {
        HostValue::Obj(attrs) => {
            for (k, v) in attrs {
                if k == name {
                    return v;
                }
            }
            panic!("missing attribute {name}");
        }
        _ => panic!("not an object"),
    }
}

#[test]
fn primitives_convert_directly() {
    assert_eq!(obj_to_value(&HostValue::Null).unwrap(), Value::Null);
    assert_eq!(obj_to_value(&HostValue::Bool(true)).unwrap(), Value::Bool(true));
    assert_eq!(obj_to_value(&HostValue::Int(-7)).unwrap(), Value::Int(-7));
    assert_eq!(obj_to_value(&HostValue::Float(f(2.5))).unwrap(), Value::Float(f(2.5)));
    assert_eq!(
        obj_to_value(&HostValue::Str("hello".to_string())).unwrap(),
        Value::Str("hello".to_string())
    );
}

#[test]
fn tissue_properties_example_round_trips() {
    // t1=1000.0, t2=80.0, t2dash=20.0, d=2.0; the host name `d` maps to `adc`.
    let host = tissue_host(1000.0, 80.0, 20.0, 2.0);
    let v = obj_to_value(&host).unwrap();
    assert_eq!(
        v,
        Value::TissueProperties(TissueProperties {
            t1: f(1000.0),
            t2: f(80.0),
            t2dash: f(20.0),
            adc: f(2.0),
        })
    );
    let back = value_to_obj(&v).unwrap();
    assert_eq!(attr_of(&back, "t1"), &HostValue::Float(f(1000.0)));
    assert_eq!(attr_of(&back, "t2"), &HostValue::Float(f(80.0)));
    assert_eq!(attr_of(&back, "t2dash"), &HostValue::Float(f(20.0)));
    assert_eq!(attr_of(&back, "d"), &HostValue::Float(f(2.0)));
    // And the reconstructed host object reads back as the same value.
    assert_eq!(obj_to_value(&back).unwrap(), v);
}

#[test]
fn event_seq_example_round_trips() {
    let pulse = obj(vec![
        ("_type", tag("Event")),
        ("variant", tag("Pulse")),
        (
            "fields",
            dict(vec![
                ("angle", HostValue::Float(f(1.57))),
                ("phase", HostValue::Float(f(0.0))),
            ]),
        ),
    ]);
    let adc = obj(vec![
        ("_type", tag("Event")),
        ("variant", tag("Adc")),
        ("fields", dict(vec![("phase", HostValue::Float(f(0.0)))])),
    ]);
    let host = obj(vec![
        ("_type", tag("EventSeq")),
        ("events", HostValue::List(vec![pulse, adc])),
    ]);
    let v = obj_to_value(&host).unwrap();
    let expected = Value::EventSeq(EventSeq(vec![
        Event::Pulse { angle: f(1.57), phase: f(0.0) },
        Event::Adc { phase: f(0.0) },
    ]));
    assert_eq!(v, expected);
    let back = value_to_obj(&v).unwrap();
    assert_eq!(obj_to_value(&back).unwrap(), expected);
}

#[test]
fn single_event_wraps_as_one_element_seq() {
    let fid = obj(vec![
        ("_type", tag("Event")),
        ("variant", tag("Fid")),
        ("fields", dict(vec![("kt", floats(&[1.0, 2.0, 3.0, 4.0]))])),
    ]);
    let v = obj_to_value(&fid).unwrap();
    assert_eq!(
        v,
        Value::EventSeq(EventSeq(vec![Event::Fid {
            kt: Quad { x: f(1.0), y: f(2.0), z: f(3.0), t: f(4.0) },
        }]))
    );
}

#[test]
fn kt_wrong_length_is_array_length_mismatch() {
    let fid = obj(vec![
        ("_type", tag("Event")),
        ("variant", tag("Fid")),
        ("fields", dict(vec![("kt", floats(&[1.0, 2.0, 3.0]))])),
    ]);
    let err = obj_to_event(&fid).unwrap_err();
    assert_eq!(err, Error::ArrayLengthMismatch { field: "kt".to_string(), actual: 3 });
}

#[test]
fn shape_data_wrong_length_is_array_length_mismatch() {
    let o = obj(vec![
        ("voxel_shape_type", tag("AABox")),
        ("voxel_shape_data", floats(&[1.0, 2.0])),
    ]);
    let err = extract_voxel_shape(&o).unwrap_err();
    assert_eq!(
        err,
        Error::ArrayLengthMismatch { field: "voxel_shape_data".to_string(), actual: 2 }
    );
}

fn grid_phantom_host(spacing: &[f64], size: &[i64]) -> HostValue {
    obj(vec![
        ("_type", tag("VoxelGridPhantom")),
        ("voxel_shape_type", tag("AASinc")),
        ("voxel_shape_data", floats(&[1.0, 1.0, 2.0])),
        ("grid_spacing", floats(spacing)),
        ("grid_size", ints(size)),
        ("pd", floats(&[1.0, 0.5])),
        ("t1", floats(&[3.0, 3.0])),
        ("t2", floats(&[0.1, 0.2])),
        ("t2dash", floats(&[0.05, 0.06])),
        ("adc", floats(&[0.0, 0.0])),
        ("b0", floats(&[0.0, 1.0])),
        (
            "b1",
            HostValue::List(vec![HostValue::List(vec![
                HostValue::Complex(Complex { re: f(1.0), im: f(0.5) }),
                HostValue::Float(f(2.0)),
            ])]),
        ),
        (
            "coil_sens",
            HostValue::List(vec![HostValue::List(vec![HostValue::Complex(Complex {
                re: f(0.0),
                im: f(1.0),
            })])]),
        ),
    ])
}

#[test]
fn grid_phantom_round_trips() {
    let host = grid_phantom_host(&[1.0, 2.0, 3.0], &[2, 1, 1]);
    let v = obj_to_value(&host).unwrap();
    match &v {
        Value::VoxelGridPhantom(p) => {
            assert_eq!(p.grid_size.x, 2);
            // A bare host float in a complex matrix reads as a real.
            assert_eq!(p.b1[0][1], Complex { re: f(2.0), im: 0 });
        }
        other => panic!("expected a grid phantom, got {other:?}"),
    }
    let back = value_to_obj(&v).unwrap();
    assert_eq!(obj_to_value(&back).unwrap(), v);
}

#[test]
fn grid_spacing_wrong_length_is_array_length_mismatch() {
    let host = grid_phantom_host(&[1.0, 2.0], &[2, 1, 1]);
    let err = obj_to_voxel_grid_phantom(&host).unwrap_err();
    assert_eq!(err, Error::ArrayLengthMismatch { field: "grid_spacing".to_string(), actual: 2 });
}

#[test]
fn grid_size_wrong_length_is_array_length_mismatch() {
    let host = grid_phantom_host(&[1.0, 2.0, 3.0], &[2, 1, 1, 1]);
    let err = obj_to_voxel_grid_phantom(&host).unwrap_err();
    assert_eq!(err, Error::ArrayLengthMismatch { field: "grid_size".to_string(), actual: 4 });
}

#[test]
fn multi_tissue_phantom_round_trips() {
    let tissue = HostValue::Tuple(vec![
        floats(&[1.0, 0.0]),
        floats(&[0.0, 0.5]),
        tissue_host(1000.0, 80.0, 20.0, 2.0),
    ]);
    let host = obj(vec![
        ("_type", tag("MultiTissuePhantom")),
        ("voxel_shape_type", tag("AABox")),
        ("voxel_shape_data", floats(&[1.0, 1.0, 1.0])),
        ("grid_spacing", floats(&[1.0, 1.0, 1.0])),
        ("grid_size", ints(&[1, 1, 2])),
        ("tissues", HostValue::List(vec![tissue])),
        (
            "b1",
            HostValue::List(vec![HostValue::List(vec![HostValue::Complex(Complex {
                re: f(1.0),
                im: f(0.0),
            })])]),
        ),
        ("coil_sens", HostValue::List(vec![HostValue::List(vec![])])),
    ]);
    let v = obj_to_value(&host).unwrap();
    match &v {
        Value::MultiTissuePhantom(p) => {
            assert_eq!(p.tissues.len(), 1);
            assert_eq!(p.tissues[0].props.adc, f(2.0));
        }
        other => panic!("expected a multi-tissue phantom, got {other:?}"),
    }
    let back = value_to_obj(&v).unwrap();
    assert_eq!(obj_to_value(&back).unwrap(), v);
}

#[test]
fn unknown_type_tag_is_invalid_variant() {
    let host = obj(vec![("_type", tag("Banana"))]);
    let err = obj_to_value(&host).unwrap_err();
    assert_eq!(err, Error::InvalidVariantTag("Banana".to_string()));
}

#[test]
fn unknown_event_variant_is_invalid_variant() {
    let host = obj(vec![
        ("_type", tag("Event")),
        ("variant", tag("Spiral")),
        ("fields", dict(vec![])),
    ]);
    let err = obj_to_value(&host).unwrap_err();
    assert_eq!(err, Error::InvalidVariantTag("Spiral".to_string()));
}

#[test]
fn unknown_shape_tag_is_invalid_variant() {
    let o = obj(vec![
        ("voxel_shape_type", tag("Sphere")),
        ("voxel_shape_data", floats(&[1.0, 1.0, 1.0])),
    ]);
    let err = extract_voxel_shape(&o).unwrap_err();
    assert_eq!(err, Error::InvalidVariantTag("Sphere".to_string()));
}

#[test]
fn object_without_type_tag_is_unsupported() {
    let host = obj(vec![("weight", HostValue::Float(f(1.0)))]);
    assert_eq!(obj_to_value(&host).unwrap_err(), Error::UnsupportedHostType);
    // A bare host sequence carries no tag either.
    let list = floats(&[1.0]);
    assert_eq!(obj_to_value(&list).unwrap_err(), Error::UnsupportedHostType);
}

#[test]
fn block_seq_is_unimplemented_whatever_the_payload() {
    let bare = obj(vec![("_type", tag("BlockSeq"))]);
    assert_eq!(obj_to_value(&bare).unwrap_err(), Error::UnimplementedConversion);
    let loaded = obj(vec![
        ("_type", tag("BlockSeq")),
        ("payload", floats(&[1.0, 2.0, 3.0])),
    ]);
    assert_eq!(obj_to_value(&loaded).unwrap_err(), Error::UnimplementedConversion);
}

#[test]
fn missing_attribute_names_the_field() {
    let host = obj(vec![
        ("_type", tag("TissueProperties")),
        ("t1", HostValue::Float(f(1.0))),
        ("t2dash", HostValue::Float(f(1.0))),
        ("d", HostValue::Float(f(1.0))),
    ]);
    assert_eq!(obj_to_tissue_properties(&host).unwrap_err(), Error::InvalidField("t2".to_string()));
}

#[test]
fn wrong_attribute_type_names_the_field() {
    let host = obj(vec![
        ("_type", tag("TissueProperties")),
        ("t1", HostValue::Int(1000)),
        ("t2", HostValue::Float(f(1.0))),
        ("t2dash", HostValue::Float(f(1.0))),
        ("d", HostValue::Float(f(1.0))),
    ]);
    assert_eq!(obj_to_value(&host).unwrap_err(), Error::InvalidField("t1".to_string()));
}

#[test]
fn signal_converts_to_nested_host_lists() {
    let v = Value::Signal(vec![vec![Complex { re: f(1.0), im: f(2.0) }], vec![]]);
    let back = value_to_obj(&v).unwrap();
    assert_eq!(
        back,
        HostValue::List(vec![
            HostValue::List(vec![HostValue::Complex(Complex { re: f(1.0), im: f(2.0) })]),
            HostValue::List(vec![]),
        ])
    );
}

#[test]
fn block_seq_output_is_unsupported() {
    assert_eq!(value_to_obj(&Value::BlockSeq).unwrap_err(), Error::UnsupportedOutputValue);
}

#[test]
fn oversized_grid_dimension_has_no_host_form() {
    let host = grid_phantom_host(&[1.0, 1.0, 1.0], &[1, 1, 1]);
    let v = obj_to_value(&host).unwrap();
    if let Value::VoxelGridPhantom(mut p) = v {
        p.grid_size.x = usize::MAX;
        let err = value_to_obj(&Value::VoxelGridPhantom(p)).unwrap_err();
        assert_eq!(err, Error::UnsupportedOutputValue);
    } else {
        panic!("expected a grid phantom");
    }
}

#[test]
fn kwargs_convert_in_order() {
    let kwargs = vec![
        ("n".to_string(), HostValue::Int(3)),
        ("props".to_string(), tissue_host(1.0, 2.0, 3.0, 4.0)),
    ];
    let d = kwargs_to_value_dict(&kwargs).unwrap();
    assert_eq!(d.0.len(), 2);
    assert_eq!(d.0[0], ("n".to_string(), Value::Int(3)));
    assert_eq!(
        d.0[1],
        (
            "props".to_string(),
            Value::TissueProperties(TissueProperties {
                t1: f(1.0),
                t2: f(2.0),
                t2dash: f(3.0),
                adc: f(4.0),
            })
        )
    );
}

#[test]
fn failing_kwarg_aborts_with_its_conversion_error() {
    let kwargs = vec![
        ("ok".to_string(), HostValue::Bool(false)),
        ("bad".to_string(), obj(vec![("_type", tag("Nonsense"))])),
    ];
    let err = kwargs_to_value_dict(&kwargs).unwrap_err();
    assert_eq!(err, Error::InvalidVariantTag("Nonsense".to_string()));
}

#[test]
fn empty_kwargs_convert_to_empty_dict() {
    let d = kwargs_to_value_dict(&vec![]).unwrap();
    assert_eq!(d.0.len(), 0);
}

#[test]
fn procedure_failure_becomes_tool_call_error() {
    // An unresolvable address surfaces as the procedure's failure message,
    // never as a conversion error, even with empty inputs.
    let err = finish_call(Err("no tool at address".to_string())).unwrap_err();
    assert_eq!(err, Error::ToolCallError("no tool at address".to_string()));
}

#[test]
fn outputs_convert_back_in_order() {
    let outputs = ValueDict(vec![
        ("signal".to_string(), Value::Signal(vec![vec![]])),
        ("count".to_string(), Value::Int(5)),
    ]);
    let out = finish_call(Ok(outputs)).unwrap();
    assert_eq!(out.len(), 2);
    assert_eq!(out[0], ("signal".to_string(), HostValue::List(vec![HostValue::List(vec![])])));
    assert_eq!(out[1], ("count".to_string(), HostValue::Int(5)));
}

#[test]
fn block_seq_output_aborts_the_whole_result() {
    let outputs = ValueDict(vec![("res".to_string(), Value::BlockSeq)]);
    assert_eq!(finish_call(Ok(outputs)).unwrap_err(), Error::UnsupportedOutputValue);
}
