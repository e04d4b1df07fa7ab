//! Value to host conversion: reconstructing a host-visible object.
//!
//! Each value becomes a canonical host form: primitives map directly, and
//! each structured variant becomes a host object whose attributes are, in
//! order, the `_type` tag followed by the positional fields of the host
//! constructor. The `adc` field goes back out under the host name `d`.

use vstd::prelude::*;

use crate::error::Error;
use crate::error::ErrorView;
use crate::host::HostValue;
use crate::host::HostView;
use crate::host::host_entries_view;
use crate::host::host_seq_view;
use crate::host::host_value_view;
use crate::value::Complex;
use crate::value::Dims;
use crate::value::Event;
use crate::value::MultiTissuePhantomView;
use crate::value::PhantomTissueView;
use crate::value::Quad;
use crate::value::TissueProperties;
use crate::value::Triple;
use crate::value::Value;
use crate::value::ValueView;
use crate::value::VoxelGridPhantomView;
use crate::value::VoxelShape;

verus! {

/// The host list of three floats a triple becomes.
pub open spec fn triple_to_host(t: Triple) -> HostView {
    HostView::List(seq![HostView::Float(t.x), HostView::Float(t.y), HostView::Float(t.z)])
}

/// The host list of four floats the `kt` quad becomes.
pub open spec fn quad_to_host(q: Quad) -> HostView {
    HostView::List(
        seq![
            HostView::Float(q.x),
            HostView::Float(q.y),
            HostView::Float(q.z),
            HostView::Float(q.t),
        ],
    )
}

/// Whether every grid dimension fits a host integer, which is 64-bit signed.
pub open spec fn dims_fit(d: Dims) -> bool {
    d.x <= i64::MAX && d.y <= i64::MAX && d.z <= i64::MAX
}

/// The host list of three integers a grid size becomes.
pub open spec fn dims_to_host(d: Dims) -> HostView
    recommends
        dims_fit(d),
{
    HostView::List(
        seq![
            HostView::Int(d.x as i64),
            HostView::Int(d.y as i64),
            HostView::Int(d.z as i64),
        ],
    )
}

/// The host list a flat float sequence becomes.
pub open spec fn floats_to_host(bits: Seq<u64>) -> HostView {
    HostView::List(bits.map_values(|b: u64| HostView::Float(b)))
}

/// The host list one row of complex numbers becomes.
pub open spec fn row_to_host(row: Seq<Complex>) -> HostView {
    HostView::List(row.map_values(|c: Complex| HostView::Complex(c)))
}

/// The host list of lists a complex matrix becomes.
pub open spec fn matrix_to_host(rows: Seq<Seq<Complex>>) -> HostView {
    HostView::List(rows.map_values(|row: Seq<Complex>| row_to_host(row)))
}

/// The tag string and data triple of a voxel shape.
pub open spec fn shape_fields(s: VoxelShape) -> (Seq<char>, Triple) {
    match s {
        VoxelShape::AASinc(t) => ("AASinc"@, t),
        VoxelShape::AABox(t) => ("AABox"@, t),
    }
}

/// The host object tissue properties become; `adc` goes out as `d`.
pub open spec fn tissue_to_host(tp: TissueProperties) -> HostView {
    HostView::Obj(
        seq![
            ("_type"@, HostView::Str("TissueProperties"@)),
            ("t1"@, HostView::Float(tp.t1)),
            ("t2"@, HostView::Float(tp.t2)),
            ("t2dash"@, HostView::Float(tp.t2dash)),
            ("d"@, HostView::Float(tp.adc)),
        ],
    )
}

/// The host object one event becomes: a `variant` string and a `fields`
/// mapping holding exactly the variant's fields.
pub open spec fn event_to_host(e: Event) -> HostView {
    match e {
        Event::Pulse { angle, phase } => HostView::Obj(
            seq![
                ("_type"@, HostView::Str("Event"@)),
                ("variant"@, HostView::Str("Pulse"@)),
                (
                    "fields"@,
                    HostView::Dict(
                        seq![
                            ("angle"@, HostView::Float(angle)),
                            ("phase"@, HostView::Float(phase)),
                        ],
                    ),
                ),
            ],
        ),
        Event::Fid { kt } => HostView::Obj(
            seq![
                ("_type"@, HostView::Str("Event"@)),
                ("variant"@, HostView::Str("Fid"@)),
                ("fields"@, HostView::Dict(seq![("kt"@, quad_to_host(kt))])),
            ],
        ),
        Event::Adc { phase } => HostView::Obj(
            seq![
                ("_type"@, HostView::Str("Event"@)),
                ("variant"@, HostView::Str("Adc"@)),
                ("fields"@, HostView::Dict(seq![("phase"@, HostView::Float(phase))])),
            ],
        ),
    }
}

/// The host object an event sequence becomes.
pub open spec fn events_to_host(events: Seq<Event>) -> HostView {
    HostView::Obj(
        seq![
            ("_type"@, HostView::Str("EventSeq"@)),
            ("events"@, HostView::List(events.map_values(|e: Event| event_to_host(e)))),
        ],
    )
}

/// The host object a voxel grid phantom becomes. A grid dimension beyond
/// the host integer range has no host representation.
pub open spec fn grid_phantom_to_host(p: VoxelGridPhantomView) -> Result<HostView, ErrorView> {
    if !dims_fit(p.grid_size) {
        Err(ErrorView::UnsupportedOutputValue)
    } else {
        Ok(
            HostView::Obj(
                seq![
                    ("_type"@, HostView::Str("VoxelGridPhantom"@)),
                    ("voxel_shape_type"@, HostView::Str(shape_fields(p.voxel_shape).0)),
                    ("voxel_shape_data"@, triple_to_host(shape_fields(p.voxel_shape).1)),
                    ("grid_spacing"@, triple_to_host(p.grid_spacing)),
                    ("grid_size"@, dims_to_host(p.grid_size)),
                    ("pd"@, floats_to_host(p.pd)),
                    ("t1"@, floats_to_host(p.t1)),
                    ("t2"@, floats_to_host(p.t2)),
                    ("t2dash"@, floats_to_host(p.t2dash)),
                    ("adc"@, floats_to_host(p.adc)),
                    ("b0"@, floats_to_host(p.b0)),
                    ("b1"@, matrix_to_host(p.b1)),
                    ("coil_sens"@, matrix_to_host(p.coil_sens)),
                ],
            ),
        )
    }
}

/// The host tuple one phantom tissue becomes.
pub open spec fn tissue_entry_to_host(t: PhantomTissueView) -> HostView {
    HostView::Tuple(seq![floats_to_host(t.pd), floats_to_host(t.b0), tissue_to_host(t.props)])
}

/// The host object a multi-tissue phantom becomes.
pub open spec fn multi_phantom_to_host(p: MultiTissuePhantomView) -> Result<HostView, ErrorView> {
    if !dims_fit(p.grid_size) {
        Err(ErrorView::UnsupportedOutputValue)
    } else {
        Ok(
            HostView::Obj(
                seq![
                    ("_type"@, HostView::Str("MultiTissuePhantom"@)),
                    ("voxel_shape_type"@, HostView::Str(shape_fields(p.voxel_shape).0)),
                    ("voxel_shape_data"@, triple_to_host(shape_fields(p.voxel_shape).1)),
                    ("grid_spacing"@, triple_to_host(p.grid_spacing)),
                    ("grid_size"@, dims_to_host(p.grid_size)),
                    ("b1"@, matrix_to_host(p.b1)),
                    ("coil_sens"@, matrix_to_host(p.coil_sens)),
                    (
                        "tissues"@,
                        HostView::List(
                            p.tissues.map_values(|t: PhantomTissueView| tissue_entry_to_host(t)),
                        ),
                    ),
                ],
            ),
        )
    }
}

/// One value converted back to a host value.
///
/// Primitives map directly; each structured variant becomes its canonical
/// host object; a signal becomes a bare nested list. The reserved
/// `BlockSeq` variant has no host representation and is refused.
pub open spec fn spec_to_host(v: ValueView) -> Result<HostView, ErrorView> {
    match v {
        ValueView::Null => Ok(HostView::Null),
        ValueView::Bool(b) => Ok(HostView::Bool(b)),
        ValueView::Int(i) => Ok(HostView::Int(i)),
        ValueView::Float(bits) => Ok(HostView::Float(bits)),
        ValueView::Str(s) => Ok(HostView::Str(s)),
        ValueView::TissueProperties(tp) => Ok(tissue_to_host(tp)),
        ValueView::VoxelGridPhantom(p) => grid_phantom_to_host(p),
        ValueView::MultiTissuePhantom(p) => multi_phantom_to_host(p),
        ValueView::EventSeq(events) => Ok(events_to_host(events)),
        ValueView::BlockSeq => Err(ErrorView::UnsupportedOutputValue),
        ValueView::Signal(rows) => Ok(matrix_to_host(rows)),
    }
}

/// A flat float sequence as a host list.
fn host_floats(bits: &Vec<u64>) -> (hv: HostValue)
    ensures
        hv@ == floats_to_host(bits@),
{
    broadcast use crate::host::lemma_host_seq_view_len, crate::host::lemma_host_seq_view_index;

    let mut out: Vec<HostValue> = Vec::new();
    let mut i: usize = 0;
    while i < bits.len()
        invariant
            0 <= i <= bits@.len(),
            out@.len() == i,
            forall|j: int| #![trigger bits@[j]] 0 <= j < i ==> host_value_view(out@[j])
                == HostView::Float(bits@[j]),
        decreases bits@.len() - i,
    {
        out.push(HostValue::Float(bits[i]));
        i = i + 1;
    }
    proof {
        assert(host_seq_view(out@) =~= bits@.map_values(|b: u64| HostView::Float(b)));
    }
    HostValue::List(out)
}

/// One row of complex numbers as a host list.
fn host_row(row: &Vec<Complex>) -> (hv: HostValue)
    ensures
        hv@ == row_to_host(row@),
{
    broadcast use crate::host::lemma_host_seq_view_len, crate::host::lemma_host_seq_view_index;

    let mut out: Vec<HostValue> = Vec::new();
    let mut i: usize = 0;
    while i < row.len()
        invariant
            0 <= i <= row@.len(),
            out@.len() == i,
            forall|j: int| #![trigger row@[j]] 0 <= j < i ==> host_value_view(out@[j])
                == HostView::Complex(row@[j]),
        decreases row@.len() - i,
    {
        out.push(HostValue::Complex(row[i]));
        i = i + 1;
    }
    proof {
        assert(host_seq_view(out@) =~= row@.map_values(|c: Complex| HostView::Complex(c)));
    }
    HostValue::List(out)
}

/// A complex matrix as a host list of lists.
fn host_matrix(rows: &Vec<Vec<Complex>>) -> (hv: HostValue)
    ensures
        hv@ == matrix_to_host(crate::value::rows_view(rows@)),
{
    broadcast use crate::host::lemma_host_seq_view_len, crate::host::lemma_host_seq_view_index;

    let mut out: Vec<HostValue> = Vec::new();
    let mut i: usize = 0;
    while i < rows.len()
        invariant
            0 <= i <= rows@.len(),
            out@.len() == i,
            forall|j: int| #![trigger rows@[j]] 0 <= j < i ==> host_value_view(out@[j])
                == row_to_host(rows@[j]@),
        decreases rows@.len() - i,
    {
        let hv = host_row(&rows[i]);
        out.push(hv);
        i = i + 1;
    }
    proof {
        let m = crate::value::rows_view(rows@);
        assert(host_seq_view(out@) =~= m.map_values(|row: Seq<Complex>| row_to_host(row)));
    }
    HostValue::List(out)
}

/// A spatial triple as a host list of three floats.
fn host_triple(t: &Triple) -> (hv: HostValue)
    ensures
        hv@ == triple_to_host(*t),
{
    let out: Vec<HostValue> = vec![
        HostValue::Float(t.x),
        HostValue::Float(t.y),
        HostValue::Float(t.z),
    ];
    proof {
        broadcast use crate::host::lemma_host_seq_view_len, crate::host::lemma_host_seq_view_index;

        assert(host_seq_view(out@) =~= seq![
            HostView::Float(t.x),
            HostView::Float(t.y),
            HostView::Float(t.z),
        ]);
    }
    HostValue::List(out)
}

/// The `kt` quad as a host list of four floats.
fn host_quad(q: &Quad) -> (hv: HostValue)
    ensures
        hv@ == quad_to_host(*q),
{
    let out: Vec<HostValue> = vec![
        HostValue::Float(q.x),
        HostValue::Float(q.y),
        HostValue::Float(q.z),
        HostValue::Float(q.t),
    ];
    proof {
        broadcast use crate::host::lemma_host_seq_view_len, crate::host::lemma_host_seq_view_index;

        assert(host_seq_view(out@) =~= seq![
            HostView::Float(q.x),
            HostView::Float(q.y),
            HostView::Float(q.z),
            HostView::Float(q.t),
        ]);
    }
    HostValue::List(out)
}

/// A grid size as a host list of three integers.
fn host_dims(d: &Dims) -> (hv: HostValue)
    requires
        dims_fit(*d),
    ensures
        hv@ == dims_to_host(*d),
{
    let out: Vec<HostValue> = vec![
        HostValue::Int(d.x as i64),
        HostValue::Int(d.y as i64),
        HostValue::Int(d.z as i64),
    ];
    proof {
        broadcast use crate::host::lemma_host_seq_view_len, crate::host::lemma_host_seq_view_index;

        assert(host_seq_view(out@) =~= seq![
            HostView::Int(d.x as i64),
            HostView::Int(d.y as i64),
            HostView::Int(d.z as i64),
        ]);
    }
    HostValue::List(out)
}

/// Whether every grid dimension fits a host integer.
fn dims_fit_exec(d: &Dims) -> (r: bool)
    ensures
        r == dims_fit(*d),
{
    (d.x as u128) <= (i64::MAX as u128) && (d.y as u128) <= (i64::MAX as u128) && (d.z as u128)
        <= (i64::MAX as u128)
}

/// Tissue properties as their canonical host object.
fn host_tissue(tp: &TissueProperties) -> (hv: HostValue)
    ensures
        hv@ == tissue_to_host(*tp),
{
    let attrs: Vec<(String, HostValue)> = vec![
        ("_type".to_owned(), HostValue::Str("TissueProperties".to_owned())),
        ("t1".to_owned(), HostValue::Float(tp.t1)),
        ("t2".to_owned(), HostValue::Float(tp.t2)),
        ("t2dash".to_owned(), HostValue::Float(tp.t2dash)),
        ("d".to_owned(), HostValue::Float(tp.adc)),
    ];
    proof {
        broadcast use crate::host::lemma_host_entries_view_len, crate::host::lemma_host_entries_view_index;

        assert(host_entries_view(attrs@) =~= seq![
            ("_type"@, HostView::Str("TissueProperties"@)),
            ("t1"@, HostView::Float(tp.t1)),
            ("t2"@, HostView::Float(tp.t2)),
            ("t2dash"@, HostView::Float(tp.t2dash)),
            ("d"@, HostView::Float(tp.adc)),
        ]);
    }
    HostValue::Obj(attrs)
}

/// The tag string and data triple of a voxel shape.
fn voxel_shape_fields(s: &VoxelShape) -> (r: (String, Triple))
    ensures
        (r.0@, r.1) == shape_fields(*s),
{
    match s {
        VoxelShape::AASinc(t) => ("AASinc".to_owned(), *t),
        VoxelShape::AABox(t) => ("AABox".to_owned(), *t),
    }
}

/// One event as its canonical host object.
fn host_event(e: &Event) -> (hv: HostValue)
    ensures
        hv@ == event_to_host(*e),
{
    broadcast use crate::host::lemma_host_entries_view_len, crate::host::lemma_host_entries_view_index;

    match e {
        Event::Pulse { angle, phase } => {
            let fields: Vec<(String, HostValue)> = vec![
                ("angle".to_owned(), HostValue::Float(*angle)),
                ("phase".to_owned(), HostValue::Float(*phase)),
            ];
            proof {
                assert(host_entries_view(fields@) =~= seq![
                    ("angle"@, HostView::Float(*angle)),
                    ("phase"@, HostView::Float(*phase)),
                ]);
            }
            let attrs: Vec<(String, HostValue)> = vec![
                ("_type".to_owned(), HostValue::Str("Event".to_owned())),
                ("variant".to_owned(), HostValue::Str("Pulse".to_owned())),
                ("fields".to_owned(), HostValue::Dict(fields)),
            ];
            proof {
                assert(host_entries_view(attrs@) =~= seq![
                    ("_type"@, HostView::Str("Event"@)),
                    ("variant"@, HostView::Str("Pulse"@)),
                    (
                        "fields"@,
                        HostView::Dict(
                            seq![
                                ("angle"@, HostView::Float(*angle)),
                                ("phase"@, HostView::Float(*phase)),
                            ],
                        ),
                    ),
                ]);
            }
            HostValue::Obj(attrs)
        },
        Event::Fid { kt } => {
            let ktv = host_quad(kt);
            let ghost ktview = ktv@;
            let fields: Vec<(String, HostValue)> = vec![("kt".to_owned(), ktv)];
            proof {
                assert(host_entries_view(fields@) =~= seq![("kt"@, ktview)]);
            }
            let attrs: Vec<(String, HostValue)> = vec![
                ("_type".to_owned(), HostValue::Str("Event".to_owned())),
                ("variant".to_owned(), HostValue::Str("Fid".to_owned())),
                ("fields".to_owned(), HostValue::Dict(fields)),
            ];
            proof {
                assert(host_entries_view(attrs@) =~= seq![
                    ("_type"@, HostView::Str("Event"@)),
                    ("variant"@, HostView::Str("Fid"@)),
                    ("fields"@, HostView::Dict(seq![("kt"@, quad_to_host(*kt))])),
                ]);
            }
            HostValue::Obj(attrs)
        },
        Event::Adc { phase } => {
            let fields: Vec<(String, HostValue)> = vec![
                ("phase".to_owned(), HostValue::Float(*phase)),
            ];
            proof {
                assert(host_entries_view(fields@) =~= seq![("phase"@, HostView::Float(*phase))]);
            }
            let attrs: Vec<(String, HostValue)> = vec![
                ("_type".to_owned(), HostValue::Str("Event".to_owned())),
                ("variant".to_owned(), HostValue::Str("Adc".to_owned())),
                ("fields".to_owned(), HostValue::Dict(fields)),
            ];
            proof {
                assert(host_entries_view(attrs@) =~= seq![
                    ("_type"@, HostView::Str("Event"@)),
                    ("variant"@, HostView::Str("Adc"@)),
                    ("fields"@, HostView::Dict(seq![("phase"@, HostView::Float(*phase))])),
                ]);
            }
            HostValue::Obj(attrs)
        },
    }
}

/// An event sequence as its canonical host object.
fn host_events(events: &Vec<Event>) -> (hv: HostValue)
    ensures
        hv@ == events_to_host(events@),
{
    broadcast use crate::host::lemma_host_seq_view_len, crate::host::lemma_host_seq_view_index, crate::host::lemma_host_entries_view_len, crate::host::lemma_host_entries_view_index;

    let mut out: Vec<HostValue> = Vec::new();
    let mut i: usize = 0;
    while i < events.len()
        invariant
            0 <= i <= events@.len(),
            out@.len() == i,
            forall|j: int| #![trigger events@[j]] 0 <= j < i ==> host_value_view(out@[j])
                == event_to_host(events@[j]),
        decreases events@.len() - i,
    {
        let hv = host_event(&events[i]);
        out.push(hv);
        i = i + 1;
    }
    proof {
        assert(host_seq_view(out@) =~= events@.map_values(|e: Event| event_to_host(e)));
    }
    let attrs: Vec<(String, HostValue)> = vec![
        ("_type".to_owned(), HostValue::Str("EventSeq".to_owned())),
        ("events".to_owned(), HostValue::List(out)),
    ];
    proof {
        assert(host_entries_view(attrs@) =~= seq![
            ("_type"@, HostView::Str("EventSeq"@)),
            ("events"@, HostView::List(events@.map_values(|e: Event| event_to_host(e)))),
        ]);
    }
    HostValue::Obj(attrs)
}

/// One value converted back to a host value; see [`spec_to_host`].
pub fn value_to_obj(v: &Value) -> (r: Result<HostValue, Error>)
    ensures
        match r {
            Ok(hv) => spec_to_host(v@) == Ok::<HostView, ErrorView>(hv@),
            Err(e) => spec_to_host(v@) == Err::<HostView, ErrorView>(e@),
        },
{
    broadcast use crate::host::lemma_host_entries_view_len, crate::host::lemma_host_entries_view_index;

    match v {
        Value::Null => Ok(HostValue::Null),
        Value::Bool(b) => Ok(HostValue::Bool(*b)),
        Value::Int(i) => Ok(HostValue::Int(*i)),
        Value::Float(bits) => Ok(HostValue::Float(*bits)),
        Value::Str(s) => Ok(HostValue::Str(s.clone())),
        Value::TissueProperties(tp) => Ok(host_tissue(tp)),
        Value::EventSeq(es) => Ok(host_events(&es.0)),
        Value::VoxelGridPhantom(p) => {
            if !dims_fit_exec(&p.grid_size) {
                return Err(Error::UnsupportedOutputValue);
            }
            let (shape_type, shape_data) = voxel_shape_fields(&p.voxel_shape);
            let attrs: Vec<(String, HostValue)> = vec![
                ("_type".to_owned(), HostValue::Str("VoxelGridPhantom".to_owned())),
                ("voxel_shape_type".to_owned(), HostValue::Str(shape_type)),
                ("voxel_shape_data".to_owned(), host_triple(&shape_data)),
                ("grid_spacing".to_owned(), host_triple(&p.grid_spacing)),
                ("grid_size".to_owned(), host_dims(&p.grid_size)),
                ("pd".to_owned(), host_floats(&p.pd)),
                ("t1".to_owned(), host_floats(&p.t1)),
                ("t2".to_owned(), host_floats(&p.t2)),
                ("t2dash".to_owned(), host_floats(&p.t2dash)),
                ("adc".to_owned(), host_floats(&p.adc)),
                ("b0".to_owned(), host_floats(&p.b0)),
                ("b1".to_owned(), host_matrix(&p.b1)),
                ("coil_sens".to_owned(), host_matrix(&p.coil_sens)),
            ];
            proof {
                assert(host_entries_view(attrs@) =~= seq![
                    ("_type"@, HostView::Str("VoxelGridPhantom"@)),
                    ("voxel_shape_type"@, HostView::Str(shape_fields(p.voxel_shape).0)),
                    ("voxel_shape_data"@, triple_to_host(shape_fields(p.voxel_shape).1)),
                    ("grid_spacing"@, triple_to_host(p.grid_spacing)),
                    ("grid_size"@, dims_to_host(p.grid_size)),
                    ("pd"@, floats_to_host(p.pd@)),
                    ("t1"@, floats_to_host(p.t1@)),
                    ("t2"@, floats_to_host(p.t2@)),
                    ("t2dash"@, floats_to_host(p.t2dash@)),
                    ("adc"@, floats_to_host(p.adc@)),
                    ("b0"@, floats_to_host(p.b0@)),
                    ("b1"@, matrix_to_host(crate::value::rows_view(p.b1@))),
                    ("coil_sens"@, matrix_to_host(crate::value::rows_view(p.coil_sens@))),
                ]);
            }
            Ok(HostValue::Obj(attrs))
        },
        Value::MultiTissuePhantom(p) => {
            if !dims_fit_exec(&p.grid_size) {
                return Err(Error::UnsupportedOutputValue);
            }
            let (shape_type, shape_data) = voxel_shape_fields(&p.voxel_shape);
            let mut tout: Vec<HostValue> = Vec::new();
            let mut i: usize = 0;
            while i < p.tissues.len()
                invariant
                    0 <= i <= p.tissues@.len(),
                    tout@.len() == i,
                    forall|j: int| #![trigger p.tissues@[j]] 0 <= j < i ==> host_value_view(
                        tout@[j],
                    ) == tissue_entry_to_host(p.tissues@[j]@),
                decreases p.tissues@.len() - i,
            {
                let t = &p.tissues[i];
                let pdv = host_floats(&t.pd);
                let b0v = host_floats(&t.b0);
                let propsv = host_tissue(&t.props);
                let ghost parts = seq![pdv@, b0v@, propsv@];
                let entry: Vec<HostValue> = vec![pdv, b0v, propsv];
                proof {
                    broadcast use crate::host::lemma_host_seq_view_len, crate::host::lemma_host_seq_view_index;

                    assert(host_seq_view(entry@) =~= parts);
                    assert(parts =~= seq![
                        floats_to_host(t.pd@),
                        floats_to_host(t.b0@),
                        tissue_to_host(t.props),
                    ]);
                }
                tout.push(HostValue::Tuple(entry));
                i = i + 1;
            }
            proof {
                broadcast use crate::host::lemma_host_seq_view_len, crate::host::lemma_host_seq_view_index;

                assert(host_seq_view(tout@) =~= crate::value::tissues_view(p.tissues@).map_values(
                    |t: PhantomTissueView| tissue_entry_to_host(t),
                ));
            }
            let ghost tlist = host_seq_view(tout@);
            let attrs: Vec<(String, HostValue)> = vec![
                ("_type".to_owned(), HostValue::Str("MultiTissuePhantom".to_owned())),
                ("voxel_shape_type".to_owned(), HostValue::Str(shape_type)),
                ("voxel_shape_data".to_owned(), host_triple(&shape_data)),
                ("grid_spacing".to_owned(), host_triple(&p.grid_spacing)),
                ("grid_size".to_owned(), host_dims(&p.grid_size)),
                ("b1".to_owned(), host_matrix(&p.b1)),
                ("coil_sens".to_owned(), host_matrix(&p.coil_sens)),
                ("tissues".to_owned(), HostValue::List(tout)),
            ];
            proof {
                assert(host_entries_view(attrs@) =~= seq![
                    ("_type"@, HostView::Str("MultiTissuePhantom"@)),
                    ("voxel_shape_type"@, HostView::Str(shape_fields(p.voxel_shape).0)),
                    ("voxel_shape_data"@, triple_to_host(shape_fields(p.voxel_shape).1)),
                    ("grid_spacing"@, triple_to_host(p.grid_spacing)),
                    ("grid_size"@, dims_to_host(p.grid_size)),
                    ("b1"@, matrix_to_host(crate::value::rows_view(p.b1@))),
                    ("coil_sens"@, matrix_to_host(crate::value::rows_view(p.coil_sens@))),
                    (
                        "tissues"@,
                        HostView::List(
                            crate::value::tissues_view(p.tissues@).map_values(
                                |t: PhantomTissueView| tissue_entry_to_host(t),
                            ),
                        ),
                    ),
                ]);
            }
            Ok(HostValue::Obj(attrs))
        },
        Value::BlockSeq => Err(Error::UnsupportedOutputValue),
        Value::Signal(rows) => Ok(host_matrix(rows)),
    }
}

} // verus!
