//! Laws of the conversion pair.
//!
//! The central statement is the round trip: every value that has a host
//! representation converts to a host value that converts back to exactly
//! the same value. Beside it stand the guarantees on error classification:
//! wrong fixed-size lengths, unknown tags, and untaggable host values each
//! fail with their mandated error.

use vstd::prelude::*;

use crate::error::ErrorView;
use crate::from_host::spec_to_value;
use crate::from_host::spec_attr;
use crate::from_host::spec_key;
use crate::from_host::spec_float_attr;
use crate::from_host::spec_float_seq;
use crate::from_host::spec_float_seq_attr;
use crate::from_host::spec_dim_seq;
use crate::from_host::spec_dim_seq_attr;
use crate::from_host::spec_complex_row;
use crate::from_host::spec_complex_rows_seq;
use crate::from_host::spec_tissue_props;
use crate::from_host::spec_tissue_entry;
use crate::from_host::spec_tissue_seq;
use crate::from_host::spec_event;
use crate::from_host::spec_event_seq;
use crate::from_host::spec_events_attr;
use crate::from_host::spec_voxel_shape;
use crate::from_host::spec_grid_phantom;
use crate::from_host::spec_multi_phantom;
use crate::from_host::seq_items;
use crate::from_host::triple_of;
use crate::from_host::dims_of;
use crate::from_host::quad_of;
use crate::host::HostView;
use crate::host::entry_of;
use crate::host::lemma_entry_of_found;
use crate::to_host::spec_to_host;
use crate::to_host::tissue_to_host;
use crate::to_host::event_to_host;
use crate::to_host::events_to_host;
use crate::to_host::grid_phantom_to_host;
use crate::to_host::multi_phantom_to_host;
use crate::to_host::tissue_entry_to_host;
use crate::to_host::triple_to_host;
use crate::to_host::quad_to_host;
use crate::to_host::dims_to_host;
use crate::to_host::dims_fit;
use crate::to_host::floats_to_host;
use crate::to_host::row_to_host;
use crate::to_host::matrix_to_host;
use crate::to_host::shape_fields;
use crate::value::Complex;
use crate::value::Dims;
use crate::value::Event;
use crate::value::PhantomTissueView;
use crate::value::TissueProperties;
use crate::value::Triple;
use crate::value::ValueView;
use crate::value::VoxelGridPhantomView;
use crate::value::MultiTissuePhantomView;
use crate::value::VoxelShape;

verus! {

/// Whether a value has a host representation at all: every variant but the
/// reserved `BlockSeq`, provided its grid dimensions fit a host integer.
pub open spec fn value_fits_host(v: ValueView) -> bool {
    match v {
        ValueView::BlockSeq => false,
        ValueView::VoxelGridPhantom(p) => dims_fit(p.grid_size),
        ValueView::MultiTissuePhantom(p) => dims_fit(p.grid_size),
        _ => true,
    }
}

proof fn lemma_floats_round(bits: Seq<u64>, field: Seq<char>)
    ensures
        spec_float_seq(floats_to_host(bits), field) == Ok::<Seq<u64>, ErrorView>(bits),
{
    let items = bits.map_values(|b: u64| HostView::Float(b));
    assert(seq_items(floats_to_host(bits)) == Some(items));
    assert(forall|i: int| 0 <= i < items.len() ==> items[i] is Float);
    assert(Seq::new(items.len(), |i: int| items[i]->Float_0) =~= bits);
}

proof fn lemma_triple_round(t: Triple, field: Seq<char>)
    ensures
        spec_float_seq(triple_to_host(t), field) == Ok::<Seq<u64>, ErrorView>(
            seq![t.x, t.y, t.z],
        ),
        triple_of(seq![t.x, t.y, t.z]) == t,
{
    assert(seq![
        HostView::Float(t.x),
        HostView::Float(t.y),
        HostView::Float(t.z),
    ] =~= seq![t.x, t.y, t.z].map_values(|b: u64| HostView::Float(b)));
    assert(triple_to_host(t) == floats_to_host(seq![t.x, t.y, t.z]));
    lemma_floats_round(seq![t.x, t.y, t.z], field);
}

proof fn lemma_dims_round(d: Dims, field: Seq<char>)
    requires
        dims_fit(d),
    ensures
        spec_dim_seq(dims_to_host(d), field) == Ok::<Seq<usize>, ErrorView>(seq![d.x, d.y, d.z]),
        dims_of(seq![d.x, d.y, d.z]) == d,
{
    let items = seq![
        HostView::Int(d.x as i64),
        HostView::Int(d.y as i64),
        HostView::Int(d.z as i64),
    ];
    assert(seq_items(dims_to_host(d)) == Some(items));
    assert(forall|i: int| 0 <= i < items.len() ==> crate::from_host::is_grid_dim(items[i]));
    assert(Seq::new(items.len(), |i: int| items[i]->Int_0 as usize) =~= seq![d.x, d.y, d.z]);
}

proof fn lemma_row_round(row: Seq<Complex>, field: Seq<char>)
    ensures
        spec_complex_row(row_to_host(row), field) == Ok::<Seq<Complex>, ErrorView>(row),
{
    let items = row.map_values(|c: Complex| HostView::Complex(c));
    assert(seq_items(row_to_host(row)) == Some(items));
    assert(forall|i: int| 0 <= i < items.len() ==> crate::from_host::is_complexish(items[i]));
    assert(Seq::new(items.len(), |i: int| crate::from_host::complex_of(items[i])) =~= row);
}

proof fn lemma_matrix_round(rows: Seq<Seq<Complex>>, field: Seq<char>)
    ensures
        spec_complex_rows_seq(rows.map_values(|row: Seq<Complex>| row_to_host(row)), field)
            == Ok::<Seq<Seq<Complex>>, ErrorView>(rows),
    decreases rows,
{
    let items = rows.map_values(|row: Seq<Complex>| row_to_host(row));
    if rows.len() == 0 {
        assert(items =~= Seq::<HostView>::empty());
        assert(spec_complex_rows_seq(items, field) == Ok::<Seq<Seq<Complex>>, ErrorView>(
            Seq::empty(),
        ));
        assert(rows =~= Seq::<Seq<Complex>>::empty());
    } else {
        lemma_matrix_round(rows.drop_last(), field);
        assert(items.drop_last() =~= rows.drop_last().map_values(
            |row: Seq<Complex>| row_to_host(row),
        ));
        assert(items.last() == row_to_host(rows.last()));
        lemma_row_round(rows.last(), field);
        assert(rows.drop_last().push(rows.last()) =~= rows);
    }
}

proof fn lemma_tissue_round(tp: TissueProperties)
    ensures
        spec_tissue_props(tissue_to_host(tp)) == Ok::<TissueProperties, ErrorView>(tp),
{
    reveal_strlit("_type");
    reveal_strlit("t1");
    reveal_strlit("t2");
    reveal_strlit("t2dash");
    reveal_strlit("d");
    assert("_type"@.len() == 5 && "t1"@.len() == 2 && "t2"@.len() == 2 && "t2dash"@.len() == 6
        && "d"@.len() == 1);
    assert("t1"@[1] == '1' && "t2"@[1] == '2');
    let o = tissue_to_host(tp);
    let attrs = o->Obj_0;
    lemma_entry_of_found(attrs, "t1"@, 1);
    lemma_entry_of_found(attrs, "t2"@, 2);
    lemma_entry_of_found(attrs, "t2dash"@, 3);
    lemma_entry_of_found(attrs, "d"@, 4);
    assert(spec_float_attr(o, "t1"@) == Ok::<u64, ErrorView>(tp.t1));
    assert(spec_float_attr(o, "t2"@) == Ok::<u64, ErrorView>(tp.t2));
    assert(spec_float_attr(o, "t2dash"@) == Ok::<u64, ErrorView>(tp.t2dash));
    assert(spec_float_attr(o, "d"@) == Ok::<u64, ErrorView>(tp.adc));
}

proof fn lemma_event_round(e: Event)
    ensures
        spec_event(event_to_host(e)) == Ok::<Event, ErrorView>(e),
{
    reveal_strlit("_type");
    reveal_strlit("variant");
    reveal_strlit("fields");
    reveal_strlit("angle");
    reveal_strlit("phase");
    reveal_strlit("kt");
    reveal_strlit("Pulse");
    reveal_strlit("Fid");
    reveal_strlit("Adc");
    assert("_type"@.len() == 5 && "variant"@.len() == 7 && "fields"@.len() == 6);
    assert("angle"@.len() == 5 && "phase"@.len() == 5 && "kt"@.len() == 2);
    assert("Pulse"@.len() == 5 && "Fid"@.len() == 3 && "Adc"@.len() == 3);
    assert("angle"@[0] == 'a' && "phase"@[0] == 'p');
    assert("Fid"@[0] == 'F' && "Adc"@[0] == 'A');
    let o = event_to_host(e);
    let attrs = o->Obj_0;
    lemma_entry_of_found(attrs, "variant"@, 1);
    lemma_entry_of_found(attrs, "fields"@, 2);
    match e {
        Event::Pulse { angle, phase } => {
            let fields = attrs[2].1->Dict_0;
            lemma_entry_of_found(fields, "angle"@, 0);
            lemma_entry_of_found(fields, "phase"@, 1);
            assert(spec_event(o) == Ok::<Event, ErrorView>(e));
        },
        Event::Fid { kt } => {
            assert(!("Fid"@ == "Pulse"@));
            let fields = attrs[2].1->Dict_0;
            lemma_entry_of_found(fields, "kt"@, 0);
            let items = seq![
                HostView::Float(kt.x),
                HostView::Float(kt.y),
                HostView::Float(kt.z),
                HostView::Float(kt.t),
            ];
            assert(seq_items(quad_to_host(kt)) == Some(items));
            assert(forall|i: int| 0 <= i < items.len() ==> items[i] is Float);
            let bits = Seq::new(items.len(), |i: int| items[i]->Float_0);
            assert(bits =~= seq![kt.x, kt.y, kt.z, kt.t]);
            assert(spec_float_seq(quad_to_host(kt), "kt"@) == Ok::<Seq<u64>, ErrorView>(bits));
            assert(quad_of(bits) == kt);
            assert(spec_event(o) == Ok::<Event, ErrorView>(e));
        },
        Event::Adc { phase } => {
            assert(!("Adc"@ == "Pulse"@));
            assert(!("Adc"@ == "Fid"@));
            let fields = attrs[2].1->Dict_0;
            lemma_entry_of_found(fields, "phase"@, 0);
            assert(spec_event(o) == Ok::<Event, ErrorView>(e));
        },
    }
}

proof fn lemma_event_seq_round(events: Seq<Event>)
    ensures
        spec_event_seq(events.map_values(|e: Event| event_to_host(e))) == Ok::<
            Seq<Event>,
            ErrorView,
        >(events),
    decreases events,
{
    let items = events.map_values(|e: Event| event_to_host(e));
    if events.len() == 0 {
        assert(items =~= Seq::<HostView>::empty());
        assert(events =~= Seq::<Event>::empty());
    } else {
        lemma_event_seq_round(events.drop_last());
        assert(items.drop_last() =~= events.drop_last().map_values(|e: Event| event_to_host(e)));
        assert(items.last() == event_to_host(events.last()));
        lemma_event_round(events.last());
        assert(events.drop_last().push(events.last()) =~= events);
    }
}

proof fn lemma_events_attr_round(events: Seq<Event>)
    ensures
        spec_events_attr(events_to_host(events)) == Ok::<Seq<Event>, ErrorView>(events),
{
    reveal_strlit("_type");
    reveal_strlit("events");
    assert("_type"@.len() == 5 && "events"@.len() == 6);
    let o = events_to_host(events);
    let attrs = o->Obj_0;
    lemma_entry_of_found(attrs, "events"@, 1);
    assert(spec_attr(o, "events"@) == Ok::<HostView, ErrorView>(
        HostView::List(events.map_values(|e: Event| event_to_host(e))),
    ));
    lemma_event_seq_round(events);
}

proof fn lemma_tissue_entry_round(t: PhantomTissueView)
    ensures
        spec_tissue_entry(tissue_entry_to_host(t)) == Ok::<PhantomTissueView, ErrorView>(t),
{
    reveal_strlit("pd");
    reveal_strlit("b0");
    lemma_floats_round(t.pd, "pd"@);
    lemma_floats_round(t.b0, "b0"@);
    lemma_tissue_round(t.props);
    assert(spec_tissue_entry(tissue_entry_to_host(t)) == Ok::<PhantomTissueView, ErrorView>(
        PhantomTissueView { pd: t.pd, b0: t.b0, props: t.props },
    ));
    assert(PhantomTissueView { pd: t.pd, b0: t.b0, props: t.props } == t);
}

proof fn lemma_tissue_seq_round(tissues: Seq<PhantomTissueView>)
    ensures
        spec_tissue_seq(tissues.map_values(|t: PhantomTissueView| tissue_entry_to_host(t)))
            == Ok::<Seq<PhantomTissueView>, ErrorView>(tissues),
    decreases tissues,
{
    let items = tissues.map_values(|t: PhantomTissueView| tissue_entry_to_host(t));
    if tissues.len() == 0 {
        assert(items =~= Seq::<HostView>::empty());
        assert(tissues =~= Seq::<PhantomTissueView>::empty());
    } else {
        lemma_tissue_seq_round(tissues.drop_last());
        assert(items.drop_last() =~= tissues.drop_last().map_values(
            |t: PhantomTissueView| tissue_entry_to_host(t),
        ));
        assert(items.last() == tissue_entry_to_host(tissues.last()));
        lemma_tissue_entry_round(tissues.last());
        assert(tissues.drop_last().push(tissues.last()) =~= tissues);
    }
}

proof fn lemma_shape_round(o: HostView, shape: VoxelShape)
    requires
        spec_attr(o, "voxel_shape_type"@) == Ok::<HostView, ErrorView>(
            HostView::Str(shape_fields(shape).0),
        ),
        spec_attr(o, "voxel_shape_data"@) == Ok::<HostView, ErrorView>(
            triple_to_host(shape_fields(shape).1),
        ),
    ensures
        spec_voxel_shape(o) == Ok::<VoxelShape, ErrorView>(shape),
{
    reveal_strlit("AASinc");
    reveal_strlit("AABox");
    assert("AASinc"@.len() == 6 && "AABox"@.len() == 5);
    lemma_triple_round(shape_fields(shape).1, "voxel_shape_data"@);
    match shape {
        VoxelShape::AASinc(t) => {
            assert(spec_voxel_shape(o) == Ok::<VoxelShape, ErrorView>(shape));
        },
        VoxelShape::AABox(t) => {
            assert(!("AABox"@ == "AASinc"@));
            assert(spec_voxel_shape(o) == Ok::<VoxelShape, ErrorView>(shape));
        },
    }
}

#[verifier::rlimit(100)]
proof fn lemma_grid_round(p: VoxelGridPhantomView)
    requires
        dims_fit(p.grid_size),
    ensures
        grid_phantom_to_host(p) matches Ok(h) && spec_grid_phantom(h) == Ok::<
            VoxelGridPhantomView,
            ErrorView,
        >(p),
{
    reveal_strlit("_type");
    reveal_strlit("voxel_shape_type");
    reveal_strlit("voxel_shape_data");
    reveal_strlit("grid_spacing");
    reveal_strlit("grid_size");
    reveal_strlit("pd");
    reveal_strlit("t1");
    reveal_strlit("t2");
    reveal_strlit("t2dash");
    reveal_strlit("adc");
    reveal_strlit("b0");
    reveal_strlit("b1");
    reveal_strlit("coil_sens");
    assert("_type"@.len() == 5 && "voxel_shape_type"@.len() == 16 && "voxel_shape_data"@.len()
        == 16 && "grid_spacing"@.len() == 12 && "grid_size"@.len() == 9);
    assert("pd"@.len() == 2 && "t1"@.len() == 2 && "t2"@.len() == 2 && "t2dash"@.len() == 6
        && "adc"@.len() == 3 && "b0"@.len() == 2 && "b1"@.len() == 2 && "coil_sens"@.len() == 9);
    assert("voxel_shape_type"@[12] == 't' && "voxel_shape_data"@[12] == 'd');
    assert("pd"@[0] == 'p' && "t1"@[0] == 't' && "t2"@[0] == 't' && "b0"@[0] == 'b'
        && "b1"@[0] == 'b');
    assert("t1"@[1] == '1' && "t2"@[1] == '2' && "b0"@[1] == '0' && "b1"@[1] == '1');
    assert("grid_size"@[0] == 'g' && "coil_sens"@[0] == 'c');
    let h = grid_phantom_to_host(p)->Ok_0;
    let attrs = h->Obj_0;
    lemma_entry_of_found(attrs, "voxel_shape_type"@, 1);
    lemma_entry_of_found(attrs, "voxel_shape_data"@, 2);
    lemma_entry_of_found(attrs, "grid_spacing"@, 3);
    lemma_entry_of_found(attrs, "grid_size"@, 4);
    lemma_entry_of_found(attrs, "pd"@, 5);
    lemma_entry_of_found(attrs, "t1"@, 6);
    lemma_entry_of_found(attrs, "t2"@, 7);
    lemma_entry_of_found(attrs, "t2dash"@, 8);
    lemma_entry_of_found(attrs, "adc"@, 9);
    lemma_entry_of_found(attrs, "b0"@, 10);
    lemma_entry_of_found(attrs, "b1"@, 11);
    lemma_entry_of_found(attrs, "coil_sens"@, 12);
    lemma_shape_round(h, p.voxel_shape);
    lemma_triple_round(p.grid_spacing, "grid_spacing"@);
    lemma_dims_round(p.grid_size, "grid_size"@);
    lemma_floats_round(p.pd, "pd"@);
    lemma_floats_round(p.t1, "t1"@);
    lemma_floats_round(p.t2, "t2"@);
    lemma_floats_round(p.t2dash, "t2dash"@);
    lemma_floats_round(p.adc, "adc"@);
    lemma_floats_round(p.b0, "b0"@);
    lemma_matrix_round(p.b1, "b1"@);
    lemma_matrix_round(p.coil_sens, "coil_sens"@);
    assert(spec_grid_phantom(h) == Ok::<VoxelGridPhantomView, ErrorView>(p));
}

#[verifier::rlimit(100)]
proof fn lemma_multi_round(p: MultiTissuePhantomView)
    requires
        dims_fit(p.grid_size),
    ensures
        multi_phantom_to_host(p) matches Ok(h) && spec_multi_phantom(h) == Ok::<
            MultiTissuePhantomView,
            ErrorView,
        >(p),
{
    reveal_strlit("_type");
    reveal_strlit("voxel_shape_type");
    reveal_strlit("voxel_shape_data");
    reveal_strlit("grid_spacing");
    reveal_strlit("grid_size");
    reveal_strlit("b1");
    reveal_strlit("coil_sens");
    reveal_strlit("tissues");
    assert("_type"@.len() == 5 && "voxel_shape_type"@.len() == 16 && "voxel_shape_data"@.len()
        == 16 && "grid_spacing"@.len() == 12 && "grid_size"@.len() == 9);
    assert("b1"@.len() == 2 && "coil_sens"@.len() == 9 && "tissues"@.len() == 7);
    assert("voxel_shape_type"@[12] == 't' && "voxel_shape_data"@[12] == 'd');
    assert("grid_size"@[0] == 'g' && "coil_sens"@[0] == 'c');
    let h = multi_phantom_to_host(p)->Ok_0;
    let attrs = h->Obj_0;
    lemma_entry_of_found(attrs, "voxel_shape_type"@, 1);
    lemma_entry_of_found(attrs, "voxel_shape_data"@, 2);
    lemma_entry_of_found(attrs, "grid_spacing"@, 3);
    lemma_entry_of_found(attrs, "grid_size"@, 4);
    lemma_entry_of_found(attrs, "b1"@, 5);
    lemma_entry_of_found(attrs, "coil_sens"@, 6);
    lemma_entry_of_found(attrs, "tissues"@, 7);
    lemma_shape_round(h, p.voxel_shape);
    lemma_triple_round(p.grid_spacing, "grid_spacing"@);
    lemma_dims_round(p.grid_size, "grid_size"@);
    lemma_tissue_seq_round(p.tissues);
    lemma_matrix_round(p.b1, "b1"@);
    lemma_matrix_round(p.coil_sens, "coil_sens"@);
    assert(spec_multi_phantom(h) == Ok::<MultiTissuePhantomView, ErrorView>(p));
}

proof fn lemma_tags_distinct()
    ensures
        !("TissueProperties"@ == "VoxelGridPhantom"@),
        !("TissueProperties"@ == "MultiTissuePhantom"@),
        !("TissueProperties"@ == "Event"@),
        !("TissueProperties"@ == "EventSeq"@),
        !("TissueProperties"@ == "BlockSeq"@),
        !("VoxelGridPhantom"@ == "MultiTissuePhantom"@),
        !("VoxelGridPhantom"@ == "Event"@),
        !("VoxelGridPhantom"@ == "EventSeq"@),
        !("VoxelGridPhantom"@ == "BlockSeq"@),
        !("MultiTissuePhantom"@ == "Event"@),
        !("MultiTissuePhantom"@ == "EventSeq"@),
        !("MultiTissuePhantom"@ == "BlockSeq"@),
        !("Event"@ == "EventSeq"@),
        !("Event"@ == "BlockSeq"@),
        !("EventSeq"@ == "BlockSeq"@),
{
    reveal_strlit("TissueProperties");
    reveal_strlit("VoxelGridPhantom");
    reveal_strlit("MultiTissuePhantom");
    reveal_strlit("Event");
    reveal_strlit("EventSeq");
    reveal_strlit("BlockSeq");
    assert("TissueProperties"@.len() == 16 && "VoxelGridPhantom"@.len() == 16
        && "MultiTissuePhantom"@.len() == 18 && "Event"@.len() == 5 && "EventSeq"@.len() == 8
        && "BlockSeq"@.len() == 8);
    assert("TissueProperties"@[0] == 'T' && "VoxelGridPhantom"@[0] == 'V');
    assert("EventSeq"@[0] == 'E' && "BlockSeq"@[0] == 'B');
}

/// The round trip of one value: converting it to its host form and reading
/// that host form back yields exactly the starting value. It holds for
/// every variant that has a host representation: everything but the
/// reserved `BlockSeq`, the output-only `Signal`, and phantoms whose grid
/// dimensions exceed the host integer range.
pub proof fn lemma_round_trip(v: ValueView)
    requires
        !(v is Signal),
        value_fits_host(v),
    ensures
        spec_to_host(v) matches Ok(h) && spec_to_value(h) == Ok::<ValueView, ErrorView>(v),
{
    reveal_strlit("_type");
    lemma_tags_distinct();
    match v {
        ValueView::TissueProperties(tp) => {
            let h = tissue_to_host(tp);
            lemma_entry_of_found(h->Obj_0, "_type"@, 0);
            lemma_tissue_round(tp);
        },
        ValueView::EventSeq(events) => {
            let h = events_to_host(events);
            lemma_entry_of_found(h->Obj_0, "_type"@, 0);
            lemma_events_attr_round(events);
        },
        ValueView::VoxelGridPhantom(p) => {
            lemma_grid_round(p);
            let h = grid_phantom_to_host(p)->Ok_0;
            lemma_entry_of_found(h->Obj_0, "_type"@, 0);
        },
        ValueView::MultiTissuePhantom(p) => {
            lemma_multi_round(p);
            let h = multi_phantom_to_host(p)->Ok_0;
            lemma_entry_of_found(h->Obj_0, "_type"@, 0);
        },
        _ => {
        },
    }
}

/// A `voxel_shape_data` sequence of any length other than three makes the
/// shape read fail with an array length mismatch naming that field.
pub proof fn lemma_shape_data_wrong_length(o: HostView, tag: Seq<char>, bits: Seq<u64>)
    requires
        spec_attr(o, "voxel_shape_type"@) == Ok::<HostView, ErrorView>(HostView::Str(tag)),
        spec_float_seq_attr(o, "voxel_shape_data"@) == Ok::<Seq<u64>, ErrorView>(bits),
        bits.len() != 3,
    ensures
        spec_voxel_shape(o) == Err::<VoxelShape, ErrorView>(
            ErrorView::ArrayLengthMismatch { field: "voxel_shape_data"@, actual: bits.len() },
        ),
{
}

/// A `grid_spacing` sequence of any length other than three makes the grid
/// phantom read fail with an array length mismatch naming that field.
pub proof fn lemma_grid_spacing_wrong_length(o: HostView, shape: VoxelShape, bits: Seq<u64>)
    requires
        spec_voxel_shape(o) == Ok::<VoxelShape, ErrorView>(shape),
        spec_float_seq_attr(o, "grid_spacing"@) == Ok::<Seq<u64>, ErrorView>(bits),
        spec_dim_seq_attr(o, "grid_size"@) is Ok,
        bits.len() != 3,
    ensures
        spec_grid_phantom(o) == Err::<VoxelGridPhantomView, ErrorView>(
            ErrorView::ArrayLengthMismatch { field: "grid_spacing"@, actual: bits.len() },
        ),
{
}

/// A `grid_size` sequence of any length other than three makes the grid
/// phantom read fail with an array length mismatch naming that field.
pub proof fn lemma_grid_size_wrong_length(
    o: HostView,
    shape: VoxelShape,
    spacing: Seq<u64>,
    dims: Seq<usize>,
)
    requires
        spec_voxel_shape(o) == Ok::<VoxelShape, ErrorView>(shape),
        spec_float_seq_attr(o, "grid_spacing"@) == Ok::<Seq<u64>, ErrorView>(spacing),
        spec_dim_seq_attr(o, "grid_size"@) == Ok::<Seq<usize>, ErrorView>(dims),
        spacing.len() == 3,
        dims.len() != 3,
    ensures
        spec_grid_phantom(o) == Err::<VoxelGridPhantomView, ErrorView>(
            ErrorView::ArrayLengthMismatch { field: "grid_size"@, actual: dims.len() },
        ),
{
}

/// A `kt` sequence of any length other than four makes a `Fid` event read
/// fail with an array length mismatch naming that field.
pub proof fn lemma_kt_wrong_length(h: HostView, fields: HostView, ktv: HostView, bits: Seq<u64>)
    requires
        spec_attr(h, "variant"@) == Ok::<HostView, ErrorView>(HostView::Str("Fid"@)),
        spec_attr(h, "fields"@) == Ok::<HostView, ErrorView>(fields),
        spec_key(fields, "kt"@) == Ok::<HostView, ErrorView>(ktv),
        spec_float_seq(ktv, "kt"@) == Ok::<Seq<u64>, ErrorView>(bits),
        bits.len() != 4,
    ensures
        spec_event(h) == Err::<Event, ErrorView>(
            ErrorView::ArrayLengthMismatch { field: "kt"@, actual: bits.len() },
        ),
{
    reveal_strlit("Pulse");
    reveal_strlit("Fid");
    assert("Pulse"@.len() == 5 && "Fid"@.len() == 3);
    assert(!("Fid"@ == "Pulse"@));
}

/// An object whose `_type` tag is a string outside the recognized set
/// fails with an invalid variant tag carrying that string.
pub proof fn lemma_unknown_type_tag(attrs: Seq<(Seq<char>, HostView)>, tag: Seq<char>)
    requires
        entry_of(attrs, "_type"@) == Some(HostView::Str(tag)),
        !(tag == "TissueProperties"@),
        !(tag == "VoxelGridPhantom"@),
        !(tag == "MultiTissuePhantom"@),
        !(tag == "Event"@),
        !(tag == "EventSeq"@),
        !(tag == "BlockSeq"@),
    ensures
        spec_to_value(HostView::Obj(attrs)) == Err::<ValueView, ErrorView>(
            ErrorView::InvalidVariantTag(tag),
        ),
{
}

/// An object without a string `_type` tag, and any host value that is
/// neither a primitive nor an object, is an unsupported host type.
pub proof fn lemma_unsupported_host(h: HostView)
    requires
        !(h is Null),
        !(h is Bool),
        !(h is Int),
        !(h is Float),
        !(h is Str),
        h matches HostView::Obj(attrs) ==> !(entry_of(attrs, "_type"@) matches Some(
            HostView::Str(_),
        )),
    ensures
        spec_to_value(h) == Err::<ValueView, ErrorView>(ErrorView::UnsupportedHostType),
{
}

/// Any object tagged `BlockSeq` is refused as unimplemented, whatever else
/// it carries.
pub proof fn lemma_block_seq_refused(attrs: Seq<(Seq<char>, HostView)>)
    requires
        entry_of(attrs, "_type"@) == Some(HostView::Str("BlockSeq"@)),
    ensures
        spec_to_value(HostView::Obj(attrs)) == Err::<ValueView, ErrorView>(
            ErrorView::UnimplementedConversion,
        ),
{
    lemma_tags_distinct();
}

} // verus!
