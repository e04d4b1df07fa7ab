//! Host to value conversion: the mathematical description.
//!
//! These spec functions state, over the models of host values, exactly what
//! the executable converter returns: which value is built, and on a failure
//! which error comes, naming the offending field or tag. Field reads happen
//! in a fixed order and the first failure wins; the order written here is
//! the order the contracts promise.

use vstd::prelude::*;

use crate::error::Error;
use crate::error::ErrorView;
use crate::host::HostValue;
use crate::host::HostView;
use crate::host::entry_of;
use crate::host::host_entries_view;
use crate::host::host_seq_view;
use crate::host::host_value_view;
use crate::value::rows_view;
use crate::value::tissues_view;
use crate::value::Value;
use crate::value::EventSeq;
use crate::value::VoxelGridPhantom;
use crate::value::MultiTissuePhantom;
use crate::value::PhantomTissue;
use crate::value::Complex;
use crate::value::Dims;
use crate::value::Event;
use crate::value::MultiTissuePhantomView;
use crate::value::PhantomTissueView;
use crate::value::Quad;
use crate::value::TissueProperties;
use crate::value::Triple;
use crate::value::ValueView;
use crate::value::VoxelGridPhantomView;
use crate::value::VoxelShape;

verus! {

/// Attribute read on an object-shaped host value; anything else fails
/// naming the attribute.
pub open spec fn spec_attr(h: HostView, name: Seq<char>) -> Result<HostView, ErrorView> {
    match h {
        HostView::Obj(attrs) => match entry_of(attrs, name) {
            Some(v) => Ok(v),
            None => Err(ErrorView::InvalidField(name)),
        },
        _ => Err(ErrorView::InvalidField(name)),
    }
}

/// Key read on a mapping-shaped host value; anything else fails naming the key.
pub open spec fn spec_key(h: HostView, name: Seq<char>) -> Result<HostView, ErrorView> {
    match h {
        HostView::Dict(entries) => match entry_of(entries, name) {
            Some(v) => Ok(v),
            None => Err(ErrorView::InvalidField(name)),
        },
        _ => Err(ErrorView::InvalidField(name)),
    }
}

/// The bit pattern of a host float; anything else fails naming the field.
pub open spec fn spec_float(h: HostView, field: Seq<char>) -> Result<u64, ErrorView> {
    match h {
        HostView::Float(bits) => Ok(bits),
        _ => Err(ErrorView::InvalidField(field)),
    }
}

pub open spec fn spec_float_attr(o: HostView, name: Seq<char>) -> Result<u64, ErrorView> {
    match spec_attr(o, name) {
        Ok(v) => spec_float(v, name),
        Err(e) => Err(e),
    }
}

pub open spec fn spec_float_key(fields: HostView, name: Seq<char>) -> Result<u64, ErrorView> {
    match spec_key(fields, name) {
        Ok(v) => spec_float(v, name),
        Err(e) => Err(e),
    }
}

/// The elements of a host sequence: a list or a tuple.
pub open spec fn seq_items(h: HostView) -> Option<Seq<HostView>> {
    match h {
        HostView::List(items) => Some(items),
        HostView::Tuple(items) => Some(items),
        _ => None,
    }
}

/// A flat sequence of host floats, as their bit patterns.
pub open spec fn spec_float_seq(h: HostView, field: Seq<char>) -> Result<Seq<u64>, ErrorView> {
    match seq_items(h) {
        Some(items) => if forall|i: int| 0 <= i < items.len() ==> items[i] is Float {
            Ok(Seq::new(items.len(), |i: int| items[i]->Float_0))
        } else {
            Err(ErrorView::InvalidField(field))
        },
        None => Err(ErrorView::InvalidField(field)),
    }
}

pub open spec fn spec_float_seq_attr(o: HostView, name: Seq<char>) -> Result<Seq<u64>, ErrorView> {
    match spec_attr(o, name) {
        Ok(v) => spec_float_seq(v, name),
        Err(e) => Err(e),
    }
}

/// Whether a host value can stand for one unsigned grid dimension.
pub open spec fn is_grid_dim(h: HostView) -> bool {
    h matches HostView::Int(i) && 0 <= i && i <= usize::MAX
}

/// A flat sequence of host non-negative integers, as grid dimensions.
pub open spec fn spec_dim_seq(h: HostView, field: Seq<char>) -> Result<Seq<usize>, ErrorView> {
    match seq_items(h) {
        Some(items) => if forall|i: int| 0 <= i < items.len() ==> is_grid_dim(items[i]) {
            Ok(Seq::new(items.len(), |i: int| items[i]->Int_0 as usize))
        } else {
            Err(ErrorView::InvalidField(field))
        },
        None => Err(ErrorView::InvalidField(field)),
    }
}

pub open spec fn spec_dim_seq_attr(o: HostView, name: Seq<char>) -> Result<Seq<usize>, ErrorView> {
    match spec_attr(o, name) {
        Ok(v) => spec_dim_seq(v, name),
        Err(e) => Err(e),
    }
}

/// Whether a host value can stand for one complex number: a host complex,
/// or a host float taken as a real.
pub open spec fn is_complexish(h: HostView) -> bool {
    h is Complex || h is Float
}

/// The complex number a host value stands for.
pub open spec fn complex_of(h: HostView) -> Complex {
    match h {
        HostView::Complex(c) => c,
        HostView::Float(bits) => Complex { re: bits, im: 0 },
        _ => arbitrary(),
    }
}

/// One row of complex numbers.
pub open spec fn spec_complex_row(h: HostView, field: Seq<char>) -> Result<
    Seq<Complex>,
    ErrorView,
> {
    match seq_items(h) {
        Some(items) => if forall|i: int| 0 <= i < items.len() ==> is_complexish(items[i]) {
            Ok(Seq::new(items.len(), |i: int| complex_of(items[i])))
        } else {
            Err(ErrorView::InvalidField(field))
        },
        None => Err(ErrorView::InvalidField(field)),
    }
}

/// A sequence of rows of complex numbers, by rows; the error of the
/// earliest failing row wins.
pub open spec fn spec_complex_rows_seq(items: Seq<HostView>, field: Seq<char>) -> Result<
    Seq<Seq<Complex>>,
    ErrorView,
>
    decreases items,
{
    if items.len() == 0 {
        Ok(Seq::empty())
    } else {
        match spec_complex_rows_seq(items.drop_last(), field) {
            Err(e) => Err(e),
            Ok(init) => match spec_complex_row(items.last(), field) {
                Err(e) => Err(e),
                Ok(row) => Ok(init.push(row)),
            },
        }
    }
}

/// Once a prefix fails, the whole sequence fails with that error.
pub proof fn lemma_complex_rows_prefix_err(items: Seq<HostView>, field: Seq<char>, k: int)
    requires
        0 <= k <= items.len(),
        spec_complex_rows_seq(items.take(k), field) is Err,
    ensures
        spec_complex_rows_seq(items, field) == spec_complex_rows_seq(items.take(k), field),
    decreases items.len() - k,
{
    if k < items.len() {
        assert(items.take(k + 1).drop_last() =~= items.take(k));
        lemma_complex_rows_prefix_err(items, field, k + 1);
    } else {
        assert(items.take(k) =~= items);
    }
}

/// A host matrix of complex numbers read from an attribute.
pub open spec fn spec_complex_rows_attr(o: HostView, name: Seq<char>) -> Result<
    Seq<Seq<Complex>>,
    ErrorView,
> {
    match spec_attr(o, name) {
        Err(e) => Err(e),
        Ok(v) => match seq_items(v) {
            Some(items) => spec_complex_rows_seq(items, name),
            None => Err(ErrorView::InvalidField(name)),
        },
    }
}

pub open spec fn triple_of(bits: Seq<u64>) -> Triple
    recommends
        bits.len() == 3,
{
    Triple { x: bits[0], y: bits[1], z: bits[2] }
}

pub open spec fn dims_of(dims: Seq<usize>) -> Dims
    recommends
        dims.len() == 3,
{
    Dims { x: dims[0], y: dims[1], z: dims[2] }
}

pub open spec fn quad_of(bits: Seq<u64>) -> Quad
    recommends
        bits.len() == 4,
{
    Quad { x: bits[0], y: bits[1], z: bits[2], t: bits[3] }
}

/// Tissue properties read from a host object. The diffusion constant is
/// read from the host attribute `d` and stored as `adc`.
pub open spec fn spec_tissue_props(o: HostView) -> Result<TissueProperties, ErrorView> {
    match spec_float_attr(o, "t1"@) {
        Err(e) => Err(e),
        Ok(t1) => match spec_float_attr(o, "t2"@) {
            Err(e) => Err(e),
            Ok(t2) => match spec_float_attr(o, "t2dash"@) {
                Err(e) => Err(e),
                Ok(t2dash) => match spec_float_attr(o, "d"@) {
                    Err(e) => Err(e),
                    Ok(d) => Ok(TissueProperties { t1, t2, t2dash, adc: d }),
                },
            },
        },
    }
}

/// A voxel shape read from a host object: the tag string, then the data
/// triple (whose length is checked before the tag is matched).
pub open spec fn spec_voxel_shape(o: HostView) -> Result<VoxelShape, ErrorView> {
    match spec_attr(o, "voxel_shape_type"@) {
        Err(e) => Err(e),
        Ok(tv) => match tv {
            HostView::Str(tag) => match spec_float_seq_attr(o, "voxel_shape_data"@) {
                Err(e) => Err(e),
                Ok(bits) => if bits.len() != 3 {
                    Err(
                        ErrorView::ArrayLengthMismatch {
                            field: "voxel_shape_data"@,
                            actual: bits.len(),
                        },
                    )
                } else if tag == "AASinc"@ {
                    Ok(VoxelShape::AASinc(triple_of(bits)))
                } else if tag == "AABox"@ {
                    Ok(VoxelShape::AABox(triple_of(bits)))
                } else {
                    Err(ErrorView::InvalidVariantTag(tag))
                },
            },
            _ => Err(ErrorView::InvalidField("voxel_shape_type"@)),
        },
    }
}

/// A voxel grid phantom read from a host object. The shape comes first,
/// then the two grid triples are read, then length-checked, then the flat
/// property maps and the two complex matrices.
pub open spec fn spec_grid_phantom(o: HostView) -> Result<VoxelGridPhantomView, ErrorView> {
    match spec_voxel_shape(o) {
        Err(e) => Err(e),
        Ok(voxel_shape) => match spec_float_seq_attr(o, "grid_spacing"@) {
            Err(e) => Err(e),
            Ok(spacing) => match spec_dim_seq_attr(o, "grid_size"@) {
                Err(e) => Err(e),
                Ok(size) => if spacing.len() != 3 {
                    Err(
                        ErrorView::ArrayLengthMismatch {
                            field: "grid_spacing"@,
                            actual: spacing.len(),
                        },
                    )
                } else if size.len() != 3 {
                    Err(ErrorView::ArrayLengthMismatch { field: "grid_size"@, actual: size.len() })
                } else {
                    match spec_float_seq_attr(o, "pd"@) {
                        Err(e) => Err(e),
                        Ok(pd) => match spec_float_seq_attr(o, "t1"@) {
                            Err(e) => Err(e),
                            Ok(t1) => match spec_float_seq_attr(o, "t2"@) {
                                Err(e) => Err(e),
                                Ok(t2) => match spec_float_seq_attr(o, "t2dash"@) {
                                    Err(e) => Err(e),
                                    Ok(t2dash) => match spec_float_seq_attr(o, "adc"@) {
                                        Err(e) => Err(e),
                                        Ok(adc) => match spec_float_seq_attr(o, "b0"@) {
                                            Err(e) => Err(e),
                                            Ok(b0) => match spec_complex_rows_attr(o, "b1"@) {
                                                Err(e) => Err(e),
                                                Ok(b1) => match spec_complex_rows_attr(
                                                    o,
                                                    "coil_sens"@,
                                                ) {
                                                    Err(e) => Err(e),
                                                    Ok(coil_sens) => Ok(
                                                        VoxelGridPhantomView {
                                                            voxel_shape,
                                                            grid_spacing: triple_of(spacing),
                                                            grid_size: dims_of(size),
                                                            pd,
                                                            t1,
                                                            t2,
                                                            t2dash,
                                                            adc,
                                                            b0,
                                                            b1,
                                                            coil_sens,
                                                        },
                                                    ),
                                                },
                                            },
                                        },
                                    },
                                },
                            },
                        },
                    }
                },
            },
        },
    }
}

/// One tissue of a multi-tissue phantom: a host tuple of a density map,
/// an off-resonance map, and a properties object.
pub open spec fn spec_tissue_entry(h: HostView) -> Result<PhantomTissueView, ErrorView> {
    match h {
        HostView::Tuple(items) => if items.len() < 3 {
            Err(ErrorView::InvalidField("tissues"@))
        } else {
            match spec_float_seq(items[0], "pd"@) {
                Err(e) => Err(e),
                Ok(pd) => match spec_float_seq(items[1], "b0"@) {
                    Err(e) => Err(e),
                    Ok(b0) => match spec_tissue_props(items[2]) {
                        Err(e) => Err(e),
                        Ok(props) => Ok(PhantomTissueView { pd, b0, props }),
                    },
                },
            }
        },
        _ => Err(ErrorView::InvalidField("tissues"@)),
    }
}

pub open spec fn spec_tissue_seq(items: Seq<HostView>) -> Result<Seq<PhantomTissueView>, ErrorView>
    decreases items,
{
    if items.len() == 0 {
        Ok(Seq::empty())
    } else {
        match spec_tissue_seq(items.drop_last()) {
            Err(e) => Err(e),
            Ok(init) => match spec_tissue_entry(items.last()) {
                Err(e) => Err(e),
                Ok(t) => Ok(init.push(t)),
            },
        }
    }
}

/// Once a prefix fails, the whole tissue sequence fails with that error.
pub proof fn lemma_tissue_seq_prefix_err(items: Seq<HostView>, k: int)
    requires
        0 <= k <= items.len(),
        spec_tissue_seq(items.take(k)) is Err,
    ensures
        spec_tissue_seq(items) == spec_tissue_seq(items.take(k)),
    decreases items.len() - k,
{
    if k < items.len() {
        assert(items.take(k + 1).drop_last() =~= items.take(k));
        lemma_tissue_seq_prefix_err(items, k + 1);
    } else {
        assert(items.take(k) =~= items);
    }
}

/// A multi-tissue phantom read from a host object. The shape comes first,
/// the grid triples are read, then the tissue list (strictly a host list)
/// is decoded, then the grid triples are length-checked, then the two
/// complex matrices follow.
pub open spec fn spec_multi_phantom(o: HostView) -> Result<MultiTissuePhantomView, ErrorView> {
    match spec_voxel_shape(o) {
        Err(e) => Err(e),
        Ok(voxel_shape) => match spec_float_seq_attr(o, "grid_spacing"@) {
            Err(e) => Err(e),
            Ok(spacing) => match spec_dim_seq_attr(o, "grid_size"@) {
                Err(e) => Err(e),
                Ok(size) => match spec_attr(o, "tissues"@) {
                    Err(e) => Err(e),
                    Ok(tv) => match tv {
                        HostView::List(items) => match spec_tissue_seq(items) {
                            Err(e) => Err(e),
                            Ok(tissues) => if spacing.len() != 3 {
                                Err(
                                    ErrorView::ArrayLengthMismatch {
                                        field: "grid_spacing"@,
                                        actual: spacing.len(),
                                    },
                                )
                            } else if size.len() != 3 {
                                Err(
                                    ErrorView::ArrayLengthMismatch {
                                        field: "grid_size"@,
                                        actual: size.len(),
                                    },
                                )
                            } else {
                                match spec_complex_rows_attr(o, "b1"@) {
                                    Err(e) => Err(e),
                                    Ok(b1) => match spec_complex_rows_attr(o, "coil_sens"@) {
                                        Err(e) => Err(e),
                                        Ok(coil_sens) => Ok(
                                            MultiTissuePhantomView {
                                                voxel_shape,
                                                grid_spacing: triple_of(spacing),
                                                grid_size: dims_of(size),
                                                tissues,
                                                b1,
                                                coil_sens,
                                            },
                                        ),
                                    },
                                }
                            },
                        },
                        _ => Err(ErrorView::InvalidField("tissues"@)),
                    },
                },
            },
        },
    }
}

/// One pulse-sequence event read from a host object carrying a `variant`
/// string and a `fields` mapping.
pub open spec fn spec_event(h: HostView) -> Result<Event, ErrorView> {
    match spec_attr(h, "variant"@) {
        Err(e) => Err(e),
        Ok(vv) => match vv {
            HostView::Str(variant) => match spec_attr(h, "fields"@) {
                Err(e) => Err(e),
                Ok(fields) => if variant == "Pulse"@ {
                    match spec_float_key(fields, "angle"@) {
                        Err(e) => Err(e),
                        Ok(angle) => match spec_float_key(fields, "phase"@) {
                            Err(e) => Err(e),
                            Ok(phase) => Ok(Event::Pulse { angle, phase }),
                        },
                    }
                } else if variant == "Fid"@ {
                    match spec_key(fields, "kt"@) {
                        Err(e) => Err(e),
                        Ok(ktv) => match spec_float_seq(ktv, "kt"@) {
                            Err(e) => Err(e),
                            Ok(bits) => if bits.len() != 4 {
                                Err(
                                    ErrorView::ArrayLengthMismatch {
                                        field: "kt"@,
                                        actual: bits.len(),
                                    },
                                )
                            } else {
                                Ok(Event::Fid { kt: quad_of(bits) })
                            },
                        },
                    }
                } else if variant == "Adc"@ {
                    match spec_float_key(fields, "phase"@) {
                        Err(e) => Err(e),
                        Ok(phase) => Ok(Event::Adc { phase }),
                    }
                } else {
                    Err(ErrorView::InvalidVariantTag(variant))
                },
            },
            _ => Err(ErrorView::InvalidField("variant"@)),
        },
    }
}

pub open spec fn spec_event_seq(items: Seq<HostView>) -> Result<Seq<Event>, ErrorView>
    decreases items,
{
    if items.len() == 0 {
        Ok(Seq::empty())
    } else {
        match spec_event_seq(items.drop_last()) {
            Err(e) => Err(e),
            Ok(init) => match spec_event(items.last()) {
                Err(e) => Err(e),
                Ok(ev) => Ok(init.push(ev)),
            },
        }
    }
}

/// Once a prefix fails, the whole event sequence fails with that error.
pub proof fn lemma_event_seq_prefix_err(items: Seq<HostView>, k: int)
    requires
        0 <= k <= items.len(),
        spec_event_seq(items.take(k)) is Err,
    ensures
        spec_event_seq(items) == spec_event_seq(items.take(k)),
    decreases items.len() - k,
{
    if k < items.len() {
        assert(items.take(k + 1).drop_last() =~= items.take(k));
        lemma_event_seq_prefix_err(items, k + 1);
    } else {
        assert(items.take(k) =~= items);
    }
}

/// The events of an `EventSeq` host object: the `events` attribute must be
/// a host list, and each element decodes as an event, in order.
pub open spec fn spec_events_attr(o: HostView) -> Result<Seq<Event>, ErrorView> {
    match spec_attr(o, "events"@) {
        Err(e) => Err(e),
        Ok(ev) => match ev {
            HostView::List(items) => spec_event_seq(items),
            _ => Err(ErrorView::InvalidField("events"@)),
        },
    }
}

/// Dispatch on a recognized type tag.
pub open spec fn spec_dispatch(o: HostView, tag: Seq<char>) -> Result<ValueView, ErrorView> {
    if tag == "TissueProperties"@ {
        match spec_tissue_props(o) {
            Err(e) => Err(e),
            Ok(tp) => Ok(ValueView::TissueProperties(tp)),
        }
    } else if tag == "VoxelGridPhantom"@ {
        match spec_grid_phantom(o) {
            Err(e) => Err(e),
            Ok(p) => Ok(ValueView::VoxelGridPhantom(p)),
        }
    } else if tag == "MultiTissuePhantom"@ {
        match spec_multi_phantom(o) {
            Err(e) => Err(e),
            Ok(p) => Ok(ValueView::MultiTissuePhantom(p)),
        }
    } else if tag == "Event"@ {
        // A single event is wrapped as a one-element sequence.
        match spec_event(o) {
            Err(e) => Err(e),
            Ok(ev) => Ok(ValueView::EventSeq(seq![ev])),
        }
    } else if tag == "EventSeq"@ {
        match spec_events_attr(o) {
            Err(e) => Err(e),
            Ok(events) => Ok(ValueView::EventSeq(events)),
        }
    } else if tag == "BlockSeq"@ {
        Err(ErrorView::UnimplementedConversion)
    } else {
        Err(ErrorView::InvalidVariantTag(tag))
    }
}

/// One host value converted to a value of the model.
///
/// The primitive rules come first, in a fixed priority order: none, then
/// boolean, then integer, then float, then string. A host object is then
/// dispatched on its `_type` tag; a host value that matches no primitive
/// and carries no string type tag is unsupported.
pub open spec fn spec_to_value(h: HostView) -> Result<ValueView, ErrorView> {
    match h {
        HostView::Null => Ok(ValueView::Null),
        HostView::Bool(b) => Ok(ValueView::Bool(b)),
        HostView::Int(i) => Ok(ValueView::Int(i)),
        HostView::Float(bits) => Ok(ValueView::Float(bits)),
        HostView::Str(s) => Ok(ValueView::Str(s)),
        HostView::Obj(attrs) => match entry_of(attrs, "_type"@) {
            Some(HostView::Str(tag)) => spec_dispatch(h, tag),
            _ => Err(ErrorView::UnsupportedHostType),
        },
        _ => Err(ErrorView::UnsupportedHostType),
    }
}

/// Whether two strings hold the same characters.
pub fn str_eq(a: &String, b: &str) -> (r: bool)
    ensures
        r == (a@ == b@),
{
    let bs: String = b.to_owned();
    *a == bs
}

/// The first entry of the given name among string-keyed pairs.
pub fn get_entry<'a>(entries: &'a Vec<(String, HostValue)>, name: &str) -> (r: Option<
    &'a HostValue,
>)
    ensures
        match r {
            Some(v) => entry_of(host_entries_view(entries@), name@) == Some(host_value_view(*v)),
            None => entry_of(host_entries_view(entries@), name@) is None,
        },
{
    broadcast use vstd::seq_lib::group_seq_properties;

    let ghost s = host_entries_view(entries@);
    proof {
        crate::host::lemma_host_entries_view_len(entries@);
        assert(s.skip(0) =~= s);
    }
    let mut i: usize = 0;
    while i < entries.len()
        invariant
            0 <= i <= entries@.len(),
            s == host_entries_view(entries@),
            s.len() == entries@.len(),
            entry_of(s, name@) == entry_of(s.skip(i as int), name@),
        decreases entries@.len() - i,
    {
        proof {
            crate::host::lemma_host_entries_view_index(entries@, i as int);
            assert(s.skip(i as int)[0] == s[i as int]);
        }
        if str_eq(&entries[i].0, name) {
            return Some(&entries[i].1);
        }
        proof {
            assert(s.skip(i as int).drop_first() =~= s.skip(i + 1));
        }
        i = i + 1;
    }
    proof {
        assert(s.skip(i as int) =~= Seq::<(Seq<char>, HostView)>::empty());
    }
    None
}

/// Attribute read on an object-shaped host value.
fn attr_value<'a>(h: &'a HostValue, name: &str) -> (r: Result<&'a HostValue, Error>)
    ensures
        match r {
            Ok(v) => spec_attr(h@, name@) == Ok::<HostView, ErrorView>(v@),
            Err(e) => spec_attr(h@, name@) == Err::<HostView, ErrorView>(e@),
        },
{
    match h {
        HostValue::Obj(attrs) => match get_entry(attrs, name) {
            Some(v) => Ok(v),
            None => Err(Error::InvalidField(name.to_owned())),
        },
        _ => Err(Error::InvalidField(name.to_owned())),
    }
}

/// Key read on a mapping-shaped host value.
fn key_value<'a>(h: &'a HostValue, name: &str) -> (r: Result<&'a HostValue, Error>)
    ensures
        match r {
            Ok(v) => spec_key(h@, name@) == Ok::<HostView, ErrorView>(v@),
            Err(e) => spec_key(h@, name@) == Err::<HostView, ErrorView>(e@),
        },
{
    match h {
        HostValue::Dict(entries) => match get_entry(entries, name) {
            Some(v) => Ok(v),
            None => Err(Error::InvalidField(name.to_owned())),
        },
        _ => Err(Error::InvalidField(name.to_owned())),
    }
}

/// The bit pattern of a host float.
fn float_bits(h: &HostValue, field: &str) -> (r: Result<u64, Error>)
    ensures
        match r {
            Ok(bits) => spec_float(h@, field@) == Ok::<u64, ErrorView>(bits),
            Err(e) => spec_float(h@, field@) == Err::<u64, ErrorView>(e@),
        },
{
    match h {
        HostValue::Float(bits) => Ok(*bits),
        _ => Err(Error::InvalidField(field.to_owned())),
    }
}

fn float_attr(h: &HostValue, name: &str) -> (r: Result<u64, Error>)
    ensures
        match r {
            Ok(bits) => spec_float_attr(h@, name@) == Ok::<u64, ErrorView>(bits),
            Err(e) => spec_float_attr(h@, name@) == Err::<u64, ErrorView>(e@),
        },
{
    match attr_value(h, name) {
        Ok(v) => float_bits(v, name),
        Err(e) => Err(e),
    }
}

fn float_key(h: &HostValue, name: &str) -> (r: Result<u64, Error>)
    ensures
        match r {
            Ok(bits) => spec_float_key(h@, name@) == Ok::<u64, ErrorView>(bits),
            Err(e) => spec_float_key(h@, name@) == Err::<u64, ErrorView>(e@),
        },
{
    match key_value(h, name) {
        Ok(v) => float_bits(v, name),
        Err(e) => Err(e),
    }
}

/// The elements of a host sequence.
fn items_of<'a>(h: &'a HostValue) -> (r: Option<&'a Vec<HostValue>>)
    ensures
        match r {
            Some(items) => seq_items(h@) == Some(host_seq_view(items@)),
            None => seq_items(h@) is None,
        },
{
    match h {
        HostValue::List(items) => Some(items),
        HostValue::Tuple(items) => Some(items),
        _ => None,
    }
}

/// A flat host sequence of floats, as bit patterns.
fn float_vec(h: &HostValue, field: &str) -> (r: Result<Vec<u64>, Error>)
    ensures
        match r {
            Ok(v) => spec_float_seq(h@, field@) == Ok::<Seq<u64>, ErrorView>(v@),
            Err(e) => spec_float_seq(h@, field@) == Err::<Seq<u64>, ErrorView>(e@),
        },
{
    broadcast use crate::host::lemma_host_seq_view_len, crate::host::lemma_host_seq_view_index;

    match items_of(h) {
        None => Err(Error::InvalidField(field.to_owned())),
        Some(items) => {
            let ghost s = host_seq_view(items@);
            proof {
                crate::host::lemma_host_seq_view_len(items@);
            }
            let mut out: Vec<u64> = Vec::new();
            let mut i: usize = 0;
            while i < items.len()
                invariant
                    0 <= i <= items@.len(),
                    s == host_seq_view(items@),
                    s.len() == items@.len(),
                    seq_items(h@) == Some(s),
                    out@.len() == i,
                    forall|j: int| #![trigger s[j]] 0 <= j < i ==> s[j] is Float && out@[j] == s[j]->Float_0,
                decreases items@.len() - i,
            {
                proof {
                    crate::host::lemma_host_seq_view_index(items@, i as int);
                }
                match &items[i] {
                    HostValue::Float(bits) => {
                        out.push(*bits);
                    },
                    _ => {
                        proof {
                            assert(!(s[i as int] is Float));
                        }
                        return Err(Error::InvalidField(field.to_owned()));
                    },
                }
                i = i + 1;
            }
            proof {
                assert(out@ =~= Seq::new(s.len(), |j: int| s[j]->Float_0));
            }
            Ok(out)
        },
    }
}

fn float_vec_attr(h: &HostValue, name: &str) -> (r: Result<Vec<u64>, Error>)
    ensures
        match r {
            Ok(v) => spec_float_seq_attr(h@, name@) == Ok::<Seq<u64>, ErrorView>(v@),
            Err(e) => spec_float_seq_attr(h@, name@) == Err::<Seq<u64>, ErrorView>(e@),
        },
{
    match attr_value(h, name) {
        Ok(v) => float_vec(v, name),
        Err(e) => Err(e),
    }
}

/// A flat host sequence of non-negative integers, as grid dimensions.
fn dim_vec(h: &HostValue, field: &str) -> (r: Result<Vec<usize>, Error>)
    ensures
        match r {
            Ok(v) => spec_dim_seq(h@, field@) == Ok::<Seq<usize>, ErrorView>(v@),
            Err(e) => spec_dim_seq(h@, field@) == Err::<Seq<usize>, ErrorView>(e@),
        },
{
    broadcast use crate::host::lemma_host_seq_view_len, crate::host::lemma_host_seq_view_index;

    match items_of(h) {
        None => Err(Error::InvalidField(field.to_owned())),
        Some(items) => {
            let ghost s = host_seq_view(items@);
            proof {
                crate::host::lemma_host_seq_view_len(items@);
            }
            let mut out: Vec<usize> = Vec::new();
            let mut i: usize = 0;
            while i < items.len()
                invariant
                    0 <= i <= items@.len(),
                    s == host_seq_view(items@),
                    s.len() == items@.len(),
                    seq_items(h@) == Some(s),
                    out@.len() == i,
                    forall|j: int| #![trigger s[j]] 0 <= j < i ==> is_grid_dim(s[j]) && out@[j] == s[j]->Int_0 as usize,
                decreases items@.len() - i,
            {
                proof {
                    crate::host::lemma_host_seq_view_index(items@, i as int);
                }
                match &items[i] {
                    HostValue::Int(iv) => {
                        if *iv >= 0 && (*iv as u128) <= (usize::MAX as u128) {
                            out.push(*iv as usize);
                        } else {
                            proof {
                                assert(!is_grid_dim(s[i as int]));
                            }
                            return Err(Error::InvalidField(field.to_owned()));
                        }
                    },
                    _ => {
                        proof {
                            assert(!is_grid_dim(s[i as int]));
                        }
                        return Err(Error::InvalidField(field.to_owned()));
                    },
                }
                i = i + 1;
            }
            proof {
                assert(out@ =~= Seq::new(s.len(), |j: int| s[j]->Int_0 as usize));
            }
            Ok(out)
        },
    }
}

fn dim_vec_attr(h: &HostValue, name: &str) -> (r: Result<Vec<usize>, Error>)
    ensures
        match r {
            Ok(v) => spec_dim_seq_attr(h@, name@) == Ok::<Seq<usize>, ErrorView>(v@),
            Err(e) => spec_dim_seq_attr(h@, name@) == Err::<Seq<usize>, ErrorView>(e@),
        },
{
    match attr_value(h, name) {
        Ok(v) => dim_vec(v, name),
        Err(e) => Err(e),
    }
}

/// One row of host complex numbers.
fn complex_row(h: &HostValue, field: &str) -> (r: Result<Vec<Complex>, Error>)
    ensures
        match r {
            Ok(v) => spec_complex_row(h@, field@) == Ok::<Seq<Complex>, ErrorView>(v@),
            Err(e) => spec_complex_row(h@, field@) == Err::<Seq<Complex>, ErrorView>(e@),
        },
{
    broadcast use crate::host::lemma_host_seq_view_len, crate::host::lemma_host_seq_view_index;

    match items_of(h) {
        None => Err(Error::InvalidField(field.to_owned())),
        Some(items) => {
            let ghost s = host_seq_view(items@);
            proof {
                crate::host::lemma_host_seq_view_len(items@);
            }
            let mut out: Vec<Complex> = Vec::new();
            let mut i: usize = 0;
            while i < items.len()
                invariant
                    0 <= i <= items@.len(),
                    s == host_seq_view(items@),
                    s.len() == items@.len(),
                    seq_items(h@) == Some(s),
                    out@.len() == i,
                    forall|j: int| #![trigger s[j]] 0 <= j < i ==> is_complexish(s[j]) && out@[j] == complex_of(s[j]),
                decreases items@.len() - i,
            {
                proof {
                    crate::host::lemma_host_seq_view_index(items@, i as int);
                }
                match &items[i] {
                    HostValue::Complex(c) => {
                        out.push(*c);
                    },
                    HostValue::Float(bits) => {
                        out.push(Complex { re: *bits, im: 0 });
                    },
                    _ => {
                        proof {
                            assert(!is_complexish(s[i as int]));
                        }
                        return Err(Error::InvalidField(field.to_owned()));
                    },
                }
                i = i + 1;
            }
            proof {
                assert(out@ =~= Seq::new(s.len(), |j: int| complex_of(s[j])));
            }
            Ok(out)
        },
    }
}

/// A host matrix of complex numbers read from an attribute, row by row.
pub fn extract_complex_vecs(h: &HostValue, name: &str) -> (r: Result<Vec<Vec<Complex>>, Error>)
    ensures
        match r {
            Ok(rows) => spec_complex_rows_attr(h@, name@) == Ok::<Seq<Seq<Complex>>, ErrorView>(
                rows_view(rows@),
            ),
            Err(e) => spec_complex_rows_attr(h@, name@) == Err::<Seq<Seq<Complex>>, ErrorView>(e@),
        },
{
    broadcast use crate::host::lemma_host_seq_view_len, crate::host::lemma_host_seq_view_index;

    let v = match attr_value(h, name) {
        Ok(v) => v,
        Err(e) => {
            return Err(e);
        },
    };
    let items = match items_of(v) {
        Some(items) => items,
        None => {
            return Err(Error::InvalidField(name.to_owned()));
        },
    };
    let ghost s = host_seq_view(items@);
    let mut out: Vec<Vec<Complex>> = Vec::new();
    let mut i: usize = 0;
    proof {
        crate::host::lemma_host_seq_view_len(items@);
        assert(s.take(0) =~= Seq::<HostView>::empty());
        assert(rows_view(out@) =~= Seq::<Seq<Complex>>::empty());
    }
    while i < items.len()
        invariant
            0 <= i <= items@.len(),
            s == host_seq_view(items@),
            s.len() == items@.len(),
            out@.len() == i,
            spec_complex_rows_attr(h@, name@) == spec_complex_rows_seq(s, name@),
            spec_complex_rows_seq(s.take(i as int), name@) == Ok::<Seq<Seq<Complex>>, ErrorView>(
                rows_view(out@),
            ),
        decreases items@.len() - i,
    {
        proof {
            crate::host::lemma_host_seq_view_index(items@, i as int);
            assert(s.take(i + 1).drop_last() =~= s.take(i as int));
            assert(s.take(i + 1).last() == s[i as int]);
        }
        match complex_row(&items[i], name) {
            Ok(row) => {
                let ghost old_out = out@;
                out.push(row);
                proof {
                    assert(rows_view(out@) =~= rows_view(old_out).push(row@));
                }
            },
            Err(e) => {
                proof {
                    lemma_complex_rows_prefix_err(s, name@, i + 1);
                }
                return Err(e);
            },
        }
        i = i + 1;
    }
    proof {
        assert(s.take(i as int) =~= s);
    }
    Ok(out)
}

fn triple_from(bits: &Vec<u64>) -> (t: Triple)
    requires
        bits@.len() == 3,
    ensures
        t == triple_of(bits@),
{
    Triple { x: bits[0], y: bits[1], z: bits[2] }
}

fn dims_from(dims: &Vec<usize>) -> (d: Dims)
    requires
        dims@.len() == 3,
    ensures
        d == dims_of(dims@),
{
    Dims { x: dims[0], y: dims[1], z: dims[2] }
}

fn quad_from(bits: &Vec<u64>) -> (q: Quad)
    requires
        bits@.len() == 4,
    ensures
        q == quad_of(bits@),
{
    Quad { x: bits[0], y: bits[1], z: bits[2], t: bits[3] }
}

/// Tissue properties read from a host object; the host attribute `d`
/// becomes the `adc` field.
pub fn obj_to_tissue_properties(h: &HostValue) -> (r: Result<TissueProperties, Error>)
    ensures
        match r {
            Ok(tp) => spec_tissue_props(h@) == Ok::<TissueProperties, ErrorView>(tp),
            Err(e) => spec_tissue_props(h@) == Err::<TissueProperties, ErrorView>(e@),
        },
{
    let t1 = match float_attr(h, "t1") {
        Ok(bits) => bits,
        Err(e) => {
            return Err(e);
        },
    };
    let t2 = match float_attr(h, "t2") {
        Ok(bits) => bits,
        Err(e) => {
            return Err(e);
        },
    };
    let t2dash = match float_attr(h, "t2dash") {
        Ok(bits) => bits,
        Err(e) => {
            return Err(e);
        },
    };
    let d = match float_attr(h, "d") {
        Ok(bits) => bits,
        Err(e) => {
            return Err(e);
        },
    };
    Ok(TissueProperties { t1, t2, t2dash, adc: d })
}

/// A voxel shape read from a host object: tag string and data triple.
pub fn extract_voxel_shape(h: &HostValue) -> (r: Result<VoxelShape, Error>)
    ensures
        match r {
            Ok(shape) => spec_voxel_shape(h@) == Ok::<VoxelShape, ErrorView>(shape),
            Err(e) => spec_voxel_shape(h@) == Err::<VoxelShape, ErrorView>(e@),
        },
{
    let tv = match attr_value(h, "voxel_shape_type") {
        Ok(v) => v,
        Err(e) => {
            return Err(e);
        },
    };
    let tag = match tv {
        HostValue::Str(tag) => tag,
        _ => {
            return Err(Error::InvalidField("voxel_shape_type".to_owned()));
        },
    };
    let bits = match float_vec_attr(h, "voxel_shape_data") {
        Ok(bits) => bits,
        Err(e) => {
            return Err(e);
        },
    };
    if bits.len() != 3 {
        return Err(
            Error::ArrayLengthMismatch { field: "voxel_shape_data".to_owned(), actual: bits.len() },
        );
    }
    if str_eq(tag, "AASinc") {
        Ok(VoxelShape::AASinc(triple_from(&bits)))
    } else if str_eq(tag, "AABox") {
        Ok(VoxelShape::AABox(triple_from(&bits)))
    } else {
        Err(Error::InvalidVariantTag(tag.clone()))
    }
}

/// A voxel grid phantom read from a host object.
pub fn obj_to_voxel_grid_phantom(h: &HostValue) -> (r: Result<VoxelGridPhantom, Error>)
    ensures
        match r {
            Ok(p) => spec_grid_phantom(h@) == Ok::<VoxelGridPhantomView, ErrorView>(p@),
            Err(e) => spec_grid_phantom(h@) == Err::<VoxelGridPhantomView, ErrorView>(e@),
        },
{
    let voxel_shape = match extract_voxel_shape(h) {
        Ok(shape) => shape,
        Err(e) => {
            return Err(e);
        },
    };
    let spacing = match float_vec_attr(h, "grid_spacing") {
        Ok(v) => v,
        Err(e) => {
            return Err(e);
        },
    };
    let size = match dim_vec_attr(h, "grid_size") {
        Ok(v) => v,
        Err(e) => {
            return Err(e);
        },
    };
    if spacing.len() != 3 {
        return Err(
            Error::ArrayLengthMismatch { field: "grid_spacing".to_owned(), actual: spacing.len() },
        );
    }
    if size.len() != 3 {
        return Err(
            Error::ArrayLengthMismatch { field: "grid_size".to_owned(), actual: size.len() },
        );
    }
    let pd = match float_vec_attr(h, "pd") {
        Ok(v) => v,
        Err(e) => {
            return Err(e);
        },
    };
    let t1 = match float_vec_attr(h, "t1") {
        Ok(v) => v,
        Err(e) => {
            return Err(e);
        },
    };
    let t2 = match float_vec_attr(h, "t2") {
        Ok(v) => v,
        Err(e) => {
            return Err(e);
        },
    };
    let t2dash = match float_vec_attr(h, "t2dash") {
        Ok(v) => v,
        Err(e) => {
            return Err(e);
        },
    };
    let adc = match float_vec_attr(h, "adc") {
        Ok(v) => v,
        Err(e) => {
            return Err(e);
        },
    };
    let b0 = match float_vec_attr(h, "b0") {
        Ok(v) => v,
        Err(e) => {
            return Err(e);
        },
    };
    let b1 = match extract_complex_vecs(h, "b1") {
        Ok(v) => v,
        Err(e) => {
            return Err(e);
        },
    };
    let coil_sens = match extract_complex_vecs(h, "coil_sens") {
        Ok(v) => v,
        Err(e) => {
            return Err(e);
        },
    };
    let grid_spacing = triple_from(&spacing);
    let grid_size = dims_from(&size);
    Ok(
        VoxelGridPhantom {
            voxel_shape,
            grid_spacing,
            grid_size,
            pd,
            t1,
            t2,
            t2dash,
            adc,
            b0,
            b1,
            coil_sens,
        },
    )
}

/// One tissue of a multi-tissue phantom from a host tuple.
fn tissue_entry(h: &HostValue) -> (r: Result<PhantomTissue, Error>)
    ensures
        match r {
            Ok(t) => spec_tissue_entry(h@) == Ok::<PhantomTissueView, ErrorView>(t@),
            Err(e) => spec_tissue_entry(h@) == Err::<PhantomTissueView, ErrorView>(e@),
        },
{
    broadcast use crate::host::lemma_host_seq_view_len, crate::host::lemma_host_seq_view_index;

    let items = match h {
        HostValue::Tuple(items) => items,
        _ => {
            return Err(Error::InvalidField("tissues".to_owned()));
        },
    };
    proof {
        crate::host::lemma_host_seq_view_len(items@);
    }
    if items.len() < 3 {
        return Err(Error::InvalidField("tissues".to_owned()));
    }
    proof {
        crate::host::lemma_host_seq_view_index(items@, 0);
        crate::host::lemma_host_seq_view_index(items@, 1);
        crate::host::lemma_host_seq_view_index(items@, 2);
    }
    let pd = match float_vec(&items[0], "pd") {
        Ok(v) => v,
        Err(e) => {
            return Err(e);
        },
    };
    let b0 = match float_vec(&items[1], "b0") {
        Ok(v) => v,
        Err(e) => {
            return Err(e);
        },
    };
    let props = match obj_to_tissue_properties(&items[2]) {
        Ok(tp) => tp,
        Err(e) => {
            return Err(e);
        },
    };
    Ok(PhantomTissue { pd, b0, props })
}

/// A multi-tissue phantom read from a host object.
#[verifier::loop_isolation(false)]
pub fn obj_to_multi_tissue_phantom(h: &HostValue) -> (r: Result<MultiTissuePhantom, Error>)
    ensures
        match r {
            Ok(p) => spec_multi_phantom(h@) == Ok::<MultiTissuePhantomView, ErrorView>(p@),
            Err(e) => spec_multi_phantom(h@) == Err::<MultiTissuePhantomView, ErrorView>(e@),
        },
{
    let voxel_shape = match extract_voxel_shape(h) {
        Ok(shape) => shape,
        Err(e) => {
            return Err(e);
        },
    };
    let spacing = match float_vec_attr(h, "grid_spacing") {
        Ok(v) => v,
        Err(e) => {
            return Err(e);
        },
    };
    let size = match dim_vec_attr(h, "grid_size") {
        Ok(v) => v,
        Err(e) => {
            return Err(e);
        },
    };
    let tv = match attr_value(h, "tissues") {
        Ok(v) => v,
        Err(e) => {
            return Err(e);
        },
    };
    let titems = match tv {
        HostValue::List(items) => items,
        _ => {
            return Err(Error::InvalidField("tissues".to_owned()));
        },
    };
    let ghost s = host_seq_view(titems@);
    let mut tissues: Vec<PhantomTissue> = Vec::new();
    let mut i: usize = 0;
    proof {
        crate::host::lemma_host_seq_view_len(titems@);
        assert(s.take(0) =~= Seq::<HostView>::empty());
        assert(tissues_view(tissues@) =~= Seq::<PhantomTissueView>::empty());
    }
    while i < titems.len()
        invariant
            0 <= i <= titems@.len(),
            s == host_seq_view(titems@),
            s.len() == titems@.len(),
            tissues@.len() == i,
            spec_tissue_seq(s.take(i as int)) == Ok::<Seq<PhantomTissueView>, ErrorView>(
                tissues_view(tissues@),
            ),
        decreases titems@.len() - i,
    {
        proof {
            crate::host::lemma_host_seq_view_index(titems@, i as int);
            assert(s.take(i + 1).drop_last() =~= s.take(i as int));
            assert(s.take(i + 1).last() == s[i as int]);
        }
        match tissue_entry(&titems[i]) {
            Ok(t) => {
                let ghost old_ts = tissues@;
                tissues.push(t);
                proof {
                    assert(tissues_view(tissues@) =~= tissues_view(old_ts).push(t@));
                }
            },
            Err(e) => {
                proof {
                    lemma_tissue_seq_prefix_err(s, i + 1);
                }
                return Err(e);
            },
        }
        i = i + 1;
    }
    proof {
        assert(s.take(i as int) =~= s);
    }
    if spacing.len() != 3 {
        return Err(
            Error::ArrayLengthMismatch { field: "grid_spacing".to_owned(), actual: spacing.len() },
        );
    }
    if size.len() != 3 {
        return Err(
            Error::ArrayLengthMismatch { field: "grid_size".to_owned(), actual: size.len() },
        );
    }
    let b1 = match extract_complex_vecs(h, "b1") {
        Ok(v) => v,
        Err(e) => {
            return Err(e);
        },
    };
    let coil_sens = match extract_complex_vecs(h, "coil_sens") {
        Ok(v) => v,
        Err(e) => {
            return Err(e);
        },
    };
    let grid_spacing = triple_from(&spacing);
    let grid_size = dims_from(&size);
    Ok(MultiTissuePhantom { voxel_shape, grid_spacing, grid_size, tissues, b1, coil_sens })
}

/// One pulse-sequence event from a host object with `variant` and `fields`.
pub fn obj_to_event(h: &HostValue) -> (r: Result<Event, Error>)
    ensures
        match r {
            Ok(ev) => spec_event(h@) == Ok::<Event, ErrorView>(ev),
            Err(e) => spec_event(h@) == Err::<Event, ErrorView>(e@),
        },
{
    let vv = match attr_value(h, "variant") {
        Ok(v) => v,
        Err(e) => {
            return Err(e);
        },
    };
    let variant = match vv {
        HostValue::Str(variant) => variant,
        _ => {
            return Err(Error::InvalidField("variant".to_owned()));
        },
    };
    let fields = match attr_value(h, "fields") {
        Ok(v) => v,
        Err(e) => {
            return Err(e);
        },
    };
    if str_eq(variant, "Pulse") {
        let angle = match float_key(fields, "angle") {
            Ok(bits) => bits,
            Err(e) => {
                return Err(e);
            },
        };
        let phase = match float_key(fields, "phase") {
            Ok(bits) => bits,
            Err(e) => {
                return Err(e);
            },
        };
        Ok(Event::Pulse { angle, phase })
    } else if str_eq(variant, "Fid") {
        let ktv = match key_value(fields, "kt") {
            Ok(v) => v,
            Err(e) => {
                return Err(e);
            },
        };
        let bits = match float_vec(ktv, "kt") {
            Ok(v) => v,
            Err(e) => {
                return Err(e);
            },
        };
        if bits.len() != 4 {
            return Err(Error::ArrayLengthMismatch { field: "kt".to_owned(), actual: bits.len() });
        }
        Ok(Event::Fid { kt: quad_from(&bits) })
    } else if str_eq(variant, "Adc") {
        let phase = match float_key(fields, "phase") {
            Ok(bits) => bits,
            Err(e) => {
                return Err(e);
            },
        };
        Ok(Event::Adc { phase })
    } else {
        Err(Error::InvalidVariantTag(variant.clone()))
    }
}

/// The events of an `EventSeq` host object, in order.
pub fn obj_to_event_seq(h: &HostValue) -> (r: Result<Vec<Event>, Error>)
    ensures
        match r {
            Ok(events) => spec_events_attr(h@) == Ok::<Seq<Event>, ErrorView>(events@),
            Err(e) => spec_events_attr(h@) == Err::<Seq<Event>, ErrorView>(e@),
        },
{
    let ev = match attr_value(h, "events") {
        Ok(v) => v,
        Err(e) => {
            return Err(e);
        },
    };
    let items = match ev {
        HostValue::List(items) => items,
        _ => {
            return Err(Error::InvalidField("events".to_owned()));
        },
    };
    let ghost s = host_seq_view(items@);
    let mut events: Vec<Event> = Vec::new();
    let mut i: usize = 0;
    proof {
        crate::host::lemma_host_seq_view_len(items@);
        assert(s.take(0) =~= Seq::<HostView>::empty());
        assert(events@ =~= Seq::<Event>::empty());
    }
    while i < items.len()
        invariant
            0 <= i <= items@.len(),
            s == host_seq_view(items@),
            s.len() == items@.len(),
            events@.len() == i,
            spec_events_attr(h@) == spec_event_seq(s),
            spec_event_seq(s.take(i as int)) == Ok::<Seq<Event>, ErrorView>(events@),
        decreases items@.len() - i,
    {
        proof {
            crate::host::lemma_host_seq_view_index(items@, i as int);
            assert(s.take(i + 1).drop_last() =~= s.take(i as int));
            assert(s.take(i + 1).last() == s[i as int]);
        }
        match obj_to_event(&items[i]) {
            Ok(event) => {
                events.push(event);
            },
            Err(e) => {
                proof {
                    lemma_event_seq_prefix_err(s, i + 1);
                }
                return Err(e);
            },
        }
        i = i + 1;
    }
    proof {
        assert(s.take(i as int) =~= s);
    }
    Ok(events)
}

/// Conversion of the reserved `BlockSeq` variant: it is refused, whatever
/// the payload holds.
pub fn obj_to_block_seq(h: &HostValue) -> (r: Result<Value, Error>)
    ensures
        r matches Err(e) && e@ == ErrorView::UnimplementedConversion,
{
    let _ = h;
    Err(Error::UnimplementedConversion)
}

/// One host value converted to a value of the closed model.
///
/// The primitive tests come first, in the mandated priority order: none,
/// boolean, integer, float, string. Anything else must be an object with a
/// string `_type` tag, dispatched over the recognized tags.
pub fn obj_to_value(h: &HostValue) -> (r: Result<Value, Error>)
    ensures
        match r {
            Ok(v) => spec_to_value(h@) == Ok::<ValueView, ErrorView>(v@),
            Err(e) => spec_to_value(h@) == Err::<ValueView, ErrorView>(e@),
        },
{
    match h {
        HostValue::Null => Ok(Value::Null),
        HostValue::Bool(b) => Ok(Value::Bool(*b)),
        HostValue::Int(i) => Ok(Value::Int(*i)),
        HostValue::Float(bits) => Ok(Value::Float(*bits)),
        HostValue::Str(s) => Ok(Value::Str(s.clone())),
        HostValue::Obj(attrs) => {
            let tag = match get_entry(attrs, "_type") {
                Some(HostValue::Str(tag)) => tag,
                _ => {
                    return Err(Error::UnsupportedHostType);
                },
            };
            if str_eq(tag, "TissueProperties") {
                match obj_to_tissue_properties(h) {
                    Ok(tp) => Ok(Value::TissueProperties(tp)),
                    Err(e) => Err(e),
                }
            } else if str_eq(tag, "VoxelGridPhantom") {
                match obj_to_voxel_grid_phantom(h) {
                    Ok(p) => Ok(Value::VoxelGridPhantom(p)),
                    Err(e) => Err(e),
                }
            } else if str_eq(tag, "MultiTissuePhantom") {
                match obj_to_multi_tissue_phantom(h) {
                    Ok(p) => Ok(Value::MultiTissuePhantom(p)),
                    Err(e) => Err(e),
                }
            } else if str_eq(tag, "Event") {
                match obj_to_event(h) {
                    Ok(event) => {
                        let events = vec![event];
                        proof {
                            assert(events@ =~= seq![event]);
                        }
                        Ok(Value::EventSeq(EventSeq(events)))
                    },
                    Err(e) => Err(e),
                }
            } else if str_eq(tag, "EventSeq") {
                match obj_to_event_seq(h) {
                    Ok(events) => Ok(Value::EventSeq(EventSeq(events))),
                    Err(e) => Err(e),
                }
            } else if str_eq(tag, "BlockSeq") {
                obj_to_block_seq(h)
            } else {
                Err(Error::InvalidVariantTag(tag.clone()))
            }
        },
        _ => Err(Error::UnsupportedHostType),
    }
}

} // verus!
