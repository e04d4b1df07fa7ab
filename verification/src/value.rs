//! The closed tagged value model that crosses the call boundary.
//!
//! Every floating-point field is carried as the `u64` bit pattern of the
//! host's 64-bit float; the marshalling layer moves these bits without
//! interpreting them.

use vstd::prelude::*;

verus! {

/// A complex number, as the bit patterns of its real and imaginary parts.
#[derive(Clone, Copy, PartialEq, Eq, Structural, Debug)]
pub struct Complex {
    pub re: u64,
    pub im: u64,
}

/// Relaxation and diffusion constants of one tissue.
///
/// The host exposes the diffusion constant under the attribute name `d`;
/// in the value model it is called `adc`. The asymmetry is part of the
/// interchange convention and is preserved by both converters.
#[derive(Clone, Copy, PartialEq, Eq, Structural, Debug)]
pub struct TissueProperties {
    pub t1: u64,
    pub t2: u64,
    pub t2dash: u64,
    pub adc: u64,
}

/// Three floats, as bit patterns: a spatial triple such as a grid spacing.
#[derive(Clone, Copy, PartialEq, Eq, Structural, Debug)]
pub struct Triple {
    pub x: u64,
    pub y: u64,
    pub z: u64,
}

/// Three grid dimensions.
#[derive(Clone, Copy, PartialEq, Eq, Structural, Debug)]
pub struct Dims {
    pub x: usize,
    pub y: usize,
    pub z: usize,
}

/// Four floats, as bit patterns: the `kt` coordinates of a free decay.
#[derive(Clone, Copy, PartialEq, Eq, Structural, Debug)]
pub struct Quad {
    pub x: u64,
    pub y: u64,
    pub z: u64,
    pub t: u64,
}

/// The spatial profile of one voxel.
#[derive(Clone, Copy, PartialEq, Eq, Structural, Debug)]
pub enum VoxelShape {
    AASinc(Triple),
    AABox(Triple),
}

/// One instruction of a pulse sequence.
#[derive(Clone, Copy, PartialEq, Eq, Structural, Debug)]
pub enum Event {
    Pulse { angle: u64, phase: u64 },
    Fid { kt: Quad },
    Adc { phase: u64 },
}

/// An ordered pulse sequence.
#[derive(Clone, PartialEq, Debug)]
pub struct EventSeq(pub Vec<Event>);

/// Spatial maps of one tissue of a multi-tissue phantom.
#[derive(Clone, PartialEq, Debug)]
pub struct PhantomTissue {
    pub pd: Vec<u64>,
    pub b0: Vec<u64>,
    pub props: TissueProperties,
}

/// A discretized phantom with one property value per voxel.
#[derive(Clone, PartialEq, Debug)]
pub struct VoxelGridPhantom {
    pub voxel_shape: VoxelShape,
    pub grid_spacing: Triple,
    pub grid_size: Dims,
    pub pd: Vec<u64>,
    pub t1: Vec<u64>,
    pub t2: Vec<u64>,
    pub t2dash: Vec<u64>,
    pub adc: Vec<u64>,
    pub b0: Vec<u64>,
    pub b1: Vec<Vec<Complex>>,
    pub coil_sens: Vec<Vec<Complex>>,
}

/// A phantom given as a set of tissues over a common grid.
#[derive(Clone, PartialEq, Debug)]
pub struct MultiTissuePhantom {
    pub voxel_shape: VoxelShape,
    pub grid_spacing: Triple,
    pub grid_size: Dims,
    pub tissues: Vec<PhantomTissue>,
    pub b1: Vec<Vec<Complex>>,
    pub coil_sens: Vec<Vec<Complex>>,
}

/// The closed tagged union that crosses the call boundary.
#[derive(Clone, PartialEq, Debug)]
pub enum Value {
    /// The host's null/none value.
    Null,
    Bool(bool),
    Int(i64),
    /// A 64-bit float, as its bit pattern.
    Float(u64),
    Str(String),
    TissueProperties(TissueProperties),
    VoxelGridPhantom(VoxelGridPhantom),
    MultiTissuePhantom(MultiTissuePhantom),
    EventSeq(EventSeq),
    /// Reserved variant: conversion in either direction is refused.
    BlockSeq,
    /// Output-only: per-coil sampled data.
    Signal(Vec<Vec<Complex>>),
}

/// A string-keyed mapping of values, in insertion order, keys unique.
#[derive(Clone, PartialEq, Debug)]
pub struct ValueDict(pub Vec<(String, Value)>);

/// The mathematical model of a [`PhantomTissue`].
pub ghost struct PhantomTissueView {
    pub pd: Seq<u64>,
    pub b0: Seq<u64>,
    pub props: TissueProperties,
}

/// The mathematical model of a [`VoxelGridPhantom`].
pub ghost struct VoxelGridPhantomView {
    pub voxel_shape: VoxelShape,
    pub grid_spacing: Triple,
    pub grid_size: Dims,
    pub pd: Seq<u64>,
    pub t1: Seq<u64>,
    pub t2: Seq<u64>,
    pub t2dash: Seq<u64>,
    pub adc: Seq<u64>,
    pub b0: Seq<u64>,
    pub b1: Seq<Seq<Complex>>,
    pub coil_sens: Seq<Seq<Complex>>,
}

/// The mathematical model of a [`MultiTissuePhantom`].
pub ghost struct MultiTissuePhantomView {
    pub voxel_shape: VoxelShape,
    pub grid_spacing: Triple,
    pub grid_size: Dims,
    pub tissues: Seq<PhantomTissueView>,
    pub b1: Seq<Seq<Complex>>,
    pub coil_sens: Seq<Seq<Complex>>,
}

/// The mathematical model of a [`Value`].
pub ghost enum ValueView {
    Null,
    Bool(bool),
    Int(i64),
    Float(u64),
    Str(Seq<char>),
    TissueProperties(TissueProperties),
    VoxelGridPhantom(VoxelGridPhantomView),
    MultiTissuePhantom(MultiTissuePhantomView),
    EventSeq(Seq<Event>),
    BlockSeq,
    Signal(Seq<Seq<Complex>>),
}

/// The model of a matrix of complex numbers, row by row.
pub open spec fn rows_view(rows: Seq<Vec<Complex>>) -> Seq<Seq<Complex>> {
    rows.map_values(|row: Vec<Complex>| row@)
}

/// The model of a list of phantom tissues, tissue by tissue.
pub open spec fn tissues_view(tissues: Seq<PhantomTissue>) -> Seq<PhantomTissueView> {
    tissues.map_values(|t: PhantomTissue| t@)
}

impl View for PhantomTissue {
    type V = PhantomTissueView;

    open spec fn view(&self) -> PhantomTissueView {
        PhantomTissueView { pd: self.pd@, b0: self.b0@, props: self.props }
    }
}

impl View for VoxelGridPhantom {
    type V = VoxelGridPhantomView;

    open spec fn view(&self) -> VoxelGridPhantomView {
        VoxelGridPhantomView {
            voxel_shape: self.voxel_shape,
            grid_spacing: self.grid_spacing,
            grid_size: self.grid_size,
            pd: self.pd@,
            t1: self.t1@,
            t2: self.t2@,
            t2dash: self.t2dash@,
            adc: self.adc@,
            b0: self.b0@,
            b1: rows_view(self.b1@),
            coil_sens: rows_view(self.coil_sens@),
        }
    }
}

impl View for MultiTissuePhantom {
    type V = MultiTissuePhantomView;

    open spec fn view(&self) -> MultiTissuePhantomView {
        MultiTissuePhantomView {
            voxel_shape: self.voxel_shape,
            grid_spacing: self.grid_spacing,
            grid_size: self.grid_size,
            tissues: tissues_view(self.tissues@),
            b1: rows_view(self.b1@),
            coil_sens: rows_view(self.coil_sens@),
        }
    }
}

impl View for Value {
    type V = ValueView;

    open spec fn view(&self) -> ValueView {
        match self {
            Value::Null => ValueView::Null,
            Value::Bool(b) => ValueView::Bool(*b),
            Value::Int(i) => ValueView::Int(*i),
            Value::Float(bits) => ValueView::Float(*bits),
            Value::Str(s) => ValueView::Str(s@),
            Value::TissueProperties(tp) => ValueView::TissueProperties(*tp),
            Value::VoxelGridPhantom(p) => ValueView::VoxelGridPhantom(p@),
            Value::MultiTissuePhantom(p) => ValueView::MultiTissuePhantom(p@),
            Value::EventSeq(es) => ValueView::EventSeq(es.0@),
            Value::BlockSeq => ValueView::BlockSeq,
            Value::Signal(rows) => ValueView::Signal(rows_view(rows@)),
        }
    }
}

/// The model of string-keyed value entries, in order.
pub open spec fn dict_entries_view(entries: Seq<(String, Value)>) -> Seq<(Seq<char>, ValueView)> {
    entries.map_values(|e: (String, Value)| (e.0@, e.1@))
}

impl View for ValueDict {
    type V = Seq<(Seq<char>, ValueView)>;

    open spec fn view(&self) -> Seq<(Seq<char>, ValueView)> {
        dict_entries_view(self.0@)
    }
}

} // verus!
