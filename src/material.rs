//! Material references: a surface names its material by a type tag and an
//! index into one of three homogeneous tables.

use crate::integrator::Event;
use vstd::prelude::*;

verus! {

/// Read access to the material reference that a surface carries.
pub trait MaterialAccessor {
    /// The pair `(type tag, table index)` of the surface's material.
    fn get_material_info(self) -> (i32, i32);
}

/// The three material variants, each stored in a table of its own.
#[derive(Clone, Copy, Debug, PartialEq, Eq, Structural)]
pub enum MaterialKind {
    Lambertian,
    Metal,
    Dielectric,
}

/// The type tag and index by which a surface refers to its material.
/// Tag `0` is the Lambertian table, `1` the metal table, `2` the dielectric
/// table; `-1` marks a surface whose material was not assigned yet.
#[derive(Clone, Copy, Debug, PartialEq, Eq, Structural)]
pub struct MaterialRef {
    pub material_type: i32,
    pub material_index: i32,
}

/// The number of entries in each of the three material tables.
#[derive(Clone, Copy, Debug, PartialEq, Eq, Structural)]
pub struct TableSizes {
    pub lambertians: usize,
    pub metals: usize,
    pub dielectrics: usize,
}

/// A resolved material reference: which table, and a position inside it.
#[derive(Clone, Copy, Debug, PartialEq, Eq, Structural)]
pub struct MaterialSlot {
    pub kind: MaterialKind,
    pub index: usize,
}

/// The kind that a type tag names, if any.
pub open spec fn kind_of_tag(tag: int) -> Option<MaterialKind> {
    if tag == 0 {
        Some(MaterialKind::Lambertian)
    } else if tag == 1 {
        Some(MaterialKind::Metal)
    } else if tag == 2 {
        Some(MaterialKind::Dielectric)
    } else {
        None
    }
}

/// The number of entries of the table of one kind.
pub open spec fn table_len(sizes: TableSizes, kind: MaterialKind) -> int {
    match kind {
        MaterialKind::Lambertian => sizes.lambertians as int,
        MaterialKind::Metal => sizes.metals as int,
        MaterialKind::Dielectric => sizes.dielectrics as int,
    }
}

/// The slot a reference designates: its tag names a kind, and its index lies
/// inside that kind's table.
pub open spec fn resolve_spec(r: MaterialRef, sizes: TableSizes) -> Option<MaterialSlot> {
    match kind_of_tag(r.material_type as int) {
        Some(kind) => if 0 <= r.material_index < table_len(sizes, kind) {
            Some(MaterialSlot { kind, index: r.material_index as usize })
        } else {
            None
        },
        None => None,
    }
}

impl MaterialKind {
    /// The type tag of this kind.
    pub fn tag(self) -> (t: i32)
        ensures
            kind_of_tag(t as int) == Some(self),
    {
        match self {
            MaterialKind::Lambertian => 0,
            MaterialKind::Metal => 1,
            MaterialKind::Dielectric => 2,
        }
    }
}

impl MaterialRef {
    /// A reference to entry `index` of the table that `material_type` names.
    pub fn new(material_type: i32, material_index: i32) -> (r: MaterialRef)
        ensures
            r.material_type == material_type,
            r.material_index == material_index,
    {
        MaterialRef { material_type, material_index }
    }

    /// The reference of a surface that has no material yet.
    pub fn unset() -> (r: MaterialRef)
        ensures
            r.material_type == -1,
            r.material_index == -1,
    {
        MaterialRef { material_type: -1, material_index: -1 }
    }
}

/// Resolves a reference against the table sizes of a scene: `None` when its tag
/// names no table or its index falls outside the named table.
pub fn resolve(r: MaterialRef, sizes: TableSizes) -> (slot: Option<MaterialSlot>)
    ensures
        slot == resolve_spec(r, sizes),
{
    let kind = if r.material_type == 0 {
        MaterialKind::Lambertian
    } else if r.material_type == 1 {
        MaterialKind::Metal
    } else if r.material_type == 2 {
        MaterialKind::Dielectric
    } else {
        return None;
    };
    let len = match kind {
        MaterialKind::Lambertian => sizes.lambertians,
        MaterialKind::Metal => sizes.metals,
        MaterialKind::Dielectric => sizes.dielectrics,
    };
    if r.material_index < 0 || r.material_index as usize >= len {
        None
    } else {
        Some(MaterialSlot { kind, index: r.material_index as usize })
    }
}

/// Whether every reference of a scene resolves to an existing table entry.
pub fn refs_resolve(refs: &Vec<MaterialRef>, sizes: TableSizes) -> (ok: bool)
    ensures
        ok == forall|i: int| 0 <= i < refs@.len() ==> (#[trigger] resolve_spec(refs@[i], sizes)) is Some,
{
    let mut i: usize = 0;
    while i < refs.len()
        invariant
            i <= refs@.len(),
            forall|k: int| 0 <= k < i ==> (#[trigger] resolve_spec(refs@[k], sizes)) is Some,
        decreases refs@.len() - i,
    {
        if resolve(refs[i], sizes).is_none() {
            return false;
        }
        i = i + 1;
    }
    true
}

/// Whether a material of `kind` lets a scattered ray leave: a Lambertian or a
/// dielectric surface always does; a metal one only when the perturbed
/// reflection still points out of the surface (`outgoing_faces_out`, a positive
/// dot product with the normal).
pub open spec fn scatters_spec(kind: MaterialKind, outgoing_faces_out: bool) -> bool {
    match kind {
        MaterialKind::Metal => outgoing_faces_out,
        _ => true,
    }
}

/// The event that a hit on a material of `kind` produces.
pub fn scatter_event(kind: MaterialKind, outgoing_faces_out: bool) -> (e: Event)
    ensures
        e == (if scatters_spec(kind, outgoing_faces_out) {
            Event::Scattered
        } else {
            Event::Absorbed
        }),
        kind == MaterialKind::Lambertian ==> e == Event::Scattered,
        kind == MaterialKind::Dielectric ==> e == Event::Scattered,
{
    match kind {
        MaterialKind::Metal => if outgoing_faces_out {
            Event::Scattered
        } else {
            Event::Absorbed
        },
        _ => Event::Scattered,
    }
}

impl MaterialAccessor for MaterialRef {
    fn get_material_info(self) -> (r: (i32, i32))
        ensures
            r == (self.material_type, self.material_index),
    {
        (self.material_type, self.material_index)
    }
}

} // verus!
