use raytracer::integrator::Event;
use raytracer::material::{
    refs_resolve, resolve, scatter_event, MaterialAccessor, MaterialKind, MaterialRef,
    MaterialSlot, TableSizes,
};

fn sizes() -> TableSizes {
    TableSizes { lambertians: 3, metals: 1, dielectrics: 2 }
}

#[test]
fn resolve_each_table() {
    assert_eq!(
        resolve(MaterialRef::new(0, 2), sizes()),
        Some(MaterialSlot { kind: MaterialKind::Lambertian, index: 2 })
    );
    assert_eq!(
        resolve(MaterialRef::new(1, 0), sizes()),
        Some(MaterialSlot { kind: MaterialKind::Metal, index: 0 })
    );
    assert_eq!(
        resolve(MaterialRef::new(2, 1), sizes()),
        Some(MaterialSlot { kind: MaterialKind::Dielectric, index: 1 })
    );
}

#[test]
fn resolve_rejects_index_past_table() {
    assert_eq!(resolve(MaterialRef::new(0, 3), sizes()), None);
    assert_eq!(resolve(MaterialRef::new(1, 1), sizes()), None);
    assert_eq!(resolve(MaterialRef::new(2, 2), sizes()), None);
}

#[test]
fn resolve_rejects_negative_index() {
    assert_eq!(resolve(MaterialRef::new(0, -1), sizes()), None);
}

#[test]
fn resolve_rejects_unknown_tag() {
    assert_eq!(resolve(MaterialRef::new(3, 0), sizes()), None);
    assert_eq!(resolve(MaterialRef::new(-1, 0), sizes()), None);
}

#[test]
fn unset_reference_never_resolves() {
    let r = MaterialRef::unset();
    assert_eq!(r.get_material_info(), (-1, -1));
    assert_eq!(resolve(r, sizes()), None);
}

#[test]
fn material_info_is_tag_and_index() {
    assert_eq!(MaterialRef::new(1, 7).get_material_info(), (1, 7));
}

#[test]
fn tags_round_trip_through_resolve() {
    for kind in [MaterialKind::Lambertian, MaterialKind::Metal, MaterialKind::Dielectric] {
        let slot = resolve(MaterialRef::new(kind.tag(), 0), sizes()).unwrap();
        assert_eq!(slot.kind, kind);
    }
    assert_eq!(MaterialKind::Lambertian.tag(), 0);
    assert_eq!(MaterialKind::Metal.tag(), 1);
    assert_eq!(MaterialKind::Dielectric.tag(), 2);
}

#[test]
fn scene_references_all_resolve() {
    let refs = vec![MaterialRef::new(0, 0), MaterialRef::new(1, 0), MaterialRef::new(2, 1)];
    assert!(refs_resolve(&refs, sizes()));
    assert!(refs_resolve(&Vec::new(), sizes()));
}

#[test]
fn scene_with_dangling_reference_is_refused() {
    let refs = vec![MaterialRef::new(0, 0), MaterialRef::new(1, 4), MaterialRef::new(2, 1)];
    assert!(!refs_resolve(&refs, sizes()));
    let unset = vec![MaterialRef::unset()];
    assert!(!refs_resolve(&unset, sizes()));
}

#[test]
fn lambertian_always_scatters() {
    assert_eq!(scatter_event(MaterialKind::Lambertian, true), Event::Scattered);
    assert_eq!(scatter_event(MaterialKind::Lambertian, false), Event::Scattered);
}

#[test]
fn dielectric_always_scatters() {
    assert_eq!(scatter_event(MaterialKind::Dielectric, true), Event::Scattered);
    assert_eq!(scatter_event(MaterialKind::Dielectric, false), Event::Scattered);
}

#[test]
fn metal_absorbs_inward_reflection() {
    assert_eq!(scatter_event(MaterialKind::Metal, true), Event::Scattered);
    assert_eq!(scatter_event(MaterialKind::Metal, false), Event::Absorbed);
}
