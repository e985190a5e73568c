use paint_panel::registry::{ImageHandle, TextureId, TextureRegistry};

fn h(id: u64) -> ImageHandle {
    ImageHandle { id }
}

#[test]
fn registration_is_idempotent_per_handle() {
    let mut reg = TextureRegistry::new();
    let a1 = reg.register(h(7));
    let a2 = reg.register(h(7));
    assert_eq!(a1, a2);
    let b1 = reg.register(h(9));
    assert_ne!(a1, b1);
    let b2 = reg.register(h(9));
    assert_eq!(b1, b2);
    // The ids still resolve to their handles.
    assert_eq!(reg.resolve(a1), Some(h(7)));
    assert_eq!(reg.resolve(b1), Some(h(9)));
}

#[test]
fn resolve_after_deregister_degrades_gracefully() {
    let mut reg = TextureRegistry::new();
    let t = reg.register(h(3));
    assert_eq!(reg.resolve(t), Some(h(3)));
    reg.deregister(h(3));
    // The stale id resolves to the graceful empty result, not a fault.
    assert_eq!(reg.resolve(t), None);
    // Deregistering again is harmless.
    reg.deregister(h(3));
    assert_eq!(reg.resolve(t), None);
}

#[test]
fn never_issued_ids_resolve_to_nothing() {
    let reg = TextureRegistry::new();
    assert_eq!(reg.resolve(TextureId { id: 0 }), None);
    assert_eq!(reg.resolve(TextureId { id: u64::MAX }), None);
}

#[test]
fn reregistration_after_removal_never_reuses_the_stale_id() {
    let mut reg = TextureRegistry::new();
    let t1 = reg.register(h(4));
    reg.deregister(h(4));
    let t2 = reg.register(h(4));
    assert_ne!(t1, t2);
    assert_eq!(reg.resolve(t1), None);
    assert_eq!(reg.resolve(t2), Some(h(4)));
}
