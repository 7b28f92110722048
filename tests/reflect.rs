use script_bridge::global::{Global, PRINT_NATIVE, SEND_NATIVE};
use script_bridge::reflect::{ClassId, PrototypeID, Reflected, TypeMismatch};

#[test]
fn global_class_tables() {
    let c = Global::<()>::class();
    assert_eq!(c.id, ClassId::Global);
    assert_eq!(c.name, "Global");
    assert!(c.is_global && c.finalizes);
    let p = Global::<()>::prototype_class();
    assert_eq!(p.id, ClassId::GlobalPrototype);
    assert_eq!(p.name, "GlobalPrototype");
    assert!(!p.is_global && !p.finalizes);
    assert!(Global::<()>::attributes().is_none());
    assert_eq!(Global::<()>::prototype_index(), PrototypeID::Global);
}

#[test]
fn global_methods_are_print_and_send() {
    let m = Global::<()>::methods();
    assert_eq!(m.len(), 2);
    assert_eq!(m[0].name, PRINT_NATIVE);
    assert_eq!(m[0].name, "_print");
    assert_eq!(m[1].name, SEND_NATIVE);
    assert_eq!(m[1].name, "_send");
    assert!(m.iter().all(|x| x.nargs == 1 && x.enumerable));
}

#[test]
fn from_value_resolves_live_global() {
    let o: Reflected<Global<u32>, usize> = Global::attach(9u32);
    let g = Reflected::from_value(Some(&o), ClassId::Global).unwrap();
    assert_eq!(g.flag, 0);
    assert_eq!(g.event_loop, 9);
}

#[test]
fn from_value_rejects_other_classes_and_primitives() {
    let o: Reflected<Global<u32>, usize> = Global::attach(1u32);
    assert_eq!(Reflected::from_value(Some(&o), ClassId::GlobalPrototype).err(), Some(TypeMismatch));
    assert_eq!(Reflected::from_value(Some(&o), ClassId::Other(4)).err(), Some(TypeMismatch));
    assert_eq!(Reflected::<Global<u32>, usize>::from_value(None, ClassId::Global).err(), Some(TypeMismatch));
    let foreign: Reflected<u64, usize> = Reflected::create(ClassId::Other(4), 77);
    assert_eq!(Reflected::from_value(Some(&foreign), ClassId::Global).err(), Some(TypeMismatch));
}

#[test]
fn finalized_global_never_resolves() {
    let mut o: Reflected<Global<u32>, usize> = Global::attach(3u32);
    o.install_prototype(11);
    assert!(!o.is_finalized());
    let reclaimed = o.finalize();
    assert_eq!(reclaimed.map(|g| g.event_loop), Some(3));
    assert!(o.is_finalized());
    assert_eq!(Reflected::from_value(Some(&o), ClassId::Global).err(), Some(TypeMismatch));
    assert!(o.finalize().is_none());
    assert_eq!(o.class_id(), ClassId::Global);
}

#[test]
fn prototype_is_built_once_and_kept() {
    let mut o: Reflected<Global<()>, usize> = Global::attach(());
    assert_eq!(o.cached_prototype(), None);
    assert_eq!(o.install_prototype(100), 100);
    assert_eq!(o.install_prototype(200), 100);
    assert_eq!(o.cached_prototype(), Some(100));
}

#[test]
fn state_is_mutable_only_while_live() {
    let mut o: Reflected<Global<u32>, usize> = Global::attach(1u32);
    o.state_mut().unwrap().event_loop = 2;
    assert_eq!(Reflected::from_value(Some(&o), ClassId::Global).unwrap().event_loop, 2);
    o.finalize();
    assert!(o.state_mut().is_none());
}
