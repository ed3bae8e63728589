use braid::ast::path::Path;
use braid::ast::ty::Type;
use braid::memory::scope::{LayoutData, Level, Scope};

fn sizes(list: &[(&str, i32)]) -> Vec<(String, i32)> {
    list.iter().map(|(n, s)| (n.to_string(), *s)).collect()
}

#[test]
fn symbols_are_laid_out_one_behind_the_other() {
    let (scope, layout) = Scope::local_from(
        3,
        7,
        Path::new(),
        Type::I64,
        &sizes(&[("a", 4), ("b", 8), ("c", 1)]),
        LayoutData::new(16),
    )
    .unwrap();
    assert_eq!(layout, LayoutData::new(29));
    assert_eq!(scope.id(), 3);
    assert_eq!(scope.line(), 7);
    assert_eq!(scope.ty(), &Type::I64);
    assert_eq!(scope.level(), &Level::Block);
    assert_eq!(scope.local_allocation(), None);
    let a = scope.get("a").unwrap();
    assert_eq!((a.size, a.offset), (4, 20));
    let b = scope.get("b").unwrap();
    assert_eq!((b.size, b.offset), (8, 28));
    let c = scope.get("c").unwrap();
    assert_eq!((c.size, c.offset), (1, 29));
    assert!(scope.get("d").is_none());
}

#[test]
fn a_routine_records_what_its_frame_takes() {
    let (scope, offset) =
        Scope::routine_from(1, 2, Path::new(), Type::Unit, &sizes(&[("x", 8), ("y", 8)]), 0)
            .unwrap();
    assert_eq!(offset, 16);
    assert_eq!(scope.level(), &Level::Routine { next_label: 0, allocation: 16 });
    assert_eq!(scope.local_allocation(), Some(16));
    assert_eq!(scope.get("y").unwrap().offset, 16);

    let (scope, offset) =
        Scope::routine_from(1, 2, Path::new(), Type::Unit, &sizes(&[]), 24).unwrap();
    assert_eq!(offset, 24);
    assert_eq!(scope.local_allocation(), Some(24));
}

#[test]
fn a_module_keeps_its_name() {
    let (scope, layout) = Scope::module_from(
        0,
        1,
        "main",
        Path::new(),
        Type::Unit,
        &sizes(&[("f", 0), ("g", 0)]),
        LayoutData::new(0),
    )
    .unwrap();
    assert_eq!(layout, LayoutData::new(0));
    assert_eq!(scope.level(), &Level::Module { name: "main".into() });
    assert_eq!(scope.get("g").unwrap().offset, 0);
}

#[test]
fn a_frame_that_is_too_large_is_refused() {
    assert!(Scope::local_from(
        0,
        0,
        Path::new(),
        Type::Unit,
        &sizes(&[("a", i32::MAX), ("b", 1)]),
        LayoutData::new(0),
    )
    .is_none());
    assert!(Scope::routine_from(0, 0, Path::new(), Type::Unit, &sizes(&[("a", 1)]), i32::MAX)
        .is_none());
    assert!(Scope::routine_from(0, 0, Path::new(), Type::Unit, &sizes(&[("a", -1)]), i32::MIN)
        .is_none());
    // A sum that leaves the range and comes back is refused too.
    assert!(Scope::routine_from(
        0,
        0,
        Path::new(),
        Type::Unit,
        &sizes(&[("a", i32::MAX), ("b", 1), ("c", -5)]),
        0
    )
    .is_none());
    let mut scope = Scope::new(Level::Block);
    assert_eq!(scope.fill(&sizes(&[("a", i32::MAX)]), 0), Some(i32::MAX));
    assert_eq!(scope.get("a").unwrap().offset, i32::MAX);
}

#[test]
fn the_later_symbol_of_a_name_is_found() {
    let (scope, _) = Scope::local_from(
        0,
        0,
        Path::new(),
        Type::Unit,
        &sizes(&[("a", 4), ("a", 8)]),
        LayoutData::new(0),
    )
    .unwrap();
    let a = scope.get("a").unwrap();
    assert_eq!((a.size, a.offset), (8, 12));
}
