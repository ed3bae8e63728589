use braid::ast::external::Extern;
use braid::ast::module::{AstError, Item, Module};
use braid::ast::node::Node;
use braid::ast::path::{Element, Path};
use braid::ast::routinedef::{RoutineDef, RoutineDefType};
use braid::ast::ty::Type;
use braid::display::CompilerDisplay;
use braid::stringtable::{StringId, StringTable};

fn function(name: StringId) -> RoutineDef<i32> {
    RoutineDef {
        annotations: 1,
        name,
        def: RoutineDefType::Function,
        params: vec![],
        ty: Type::I64,
        body: vec![],
    }
}

fn coroutine(name: StringId) -> RoutineDef<i32> {
    RoutineDef {
        annotations: 1,
        name,
        def: RoutineDefType::Coroutine,
        params: vec![],
        ty: Type::I64,
        body: vec![],
    }
}

fn message(result: Result<(), AstError>, table: &StringTable) -> Result<(), String> {
    result.map_err(|e| e.fmt(table).unwrap())
}

#[test]
pub fn test_new_module() {
    let mut table = StringTable::new();
    let test = table.insert("test".into());
    let module = Module::new(test, 1);
    assert_eq!(table.get(module.get_name()).unwrap(), "test");
    assert_eq!(*module.annotation(), 1);
}

#[test]
pub fn test_get_nonexistant_item() {
    let mut table = StringTable::new();
    let mut module = Module::new(table.insert("test".into()), 1);
    let fdef = function(table.insert("func".into()));
    module.add_function(fdef.clone()).unwrap();
    let f = module.get_item(table.insert("not_found".into()));
    assert_eq!(f, None);
}

#[test]
pub fn test_add_function() {
    let mut table = StringTable::new();
    let mut module = Module::new(table.insert("test".into()), 1);
    let fdef = function(table.insert("func".into()));
    module.add_function(fdef.clone()).unwrap();
    let f = module.get_item(table.insert("func".into()));
    assert_eq!(f, Some(&Item::Routine(fdef)));
}

#[test]
pub fn test_add_function_that_already_exists() {
    let mut table = StringTable::new();
    let mut module = Module::new(table.insert("test".into()), 1);
    let fdef = function(table.insert("func".into()));
    module.add_function(fdef.clone()).unwrap();
    let result = module.add_function(fdef.clone());
    assert_eq!(message(result, &table), Err("func already exists in module".into()));
}

#[test]
pub fn test_add_coroutine() {
    let mut table = StringTable::new();
    let mut module = Module::new(table.insert("test".into()), 1);
    let cdef = coroutine(table.insert("cor".into()));
    module.add_coroutine(cdef.clone()).unwrap();
    let c = module.get_item(table.insert("cor".into())).unwrap();
    assert_eq!(c, &Item::Routine(cdef));
}

#[test]
pub fn test_add_coroutine_that_already_exists() {
    let mut table = StringTable::new();
    let mut module = Module::new(table.insert("test".into()), 1);
    let cdef = coroutine(table.insert("cor".into()));
    module.add_coroutine(cdef.clone()).unwrap();
    let result = module.add_coroutine(cdef.clone());
    assert_eq!(message(result, &table), Err("cor already exists in module".into()));
}

#[test]
pub fn test_add_coroutine_with_same_name_as_function() {
    let mut table = StringTable::new();
    let mut module = Module::new(table.insert("test".into()), 1);
    let fdef = function(table.insert("dupe".into()));
    module.add_function(fdef.clone()).unwrap();

    let cdef = coroutine(table.insert("dupe".into()));
    let result = module.add_coroutine(cdef.clone());
    assert_eq!(message(result, &table), Err("dupe already exists in module".into()));
}

#[test]
pub fn test_add_function_with_same_name_as_coroutine() {
    let mut table = StringTable::new();
    let mut module = Module::new(table.insert("test".into()), 1);
    let cdef = coroutine(table.insert("dupe".into()));
    module.add_coroutine(cdef.clone()).unwrap();

    let fdef = function(table.insert("dupe".into()));
    let result = module.add_function(fdef.clone());
    assert_eq!(message(result, &table), Err("dupe already exists in module".into()));
}

#[test]
pub fn test_add_extern() {
    let mut table = StringTable::new();
    let mut module = Module::new(table.insert("test".into()), 1);
    let edef = Extern::new(table.insert("puts".into()), 1, vec![], false, Type::Unit);
    module.add_extern(edef.clone()).unwrap();
    let c = module.get_item(table.insert("puts".into())).unwrap();
    assert_eq!(c, &Item::Extern(edef));
}

#[test]
pub fn test_add_extern_that_already_exists() {
    let mut table = StringTable::new();
    let mut module = Module::new(table.insert("test".into()), 1);
    let edef = Extern::new(table.insert("puts".into()), 1, vec![], false, Type::Unit);
    module.add_extern(edef.clone()).unwrap();
    let result = module.add_extern(edef.clone());
    assert_eq!(message(result, &table), Err("puts already exists in module".into()));
}

#[test]
pub fn test_add_extern_with_same_name_as_function() {
    let mut table = StringTable::new();
    let mut module = Module::new(table.insert("test".into()), 1);
    let fdef = function(table.insert("dupe".into()));
    module.add_function(fdef.clone()).unwrap();

    let edef = Extern::new(table.insert("dupe".into()), 1, vec![], false, Type::Unit);
    let result = module.add_extern(edef.clone());
    assert_eq!(message(result, &table), Err("dupe already exists in module".into()));
}

#[test]
pub fn test_add_function_with_same_name_as_extern() {
    let mut table = StringTable::new();
    let mut module = Module::new(table.insert("test".into()), 1);
    let edef = Extern::new(table.insert("dupe".into()), 1, vec![], false, Type::Unit);
    module.add_extern(edef.clone()).unwrap();

    let fdef = function(table.insert("dupe".into()));
    let result = module.add_function(fdef.clone());
    assert_eq!(message(result, &table), Err("dupe already exists in module".into()));
}

#[test]
pub fn add_item_sorts_by_kind() {
    let mut table = StringTable::new();
    let mut module = Module::new(table.insert("test".into()), 1);
    let f = table.insert("f".into());
    let c = table.insert("c".into());
    module.add_item(Item::Routine(function(f))).unwrap();
    module.add_item(Item::Routine(coroutine(c))).unwrap();
    assert_eq!(module.get_functions().len(), 1);
    assert_eq!(module.get_coroutines().len(), 1);
    assert_eq!(module.add_item(Item::Routine(coroutine(f))), Err(AstError::ModuleAlreadyContains(f)));
    assert_eq!(module.get_item(c).unwrap().to_routine().unwrap().get_def(), &RoutineDefType::Coroutine);
}

#[test]
pub fn go_to_module_follows_names() {
    let mut table = StringTable::new();
    let outer_name = table.insert("outer".into());
    let inner_name = table.insert("inner".into());
    let other = table.insert("other".into());
    let mut outer = Module::new(outer_name, 2);
    outer.add_module(Module::new(inner_name, 1));

    let relative = Path::from_elements(vec![Element::Id(outer_name), Element::Id(inner_name)]);
    assert_eq!(outer.go_to_module(&relative).map(|m| m.get_name()), Some(inner_name));
    let canonical = Path::from_elements(vec![
        Element::CanonicalRoot,
        Element::Id(outer_name),
        Element::Id(inner_name),
    ]);
    assert_eq!(outer.go_to_module(&canonical).map(|m| m.get_name()), Some(inner_name));
    let wrong_root = Path::from_elements(vec![Element::Id(other), Element::Id(inner_name)]);
    assert!(outer.go_to_module(&wrong_root).is_none());
    let missing = Path::from_elements(vec![Element::Id(outer_name), Element::Id(other)]);
    assert!(outer.go_to_module(&missing).is_none());
    assert!(outer.go_to_module(&Path::new()).is_none());
    assert_eq!(outer.get_module(inner_name).map(|m| *m.annotation()), Some(1));
}
