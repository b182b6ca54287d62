use script_host::context::build_context;
use script_host::context::ExecutionContext;
use script_host::context::Handler;
use script_host::context::Namespace;
use script_host::context::Property;
use script_host::context::GLOBAL;

#[test]
fn native_surface_is_reachable_by_name() {
    let context = build_context();
    assert_eq!(context.object_count(), 4);
    let done = match context.get(GLOBAL, "Done") {
        Some(Property::Object(id)) => id,
        other => panic!("Done is {:?}", other),
    };
    let core = match context.get(done, "core") {
        Some(Property::Object(id)) => id,
        other => panic!("core is {:?}", other),
    };
    let fs = match context.get(GLOBAL, "fs") {
        Some(Property::Object(id)) => id,
        other => panic!("fs is {:?}", other),
    };
    assert_eq!((done, core, fs), (1, 2, 3));
    assert_eq!(context.get(core, "print"), Some(Property::Function(Handler::Print)));
    assert_eq!(context.get(core, "println"), Some(Property::Function(Handler::Println)));
    assert_eq!(context.get(fs, "readFileSync"), Some(Property::Function(Handler::ReadFileSync)));
}

#[test]
fn native_surface_holds_nothing_else() {
    let context = build_context();
    assert_eq!(context.get(GLOBAL, "core"), None);
    assert_eq!(context.get(GLOBAL, "print"), None);
    assert_eq!(context.get(1, "print"), None);
    assert_eq!(context.get(3, "println"), None);
    assert_eq!(context.get(2, "readFileSync"), None);
    assert_eq!(context.get(4, "print"), None);
    assert_eq!(context.get(2, "Print"), None);
}

#[test]
fn native_surface_is_assigned_in_order() {
    let context = build_context();
    let core = context.object(2).unwrap();
    assert_eq!(core.len(), 2);
    let first = core.install_at(0).unwrap();
    let second = core.install_at(1).unwrap();
    assert_eq!(first.name, "print");
    assert_eq!(first.value, Property::Function(Handler::Print));
    assert_eq!(second.name, "println");
    assert_eq!(second.value, Property::Function(Handler::Println));
    assert!(core.install_at(2).is_none());
    assert!(context.object(4).is_none());
}

#[test]
fn new_context_holds_empty_global() {
    let context = ExecutionContext::new();
    assert_eq!(context.object_count(), 1);
    assert_eq!(context.object(GLOBAL).unwrap().len(), 0);
    assert_eq!(context.get(GLOBAL, "Done"), None);
}

#[test]
fn later_install_shadows_earlier() {
    let mut context = ExecutionContext::new();
    assert!(context.set_function(GLOBAL, "log", Handler::Print));
    assert!(context.set_function(GLOBAL, "log", Handler::Println));
    assert_eq!(context.get(GLOBAL, "log"), Some(Property::Function(Handler::Println)));
    assert_eq!(context.object(GLOBAL).unwrap().len(), 2);
}

#[test]
fn install_leaves_other_names_alone() {
    let mut context = build_context();
    assert!(context.set_function(2, "print", Handler::ReadFileSync));
    assert_eq!(context.get(2, "print"), Some(Property::Function(Handler::ReadFileSync)));
    assert_eq!(context.get(2, "println"), Some(Property::Function(Handler::Println)));
    assert_eq!(context.get(3, "readFileSync"), Some(Property::Function(Handler::ReadFileSync)));
}

#[test]
fn set_refuses_unknown_objects() {
    let mut context = ExecutionContext::new();
    assert!(!context.set_function(1, "print", Handler::Print));
    assert!(!context.set(GLOBAL, "Done", Property::Object(1)));
    assert_eq!(context.object(GLOBAL).unwrap().len(), 0);
    let id = context.new_object();
    assert_eq!(id, 1);
    assert!(context.set(GLOBAL, "Done", Property::Object(id)));
    assert_eq!(context.get(GLOBAL, "Done"), Some(Property::Object(1)));
}

#[test]
fn namespace_get_finds_last_assignment() {
    let mut namespace = Namespace::new();
    assert_eq!(namespace.get("a"), None);
    namespace.set("a", Property::Function(Handler::Print));
    namespace.set("b", Property::Object(0));
    namespace.set("a", Property::Function(Handler::Println));
    assert_eq!(namespace.get("a"), Some(Property::Function(Handler::Println)));
    assert_eq!(namespace.get("b"), Some(Property::Object(0)));
    assert_eq!(namespace.get(""), None);
    assert_eq!(namespace.len(), 3);
}
