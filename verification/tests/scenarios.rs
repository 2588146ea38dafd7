use luaegui::bridge::{dispatch_call, dispatch_static, finish_call, CallAction};
use luaegui::descriptor::{MethodDescriptor, NativeOutcome, ReturnShape};
use luaegui::values::ValueKind;
use luaegui::errors::BindingError;
use luaegui::handles::HandleTable;
use luaegui::registry::{install_bindings, EguiProxy, ScriptRuntime, TypeEntry};
use luaegui::surface::standard_bindings;
use luaegui::values::{ColorValue, IdValue, NativeValue, RectValue, ScriptValue, Vec2Value};

fn ui_method(proxy: &EguiProxy, name: &str) -> MethodDescriptor {
    let entry = proxy.lookup_type(&"ui_docs".to_owned()).expect("ui entry registered");
    entry.lookup_method(&name.to_owned()).expect("method registered").clone()
}

#[test]
fn bindings_install_once_per_runtime() {
    let mut rt = ScriptRuntime::new();
    assert_eq!(install_bindings(&mut rt, standard_bindings()), Ok(()));
    // A second installation is an explicit error, never a partial redo.
    assert_eq!(
        install_bindings(&mut rt, standard_bindings()),
        Err(BindingError::RegistrationError)
    );
}

#[test]
fn duplicate_type_name_is_a_registration_error() {
    let mut proxy = standard_bindings();
    let dup = TypeEntry { name: "ctx".to_owned(), methods: Vec::new() };
    assert_eq!(proxy.register_type(dup), Err(BindingError::RegistrationError));
    assert_eq!(proxy.entries.len(), 7);
}

#[test]
fn namespace_lookup_finds_registered_names_only() {
    let proxy = standard_bindings();
    assert!(proxy.lookup_type(&"color32".to_owned()).is_some());
    assert!(proxy.lookup_type(&"widget_text".to_owned()).is_some());
    assert!(proxy.lookup_type(&"vec2".to_owned()).is_none());
    let ui = proxy.lookup_type(&"ui_docs".to_owned()).unwrap();
    assert!(ui.lookup_method(&"label".to_owned()).is_some());
    assert!(ui.lookup_method(&"checkbox".to_owned()).is_none());
}

#[test]
fn surface_descriptors_carry_the_native_signatures() {
    let proxy = standard_bindings();
    let label = ui_method(&proxy, "label");
    assert_eq!(label.args, vec![ValueKind::Text]);
    assert_eq!(label.ret, ReturnShape::Single(ValueKind::Response));
    assert!(label.mutates);
    let colored = ui_method(&proxy, "colored_label");
    assert_eq!(colored.args, vec![ValueKind::Color, ValueKind::Text]);
    assert_eq!(colored.ret, ReturnShape::Single(ValueKind::Response));
    assert!(colored.mutates);
    let end_row = ui_method(&proxy, "end_row");
    assert!(end_row.args.is_empty());
    assert_eq!(end_row.ret, ReturnShape::Unit);
    assert!(end_row.mutates);
    let alloc = ui_method(&proxy, "allocate_space");
    assert_eq!(alloc.args, vec![ValueKind::Vec2]);
    assert_eq!(alloc.ret, ReturnShape::Pair(ValueKind::Id, ValueKind::Rect));
    assert!(alloc.mutates);
    let horizontal = ui_method(&proxy, "horizontal");
    assert_eq!(horizontal.args, vec![ValueKind::Fun]);
    assert_eq!(horizontal.ret, ReturnShape::FromCallback);
    assert!(horizontal.mutates);
    let is_enabled = ui_method(&proxy, "is_enabled");
    assert!(is_enabled.args.is_empty());
    assert_eq!(is_enabled.ret, ReturnShape::Single(ValueKind::Bool));
    assert!(!is_enabled.mutates);
    let color = proxy.lookup_type(&"color32".to_owned()).unwrap();
    let from_rgb = color.lookup_method(&"from_rgb".to_owned()).unwrap();
    assert_eq!(from_rgb.args, vec![ValueKind::Int, ValueKind::Int, ValueKind::Int]);
    assert_eq!(from_rgb.ret, ReturnShape::Single(ValueKind::Color));
    assert!(!from_rgb.mutates);
}

#[test]
fn fresh_table_is_not_at_the_generation_limit() {
    let table = HandleTable::new();
    assert!(!table.at_generation_limit());
}

#[test]
fn frame_with_one_widget_call_reaches_the_host_once() {
    // Scenario: a script callback issues a single no-argument, no-return
    // widget call during its frame.
    let proxy = standard_bindings();
    let desc = ui_method(&proxy, "end_row");
    let mut table = HandleTable::new();
    let mut trace: Vec<CallAction> = Vec::new();

    let ui = table.open_scope();
    let args: Vec<ScriptValue> = Vec::new();
    assert_eq!(dispatch_call(&mut table, &mut trace, &desc, ui, &args), Ok(()));
    // Exactly one call reached the host.
    assert_eq!(trace.len(), 1);
    assert_eq!(trace[0].method, "end_row");
    assert_eq!(trace[0].receiver, Some(ui));
    assert!(trace[0].args.is_empty());
    // The host performs the call; a unit result surfaces as no value.
    let out = finish_call(&mut table, &desc, ui, NativeOutcome::Unit).unwrap();
    assert!(out.is_empty());
    table.close_scope(ui);
}

#[test]
fn drag_style_pair_returns_two_ordered_values() {
    // Scenario: a marshalled method returning a pair surfaces as exactly
    // two ordered values convertible back to the same native pair.
    let proxy = standard_bindings();
    let desc = ui_method(&proxy, "allocate_space");
    let mut table = HandleTable::new();
    let mut trace: Vec<CallAction> = Vec::new();

    let ui = table.open_scope();
    let args = vec![ScriptValue::Vec2(Vec2Value { x: 100, y: 20 })];
    assert_eq!(dispatch_call(&mut table, &mut trace, &desc, ui, &args), Ok(()));
    assert_eq!(trace[0].args, vec![NativeValue::Vec2(Vec2Value { x: 100, y: 20 })]);

    let id = IdValue { raw: 11 };
    let rect = RectValue { min: Vec2Value { x: 0, y: 0 }, max: Vec2Value { x: 100, y: 20 } };
    let out = finish_call(
        &mut table,
        &desc,
        ui,
        NativeOutcome::Two(NativeValue::Id(id), NativeValue::Rect(rect)),
    )
    .unwrap();
    assert_eq!(out, vec![ScriptValue::Id(id), ScriptValue::Rect(rect)]);
    table.close_scope(ui);
}

#[test]
fn callback_method_threads_the_callback_values_out() {
    // Scenario: a method accepting a script-defined callback forwards the
    // callback's returned values as its own script-visible result.
    let proxy = standard_bindings();
    let horizontal = ui_method(&proxy, "horizontal");
    let label = ui_method(&proxy, "label");
    let mut table = HandleTable::new();
    let mut trace: Vec<CallAction> = Vec::new();

    let ui = table.open_scope();
    let args = vec![ScriptValue::Fun(42)];
    assert_eq!(dispatch_call(&mut table, &mut trace, &horizontal, ui, &args), Ok(()));
    assert_eq!(trace[0].callback, Some(42));

    // The host runs the callback under a fresh inner handle; the script
    // issues one widget call against it and returns two values.
    let inner = table.open_scope();
    let inner_args = vec![ScriptValue::Text(luaegui::values::TextValue {
        text: "hi".to_owned(),
        strong: false,
    })];
    assert_eq!(dispatch_call(&mut table, &mut trace, &label, inner, &inner_args), Ok(()));
    let resp = NativeValue::Response(luaegui::values::ResponseValue {
        widget: IdValue { raw: 1 },
        clicked: false,
        hovered: false,
        changed: false,
    });
    let inner_out = finish_call(&mut table, &label, inner, NativeOutcome::One(resp)).unwrap();
    assert_eq!(inner_out.len(), 1);
    table.close_scope(inner);

    let callback_values = vec![ScriptValue::Int(1), ScriptValue::Int(2)];
    let out = finish_call(
        &mut table,
        &horizontal,
        ui,
        NativeOutcome::CallbackValues(callback_values),
    )
    .unwrap();
    assert_eq!(out, vec![ScriptValue::Int(1), ScriptValue::Int(2)]);
    // Both widget calls reached the host, in issue order.
    assert_eq!(trace.len(), 2);
    assert_eq!(trace[0].method, "horizontal");
    assert_eq!(trace[1].method, "label");
    table.close_scope(ui);
}

#[test]
fn callback_error_surfaces_from_the_enclosing_call() {
    let proxy = standard_bindings();
    let horizontal = ui_method(&proxy, "horizontal");
    let mut table = HandleTable::new();
    let mut trace: Vec<CallAction> = Vec::new();

    let ui = table.open_scope();
    let args = vec![ScriptValue::Fun(7)];
    assert_eq!(dispatch_call(&mut table, &mut trace, &horizontal, ui, &args), Ok(()));
    let r = finish_call(&mut table, &horizontal, ui, NativeOutcome::Fail("inner error".to_owned()));
    assert_eq!(r, Err(BindingError::NativeCallError("inner error".to_owned())));
    table.close_scope(ui);
}

#[test]
fn mutating_call_during_live_borrow_is_a_violation() {
    // Scenario: a mutating method on a handle whose exclusive borrow is
    // still outstanding must fail, never corrupt native state.
    let proxy = standard_bindings();
    let horizontal = ui_method(&proxy, "horizontal");
    let button = ui_method(&proxy, "button");
    let mut table = HandleTable::new();
    let mut trace: Vec<CallAction> = Vec::new();

    let ui = table.open_scope();
    let args = vec![ScriptValue::Fun(9)];
    assert_eq!(dispatch_call(&mut table, &mut trace, &horizontal, ui, &args), Ok(()));
    // Inside the callback the script wrongly targets the outer handle.
    let bad_args = vec![ScriptValue::Text(luaegui::values::TextValue {
        text: "no".to_owned(),
        strong: false,
    })];
    assert_eq!(
        dispatch_call(&mut table, &mut trace, &button, ui, &bad_args),
        Err(BindingError::ExclusiveAccessViolation)
    );
    // The rejected call never reached the host.
    assert_eq!(trace.len(), 1);
    let _ = finish_call(&mut table, &horizontal, ui, NativeOutcome::CallbackValues(Vec::new()));
    table.close_scope(ui);
}

#[test]
fn call_on_a_stale_handle_is_a_scope_escape() {
    let proxy = standard_bindings();
    let desc = ui_method(&proxy, "end_row");
    let mut table = HandleTable::new();
    let mut trace: Vec<CallAction> = Vec::new();

    let ui = table.open_scope();
    table.close_scope(ui);
    let args: Vec<ScriptValue> = Vec::new();
    assert_eq!(
        dispatch_call(&mut table, &mut trace, &desc, ui, &args),
        Err(BindingError::ScopeEscape)
    );
    assert!(trace.is_empty());
}

#[test]
fn constructor_call_converts_and_reaches_the_host() {
    let proxy = standard_bindings();
    let color = proxy.lookup_type(&"color32".to_owned()).unwrap();
    let desc = color.lookup_method(&"from_rgb".to_owned()).unwrap().clone();
    let mut trace: Vec<CallAction> = Vec::new();
    let args = vec![ScriptValue::Int(255), ScriptValue::Int(128), ScriptValue::Int(0)];
    assert_eq!(dispatch_static(&mut trace, &desc, &args), Ok(()));
    assert_eq!(trace.len(), 1);
    assert_eq!(trace[0].receiver, None);
    assert_eq!(
        trace[0].args,
        vec![NativeValue::Int(255), NativeValue::Int(128), NativeValue::Int(0)]
    );
    // The host's answer surfaces as one color wrapper.
    let out = luaegui::descriptor::convert_result(
        desc.ret,
        NativeOutcome::One(NativeValue::Color(ColorValue {
            red: 255,
            green: 128,
            blue: 0,
            alpha: 255,
        })),
    )
    .unwrap();
    assert_eq!(out.len(), 1);
    assert!(matches!(out[0], ScriptValue::Color(_)));
}
