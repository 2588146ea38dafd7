use luaegui::descriptor::{
    convert_args, convert_result, MethodDescriptor, NativeOutcome, ReturnShape,
};
use luaegui::errors::BindingError;
use luaegui::values::{
    ColorValue, IdValue, NativeValue, RectValue, ScriptValue, TextValue, ValueKind, Vec2Value,
};

fn colored_label_desc() -> MethodDescriptor {
    MethodDescriptor {
        name: "colored_label".to_owned(),
        args: vec![ValueKind::Color, ValueKind::Text],
        ret: ReturnShape::Single(ValueKind::Response),
        mutates: true,
    }
}

fn color_arg() -> ScriptValue {
    ScriptValue::Color(ColorValue { red: 255, green: 0, blue: 0, alpha: 255 })
}

fn text_arg() -> ScriptValue {
    ScriptValue::Text(TextValue { text: "warning".to_owned(), strong: false })
}

#[test]
fn exact_arity_and_kinds_convert_in_order() {
    let desc = colored_label_desc();
    let args = vec![color_arg(), text_arg()];
    let c = convert_args(&desc, &args).unwrap();
    assert_eq!(c.callback, None);
    assert_eq!(c.natives.len(), 2);
    assert_eq!(
        c.natives[0],
        NativeValue::Color(ColorValue { red: 255, green: 0, blue: 0, alpha: 255 })
    );
    assert_eq!(
        c.natives[1],
        NativeValue::Text(TextValue { text: "warning".to_owned(), strong: false })
    );
}

#[test]
fn one_argument_too_few_is_mismatch() {
    let desc = colored_label_desc();
    let args = vec![color_arg()];
    assert_eq!(convert_args(&desc, &args), Err(BindingError::ArgumentMismatch));
}

#[test]
fn one_argument_too_many_is_mismatch() {
    let desc = colored_label_desc();
    let args = vec![color_arg(), text_arg(), ScriptValue::Int(1)];
    assert_eq!(convert_args(&desc, &args), Err(BindingError::ArgumentMismatch));
}

#[test]
fn wrong_kind_is_mismatch_not_coercion() {
    let desc = colored_label_desc();
    // An integer where a color is declared must not be coerced.
    let args = vec![ScriptValue::Int(16711680), text_arg()];
    assert_eq!(convert_args(&desc, &args), Err(BindingError::ArgumentMismatch));
}

#[test]
fn trailing_function_argument_is_carried_through() {
    let desc = MethodDescriptor {
        name: "horizontal".to_owned(),
        args: vec![ValueKind::Fun],
        ret: ReturnShape::FromCallback,
        mutates: true,
    };
    let args = vec![ScriptValue::Fun(42)];
    let c = convert_args(&desc, &args).unwrap();
    assert_eq!(c.natives.len(), 0);
    assert_eq!(c.callback, Some(42));
    // A non-function where the callback is declared is a mismatch.
    let bad = vec![ScriptValue::Int(42)];
    assert_eq!(convert_args(&desc, &bad), Err(BindingError::ArgumentMismatch));
}

#[test]
fn unit_result_surfaces_as_no_value() {
    let out = convert_result(ReturnShape::Unit, NativeOutcome::Unit).unwrap();
    assert!(out.is_empty());
}

#[test]
fn single_result_surfaces_as_one_wrapper() {
    let native = NativeValue::Response(luaegui::values::ResponseValue {
        widget: IdValue { raw: 9 },
        clicked: true,
        hovered: true,
        changed: false,
    });
    let out = convert_result(
        ReturnShape::Single(ValueKind::Response),
        NativeOutcome::One(native),
    )
    .unwrap();
    assert_eq!(out.len(), 1);
    match &out[0] {
        ScriptValue::Response(r) => assert!(r.clicked),
        other => panic!("expected a response wrapper, got {:?}", other),
    }
}

#[test]
fn pair_result_surfaces_ordered_and_converts_back() {
    let id = IdValue { raw: 5 };
    let rect = RectValue { min: Vec2Value { x: 1, y: 2 }, max: Vec2Value { x: 3, y: 4 } };
    let out = convert_result(
        ReturnShape::Pair(ValueKind::Id, ValueKind::Rect),
        NativeOutcome::Two(NativeValue::Id(id), NativeValue::Rect(rect)),
    )
    .unwrap();
    assert_eq!(out.len(), 2);
    assert_eq!(out[0], ScriptValue::Id(id));
    assert_eq!(out[1], ScriptValue::Rect(rect));
    // Both halves convert back to the same native pair.
    let n0 = luaegui::values::to_native_ref(&out[0], ValueKind::Id).unwrap();
    let n1 = luaegui::values::to_native_ref(&out[1], ValueKind::Rect).unwrap();
    assert_eq!(n0, NativeValue::Id(id));
    assert_eq!(n1, NativeValue::Rect(rect));
}

#[test]
fn callback_values_pass_through_in_order() {
    let vs = vec![ScriptValue::Int(1), ScriptValue::Str("two".to_owned()), ScriptValue::Bool(true)];
    let out = convert_result(ReturnShape::FromCallback, NativeOutcome::CallbackValues(vs)).unwrap();
    assert_eq!(out.len(), 3);
    assert_eq!(out[0], ScriptValue::Int(1));
    assert_eq!(out[1], ScriptValue::Str("two".to_owned()));
    assert_eq!(out[2], ScriptValue::Bool(true));
}

#[test]
fn native_failure_propagates_unchanged() {
    let r = convert_result(ReturnShape::Unit, NativeOutcome::Fail("texture lost".to_owned()));
    assert_eq!(r, Err(BindingError::NativeCallError("texture lost".to_owned())));
}
