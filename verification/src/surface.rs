//! The standard binding surface: the namespace installed under the single
//! global name, with one entry per exposed wrapper type.
//!
//! Each entry's descriptors mirror host-library methods one to one: value
//! types carry their constructors and read-only accessors, and the
//! UI-context entry carries the widget and layout calls, including a
//! callback-accepting one.  The `is_..._entry` predicates pin every
//! descriptor completely — name, argument kinds, return shape and
//! mutability — so the whole marshalling pipeline, which keys off these
//! fields, is tied to the native signatures the host library fixes.

use vstd::prelude::*;

use crate::descriptor::{MethodDescriptor, ReturnShape};
use crate::registry::{EguiProxy, TypeEntry};
use crate::values::ValueKind;

verus! {

/// True when `d` is exactly the descriptor of the named method: same name,
/// same argument kinds in order, same return shape, same mutability.
pub open spec fn desc_is(
    d: MethodDescriptor,
    name: Seq<char>,
    args: Seq<ValueKind>,
    ret: ReturnShape,
    mutates: bool,
) -> bool {
    &&& d.name@ == name
    &&& d.args@ == args
    &&& d.ret == ret
    &&& d.mutates == mutates
}

/// The color entry in full: the two constructors, each taking channel
/// integers and returning one color wrapper, touching no receiver.
pub open spec fn is_color32_entry(e: TypeEntry) -> bool {
    &&& e.name@ == "color32"@
    &&& e.methods@.len() == 2
    &&& desc_is(
        e.methods@[0],
        "from_rgb"@,
        seq![ValueKind::Int, ValueKind::Int, ValueKind::Int],
        ReturnShape::Single(ValueKind::Color),
        false,
    )
    &&& desc_is(
        e.methods@[1],
        "from_rgba_premultiplied"@,
        seq![ValueKind::Int, ValueKind::Int, ValueKind::Int, ValueKind::Int],
        ReturnShape::Single(ValueKind::Color),
        false,
    )
}

/// The context entry in full: one read-only rectangle query.
pub open spec fn is_ctx_entry(e: TypeEntry) -> bool {
    &&& e.name@ == "ctx"@
    &&& e.methods@.len() == 1
    &&& desc_is(
        e.methods@[0],
        "content_rect"@,
        Seq::empty(),
        ReturnShape::Single(ValueKind::Rect),
        false,
    )
}

/// The galley entry in full: one read-only extent query.
pub open spec fn is_galley_entry(e: TypeEntry) -> bool {
    &&& e.name@ == "galley"@
    &&& e.methods@.len() == 1
    &&& desc_is(e.methods@[0], "size"@, Seq::empty(), ReturnShape::Single(ValueKind::Vec2), false)
}

/// The response entry in full: three read-only boolean queries.
pub open spec fn is_response_entry(e: TypeEntry) -> bool {
    &&& e.name@ == "response"@
    &&& e.methods@.len() == 3
    &&& desc_is(
        e.methods@[0],
        "clicked"@,
        Seq::empty(),
        ReturnShape::Single(ValueKind::Bool),
        false,
    )
    &&& desc_is(
        e.methods@[1],
        "hovered"@,
        Seq::empty(),
        ReturnShape::Single(ValueKind::Bool),
        false,
    )
    &&& desc_is(
        e.methods@[2],
        "changed"@,
        Seq::empty(),
        ReturnShape::Single(ValueKind::Bool),
        false,
    )
}

/// The rich-text entry in full: styling returns a new text value, reading
/// returns the plain string.
pub open spec fn is_rich_text_entry(e: TypeEntry) -> bool {
    &&& e.name@ == "rich_text"@
    &&& e.methods@.len() == 2
    &&& desc_is(e.methods@[0], "strong"@, Seq::empty(), ReturnShape::Single(ValueKind::Text), false)
    &&& desc_is(e.methods@[1], "text"@, Seq::empty(), ReturnShape::Single(ValueKind::Str), false)
}

/// The UI-context entry in full: the widget and layout calls, with their
/// exact native signatures — which take text, color or size arguments,
/// which mutate the receiver, which return a response, a pair, or the
/// callback's own values.
pub open spec fn is_ui_entry(e: TypeEntry) -> bool {
    &&& e.name@ == "ui_docs"@
    &&& e.methods@.len() == 7
    &&& desc_is(
        e.methods@[0],
        "label"@,
        seq![ValueKind::Text],
        ReturnShape::Single(ValueKind::Response),
        true,
    )
    &&& desc_is(
        e.methods@[1],
        "button"@,
        seq![ValueKind::Text],
        ReturnShape::Single(ValueKind::Response),
        true,
    )
    &&& desc_is(
        e.methods@[2],
        "colored_label"@,
        seq![ValueKind::Color, ValueKind::Text],
        ReturnShape::Single(ValueKind::Response),
        true,
    )
    &&& desc_is(e.methods@[3], "end_row"@, Seq::empty(), ReturnShape::Unit, true)
    &&& desc_is(
        e.methods@[4],
        "allocate_space"@,
        seq![ValueKind::Vec2],
        ReturnShape::Pair(ValueKind::Id, ValueKind::Rect),
        true,
    )
    &&& desc_is(
        e.methods@[5],
        "horizontal"@,
        seq![ValueKind::Fun],
        ReturnShape::FromCallback,
        true,
    )
    &&& desc_is(
        e.methods@[6],
        "is_enabled"@,
        Seq::empty(),
        ReturnShape::Single(ValueKind::Bool),
        false,
    )
}

/// The widget-text entry in full: two read-only queries.
pub open spec fn is_widget_text_entry(e: TypeEntry) -> bool {
    &&& e.name@ == "widget_text"@
    &&& e.methods@.len() == 2
    &&& desc_is(e.methods@[0], "text"@, Seq::empty(), ReturnShape::Single(ValueKind::Str), false)
    &&& desc_is(
        e.methods@[1],
        "is_empty"@,
        Seq::empty(),
        ReturnShape::Single(ValueKind::Bool),
        false,
    )
}

/// Builds one method descriptor.
fn mk_desc(name: &str, args: Vec<ValueKind>, ret: ReturnShape, mutates: bool) -> (d:
    MethodDescriptor)
    ensures
        d.name@ == name@,
        d.args@ == args@,
        d.ret == ret,
        d.mutates == mutates,
{
    MethodDescriptor { name: name.to_owned(), args, ret, mutates }
}

/// The color entry: constructors for the by-value color wrapper.
fn color32_entry() -> (e: TypeEntry)
    ensures
        e.wf(),
        is_color32_entry(e),
        e.has_method("from_rgb"@),
        e.has_method("from_rgba_premultiplied"@),
{
    let mut methods: Vec<MethodDescriptor> = Vec::new();
    let mut a0: Vec<ValueKind> = Vec::new();
    a0.push(ValueKind::Int);
    a0.push(ValueKind::Int);
    a0.push(ValueKind::Int);
    methods.push(mk_desc("from_rgb", a0, ReturnShape::Single(ValueKind::Color), false));
    let mut a1: Vec<ValueKind> = Vec::new();
    a1.push(ValueKind::Int);
    a1.push(ValueKind::Int);
    a1.push(ValueKind::Int);
    a1.push(ValueKind::Int);
    methods.push(
        mk_desc("from_rgba_premultiplied", a1, ReturnShape::Single(ValueKind::Color), false),
    );
    let e = TypeEntry { name: "color32".to_owned(), methods };
    proof {
        reveal_strlit("from_rgb");
        reveal_strlit("from_rgba_premultiplied");
        assert(e.methods@[0].name@ == "from_rgb"@);
        assert(e.methods@[1].name@ == "from_rgba_premultiplied"@);
        assert(e.methods@[0].args@ =~= seq![ValueKind::Int, ValueKind::Int, ValueKind::Int]);
        assert(e.methods@[1].args@ =~= seq![
            ValueKind::Int,
            ValueKind::Int,
            ValueKind::Int,
            ValueKind::Int,
        ]);
    }
    e
}

/// The context entry: read-only queries on the whole-screen context.
fn ctx_entry() -> (e: TypeEntry)
    ensures
        e.wf(),
        is_ctx_entry(e),
        e.has_method("content_rect"@),
{
    let mut methods: Vec<MethodDescriptor> = Vec::new();
    methods.push(mk_desc("content_rect", Vec::new(), ReturnShape::Single(ValueKind::Rect), false));
    let e = TypeEntry { name: "ctx".to_owned(), methods };
    proof {
        reveal_strlit("content_rect");
        assert(e.methods@[0].name@ == "content_rect"@);
    }
    e
}

/// The galley entry: the laid-out text's extent.
fn galley_entry() -> (e: TypeEntry)
    ensures
        e.wf(),
        is_galley_entry(e),
        e.has_method("size"@),
{
    let mut methods: Vec<MethodDescriptor> = Vec::new();
    methods.push(mk_desc("size", Vec::new(), ReturnShape::Single(ValueKind::Vec2), false));
    let e = TypeEntry { name: "galley".to_owned(), methods };
    proof {
        reveal_strlit("size");
        assert(e.methods@[0].name@ == "size"@);
    }
    e
}

/// The response entry: what the pointer did to a widget this frame.
fn response_entry() -> (e: TypeEntry)
    ensures
        e.wf(),
        is_response_entry(e),
        e.has_method("clicked"@),
        e.has_method("hovered"@),
        e.has_method("changed"@),
{
    let mut methods: Vec<MethodDescriptor> = Vec::new();
    methods.push(mk_desc("clicked", Vec::new(), ReturnShape::Single(ValueKind::Bool), false));
    methods.push(mk_desc("hovered", Vec::new(), ReturnShape::Single(ValueKind::Bool), false));
    methods.push(mk_desc("changed", Vec::new(), ReturnShape::Single(ValueKind::Bool), false));
    let e = TypeEntry { name: "response".to_owned(), methods };
    proof {
        reveal_strlit("clicked");
        reveal_strlit("hovered");
        reveal_strlit("changed");
        assert(e.methods@[0].name@ == "clicked"@);
        assert(e.methods@[1].name@ == "hovered"@);
        assert(e.methods@[2].name@ == "changed"@);
        assert("clicked"@[0] != "hovered"@[0]);
        assert("clicked"@[1] != "changed"@[1]);
        assert("hovered"@[0] != "changed"@[0]);
    }
    e
}

/// The rich-text entry: styling and reading of styled text values.
fn rich_text_entry() -> (e: TypeEntry)
    ensures
        e.wf(),
        is_rich_text_entry(e),
        e.has_method("strong"@),
        e.has_method("text"@),
{
    let mut methods: Vec<MethodDescriptor> = Vec::new();
    methods.push(mk_desc("strong", Vec::new(), ReturnShape::Single(ValueKind::Text), false));
    methods.push(mk_desc("text", Vec::new(), ReturnShape::Single(ValueKind::Str), false));
    let e = TypeEntry { name: "rich_text".to_owned(), methods };
    proof {
        reveal_strlit("strong");
        reveal_strlit("text");
        assert(e.methods@[0].name@ == "strong"@);
        assert(e.methods@[1].name@ == "text"@);
    }
    e
}

/// The UI-context entry: the widget and layout calls a frame's callback may
/// issue against the scoped handle.
#[verifier::rlimit(50)]
fn ui_entry() -> (e: TypeEntry)
    ensures
        e.wf(),
        is_ui_entry(e),
        e.has_method("label"@),
        e.has_method("button"@),
        e.has_method("colored_label"@),
        e.has_method("end_row"@),
        e.has_method("allocate_space"@),
        e.has_method("horizontal"@),
        e.has_method("is_enabled"@),
{
    let mut methods: Vec<MethodDescriptor> = Vec::new();
    let mut a0: Vec<ValueKind> = Vec::new();
    a0.push(ValueKind::Text);
    methods.push(mk_desc("label", a0, ReturnShape::Single(ValueKind::Response), true));
    let mut a1: Vec<ValueKind> = Vec::new();
    a1.push(ValueKind::Text);
    methods.push(mk_desc("button", a1, ReturnShape::Single(ValueKind::Response), true));
    let mut a2: Vec<ValueKind> = Vec::new();
    a2.push(ValueKind::Color);
    a2.push(ValueKind::Text);
    methods.push(mk_desc("colored_label", a2, ReturnShape::Single(ValueKind::Response), true));
    methods.push(mk_desc("end_row", Vec::new(), ReturnShape::Unit, true));
    let mut a3: Vec<ValueKind> = Vec::new();
    a3.push(ValueKind::Vec2);
    methods.push(
        mk_desc("allocate_space", a3, ReturnShape::Pair(ValueKind::Id, ValueKind::Rect), true),
    );
    let mut a4: Vec<ValueKind> = Vec::new();
    a4.push(ValueKind::Fun);
    methods.push(mk_desc("horizontal", a4, ReturnShape::FromCallback, true));
    methods.push(mk_desc("is_enabled", Vec::new(), ReturnShape::Single(ValueKind::Bool), false));
    let e = TypeEntry { name: "ui_docs".to_owned(), methods };
    proof {
        reveal_strlit("label");
        reveal_strlit("button");
        reveal_strlit("colored_label");
        reveal_strlit("end_row");
        reveal_strlit("allocate_space");
        reveal_strlit("horizontal");
        reveal_strlit("is_enabled");
        assert(e.methods@[0].name@ == "label"@);
        assert(e.methods@[1].name@ == "button"@);
        assert(e.methods@[2].name@ == "colored_label"@);
        assert(e.methods@[3].name@ == "end_row"@);
        assert(e.methods@[4].name@ == "allocate_space"@);
        assert(e.methods@[5].name@ == "horizontal"@);
        assert(e.methods@[6].name@ == "is_enabled"@);
        assert("horizontal"@[0] != "is_enabled"@[0]);
        assert("colored_label"@.len() == 13);
        assert("end_row"@.len() == 7);
        assert("allocate_space"@.len() == 14);
        assert("horizontal"@ != "is_enabled"@);
        assert(e.methods@[0].args@ =~= seq![ValueKind::Text]);
        assert(e.methods@[1].args@ =~= seq![ValueKind::Text]);
        assert(e.methods@[2].args@ =~= seq![ValueKind::Color, ValueKind::Text]);
        assert(e.methods@[4].args@ =~= seq![ValueKind::Vec2]);
        assert(e.methods@[5].args@ =~= seq![ValueKind::Fun]);
    }
    e
}

/// The widget-text entry: reading of plain widget text values.
fn widget_text_entry() -> (e: TypeEntry)
    ensures
        e.wf(),
        is_widget_text_entry(e),
        e.has_method("text"@),
        e.has_method("is_empty"@),
{
    let mut methods: Vec<MethodDescriptor> = Vec::new();
    methods.push(mk_desc("text", Vec::new(), ReturnShape::Single(ValueKind::Str), false));
    methods.push(mk_desc("is_empty", Vec::new(), ReturnShape::Single(ValueKind::Bool), false));
    let e = TypeEntry { name: "widget_text".to_owned(), methods };
    proof {
        reveal_strlit("text");
        reveal_strlit("is_empty");
        assert(e.methods@[0].name@ == "text"@);
        assert(e.methods@[1].name@ == "is_empty"@);
    }
    e
}

/// The standard namespace: one entry per exposed wrapper type, under the
/// names the scripts see, with every method descriptor pinned to its native
/// signature.
pub fn standard_bindings() -> (p: EguiProxy)
    ensures
        p.wf(),
        p.entries@.len() == 7,
        p.has_type("color32"@),
        p.has_type("ctx"@),
        p.has_type("galley"@),
        p.has_type("response"@),
        p.has_type("rich_text"@),
        p.has_type("ui_docs"@),
        p.has_type("widget_text"@),
        is_color32_entry(p.entries@[0]),
        is_ctx_entry(p.entries@[1]),
        is_galley_entry(p.entries@[2]),
        is_response_entry(p.entries@[3]),
        is_rich_text_entry(p.entries@[4]),
        is_ui_entry(p.entries@[5]),
        is_widget_text_entry(p.entries@[6]),
{
    let mut entries: Vec<TypeEntry> = Vec::new();
    entries.push(color32_entry());
    entries.push(ctx_entry());
    entries.push(galley_entry());
    entries.push(response_entry());
    entries.push(rich_text_entry());
    entries.push(ui_entry());
    entries.push(widget_text_entry());
    let p = EguiProxy { entries };
    proof {
        reveal_strlit("color32");
        reveal_strlit("ctx");
        reveal_strlit("galley");
        reveal_strlit("response");
        reveal_strlit("rich_text");
        reveal_strlit("ui_docs");
        reveal_strlit("widget_text");
        assert(p.entries@[0].name@ == "color32"@);
        assert(p.entries@[1].name@ == "ctx"@);
        assert(p.entries@[2].name@ == "galley"@);
        assert(p.entries@[3].name@ == "response"@);
        assert(p.entries@[4].name@ == "rich_text"@);
        assert(p.entries@[5].name@ == "ui_docs"@);
        assert(p.entries@[6].name@ == "widget_text"@);
        assert("color32"@[0] != "ui_docs"@[0]);
    }
    p
}

} // verus!
