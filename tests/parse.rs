use trait_link::model::{Parameter, ReturnKind};
use trait_link::parse::{
    ParseFailure, Parser, RawBound, RawInput, RawItem, RawMethod, RawOutput, RawService,
    ReceiverKind,
};

fn param(name: &str, ty: &str) -> Parameter {
    Parameter { name: name.to_string(), ty: ty.to_string() }
}

fn method(name: &str, inputs: Vec<RawInput>, output: RawOutput) -> RawMethod {
    RawMethod {
        name: name.to_string(),
        has_default: false,
        is_const: false,
        is_unsafe: false,
        inputs,
        output,
    }
}

fn shared() -> RawInput {
    RawInput::Receiver(ReceiverKind::Shared)
}

fn service(items: Vec<RawItem>) -> RawService {
    RawService {
        vis: "pub".to_string(),
        name: "TodoService".to_string(),
        generics: vec![],
        supertraits: vec![],
        items,
    }
}

fn todo_items() -> Vec<RawItem> {
    vec![
        RawItem::Method(method("get_todos", vec![shared()], RawOutput::Type("Vec<Todo>".to_string()))),
        RawItem::Method(method(
            "get_todo",
            vec![shared(), RawInput::Typed(param("name", "String"))],
            RawOutput::Type("Option<Todo>".to_string()),
        )),
        RawItem::Other,
        RawItem::Method(method("new_todo", vec![shared(), RawInput::Typed(param("todo", "Todo"))], RawOutput::Unit)),
    ]
}

#[test]
fn parses_todo_service() {
    let def = Parser.rpc(service(todo_items())).expect("valid description");
    assert_eq!(def.name, "TodoService");
    assert_eq!(def.vis, "pub");
    let names: Vec<&str> = def.methods.iter().map(|m| m.name.as_str()).collect();
    assert_eq!(names, vec!["get_todos", "get_todo", "new_todo"]);
    assert_eq!(def.methods[1].params, vec![param("name", "String")]);
    assert_eq!(def.methods[0].ret, ReturnKind::Value("Vec<Todo>".to_string()));
    assert_eq!(def.methods[2].ret, ReturnKind::Value("()".to_string()));
}

#[test]
fn parses_nested_return() {
    let items = vec![RawItem::Method(method(
        "users",
        vec![shared()],
        RawOutput::Bounds(vec![RawBound::Capability { path: "UsersService".to_string(), lifetimes: false }]),
    ))];
    let def = Parser.rpc(service(items)).expect("valid description");
    assert_eq!(def.methods[0].ret, ReturnKind::Nested("UsersService".to_string()));
}

#[test]
fn receiver_may_follow_parameters() {
    let items = vec![RawItem::Method(method(
        "get",
        vec![RawInput::Typed(param("id", "usize")), shared()],
        RawOutput::Type("u32".to_string()),
    ))];
    let def = Parser.rpc(service(items)).expect("valid description");
    assert_eq!(def.methods[0].params, vec![param("id", "usize")]);
}

#[test]
fn rejects_supertraits() {
    let mut s = service(todo_items());
    s.supertraits = vec!["Clone".to_string()];
    assert_eq!(Parser.rpc(s), Err(ParseFailure::UnsupportedFeature));
}

#[test]
fn rejects_owned_receiver() {
    let items = vec![RawItem::Method(method("get", vec![RawInput::Receiver(ReceiverKind::Owned)], RawOutput::Unit))];
    assert_eq!(Parser.rpc(service(items)), Err(ParseFailure::InvalidReceiver { item: 0 }));
}

#[test]
fn rejects_mutable_receiver() {
    let items = vec![RawItem::Other, RawItem::Method(method("get", vec![RawInput::Receiver(ReceiverKind::Mutable)], RawOutput::Unit))];
    assert_eq!(Parser.rpc(service(items)), Err(ParseFailure::InvalidReceiver { item: 1 }));
}

#[test]
fn rejects_smart_pointer_receiver() {
    let items = vec![RawItem::Method(method("get", vec![RawInput::Receiver(ReceiverKind::Indirect)], RawOutput::Unit))];
    assert_eq!(Parser.rpc(service(items)), Err(ParseFailure::InvalidReceiver { item: 0 }));
}

#[test]
fn rejects_missing_and_repeated_receivers() {
    let none = vec![RawItem::Method(method("get", vec![], RawOutput::Unit))];
    assert_eq!(Parser.rpc(service(none)), Err(ParseFailure::InvalidReceiver { item: 0 }));
    let two = vec![RawItem::Method(method("get", vec![shared(), shared()], RawOutput::Unit))];
    assert_eq!(Parser.rpc(service(two)), Err(ParseFailure::InvalidReceiver { item: 0 }));
}

#[test]
fn rejects_default_const_and_unsafe() {
    for which in 0..3 {
        let mut m = method("get", vec![shared()], RawOutput::Unit);
        match which {
            0 => m.has_default = true,
            1 => m.is_const = true,
            _ => m.is_unsafe = true,
        }
        let items = vec![RawItem::Method(m)];
        assert_eq!(Parser.rpc(service(items)), Err(ParseFailure::UnsupportedModifier { item: 0 }));
    }
}

#[test]
fn rejects_several_bounds() {
    let bound = RawBound::Capability { path: "A".to_string(), lifetimes: false };
    let items = vec![RawItem::Method(method("get", vec![shared()], RawOutput::Bounds(vec![bound.clone(), bound])))];
    assert_eq!(Parser.rpc(service(items)), Err(ParseFailure::InvalidReturnType { item: 0 }));
}

#[test]
fn rejects_bound_with_lifetimes_or_none() {
    let lifetimes = vec![RawItem::Method(method(
        "get",
        vec![shared()],
        RawOutput::Bounds(vec![RawBound::Capability { path: "A".to_string(), lifetimes: true }]),
    ))];
    assert_eq!(Parser.rpc(service(lifetimes)), Err(ParseFailure::InvalidReturnType { item: 0 }));
    let other = vec![RawItem::Method(method("get", vec![shared()], RawOutput::Bounds(vec![RawBound::Other])))];
    assert_eq!(Parser.rpc(service(other)), Err(ParseFailure::InvalidReturnType { item: 0 }));
    let empty = vec![RawItem::Method(method("get", vec![shared()], RawOutput::Bounds(vec![])))];
    assert_eq!(Parser.rpc(service(empty)), Err(ParseFailure::InvalidReturnType { item: 0 }));
}

#[test]
fn validation_failures_are_distinct() {
    let mut inherited = service(todo_items());
    inherited.supertraits = vec!["Other".to_string()];
    let by_value = service(vec![RawItem::Method(method("a", vec![RawInput::Receiver(ReceiverKind::Owned)], RawOutput::Unit))]);
    let mutable = service(vec![RawItem::Method(method("a", vec![RawInput::Receiver(ReceiverKind::Mutable)], RawOutput::Unit))]);
    let mut defaulted = method("a", vec![shared()], RawOutput::Unit);
    defaulted.has_default = true;
    let with_default = service(vec![RawItem::Method(defaulted)]);
    let bound = RawBound::Capability { path: "A".to_string(), lifetimes: false };
    let two_bounds = service(vec![RawItem::Method(method("a", vec![shared()], RawOutput::Bounds(vec![bound.clone(), bound])))]);
    let errors: Vec<ParseFailure> = [inherited, by_value, mutable, with_default, two_bounds]
        .into_iter()
        .map(|s| Parser.rpc(s).unwrap_err())
        .collect();
    assert_eq!(
        errors,
        vec![
            ParseFailure::UnsupportedFeature,
            ParseFailure::InvalidReceiver { item: 0 },
            ParseFailure::InvalidReceiver { item: 0 },
            ParseFailure::UnsupportedModifier { item: 0 },
            ParseFailure::InvalidReturnType { item: 0 },
        ]
    );
}

#[test]
fn first_offending_method_wins() {
    let mut m = method("b", vec![shared()], RawOutput::Unit);
    m.is_unsafe = true;
    let mut s = service(vec![
        RawItem::Method(method("a", vec![shared()], RawOutput::Unit)),
        RawItem::Method(m),
        RawItem::Method(method("c", vec![], RawOutput::Unit)),
    ]);
    s.supertraits = vec!["X".to_string()];
    assert_eq!(Parser.rpc(s), Err(ParseFailure::UnsupportedModifier { item: 1 }));
}

#[test]
fn parsing_is_deterministic() {
    assert_eq!(Parser.rpc(service(todo_items())), Parser.rpc(service(todo_items())));
}
