//! The values that travel between a client and a server.
use vstd::prelude::*;

verus! {

/// A dynamically typed argument or result value.
#[derive(Debug, PartialEq)]
pub enum Value {
    Unit,
    Bool(bool),
    Int(i64),
    Text(String),
    List(Vec<Value>),
    Optional(Option<Box<Value>>),
    Record(Vec<Field>),
}

/// One named field of a record value.
#[derive(Debug, Clone, PartialEq)]
pub struct Field {
    pub name: String,
    pub value: Value,
}

/// A request: the method's tag, its positional arguments and, for a method
/// that opens a nested service, the request meant for that service.
#[derive(Debug, PartialEq)]
pub struct Request {
    pub method: String,
    pub args: Vec<Value>,
    pub inner: Option<Box<Request>>,
}

/// A response: the tag of the method that produced it and its payload.
#[derive(Debug, PartialEq)]
pub struct Response {
    pub method: String,
    pub result: Reply,
}

/// The payload of a response: a plain value, or the nested service's own response.
#[derive(Debug, PartialEq)]
pub enum Reply {
    Value(Value),
    Nested(Box<Response>),
}

/// `a` and `b` hold the same value: equal leaves, and lists and records of the
/// same length whose entries hold the same values.
pub open spec fn same_value(a: Value, b: Value) -> bool
    decreases a,
{
    match (a, b) {
        (Value::List(xs), Value::List(ys)) => xs.len() == ys.len() && forall|i: int|
            0 <= i < xs.len() ==> same_value(#[trigger] xs@[i], ys@[i]),
        (Value::Optional(x), Value::Optional(y)) => match (x, y) {
            (Some(x), Some(y)) => same_value(*x, *y),
            (None, None) => true,
            _ => false,
        },
        (Value::Record(xs), Value::Record(ys)) => xs.len() == ys.len() && forall|i: int|
            0 <= i < xs.len() ==> #[trigger] xs@[i].name@ == ys@[i].name@ && same_value(
                xs@[i].value,
                ys@[i].value,
            ),
        (Value::Text(x), Value::Text(y)) => x@ == y@,
        _ => a == b,
    }
}

impl Clone for Value {
    /// A copy holding the same value.
    fn clone(&self) -> (r: Self)
        ensures
            same_value(*self, r),
        decreases self,
    {
        match self {
            Value::Unit => Value::Unit,
            Value::Bool(b) => Value::Bool(*b),
            Value::Int(n) => Value::Int(*n),
            Value::Text(s) => Value::Text(s.clone()),
            Value::List(items) => Value::List(clone_values(items)),
            Value::Optional(v) => match v {
                Some(inner) => Value::Optional(Some(Box::new((**inner).clone()))),
                None => Value::Optional(None),
            },
            Value::Record(fields) => Value::Record(clone_fields(fields)),
        }
    }
}

/// Copies of a list of values.
pub fn clone_values(items: &Vec<Value>) -> (r: Vec<Value>)
    ensures
        r.len() == items.len(),
        forall|i: int| 0 <= i < items.len() ==> same_value(#[trigger] items@[i], r@[i]),
    decreases items,
{
    let mut r: Vec<Value> = Vec::new();
    let mut i: usize = 0;
    while i < items.len()
        invariant
            i <= items.len(),
            r.len() == i,
            forall|j: int| 0 <= j < i ==> same_value(#[trigger] items@[j], r@[j]),
        decreases items.len() - i,
    {
        proof {
            vstd::std_specs::vec::axiom_vec_index_decreases(*items, i as int);
        }
        r.push(items[i].clone());
        i = i + 1;
    }
    r
}

/// Copies of a list of record fields.
fn clone_fields(fields: &Vec<Field>) -> (r: Vec<Field>)
    ensures
        r.len() == fields.len(),
        forall|i: int|
            0 <= i < fields.len() ==> #[trigger] fields@[i].name@ == r@[i].name@ && same_value(
                fields@[i].value,
                r@[i].value,
            ),
    decreases fields,
{
    let mut r: Vec<Field> = Vec::new();
    let mut i: usize = 0;
    while i < fields.len()
        invariant
            i <= fields.len(),
            r.len() == i,
            forall|j: int|
                0 <= j < i ==> #[trigger] fields@[j].name@ == r@[j].name@ && same_value(
                    fields@[j].value,
                    r@[j].value,
                ),
        decreases fields.len() - i,
    {
        proof {
            vstd::std_specs::vec::axiom_vec_index_decreases(*fields, i as int);
        }
        let f = &fields[i];
        r.push(Field { name: f.name.clone(), value: f.value.clone() });
        i = i + 1;
    }
    r
}

impl Request {
    /// The request for a value-returning method.
    pub open spec fn call_spec(method: String, args: Vec<Value>) -> Request {
        Request { method, args, inner: None }
    }

    /// A request for a method that returns a plain value.
    pub fn call(method: String, args: Vec<Value>) -> (r: Request)
        ensures
            r == Request::call_spec(method, args),
    {
        Request { method, args, inner: None }
    }

    /// A request for a method that opens a nested service, carrying `inner` to it.
    pub fn nest(method: String, args: Vec<Value>, inner: Request) -> (r: Request)
        ensures
            r == (Request { method, args, inner: Some(Box::new(inner)) }),
    {
        Request { method, args, inner: Some(Box::new(inner)) }
    }
}

} // verus!
