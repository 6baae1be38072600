//! The interface model: a service definition and the methods it declares.
use vstd::prelude::*;

verus! {

/// A named, typed parameter. Parameters are positional on the wire.
#[derive(Debug, Clone, PartialEq, Eq)]
pub struct Parameter {
    pub name: String,
    pub ty: String,
}

/// What a method hands back: a value of some type, or a handle to another service,
/// named by that service's name.
#[derive(Debug, Clone, PartialEq, Eq)]
pub enum ReturnKind {
    Value(String),
    Nested(String),
}

/// One method of a service.
#[derive(Debug, Clone, PartialEq, Eq)]
pub struct Method {
    pub name: String,
    pub params: Vec<Parameter>,
    pub ret: ReturnKind,
}

/// A service: its visibility, name, generic parameters and methods in declaration order.
#[derive(Debug, Clone, PartialEq, Eq)]
pub struct ServiceDefinition {
    pub vis: String,
    pub name: String,
    pub generics: Vec<String>,
    pub methods: Vec<Method>,
}

impl Parameter {
    /// A copy of this parameter.
    pub fn duplicate(&self) -> (r: Parameter)
        ensures
            r == *self,
    {
        Parameter { name: self.name.clone(), ty: self.ty.clone() }
    }
}

/// A copy of a list of parameters.
pub fn copy_params(params: &Vec<Parameter>) -> (r: Vec<Parameter>)
    ensures
        r@ == params@,
{
    let mut r: Vec<Parameter> = Vec::new();
    let mut i: usize = 0;
    while i < params.len()
        invariant
            i <= params.len(),
            r@ == params@.take(i as int),
        decreases params.len() - i,
    {
        r.push(params[i].duplicate());
        assert(params@.take(i + 1) == params@.take(i as int).push(params@[i as int]));
        i = i + 1;
    }
    assert(params@.take(params.len() as int) == params@);
    r
}

/// A copy of a list of strings.
pub fn copy_strings(items: &Vec<String>) -> (r: Vec<String>)
    ensures
        r@ == items@,
{
    let mut r: Vec<String> = Vec::new();
    let mut i: usize = 0;
    while i < items.len()
        invariant
            i <= items.len(),
            r@ == items@.take(i as int),
        decreases items.len() - i,
    {
        r.push(items[i].clone());
        assert(items@.take(i + 1) == items@.take(i as int).push(items@[i as int]));
        i = i + 1;
    }
    assert(items@.take(items.len() as int) == items@);
    r
}

} // verus!
