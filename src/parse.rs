//! Validates a raw interface description and builds its service definition.
use vstd::prelude::*;
use crate::model::{copy_params, Method, Parameter, ReturnKind, ServiceDefinition};

verus! {

/// How a method takes its receiver.
#[derive(Debug, Clone, Copy, PartialEq, Eq)]
pub enum ReceiverKind {
    /// `&self`: the only accepted form.
    Shared,
    /// `self`, by value.
    Owned,
    /// `&mut self`.
    Mutable,
    /// `self` behind a smart pointer or another indirection.
    Indirect,
}

/// One entry of a method's input list.
#[derive(Debug, Clone, PartialEq, Eq)]
pub enum RawInput {
    Receiver(ReceiverKind),
    Typed(Parameter),
}

/// One bound of an `impl ...` return annotation.
#[derive(Debug, Clone, PartialEq, Eq)]
pub enum RawBound {
    /// A capability bound naming a service; `lifetimes` tells whether it carries lifetime parameters.
    Capability { path: String, lifetimes: bool },
    /// Any other kind of bound.
    Other,
}

/// A method's return annotation as written.
#[derive(Debug, Clone, PartialEq, Eq)]
pub enum RawOutput {
    /// No annotation: the unit value.
    Unit,
    /// A plain type.
    Type(String),
    /// `impl` followed by the listed bounds.
    Bounds(Vec<RawBound>),
}

/// A method signature as written in the interface description.
#[derive(Debug, Clone, PartialEq, Eq)]
pub struct RawMethod {
    pub name: String,
    pub has_default: bool,
    pub is_const: bool,
    pub is_unsafe: bool,
    pub inputs: Vec<RawInput>,
    pub output: RawOutput,
}

/// An item of the interface description.
#[derive(Debug, Clone, PartialEq, Eq)]
pub enum RawItem {
    Method(RawMethod),
    /// Anything else (associated types, constants, ...), which is skipped.
    Other,
}

/// A raw interface description.
#[derive(Debug, Clone, PartialEq, Eq)]
pub struct RawService {
    pub vis: String,
    pub name: String,
    pub generics: Vec<String>,
    pub supertraits: Vec<String>,
    pub items: Vec<RawItem>,
}

/// Why an interface description was rejected. `item` is the index of the offending item.
#[derive(Debug, Clone, Copy, PartialEq, Eq)]
pub enum ParseFailure {
    /// The service inherits other capabilities.
    UnsupportedFeature,
    /// A receiver other than one `&self`.
    InvalidReceiver { item: usize },
    /// A default body, `const` or `unsafe`.
    UnsupportedModifier { item: usize },
    /// More than one bound, a bound that is no capability, or one with lifetimes.
    InvalidReturnType { item: usize },
}

/// Number of receivers among the inputs.
pub open spec fn receiver_count(inputs: Seq<RawInput>) -> nat
    decreases inputs.len(),
{
    if inputs.len() == 0 {
        0
    } else {
        receiver_count(inputs.drop_last()) + if inputs.last() is Receiver {
            1nat
        } else {
            0nat
        }
    }
}

/// The inputs hold exactly one receiver, and it is `&self`.
pub open spec fn receiver_valid(inputs: Seq<RawInput>) -> bool {
    &&& receiver_count(inputs) == 1
    &&& forall|i: int|
        0 <= i < inputs.len() && #[trigger] inputs[i] is Receiver ==> inputs[i]->Receiver_0
            == ReceiverKind::Shared
}

/// The typed parameters among the inputs, in order.
pub open spec fn typed_params(inputs: Seq<RawInput>) -> Seq<Parameter>
    decreases inputs.len(),
{
    if inputs.len() == 0 {
        Seq::empty()
    } else {
        typed_params(inputs.drop_last()) + match inputs.last() {
            RawInput::Typed(p) => seq![p],
            RawInput::Receiver(_) => Seq::empty(),
        }
    }
}

/// The return annotation is accepted.
pub open spec fn return_valid(output: RawOutput) -> bool {
    match output {
        RawOutput::Bounds(bounds) => bounds.len() == 1 && (bounds[0] matches RawBound::Capability {
            lifetimes,
            ..
        } && !lifetimes),
        _ => true,
    }
}

/// `ret` is what the accepted annotation `output` stands for.
pub open spec fn return_matches(output: RawOutput, ret: ReturnKind) -> bool {
    match output {
        RawOutput::Unit => ret matches ReturnKind::Value(t) && t@ == "()"@,
        RawOutput::Type(t) => ret matches ReturnKind::Value(u) && u@ == t@,
        RawOutput::Bounds(bounds) => {
            &&& bounds.len() > 0
            &&& match bounds[0] {
                RawBound::Capability { path, .. } => ret matches ReturnKind::Nested(s) && s@ == path@,
                RawBound::Other => false,
            }
        },
    }
}

/// Why the method at position `item` is rejected, if it is.
pub open spec fn method_failure(m: RawMethod, item: usize) -> Option<ParseFailure> {
    if m.has_default || m.is_const || m.is_unsafe {
        Some(ParseFailure::UnsupportedModifier { item })
    } else if !receiver_valid(m.inputs@) {
        Some(ParseFailure::InvalidReceiver { item })
    } else if !return_valid(m.output) {
        Some(ParseFailure::InvalidReturnType { item })
    } else {
        None
    }
}

/// `out` is the method that the accepted raw method `m` describes.
pub open spec fn parsed_method(m: RawMethod, out: Method) -> bool {
    &&& out.name@ == m.name@
    &&& out.params@ == typed_params(m.inputs@)
    &&& return_matches(m.output, out.ret)
}

/// The first failure among the items from position `i` on.
pub open spec fn failure_from(items: Seq<RawItem>, i: int) -> Option<ParseFailure>
    decreases items.len() - i,
{
    if i < 0 || i >= items.len() {
        None
    } else {
        match items[i] {
            RawItem::Method(m) => match method_failure(m, i as usize) {
                Some(f) => Some(f),
                None => failure_from(items, i + 1),
            },
            RawItem::Other => failure_from(items, i + 1),
        }
    }
}

/// Why the description is rejected, if it is: the first rejected method, else inherited capabilities.
pub open spec fn parse_failure(input: RawService) -> Option<ParseFailure> {
    match failure_from(input.items@, 0) {
        Some(f) => Some(f),
        None => if input.supertraits.len() > 0 {
            Some(ParseFailure::UnsupportedFeature)
        } else {
            None
        },
    }
}

/// The methods among the items, in order.
pub open spec fn raw_methods(items: Seq<RawItem>) -> Seq<RawMethod>
    decreases items.len(),
{
    if items.len() == 0 {
        Seq::empty()
    } else {
        raw_methods(items.drop_last()) + match items.last() {
            RawItem::Method(m) => seq![m],
            RawItem::Other => Seq::empty(),
        }
    }
}

/// Each violation in a method is refused with its own failure: a default body,
/// `const` or `unsafe` as an unsupported modifier, whatever else the method holds;
/// otherwise a receiver other than `&self` (owned, mutable or behind a pointer)
/// as invalid; otherwise several bounds on the return annotation as an invalid
/// return type, never as a nested service.
pub proof fn lemma_method_violations(m: RawMethod, item: usize)
    ensures
        m.has_default || m.is_const || m.is_unsafe ==> method_failure(m, item) == Some(
            ParseFailure::UnsupportedModifier { item },
        ),
        !(m.has_default || m.is_const || m.is_unsafe) && (exists|i: int|
            0 <= i < m.inputs.len() && #[trigger] m.inputs@[i] is Receiver && m.inputs@[i]->Receiver_0
                != ReceiverKind::Shared) ==> method_failure(m, item) == Some(
            ParseFailure::InvalidReceiver { item },
        ),
        !(m.has_default || m.is_const || m.is_unsafe) && receiver_valid(m.inputs@) && (
        m.output matches RawOutput::Bounds(bounds) && bounds.len() > 1) ==> method_failure(m, item)
            == Some(ParseFailure::InvalidReturnType { item }),
{
}

/// A description holding a refused method is refused as a whole.
pub proof fn lemma_refused_method_refuses(input: RawService, i: int)
    requires
        0 <= i < input.items.len(),
        input.items@[i] matches RawItem::Method(m) && method_failure(m, i as usize) is Some,
    ensures
        parse_failure(input) is Some,
{
    lemma_failure_reaches(input.items@, 0, i);
}

/// A description whose methods are all accepted but which inherits capabilities
/// is refused as using an unsupported feature.
pub proof fn lemma_inherited_refused(input: RawService)
    requires
        forall|i: int|
            0 <= i < input.items.len() ==> (#[trigger] input.items@[i] matches RawItem::Method(m)
                ==> method_failure(m, i as usize) is None),
        input.supertraits.len() > 0,
    ensures
        parse_failure(input) == Some(ParseFailure::UnsupportedFeature),
{
    lemma_no_failure_from(input.items@, 0);
}

proof fn lemma_failure_reaches(items: Seq<RawItem>, k: int, i: int)
    requires
        0 <= k <= i < items.len(),
        items[i] matches RawItem::Method(m) && method_failure(m, i as usize) is Some,
    ensures
        failure_from(items, k) is Some,
    decreases i - k,
{
    if k < i {
        lemma_failure_reaches(items, k + 1, i);
    }
}

proof fn lemma_no_failure_from(items: Seq<RawItem>, k: int)
    requires
        0 <= k,
        forall|i: int|
            0 <= i < items.len() ==> (#[trigger] items[i] matches RawItem::Method(m)
                ==> method_failure(m, i as usize) is None),
    ensures
        failure_from(items, k) is None,
    decreases items.len() - k,
{
    if k < items.len() {
        lemma_no_failure_from(items, k + 1);
        assert(items[k] matches RawItem::Method(m) ==> method_failure(m, k as usize) is None);
    }
}

/// Builds interface models from raw descriptions.
pub struct Parser;

impl Parser {
    /// Validates `input` and builds its service definition.
    pub fn rpc(&self, input: RawService) -> (r: Result<ServiceDefinition, ParseFailure>)
        ensures
            match r {
                Ok(def) => {
                    &&& parse_failure(input) is None
                    &&& def.vis@ == input.vis@
                    &&& def.name@ == input.name@
                    &&& def.generics@ == input.generics@
                    &&& def.methods.len() == raw_methods(input.items@).len()
                    &&& forall|k: int|
                        0 <= k < def.methods.len() ==> parsed_method(
                            #[trigger] raw_methods(input.items@)[k],
                            def.methods@[k],
                        )
                },
                Err(e) => parse_failure(input) == Some(e),
            },
    {
        let ghost items0 = input.items@;
        let ghost sup = input.supertraits;
        let RawService { vis, name, generics, supertraits, items } = input;
        let mut methods: Vec<Method> = Vec::new();
        let mut i: usize = 0;
        while i < items.len()
            invariant
                items@ == items0,
                input.items@ == items0,
                i <= items.len(),
                failure_from(items0, 0) == failure_from(items0, i as int),
                methods.len() == raw_methods(items0.take(i as int)).len(),
                forall|k: int|
                    0 <= k < methods.len() ==> parsed_method(
                        #[trigger] raw_methods(items0.take(i as int))[k],
                        methods@[k],
                    ),
            decreases items.len() - i,
        {
            let ghost prev = raw_methods(items0.take(i as int));
            assert(items0.take(i + 1).drop_last() == items0.take(i as int));
            match &items[i] {
                RawItem::Method(m) => {
                    let parsed = self.method(m, i);
                    match parsed {
                        Ok(method) => {
                            methods.push(method);
                        },
                        Err(e) => {
                            assert(failure_from(items0, i as int) == Some(e));
                            return Err(e);
                        },
                    }
                },
                RawItem::Other => {},
            }
            assert(raw_methods(items0.take(i + 1)) =~= prev + match items0[i as int] {
                RawItem::Method(m) => seq![m],
                RawItem::Other => Seq::empty(),
            });
            i = i + 1;
        }
        assert(items0.take(items.len() as int) == items0);
        if supertraits.len() > 0 {
            return Err(ParseFailure::UnsupportedFeature);
        }
        Ok(ServiceDefinition { vis, name, generics, methods })
    }

    fn method(&self, item: &RawMethod, index: usize) -> (r: Result<Method, ParseFailure>)
        ensures
            match r {
                Ok(m) => method_failure(*item, index) is None && parsed_method(*item, m),
                Err(e) => method_failure(*item, index) == Some(e),
            },
    {
        if item.has_default || item.is_const || item.is_unsafe {
            return Err(ParseFailure::UnsupportedModifier { item: index });
        }
        let mut params: Vec<Parameter> = Vec::new();
        let mut has_self = false;
        let mut i: usize = 0;
        while i < item.inputs.len()
            invariant
                !item.has_default && !item.is_const && !item.is_unsafe,
                i <= item.inputs.len(),
                has_self == (receiver_count(item.inputs@.take(i as int)) == 1),
                receiver_count(item.inputs@.take(i as int)) <= 1,
                forall|j: int|
                    0 <= j < i && #[trigger] item.inputs@[j] is Receiver
                        ==> item.inputs@[j]->Receiver_0 == ReceiverKind::Shared,
                params@ == typed_params(item.inputs@.take(i as int)),
            decreases item.inputs.len() - i,
        {
            let ghost inputs = item.inputs@;
            assert(inputs.take(i + 1).drop_last() == inputs.take(i as int));
            match &item.inputs[i] {
                RawInput::Receiver(kind) => {
                    if has_self || !matches!(kind, ReceiverKind::Shared) {
                        proof {
                            assert(inputs.take(i + 1).last() == inputs[i as int]);
                            assert(receiver_count(inputs.take(i + 1)) == receiver_count(
                                inputs.take(i as int),
                            ) + 1);
                            Self::lemma_count_grows(inputs, i as int + 1);
                        }
                        return Err(ParseFailure::InvalidReceiver { item: index });
                    }
                    has_self = true;
                },
                RawInput::Typed(p) => {
                    params.push(p.duplicate());
                },
            }
            i = i + 1;
        }
        assert(item.inputs@.take(item.inputs.len() as int) == item.inputs@);
        if !has_self {
            return Err(ParseFailure::InvalidReceiver { item: index });
        }
        let ret = self.return_type(&item.output, index);
        match ret {
            Ok(ret) => Ok(Method { name: item.name.clone(), params, ret }),
            Err(e) => Err(e),
        }
    }

    fn return_type(&self, output: &RawOutput, index: usize) -> (r: Result<ReturnKind, ParseFailure>)
        ensures
            match r {
                Ok(ret) => return_valid(*output) && return_matches(*output, ret),
                Err(e) => !return_valid(*output) && e == (ParseFailure::InvalidReturnType {
                    item: index,
                }),
            },
    {
        match output {
            RawOutput::Unit => Ok(ReturnKind::Value("()".to_owned())),
            RawOutput::Type(t) => Ok(ReturnKind::Value(t.clone())),
            RawOutput::Bounds(bounds) => {
                if bounds.len() != 1 {
                    return Err(ParseFailure::InvalidReturnType { item: index });
                }
                match &bounds[0] {
                    RawBound::Capability { path, lifetimes } => {
                        if *lifetimes {
                            Err(ParseFailure::InvalidReturnType { item: index })
                        } else {
                            Ok(ReturnKind::Nested(path.clone()))
                        }
                    },
                    RawBound::Other => Err(ParseFailure::InvalidReturnType { item: index }),
                }
            },
        }
    }

    /// Once a prefix holds two receivers, or a receiver that is not `&self`,
    /// the whole input list does not have a valid receiver.
    proof fn lemma_count_grows(inputs: Seq<RawInput>, n: int)
        requires
            0 < n <= inputs.len(),
            inputs[n - 1] is Receiver,
            receiver_count(inputs.take(n)) > 1 || inputs[n - 1]->Receiver_0
                != ReceiverKind::Shared,
        ensures
            !receiver_valid(inputs),
        decreases inputs.len() - n,
    {
        if receiver_count(inputs.take(n)) > 1 {
            Self::lemma_count_monotone(inputs, n);
        }
    }

    proof fn lemma_count_monotone(inputs: Seq<RawInput>, n: int)
        requires
            0 <= n <= inputs.len(),
        ensures
            receiver_count(inputs.take(n)) <= receiver_count(inputs),
        decreases inputs.len() - n,
    {
        if n < inputs.len() {
            Self::lemma_count_monotone(inputs, n + 1);
            assert(inputs.take(n + 1).drop_last() == inputs.take(n));
        } else {
            assert(inputs.take(n) == inputs);
        }
    }
}

} // verus!
