//! The protocol compiler: turns service definitions into the table of request and
//! response cases that clients and handlers follow.
use vstd::prelude::*;
use convert_case::Casing;
use crate::model::{copy_params, copy_strings, Method, Parameter, ReturnKind, ServiceDefinition};
use crate::wire::{Request, Value};

verus! {

/// The PascalCase form of an identifier, as convert_case computes it.
pub uninterp spec fn pascal_case(s: Seq<char>) -> Seq<char>;

/// The snake_case form of an identifier, as convert_case computes it.
pub uninterp spec fn snake_case(s: Seq<char>) -> Seq<char>;

/// Relies on convert_case's `Casing::to_case` with `Case::Pascal`, a function of the characters alone.
#[verifier::external_body]
fn to_pascal(s: &str) -> (r: String)
    ensures
        r@ == pascal_case(s@),
{
    s.to_case(convert_case::Case::Pascal)
}

/// Relies on convert_case's `Casing::to_case` with `Case::Snake`, a function of the characters alone.
#[verifier::external_body]
fn to_snake(s: &str) -> (r: String)
    ensures
        r@ == snake_case(s@),
{
    s.to_case(convert_case::Case::Snake)
}

/// What a case answers with: a value of the named type, or the response of the
/// service at the given position of the schema.
#[derive(Debug, Clone, PartialEq, Eq)]
pub enum CaseKind {
    Value(String),
    Nested(usize),
}

/// The request and response case of one method.
#[derive(Debug, Clone, PartialEq, Eq)]
pub struct Case {
    /// The wire tag: the method's name, unchanged.
    pub tag: String,
    /// The capitalised name used for generated artifacts only.
    pub variant: String,
    pub params: Vec<Parameter>,
    pub kind: CaseKind,
}

/// The compiled protocol of one service.
#[derive(Debug, Clone, PartialEq, Eq)]
pub struct Protocol {
    pub name: String,
    pub vis: String,
    pub module: String,
    pub server: String,
    pub client: String,
    pub generics: Vec<String>,
    pub cases: Vec<Case>,
}

impl Protocol {
    /// The name of the service's request type.
    pub fn request_name(&self) -> (r: String)
        ensures
            r@ == self.name@ + "Request"@,
    {
        self.name.clone().concat("Request")
    }

    /// The name of the service's response type.
    pub fn response_name(&self) -> (r: String)
        ensures
            r@ == self.name@ + "Response"@,
    {
        self.name.clone().concat("Response")
    }
}

/// Why a set of service definitions cannot be compiled. `service` and `method`
/// are positions in the definitions.
#[derive(Debug, Clone, Copy, PartialEq, Eq)]
pub enum CompileError {
    /// An earlier service has the same name.
    DuplicateService { service: usize },
    /// An earlier method of the same service has the same name.
    DuplicateMethod { service: usize, method: usize },
    /// A nested method names a service that is not defined.
    UnknownService { service: usize, method: usize },
    /// A nested method names a service that is not defined before its own.
    ForwardReference { service: usize, method: usize },
}

/// A nested case refers only to services before its own, and tags are unique within a service.
pub open spec fn schema_wf(protocols: Seq<Protocol>) -> bool {
    &&& forall|i: int, k: int|
        0 <= i < protocols.len() && 0 <= k < protocols[i].cases.len() ==> (
        #[trigger] protocols[i].cases@[k].kind matches CaseKind::Nested(j) ==> j < i)
    &&& forall|i: int, k1: int, k2: int|
        0 <= i < protocols.len() && 0 <= k1 < protocols[i].cases.len() && 0 <= k2
            < protocols[i].cases.len() && k1 != k2 ==> #[trigger] protocols[i].cases@[k1].tag@
            != #[trigger] protocols[i].cases@[k2].tag@
}

/// The compiled protocols of a set of services, in definition order.
pub struct Schema {
    protocols: Vec<Protocol>,
}

impl View for Schema {
    type V = Seq<Protocol>;

    closed spec fn view(&self) -> Seq<Protocol> {
        self.protocols@
    }
}

impl Schema {
    #[verifier::type_invariant]
    spec fn inv(&self) -> bool {
        schema_wf(self.protocols@)
    }

    /// Number of services.
    pub fn len(&self) -> (r: usize)
        ensures
            r == self@.len(),
            schema_wf(self@),
    {
        proof {
            use_type_invariant(self);
        }
        self.protocols.len()
    }

    /// The protocol of the service at position `i`.
    pub fn protocol(&self, i: usize) -> (r: &Protocol)
        requires
            i < self@.len(),
        ensures
            *r == self@[i as int],
            schema_wf(self@),
    {
        proof {
            use_type_invariant(self);
        }
        &self.protocols[i]
    }
}

/// Some service before position `end` is named `name`.
pub open spec fn named_before(defs: Seq<ServiceDefinition>, name: Seq<char>, end: int) -> bool {
    exists|j: int| 0 <= j < end && #[trigger] defs[j].name@ == name
}

/// Some method before position `end` is named `name`.
pub open spec fn method_named_before(methods: Seq<Method>, name: Seq<char>, end: int) -> bool {
    exists|k: int| 0 <= k < end && #[trigger] methods[k].name@ == name
}

/// Why method `k` of service `i` cannot be compiled, if it cannot.
pub open spec fn method_error(defs: Seq<ServiceDefinition>, i: int, k: int) -> Option<CompileError> {
    let m = defs[i].methods@[k];
    if method_named_before(defs[i].methods@, m.name@, k) {
        Some(CompileError::DuplicateMethod { service: i as usize, method: k as usize })
    } else {
        match m.ret {
            ReturnKind::Value(_) => None,
            ReturnKind::Nested(name) => if named_before(defs, name@, i) {
                None
            } else if named_before(defs, name@, defs.len() as int) {
                Some(CompileError::ForwardReference { service: i as usize, method: k as usize })
            } else {
                Some(CompileError::UnknownService { service: i as usize, method: k as usize })
            },
        }
    }
}

/// The first error among the methods of service `i` from position `k` on.
pub open spec fn methods_error_from(defs: Seq<ServiceDefinition>, i: int, k: int) -> Option<
    CompileError,
>
    decreases defs[i].methods.len() - k,
{
    if k < 0 || k >= defs[i].methods.len() {
        None
    } else {
        match method_error(defs, i, k) {
            Some(e) => Some(e),
            None => methods_error_from(defs, i, k + 1),
        }
    }
}

/// Why service `i` cannot be compiled, if it cannot.
pub open spec fn service_error(defs: Seq<ServiceDefinition>, i: int) -> Option<CompileError> {
    if named_before(defs, defs[i].name@, i) {
        Some(CompileError::DuplicateService { service: i as usize })
    } else {
        methods_error_from(defs, i, 0)
    }
}

/// The first error among the services from position `i` on.
pub open spec fn services_error_from(defs: Seq<ServiceDefinition>, i: int) -> Option<CompileError>
    decreases defs.len() - i,
{
    if i < 0 || i >= defs.len() {
        None
    } else {
        match service_error(defs, i) {
            Some(e) => Some(e),
            None => services_error_from(defs, i + 1),
        }
    }
}

/// Why the definitions cannot be compiled, if they cannot: the first error in definition order.
pub open spec fn compile_failure(defs: Seq<ServiceDefinition>) -> Option<CompileError> {
    services_error_from(defs, 0)
}

/// `c` is the compiled case of method `m` of service `i`.
pub open spec fn compiled_case(defs: Seq<ServiceDefinition>, i: int, m: Method, c: Case) -> bool {
    &&& c.tag@ == m.name@
    &&& c.variant@ == pascal_case(m.name@)
    &&& c.params@ == m.params@
    &&& match m.ret {
        ReturnKind::Value(t) => c.kind matches CaseKind::Value(u) && u@ == t@,
        ReturnKind::Nested(name) => c.kind matches CaseKind::Nested(j) && 0 <= j < i
            && defs[j as int].name@ == name@,
    }
}

/// `p` is the compiled protocol of service `i`.
pub open spec fn compiled_protocol(defs: Seq<ServiceDefinition>, i: int, p: Protocol) -> bool {
    let d = defs[i];
    &&& p.name@ == d.name@
    &&& p.vis@ == d.vis@
    &&& p.module@ == snake_case(d.name@)
    &&& p.server@ == d.name@ + "Server"@
    &&& p.client@ == d.name@ + "Client"@
    &&& p.generics@ == d.generics@
    &&& p.cases.len() == d.methods.len()
    &&& forall|k: int|
        0 <= k < p.cases.len() ==> compiled_case(defs, i, d.methods@[k], #[trigger] p.cases@[k])
}

/// In compiled protocols, the wire tag of every method's case is the method's
/// declared name, unchanged, and so is the tag of every request a client builds for it.
pub proof fn lemma_tag_fidelity(
    defs: Seq<ServiceDefinition>,
    protocols: Seq<Protocol>,
    i: int,
    k: int,
    args: Vec<Value>,
)
    requires
        protocols.len() == defs.len(),
        forall|i2: int| 0 <= i2 < defs.len() ==> compiled_protocol(defs, i2, #[trigger] protocols[i2]),
        0 <= i < defs.len(),
        0 <= k < defs[i].methods.len(),
    ensures
        protocols[i].cases@[k].tag@ == defs[i].methods@[k].name@,
        Request::call_spec(protocols[i].cases@[k].tag, args).method@ == defs[i].methods@[k].name@,
{
    assert(compiled_protocol(defs, i, protocols[i]));
}

fn find_service(defs: &Vec<ServiceDefinition>, name: &String, end: usize) -> (r: Option<usize>)
    requires
        end <= defs.len(),
    ensures
        match r {
            Some(j) => j < end && defs@[j as int].name@ == name@,
            None => !named_before(defs@, name@, end as int),
        },
{
    let mut j: usize = 0;
    while j < end
        invariant
            end <= defs.len(),
            j <= end,
            !named_before(defs@, name@, j as int),
        decreases end - j,
    {
        if defs[j].name == *name {
            return Some(j);
        }
        j = j + 1;
    }
    None
}

fn find_method(methods: &Vec<Method>, name: &String, end: usize) -> (r: bool)
    requires
        end <= methods.len(),
    ensures
        r == method_named_before(methods@, name@, end as int),
{
    let mut k: usize = 0;
    while k < end
        invariant
            end <= methods.len(),
            k <= end,
            !method_named_before(methods@, name@, k as int),
        decreases end - k,
    {
        if methods[k].name == *name {
            return true;
        }
        k = k + 1;
    }
    false
}

fn compile_method(defs: &Vec<ServiceDefinition>, i: usize, k: usize) -> (r: Result<
    Case,
    CompileError,
>)
    requires
        i < defs.len(),
        k < defs@[i as int].methods.len(),
    ensures
        match r {
            Ok(c) => method_error(defs@, i as int, k as int) is None && compiled_case(
                defs@,
                i as int,
                defs@[i as int].methods@[k as int],
                c,
            ),
            Err(e) => method_error(defs@, i as int, k as int) == Some(e),
        },
{
    let m = &defs[i].methods[k];
    if find_method(&defs[i].methods, &m.name, k) {
        return Err(CompileError::DuplicateMethod { service: i, method: k });
    }
    let kind = match &m.ret {
        ReturnKind::Value(t) => CaseKind::Value(t.clone()),
        ReturnKind::Nested(name) => match find_service(defs, name, i) {
            Some(j) => CaseKind::Nested(j),
            None => {
                if find_service(defs, name, defs.len()).is_some() {
                    return Err(CompileError::ForwardReference { service: i, method: k });
                }
                return Err(CompileError::UnknownService { service: i, method: k });
            },
        },
    };
    Ok(Case { tag: m.name.clone(), variant: to_pascal(m.name.as_str()), params: copy_params(&m.params), kind })
}

fn compile_service(defs: &Vec<ServiceDefinition>, i: usize) -> (r: Result<Protocol, CompileError>)
    requires
        i < defs.len(),
    ensures
        match r {
            Ok(p) => {
                &&& methods_error_from(defs@, i as int, 0) is None
                &&& compiled_protocol(defs@, i as int, p)
                &&& forall|k: int|
                    0 <= k < defs@[i as int].methods.len() ==> #[trigger] method_error(
                        defs@,
                        i as int,
                        k,
                    ) is None
            },
            Err(e) => methods_error_from(defs@, i as int, 0) == Some(e),
        },
{
    let d = &defs[i];
    let mut cases: Vec<Case> = Vec::new();
    let mut k: usize = 0;
    while k < d.methods.len()
        invariant
            d == defs@[i as int],
            i < defs.len(),
            k <= d.methods.len(),
            methods_error_from(defs@, i as int, 0) == methods_error_from(defs@, i as int, k as int),
            forall|k2: int| 0 <= k2 < k ==> #[trigger] method_error(defs@, i as int, k2) is None,
            cases.len() == k,
            forall|k2: int|
                0 <= k2 < k ==> compiled_case(defs@, i as int, d.methods@[k2], #[trigger] cases@[k2]),
        decreases d.methods.len() - k,
    {
        let c = compile_method(defs, i, k);
        match c {
            Ok(c) => cases.push(c),
            Err(e) => {
                return Err(e);
            },
        }
        k = k + 1;
    }
    let server = d.name.clone().concat("Server");
    let client = d.name.clone().concat("Client");
    Ok(
        Protocol {
            name: d.name.clone(),
            vis: d.vis.clone(),
            module: to_snake(d.name.as_str()),
            server,
            client,
            generics: copy_strings(&d.generics),
            cases,
        },
    )
}

/// Compiles service definitions into a schema. A nested method must name a
/// service defined before its own, so that no chain of nested services loops.
pub fn compile(defs: &Vec<ServiceDefinition>) -> (r: Result<Schema, CompileError>)
    ensures
        match r {
            Ok(schema) => {
                &&& compile_failure(defs@) is None
                &&& schema@.len() == defs.len()
                &&& forall|i: int|
                    0 <= i < defs.len() ==> compiled_protocol(defs@, i, #[trigger] schema@[i])
            },
            Err(e) => compile_failure(defs@) == Some(e),
        },
{
    let mut protocols: Vec<Protocol> = Vec::new();
    let mut i: usize = 0;
    while i < defs.len()
        invariant
            i <= defs.len(),
            compile_failure(defs@) == services_error_from(defs@, i as int),
            protocols.len() == i,
            forall|i2: int|
                0 <= i2 < i ==> compiled_protocol(defs@, i2, #[trigger] protocols@[i2]),
            schema_wf(protocols@),
        decreases defs.len() - i,
    {
        if find_service(defs, &defs[i].name, i).is_some() {
            return Err(CompileError::DuplicateService { service: i });
        }
        let p = compile_service(defs, i);
        match p {
            Ok(p) => {
                let ghost before = protocols@;
                protocols.push(p);
                proof {
                    assert(protocols@ == before.push(p));
                    assert forall|k1: int, k2: int|
                        0 <= k1 < p.cases.len() && 0 <= k2 < p.cases.len() && k1 < k2 implies
                        #[trigger] p.cases@[k1].tag@ != #[trigger] p.cases@[k2].tag@ by {
                        assert(method_error(defs@, i as int, k2) is None);
                        assert(defs@[i as int].methods@[k1].name@ == p.cases@[k1].tag@);
                    }
                }
            },
            Err(e) => {
                return Err(e);
            },
        }
        i = i + 1;
    }
    Ok(Schema { protocols })
}

} // verus!
