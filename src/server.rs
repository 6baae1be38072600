//! The server side: the capability a service implementation offers, the check that
//! a request belongs to a service's protocol, and the handler that dispatches it.
use vstd::prelude::*;
use crate::protocol::{Case, CaseKind, Protocol, Schema};
use crate::transport::{LinkError, Transport};
use crate::wire::{Reply, Request, Response, Value};

verus! {

/// A service implementation. Each operation takes the implementation by value,
/// so it is expected to be a cheap handle (a reference, a shared pointer).
pub trait Server: Sized {
    /// Holds when calling the value-returning method `method` with `args` may give `value`.
    /// Unless an implementation says more, any value may come.
    open spec fn answers(&self, method: Seq<char>, args: Seq<Value>, value: Value) -> bool {
        true
    }

    /// Holds when opening the nested service of `method` with `args` may give `sub`.
    /// Unless an implementation says more, any implementation may come.
    open spec fn opens(&self, method: Seq<char>, args: Seq<Value>, sub: Self) -> bool {
        true
    }

    /// Runs the value-returning method `method`.
    fn call(self, method: &String, args: Vec<Value>) -> (r: Value)
        ensures
            self.answers(method@, args@, r),
    ;

    /// Opens the nested service of `method`: the implementation that serves it.
    fn open(self, method: &String, args: Vec<Value>) -> (r: Self)
        ensures
            self.opens(method@, args@, r),
    ;
}

/// Why a request does not belong to a protocol.
#[derive(Debug, Clone, Copy, PartialEq, Eq)]
pub enum DecodeError {
    /// No method of the service has the request's tag.
    UnknownMethod,
    /// The payload does not have the shape of the method's case.
    MalformedPayload,
}

/// The first position from `k` on whose case has tag `tag`.
pub open spec fn case_from(cases: Seq<Case>, tag: Seq<char>, k: int) -> Option<int>
    decreases cases.len() - k,
{
    if k < 0 || k >= cases.len() {
        None
    } else if cases[k].tag@ == tag {
        Some(k)
    } else {
        case_from(cases, tag, k + 1)
    }
}

/// A position found from `k` on lies in range and holds the tag.
pub proof fn lemma_case_from(cases: Seq<Case>, tag: Seq<char>, k: int)
    ensures
        case_from(cases, tag, k) matches Some(i) ==> k <= i < cases.len() && cases[i].tag@ == tag,
    decreases cases.len() - k,
{
    if 0 <= k < cases.len() && cases[k].tag@ != tag {
        lemma_case_from(cases, tag, k + 1);
    }
}

/// The position of the case with tag `tag`.
pub open spec fn case_of(p: Protocol, tag: Seq<char>) -> Option<int> {
    case_from(p.cases@, tag, 0)
}

/// Why `request` does not belong to the protocol of service `service`, if it does not.
pub open spec fn request_error(protocols: Seq<Protocol>, service: int, request: Request) -> Option<
    DecodeError,
>
    decreases request,
{
    match case_of(protocols[service], request.method@) {
        None => Some(DecodeError::UnknownMethod),
        Some(k) => {
            let c = protocols[service].cases@[k];
            if request.args.len() != c.params.len() {
                Some(DecodeError::MalformedPayload)
            } else {
                match c.kind {
                    CaseKind::Value(_) => if request.inner is Some {
                        Some(DecodeError::MalformedPayload)
                    } else {
                        None
                    },
                    CaseKind::Nested(j) => match request.inner {
                        None => Some(DecodeError::MalformedPayload),
                        Some(inner) => if j < protocols.len() {
                            request_error(protocols, j as int, *inner)
                        } else {
                            Some(DecodeError::MalformedPayload)
                        },
                    },
                }
            }
        },
    }
}

/// `response` answers the well-formed `request` for service `service` served by `server`:
/// the same tag at every level, the nested service opened by `server` answering
/// the inner request, and a value that the implementation gave at the end.
pub open spec fn served<S: Server>(
    protocols: Seq<Protocol>,
    service: int,
    server: S,
    request: Request,
    response: Response,
) -> bool
    decreases request,
{
    match case_of(protocols[service], request.method@) {
        None => false,
        Some(k) => {
            &&& response.method@ == request.method@
            &&& match protocols[service].cases@[k].kind {
                CaseKind::Value(_) => match response.result {
                    Reply::Value(v) => server.answers(request.method@, request.args@, v),
                    Reply::Nested(_) => false,
                },
                CaseKind::Nested(j) => match (request.inner, response.result) {
                    (Some(inner), Reply::Nested(inner_response)) => exists|sub: S|
                        #[trigger] server.opens(request.method@, request.args@, sub) && served(
                            protocols,
                            j as int,
                            sub,
                            *inner,
                            *inner_response,
                        ),
                    _ => false,
                },
            }
        },
    }
}

/// `response` carries `value` for `request`: the request's tag at every level,
/// the inner responses nested as the inner requests are, and `value` at the bottom.
pub open spec fn carries(request: Request, response: Response, value: Value) -> bool
    decreases request,
{
    &&& response.method@ == request.method@
    &&& match (request.inner, response.result) {
        (None, Reply::Value(v)) => v == value,
        (Some(inner), Reply::Nested(inner_response)) => carries(*inner, *inner_response, value),
        _ => false,
    }
}

/// When every implementation of `S` only ever gives `value`, handling any request
/// of the protocol yields the response that carries exactly `value`.
pub proof fn lemma_round_trip<S: Server>(
    protocols: Seq<Protocol>,
    service: int,
    server: S,
    request: Request,
    response: Response,
    value: Value,
)
    requires
        0 <= service < protocols.len(),
        forall|s: S, m: Seq<char>, a: Seq<Value>, v: Value| #[trigger] s.answers(m, a, v) ==> v == value,
        request_error(protocols, service, request) is None,
        served(protocols, service, server, request, response),
    ensures
        carries(request, response, value),
    decreases request,
{
    let k = case_of(protocols[service], request.method@).unwrap();
    match protocols[service].cases@[k].kind {
        CaseKind::Value(_) => {},
        CaseKind::Nested(j) => {
            let inner = *request.inner.unwrap();
            let inner_response = *response.result->Nested_0;
            let sub = choose|sub: S|
                #[trigger] server.opens(request.method@, request.args@, sub) && served(
                    protocols,
                    j as int,
                    sub,
                    inner,
                    inner_response,
                );
            lemma_round_trip(protocols, j as int, sub, inner, inner_response, value);
        },
    }
}

/// Finds the case of `tag`.
pub fn find_case(p: &Protocol, tag: &String) -> (r: Option<usize>)
    ensures
        match r {
            Some(k) => case_of(*p, tag@) == Some(k as int) && k < p.cases.len()
                && p.cases@[k as int].tag@ == tag@,
            None => case_of(*p, tag@) is None,
        },
{
    proof {
        lemma_case_from(p.cases@, tag@, 0);
    }
    let mut k: usize = 0;
    while k < p.cases.len()
        invariant
            k <= p.cases.len(),
            case_of(*p, tag@) == case_from(p.cases@, tag@, k as int),
        decreases p.cases.len() - k,
    {
        if p.cases[k].tag == *tag {
            return Some(k);
        }
        k = k + 1;
    }
    None
}

/// Checks that `request` belongs to the protocol of service `service`.
pub fn check_request(schema: &Schema, service: usize, request: &Request) -> (r: Result<(), DecodeError>)
    requires
        service < schema@.len(),
    ensures
        match r {
            Ok(()) => request_error(schema@, service as int, *request) is None,
            Err(e) => request_error(schema@, service as int, *request) == Some(e),
        },
    decreases request,
{
    let p = schema.protocol(service);
    let k = match find_case(p, &request.method) {
        Some(k) => k,
        None => {
            return Err(DecodeError::UnknownMethod);
        },
    };
    let c = &p.cases[k];
    if request.args.len() != c.params.len() {
        return Err(DecodeError::MalformedPayload);
    }
    match &c.kind {
        CaseKind::Value(_) => {
            if request.inner.is_some() {
                Err(DecodeError::MalformedPayload)
            } else {
                Ok(())
            }
        },
        CaseKind::Nested(j) => match &request.inner {
            None => Err(DecodeError::MalformedPayload),
            Some(inner) => {
                if *j < schema.len() {
                    check_request(schema, *j, inner)
                } else {
                    Err(DecodeError::MalformedPayload)
                }
            },
        },
    }
}

/// Dispatches the requests of one service to its implementation.
pub struct Handler<'a, S> {
    schema: &'a Schema,
    service: usize,
    server: S,
}

impl<'a, S> Handler<'a, S> {
    #[verifier::type_invariant]
    spec fn inv(&self) -> bool {
        self.service < self.schema@.len()
    }
}

impl<'a, S: Server> Handler<'a, S> {
    /// The schema the handler follows.
    pub closed spec fn schema(&self) -> Schema {
        *self.schema
    }

    /// The position of the handled service in the schema.
    pub closed spec fn service(&self) -> int {
        self.service as int
    }

    /// The implementation the handler dispatches to.
    pub closed spec fn server(&self) -> S {
        self.server
    }

    /// A handler for the service at position `service` of `schema`, served by `server`.
    pub fn new(schema: &'a Schema, service: usize, server: S) -> (r: Self)
        requires
            service < schema@.len(),
        ensures
            r.schema() == *schema,
            r.service() == service,
            r.server() == server,
    {
        Handler { schema, service, server }
    }

    /// Answers a request of the service's protocol. For a value-returning method
    /// the implementation's result is wrapped in that method's response case; for
    /// a nested method the implementation opens the nested service, which answers
    /// the inner request, and its response is wrapped in turn.
    pub fn handle(self, request: Request) -> (r: Response)
        requires
            request_error(self.schema()@, self.service(), request) is None,
        ensures
            served(self.schema()@, self.service(), self.server(), request, r),
        decreases request,
    {
        proof {
            use_type_invariant(&self);
        }
        let ghost req = request;
        let Handler { schema, service, server } = self;
        let count = schema.len();
        let p = schema.protocol(service);
        let k = find_case(p, &request.method).unwrap();
        let Request { method, args, inner } = request;
        match &p.cases[k].kind {
            CaseKind::Value(_) => {
                let v = server.call(&method, args);
                Response { method, result: Reply::Value(v) }
            },
            CaseKind::Nested(j) => {
                let ghost s = server;
                let sub = server.open(&method, args);
                let inner = *inner.unwrap();
                assert(schema@[service as int].cases@[k as int].kind matches CaseKind::Nested(j2) ==> j2 < service);
                let nested = Handler { schema, service: *j, server: sub };
                let inner_response = nested.handle(inner);
                assert(s.opens(req.method@, req.args@, sub));
                Response { method, result: Reply::Nested(Box::new(inner_response)) }
            },
        }
    }

    /// Decodes and answers a request: a request that does not belong to the
    /// service's protocol is refused with the reason.
    pub fn serve(self, request: Request) -> (r: Result<Response, DecodeError>)
        ensures
            match r {
                Ok(response) => request_error(self.schema()@, self.service(), request) is None
                    && served(self.schema()@, self.service(), self.server(), request, response),
                Err(e) => request_error(self.schema()@, self.service(), request) == Some(e),
            },
    {
        proof {
            use_type_invariant(&self);
        }
        match check_request(self.schema, self.service, &request) {
            Ok(()) => Ok(self.handle(request)),
            Err(e) => Err(e),
        }
    }
}

/// An in-process transport: each request goes straight to a handler.
pub struct Loopback<'a, S> {
    handler: Handler<'a, S>,
}

impl<'a, S: Server> Loopback<'a, S> {
    /// The handler that answers.
    pub closed spec fn handler(&self) -> Handler<'a, S> {
        self.handler
    }

    /// A transport that hands each request to `handler`.
    pub fn new(handler: Handler<'a, S>) -> (r: Self)
        ensures
            r.handler() == handler,
    {
        Loopback { handler }
    }
}

impl<'a, S: Server> Transport for Loopback<'a, S> {
    type Error = DecodeError;

    open spec fn exchange(&self, request: Request, outcome: Result<Response, LinkError<DecodeError>>) -> bool {
        let h = self.handler();
        match outcome {
            Ok(response) => request_error(h.schema()@, h.service(), request) is None && served(
                h.schema()@,
                h.service(),
                h.server(),
                request,
                response,
            ),
            Err(LinkError::Transport(e)) => request_error(h.schema()@, h.service(), request) == Some(e),
            Err(LinkError::WrongResponseType) => false,
        }
    }

    fn send(self, request: Request) -> (outcome: Result<Response, LinkError<DecodeError>>) {
        let Loopback { handler } = self;
        match handler.serve(request) {
            Ok(response) => Ok(response),
            Err(e) => Err(LinkError::Transport(e)),
        }
    }
}

} // verus!
