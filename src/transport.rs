//! The client side: the transport contract, the composition adapter that tunnels a
//! nested service through its parent's channel, and the client stubs.
use vstd::prelude::*;
use crate::protocol::Case;
use crate::wire::{clone_values, same_value, Reply, Request, Response, Value};

verus! {

/// Why a call failed.
#[derive(Debug, Clone, PartialEq, Eq)]
pub enum LinkError<E> {
    /// The transport failed to deliver the request or bring back a response.
    Transport(E),
    /// The response belongs to another method than the request: the client and
    /// server disagree on the protocol, or the transport reached the wrong endpoint.
    WrongResponseType,
}

/// Exchanges one request for one response.
pub trait Transport: Sized {
    type Error;

    /// Holds when sending `request` through this transport may end in `outcome`.
    /// Unless a transport says more, any outcome may come.
    open spec fn exchange(&self, request: Request, outcome: Result<Response, LinkError<Self::Error>>) -> bool {
        true
    }

    /// Sends `request` and brings back the response. The transport is used up.
    fn send(self, request: Request) -> (outcome: Result<Response, LinkError<Self::Error>>)
        ensures
            self.exchange(request, outcome),
    ;
}

/// The outer request that carries `inner` to the nested service opened by `method` with `args`.
pub open spec fn wrap_request(method: String, args: Vec<Value>, inner: Request) -> Request {
    Request { method, args, inner: Some(Box::new(inner)) }
}

/// The nested service's response inside `outer`, if `outer` answers `method` with one.
pub open spec fn inner_response(method: Seq<char>, outer: Response) -> Option<Response> {
    if outer.method@ == method {
        match outer.result {
            Reply::Nested(inner) => Some(*inner),
            Reply::Value(_) => None,
        }
    } else {
        None
    }
}

/// What a nested call ends in, given what the outer exchange ended in.
pub open spec fn unwrap_outcome<E>(method: Seq<char>, outcome: Result<Response, LinkError<E>>) -> Result<
    Response,
    LinkError<E>,
> {
    match outcome {
        Err(e) => Err(e),
        Ok(outer) => match inner_response(method, outer) {
            Some(inner) => Ok(inner),
            None => Err(LinkError::WrongResponseType),
        },
    }
}

/// What a call of a value-returning method ends in, given what the exchange ended in.
pub open spec fn value_outcome<E>(method: Seq<char>, outcome: Result<Response, LinkError<E>>) -> Result<
    Value,
    LinkError<E>,
> {
    match outcome {
        Err(e) => Err(e),
        Ok(response) => if response.method@ == method {
            match response.result {
                Reply::Value(v) => Ok(v),
                Reply::Nested(_) => Err(LinkError::WrongResponseType),
            }
        } else {
            Err(LinkError::WrongResponseType)
        },
    }
}

/// Takes the nested service's response out of `outer`, if `outer` answers `method` with one.
pub fn to_inner(method: &String, outer: Response) -> (r: Option<Response>)
    ensures
        r == inner_response(method@, outer),
{
    if outer.method == *method {
        match outer.result {
            Reply::Nested(inner) => Some(*inner),
            Reply::Value(_) => None,
        }
    } else {
        None
    }
}

/// Decides a nested call from the outer exchange's outcome.
pub fn unwrap_nested<E>(method: &String, outcome: Result<Response, LinkError<E>>) -> (r: Result<
    Response,
    LinkError<E>,
>)
    ensures
        r == unwrap_outcome(method@, outcome),
{
    match outcome {
        Err(e) => Err(e),
        Ok(outer) => match to_inner(method, outer) {
            Some(inner) => Ok(inner),
            None => Err(LinkError::WrongResponseType),
        },
    }
}

/// Decides a call of a value-returning method from the exchange's outcome.
pub fn expect_value<E>(method: &String, outcome: Result<Response, LinkError<E>>) -> (r: Result<
    Value,
    LinkError<E>,
>)
    ensures
        r == value_outcome(method@, outcome),
{
    match outcome {
        Err(e) => Err(e),
        Ok(response) => {
            if response.method == *method {
                match response.result {
                    Reply::Value(v) => Ok(v),
                    Reply::Nested(_) => Err(LinkError::WrongResponseType),
                }
            } else {
                Err(LinkError::WrongResponseType)
            }
        },
    }
}

/// A transport for a nested service: it wraps each request into the parent's
/// request for the method that opened the service, with the arguments captured
/// when it was opened, sends that through the parent's transport, and unwraps
/// the answer. Failures of the parent's transport come back as they are: a
/// nested service has no error channel of its own.
#[derive(Debug)]
pub struct MappedTransport<T> {
    outer: T,
    method: String,
    args: Vec<Value>,
}

impl<T> MappedTransport<T> {
    /// The parent's transport.
    pub closed spec fn outer(&self) -> T {
        self.outer
    }

    /// The tag of the parent's method that opened the nested service.
    pub closed spec fn method(&self) -> String {
        self.method
    }

    /// The arguments captured when the nested service was opened.
    pub closed spec fn args(&self) -> Vec<Value> {
        self.args
    }

    /// An adapter over `outer` for the nested service opened by `method` with `args`.
    pub fn new(outer: T, method: String, args: Vec<Value>) -> (r: Self)
        ensures
            r.outer() == outer,
            r.method() == method,
            r.args() == args,
    {
        MappedTransport { outer, method, args }
    }
}

impl<T: Clone> Clone for MappedTransport<T> {
    /// A copy for another call: a clone of the parent's transport, the same
    /// method, and copies of the captured arguments.
    fn clone(&self) -> (r: Self)
        ensures
            cloned(self.outer(), r.outer()),
            r.method() == self.method(),
            r.args().len() == self.args().len(),
            forall|i: int|
                0 <= i < self.args().len() ==> same_value(#[trigger] self.args()@[i], r.args()@[i]),
    {
        MappedTransport {
            outer: self.outer.clone(),
            method: self.method.clone(),
            args: clone_values(&self.args),
        }
    }
}

impl<T: Transport> Transport for MappedTransport<T> {
    type Error = T::Error;

    open spec fn exchange(&self, request: Request, outcome: Result<Response, LinkError<T::Error>>) -> bool {
        exists|o: Result<Response, LinkError<T::Error>>|
            #[trigger] self.outer().exchange(wrap_request(self.method(), self.args(), request), o)
                && outcome == unwrap_outcome(self.method()@, o)
    }

    fn send(self, request: Request) -> (outcome: Result<Response, LinkError<T::Error>>) {
        let ghost this = self;
        let MappedTransport { outer, method, args } = self;
        let wrapped = Request::nest(method.clone(), args, request);
        let o = outer.send(wrapped);
        assert(this.outer().exchange(wrap_request(this.method(), this.args(), request), o));
        unwrap_nested(&method, o)
    }
}

/// A client stub: each call builds the request for one method, sends it through
/// the transport and checks that the response answers that method.
#[derive(Debug, Clone, Copy)]
pub struct Client<T> {
    transport: T,
}

impl<T> Client<T> {
    /// The transport the client sends through.
    pub closed spec fn transport(&self) -> T {
        self.transport
    }

    /// A client sending through `transport`.
    pub fn new(transport: T) -> (r: Self)
        ensures
            r.transport() == transport,
    {
        Client { transport }
    }
}

impl<T: Transport> Client<T> {
    /// Calls the value-returning method of `case` with `args`: exactly one request,
    /// tagged with the case's tag, goes to the transport.
    pub fn call(self, case: &Case, args: Vec<Value>) -> (r: Result<Value, LinkError<T::Error>>)
        ensures
            exists|o: Result<Response, LinkError<T::Error>>|
                #[trigger] self.transport().exchange(Request::call_spec(case.tag, args), o) && r
                    == value_outcome(case.tag@, o),
    {
        let ghost this = self;
        let request = Request::call(case.tag.clone(), args);
        let o = self.transport.send(request);
        assert(this.transport().exchange(Request::call_spec(case.tag, args), o));
        expect_value(&case.tag, o)
    }

    /// Opens the nested service of `case` with `args`. Nothing is sent: the new
    /// client sends each of its requests inside this service's request for `case`.
    pub fn nested(self, case: &Case, args: Vec<Value>) -> (r: Client<MappedTransport<T>>)
        ensures
            r.transport().outer() == self.transport(),
            r.transport().method() == case.tag,
            r.transport().args() == args,
    {
        Client::new(MappedTransport::new(self.transport, case.tag.clone(), args))
    }
}

/// A response tagged for another method never passes for the called method's:
/// the call fails with `WrongResponseType`, whether the method returns a value or
/// opens a nested service.
pub proof fn lemma_mismatch_detected<E>(method: Seq<char>, response: Response)
    requires
        response.method@ != method,
    ensures
        value_outcome::<E>(method, Ok(response)) == Err::<Value, _>(LinkError::<E>::WrongResponseType),
        unwrap_outcome::<E>(method, Ok(response)) == Err::<Response, _>(
            LinkError::<E>::WrongResponseType,
        ),
{
}

/// A call through a transport that only ever answers with a response for another
/// method fails with `WrongResponseType`, never with a value.
pub proof fn lemma_call_mismatch<T: Transport>(
    transport: T,
    case: Case,
    args: Vec<Value>,
    r: Result<Value, LinkError<T::Error>>,
)
    requires
        forall|o: Result<Response, LinkError<T::Error>>|
            #[trigger] transport.exchange(Request::call_spec(case.tag, args), o) ==> (o matches Ok(
                response,
            ) && response.method@ != case.tag@),
        exists|o: Result<Response, LinkError<T::Error>>|
            #[trigger] transport.exchange(Request::call_spec(case.tag, args), o) && r
                == value_outcome(case.tag@, o),
    ensures
        r == Err::<Value, _>(LinkError::<T::Error>::WrongResponseType),
{
    let o = choose|o: Result<Response, LinkError<T::Error>>|
        #[trigger] transport.exchange(Request::call_spec(case.tag, args), o) && r == value_outcome(
            case.tag@,
            o,
        );
    assert(transport.exchange(Request::call_spec(case.tag, args), o));
}

/// Through two adapters, a request reaches the base transport as exactly one
/// request: the outer adapter's method and captured arguments, carrying the inner
/// adapter's, carrying the request itself. The answer is unwrapped once per adapter.
pub proof fn lemma_nested_chain<T: Transport>(
    chain: MappedTransport<MappedTransport<T>>,
    request: Request,
    outcome: Result<Response, LinkError<T::Error>>,
)
    ensures
        chain.exchange(request, outcome) <==> exists|o: Result<Response, LinkError<T::Error>>|
            #[trigger] chain.outer().outer().exchange(
                wrap_request(
                    chain.outer().method(),
                    chain.outer().args(),
                    wrap_request(chain.method(), chain.args(), request),
                ),
                o,
            ) && outcome == unwrap_outcome(
                chain.method()@,
                unwrap_outcome(chain.outer().method()@, o),
            ),
{
    let first = chain.outer();
    let base = first.outer();
    let middle = wrap_request(chain.method(), chain.args(), request);
    let sent = wrap_request(first.method(), first.args(), middle);
    if chain.exchange(request, outcome) {
        let o1 = choose|o1: Result<Response, LinkError<T::Error>>|
            #[trigger] first.exchange(middle, o1) && outcome == unwrap_outcome(chain.method()@, o1);
        let o = choose|o: Result<Response, LinkError<T::Error>>|
            #[trigger] base.exchange(sent, o) && o1 == unwrap_outcome(first.method()@, o);
        assert(base.exchange(sent, o));
    }
    if exists|o: Result<Response, LinkError<T::Error>>|
        #[trigger] base.exchange(sent, o) && outcome == unwrap_outcome(
            chain.method()@,
            unwrap_outcome(first.method()@, o),
        ) {
        let o = choose|o: Result<Response, LinkError<T::Error>>|
            #[trigger] base.exchange(sent, o) && outcome == unwrap_outcome(
                chain.method()@,
                unwrap_outcome(first.method()@, o),
            );
        let o1 = unwrap_outcome(first.method()@, o);
        assert(first.exchange(middle, o1));
        assert(chain.exchange(request, outcome));
    }
}

/// A call made through a client opened by two nested methods in turn reaches the
/// first client's transport as exactly one request: the first nested method's
/// request, carrying the second's with its captured arguments, carrying the call.
/// The answer is unwrapped once per nested method before its value is taken.
pub proof fn lemma_client_chain<T: Transport>(
    top: Client<T>,
    chain: Client<MappedTransport<MappedTransport<T>>>,
    first: Case,
    first_args: Vec<Value>,
    second: Case,
    second_args: Vec<Value>,
    call: Case,
    call_args: Vec<Value>,
    r: Result<Value, LinkError<T::Error>>,
)
    requires
        chain.transport().outer().outer() == top.transport(),
        chain.transport().outer().method() == first.tag,
        chain.transport().outer().args() == first_args,
        chain.transport().method() == second.tag,
        chain.transport().args() == second_args,
        exists|o: Result<Response, LinkError<T::Error>>|
            #[trigger] chain.transport().exchange(Request::call_spec(call.tag, call_args), o) && r
                == value_outcome(call.tag@, o),
    ensures
        exists|o: Result<Response, LinkError<T::Error>>|
            #[trigger] top.transport().exchange(
                wrap_request(
                    first.tag,
                    first_args,
                    wrap_request(second.tag, second_args, Request::call_spec(call.tag, call_args)),
                ),
                o,
            ) && r == value_outcome(
                call.tag@,
                unwrap_outcome(second.tag@, unwrap_outcome(first.tag@, o)),
            ),
{
    let request = Request::call_spec(call.tag, call_args);
    let o = choose|o: Result<Response, LinkError<T::Error>>|
        #[trigger] chain.transport().exchange(request, o) && r == value_outcome(call.tag@, o);
    lemma_nested_chain(chain.transport(), request, o);
    let sent = wrap_request(first.tag, first_args, wrap_request(second.tag, second_args, request));
    let ob = choose|ob: Result<Response, LinkError<T::Error>>|
        #[trigger] top.transport().exchange(sent, ob) && o == unwrap_outcome(
            second.tag@,
            unwrap_outcome(first.tag@, ob),
        );
    assert(top.transport().exchange(sent, ob));
}

/// Adapters that captured different arguments send different outer requests,
/// even for the same inner request.
pub proof fn lemma_arguments_captured(
    method: String,
    first: Vec<Value>,
    second: Vec<Value>,
    inner: Request,
)
    requires
        first@ != second@,
    ensures
        wrap_request(method, first, inner) != wrap_request(method, second, inner),
{
}

} // verus!
