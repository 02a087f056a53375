//! The route table, and the mapping of every handler's result to an HTTP
//! reply.

use std::sync::Arc;
use vstd::prelude::*;
use crate::chain::{guarded, ActionView, ExchangeView, Interceptor};
use crate::error::{backend_failure, status_display, AuthError, Error, ErrorView, StatusView};
use crate::middleware::jwt_validator::{ClaimsView, JwtValidator};
use crate::middleware::metrics::{MetricsMiddleware, SinkView};
use crate::text::{contains_text, lemma_concat_contains};

pub mod auth_routes;
pub mod order_routes;
pub mod product_routes;

verus! {

/// The HTTP methods that the gateway routes.
#[derive(Debug, Clone, Copy, PartialEq, Eq, Structural)]
pub enum Method {
    Get,
    Post,
    Delete,
}

/// The operations that the gateway offers.
#[derive(Debug, Clone, Copy, PartialEq, Eq, Structural)]
pub enum Operation {
    IsAdmin,
    Login,
    Register,
    SaveProduct,
    GetListProducts,
    DeleteProduct,
    PlaceOrder,
    GetOrderList,
    DeleteOrder,
}

/// The binding of a method to an operation.
#[derive(Debug, Clone, Copy, PartialEq, Eq, Structural)]
pub struct Route {
    pub method: Method,
    pub operation: Operation,
}

/// A resource as a mathematical value.
pub struct ResourceView {
    pub pattern: Seq<char>,
    pub chain: Seq<Interceptor>,
    pub routes: Seq<Route>,
}

/// A path pattern with the chain that wraps it and, per method, the
/// operation that it leads to.
#[derive(Debug, Clone, PartialEq, Eq)]
pub struct Resource {
    pub pattern: String,
    pub chain: Vec<Interceptor>,
    pub routes: Vec<Route>,
}

impl View for Resource {
    type V = ResourceView;

    open spec fn view(&self) -> ResourceView {
        ResourceView { pattern: self.pattern@, chain: self.chain@, routes: self.routes@ }
    }
}

/// The resources of `table`, in their order.
pub open spec fn resources(table: Seq<Resource>) -> Seq<ResourceView> {
    table.map_values(|resource: Resource| resource@)
}

/// The chain of a route that asks for a credential: the verifier runs first,
/// the telemetry publisher second.
pub open spec fn protected_chain() -> Seq<Interceptor> {
    seq![Interceptor::CredentialVerifier, Interceptor::TelemetryPublisher]
}

/// The chain of a route that is open to everyone.
pub open spec fn open_chain() -> Seq<Interceptor> {
    seq![Interceptor::TelemetryPublisher]
}

/// The gateway's resources.
pub open spec fn route_table() -> Seq<ResourceView> {
    seq![
        ResourceView {
            pattern: "/auth/is_admin/{id}"@,
            chain: protected_chain(),
            routes: seq![Route { method: Method::Get, operation: Operation::IsAdmin }],
        },
        ResourceView {
            pattern: "/auth/login"@,
            chain: open_chain(),
            routes: seq![Route { method: Method::Post, operation: Operation::Login }],
        },
        ResourceView {
            pattern: "/auth/register"@,
            chain: open_chain(),
            routes: seq![Route { method: Method::Post, operation: Operation::Register }],
        },
        ResourceView {
            pattern: "/products"@,
            chain: protected_chain(),
            routes: seq![
                Route { method: Method::Post, operation: Operation::SaveProduct },
                Route { method: Method::Get, operation: Operation::GetListProducts },
            ],
        },
        ResourceView {
            pattern: "/products/{id}"@,
            chain: protected_chain(),
            routes: seq![Route { method: Method::Delete, operation: Operation::DeleteProduct }],
        },
        ResourceView {
            pattern: "/orders"@,
            chain: protected_chain(),
            routes: seq![
                Route { method: Method::Post, operation: Operation::PlaceOrder },
                Route { method: Method::Get, operation: Operation::GetOrderList },
            ],
        },
        ResourceView {
            pattern: "/orders/{id}"@,
            chain: protected_chain(),
            routes: seq![Route { method: Method::Delete, operation: Operation::DeleteOrder }],
        },
    ]
}

/// The operation may be called without a credential.
pub open spec fn is_public(operation: Operation) -> bool {
    operation == Operation::Login || operation == Operation::Register
}

/// The configured interceptors and the resources that they wrap.
pub struct Routes {
    pub validator: JwtValidator,
    pub publisher: MetricsMiddleware,
    pub resources: Vec<Resource>,
}

/// The chain of a protected resource.
fn protected() -> (chain: Vec<Interceptor>)
    ensures
        chain@ == protected_chain(),
{
    let mut chain: Vec<Interceptor> = Vec::new();
    chain.push(Interceptor::CredentialVerifier);
    chain.push(Interceptor::TelemetryPublisher);
    assert(chain@ =~= protected_chain());
    chain
}

/// The chain of an open resource.
fn unprotected() -> (chain: Vec<Interceptor>)
    ensures
        chain@ == open_chain(),
{
    let mut chain: Vec<Interceptor> = Vec::new();
    chain.push(Interceptor::TelemetryPublisher);
    assert(chain@ =~= open_chain());
    chain
}

/// A resource with one route.
fn single(pattern: &str, chain: Vec<Interceptor>, method: Method, operation: Operation) -> (resource:
    Resource)
    ensures
        resource@ == (ResourceView {
            pattern: pattern@,
            chain: chain@,
            routes: seq![Route { method, operation }],
        }),
{
    let mut routes: Vec<Route> = Vec::new();
    routes.push(Route { method, operation });
    let resource = Resource { pattern: String::from_str(pattern), chain, routes };
    assert(resource@.routes =~= seq![Route { method, operation }]);
    resource
}

/// A resource with two routes.
fn double(pattern: &str, chain: Vec<Interceptor>, first: Route, second: Route) -> (resource: Resource)
    ensures
        resource@ == (ResourceView { pattern: pattern@, chain: chain@, routes: seq![first, second] }),
{
    let mut routes: Vec<Route> = Vec::new();
    routes.push(first);
    routes.push(second);
    let resource = Resource { pattern: String::from_str(pattern), chain, routes };
    assert(resource@.routes =~= seq![first, second]);
    resource
}

/// Binds every resource of the gateway to its chain and its operations, and
/// configures the credential verifier with `secret` and the telemetry
/// publisher with the sink's token, address, organization and bucket.
pub fn init_routes(secret: String, token: String, url: String, org: String, bucket: String) -> (routes:
    Routes)
    ensures
        routes.validator.secret@ == secret@,
        routes.publisher@ == (SinkView { token: token@, url: url@, org: org@, bucket: bucket@ }),
        resources(routes.resources@) == route_table(),
{
    let mut table: Vec<Resource> = Vec::new();
    table.push(single("/auth/is_admin/{id}", protected(), Method::Get, Operation::IsAdmin));
    table.push(single("/auth/login", unprotected(), Method::Post, Operation::Login));
    table.push(single("/auth/register", unprotected(), Method::Post, Operation::Register));
    table.push(
        double(
            "/products",
            protected(),
            Route { method: Method::Post, operation: Operation::SaveProduct },
            Route { method: Method::Get, operation: Operation::GetListProducts },
        ),
    );
    table.push(single("/products/{id}", protected(), Method::Delete, Operation::DeleteProduct));
    table.push(
        double(
            "/orders",
            protected(),
            Route { method: Method::Post, operation: Operation::PlaceOrder },
            Route { method: Method::Get, operation: Operation::GetOrderList },
        ),
    );
    table.push(single("/orders/{id}", protected(), Method::Delete, Operation::DeleteOrder));
    assert(resources(table@) =~= route_table());
    Routes {
        validator: JwtValidator::new(Arc::new(secret)),
        publisher: MetricsMiddleware::new(
            Arc::new(token),
            Arc::new(url),
            Arc::new(org),
            Arc::new(bucket),
        ),
        resources: table,
    }
}

/// In every chain of the route table the telemetry publisher comes last and
/// once, and a credential verifier, where there is one, comes first.
pub proof fn lemma_route_table_order()
    ensures
        forall|i: int|
            0 <= i < route_table().len() ==> {
                let chain = #[trigger] route_table()[i].chain;
                chain == open_chain() || chain == protected_chain()
            },
{
}

/// The routes that ask for no credential are those of the public
/// operations, login and registration; every other route asks for one.
pub proof fn lemma_public_routes_are_open()
    ensures
        forall|i: int, j: int|
            0 <= i < route_table().len() && 0 <= j < route_table()[i].routes.len() ==> (is_public(
                (#[trigger] route_table()[i].routes[j]).operation,
            ) <==> !guarded(route_table()[i].chain)),
{
    assert(protected_chain()[0] == Interceptor::CredentialVerifier);
    assert(guarded(protected_chain()));
    assert(!guarded(open_chain()));
}

/// A request for a public operation reaches its handler whatever the
/// credential verifier would find of its `Authorization` header; a request
/// for any other operation reaches it only with a credential that holds, and
/// is answered with 401 otherwise.
pub proof fn lemma_credentials_matter_on_protected_routes_only(
    i: int,
    j: int,
    method: Seq<char>,
    path: Seq<char>,
    judgement: Result<ClaimsView, AuthError>,
)
    requires
        0 <= i < route_table().len(),
        0 <= j < route_table()[i].routes.len(),
    ensures
        ({
            let operation = route_table()[i].routes[j].operation;
            let action = ExchangeView::initial(route_table()[i].chain, method, path).arrive(
                judgement,
            ).1;
            if is_public(operation) || judgement is Ok {
                action == ActionView::InvokeHandler
            } else {
                action == (ActionView::Reject { status: 401 })
            }
        }),
{
    lemma_public_routes_are_open();
}

/// An HTTP reply as a mathematical value.
pub enum ReplyView<V> {
    Success { status: u16, body: V },
    Failure { status: u16, message: Seq<char> },
}

/// The reply to a request that reached its handler.
#[derive(Debug, Clone, PartialEq, Eq)]
pub enum Reply<T> {
    /// The value to serialize as the body, and the status to send it with.
    Success { status: u16, body: T },
    /// The message to send as the body, and the status to send it with.
    Failure { status: u16, message: String },
}

/// The text between an operation's name and the backend's status.
pub open spec fn separator() -> Seq<char> {
    ", "@
}

/// The body of the reply to a failed request: for a failed remote call the
/// name of the call and the backend's status, for every other error its
/// message.
pub open spec fn failure_message(error: ErrorView) -> Seq<char> {
    match error {
        ErrorView::BackendFailure { operation, status } => operation + separator()
            + status_display(status.code as int, status.message),
        _ => error.message(),
    }
}

/// The reply that a handler's result is mapped to: 200 with the value, or
/// 500 with the failure's message.
pub open spec fn mapped<V>(outcome: Result<V, ErrorView>) -> ReplyView<V> {
    match outcome {
        Ok(value) => ReplyView::Success { status: 200, body: value },
        Err(error) => ReplyView::Failure { status: 500, message: failure_message(error) },
    }
}

/// When a remote call fails, the reply is a 500 whose body contains both the
/// name of the operation and the text of the backend's status.
pub proof fn lemma_backend_failure_reply<V>(operation: Seq<char>, status: StatusView)
    ensures
        mapped::<V>(Err(backend_failure(operation, status))) matches ReplyView::Failure {
            status: code,
            message,
        } && code == 500 && contains_text(message, operation) && contains_text(
            message,
            status_display(status.code as int, status.message),
        ),
{
    let text = status_display(status.code as int, status.message);
    let message = operation + separator() + text;
    lemma_concat_contains(Seq::empty(), operation, separator() + text);
    assert(Seq::<char>::empty() + operation + (separator() + text) =~= message);
    lemma_concat_contains(operation + separator(), text, Seq::empty());
    assert(operation + separator() + text + Seq::<char>::empty() =~= message);
}

/// A request that reached its handler is answered with 200 or with 500,
/// never with another status.
pub proof fn lemma_reply_status<V>(outcome: Result<V, ErrorView>)
    ensures
        match mapped(outcome) {
            ReplyView::Success { status, .. } => status == 200 && outcome is Ok,
            ReplyView::Failure { status, .. } => status == 500 && outcome is Err,
        },
{
}

impl<T> Reply<T> {
    /// The reply with the message as a sequence of characters.
    pub open spec fn shape(self) -> ReplyView<T> {
        match self {
            Reply::Success { status, body } => ReplyView::Success { status, body },
            Reply::Failure { status, message } => ReplyView::Failure { status, message: message@ },
        }
    }

    /// The status of the reply.
    pub open spec fn status_code(self) -> u16 {
        match self {
            Reply::Success { status, .. } => status,
            Reply::Failure { status, .. } => status,
        }
    }

    /// The status of the reply.
    pub fn status(&self) -> (status: u16)
        ensures
            status == self.status_code(),
    {
        match self {
            Reply::Success { status, .. } => *status,
            Reply::Failure { status, .. } => *status,
        }
    }
}

impl<T: View> View for Reply<T> {
    type V = ReplyView<T::V>;

    open spec fn view(&self) -> ReplyView<T::V> {
        match self {
            Reply::Success { status, body } => ReplyView::Success { status: *status, body: body@ },
            Reply::Failure { status, message } => ReplyView::Failure {
                status: *status,
                message: message@,
            },
        }
    }
}

/// What a handler returned, with the error as a mathematical value.
pub open spec fn result_shape<T>(res: Result<T, Error>) -> Result<T, ErrorView> {
    match res {
        Ok(value) => Ok(value),
        Err(error) => Err(error@),
    }
}

/// Maps a handler's result to the HTTP reply: a value is shown to the
/// observer `log_f` and sent with 200, an error is sent with 500 and its
/// message.
pub fn handle_result<T, F>(res: Result<T, Error>, log_f: F) -> (reply: Reply<T>) where F: Fn(&T)
    requires
        res matches Ok(value) ==> call_requires(log_f, (&value,)),
    ensures
        reply.shape() == mapped(result_shape(res)),
        res matches Ok(value) ==> call_ensures(log_f, (&value,), ()),
{
    match res {
        Ok(value) => {
            log_f(&value);
            Reply::Success { status: 200, body: value }
        },
        Err(Error::BackendFailure { operation, status }) => {
            let mut message = operation;
            message.append(", ");
            message.append(status.render().as_str());
            Reply::Failure { status: 500, message }
        },
        Err(error) => Reply::Failure { status: 500, message: error.message() },
    }
}

} // verus!
