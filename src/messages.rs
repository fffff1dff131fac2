use vstd::prelude::*;

verus! {

#[verifier::external_type_specification]
#[verifier::external_body]
pub struct ExValue(serde_json::Value);

/// A JSON-RPC message: the protocol version and its payload, a request, a
/// response or a notification.
pub struct Message<T> {
    pub jsonrpc: Version,
    pub payload: T,
}

pub type RequestMessage<In> = Message<Request<MethodCall<In>>>;

pub type ResponseMessage<Ret> = Message<Response<Ret>>;

pub type NotificationMessage<Ret> = Message<Notification<MethodCall<Ret>>>;

/// Identifies a call, so that its response can be matched to it.
pub struct Id(pub i64);

/// JSON-RPC protocol version. Only 2.0 is supported.
pub enum Version {
    V1,
    V2,
}

impl Version {
    /// How the version is written on the wire.
    pub fn name(&self) -> (r: &'static str)
        ensures
            r@ == (match self {
                Version::V1 => "1.0"@,
                Version::V2 => "2.0"@,
            }),
    {
        match self {
            Version::V1 => "1.0",
            Version::V2 => "2.0",
        }
    }
}

/// A call that expects a response.
pub struct Request<Call> {
    pub id: Id,
    pub call: Call,
}

/// A call that expects no response.
pub struct Notification<Call>(pub Call);

/// The answer to a `Request` with the same id.
pub struct Response<Res> {
    pub id: Id,
    pub result: Result<Res>,
}

/// The outcome of a remote call.
pub enum Result<Res> {
    Success(Success<Res>),
    Error(Error),
}

/// What a successful remote call returned.
pub struct Success<Ret> {
    pub result: Ret,
}

/// Why a remote call failed.
pub struct Error {
    pub code: i64,
    pub message: String,
    pub data: Option<serde_json::Value>,
}

/// A message from server to client: a response or a notification.
pub enum IncomingMessage {
    Response(Response<serde_json::Value>),
    Notification(Notification<serde_json::Value>),
}

/// The name of the method called, and its arguments.
pub struct MethodCall<In> {
    pub method: String,
    pub input: In,
}

impl<M> Request<M> {
    pub fn new(id: Id, call: M) -> (r: Request<M>)
        ensures
            r.id == id,
            r.call == call,
    {
        Request { id, call }
    }
}

impl<T> Message<T> {
    /// Wraps a payload into a JSON-RPC 2.0 message.
    pub fn new(t: T) -> (r: Message<T>)
        ensures
            r.jsonrpc == Version::V2,
            r.payload == t,
    {
        Message { jsonrpc: Version::V2, payload: t }
    }

    pub fn new_request(id: Id, method: &'static str, input: T) -> (r: RequestMessage<T>)
        ensures
            r.jsonrpc == Version::V2,
            r.payload.id == id,
            r.payload.call.method@ == method@,
            r.payload.call.input == input,
    {
        let call = MethodCall { method: method.to_owned(), input };
        let request = Request::new(id, call);
        Message::new(request)
    }

    pub fn new_success(id: Id, result: T) -> (r: ResponseMessage<T>)
        ensures
            r.jsonrpc == Version::V2,
            r.payload.id == id,
            r.payload.result == Result::Success(Success { result }),
    {
        let result = Result::Success(Success { result });
        let response = Response { id, result };
        Message::new(response)
    }

    pub fn new_error(id: Id, code: i64, message: String, data: Option<serde_json::Value>) -> (r:
        ResponseMessage<T>)
        ensures
            r.jsonrpc == Version::V2,
            r.payload.id == id,
            r.payload.result == Result::<T>::Error(Error { code, message, data }),
    {
        let result = Result::Error(Error { code, message, data });
        let response = Response { id, result };
        Message::new(response)
    }

    pub fn new_notification(method: &'static str, input: T) -> (r: NotificationMessage<T>)
        ensures
            r.jsonrpc == Version::V2,
            r.payload.0.method@ == method@,
            r.payload.0.input == input,
    {
        let call = MethodCall { method: method.to_owned(), input };
        let notification = Notification(call);
        Message::new(notification)
    }
}

} // verus!
