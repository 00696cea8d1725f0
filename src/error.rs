use vstd::prelude::*;
use vstd::string::StringExecFns;

verus! {

/// Why a request was malformed; carries the name of the header concerned.
pub enum BadRequestReason {
    MissingHeader(&'static str),
    InvalidHeader(&'static str),
}

/// The stage of a connection pool at which an acquisition ran out of time.
#[derive(Clone, Copy, Debug, PartialEq, Eq, Structural)]
pub enum TimeoutType {
    Wait,
    Create,
    Recycle,
}

/// The single error type of the library.
///
/// Failures whose cause is a foreign error value (I/O, address parsing,
/// transport, header construction, response construction, pool build) keep
/// that cause's rendered description.
pub enum FaucetError {
    PoolBuild(String),
    PoolTimeout(TimeoutType),
    PoolPostCreateHook,
    PoolClosed,
    PoolNoRuntimeSpecified,
    Io(String),
    Unknown(String),
    HostParseError(String),
    Hyper(String),
    BadRequest(BadRequestReason),
    InvalidHeaderValues(String),
    Http(String),
    MissingArgument(&'static str),
    DuplicateRoute(&'static str),
}

/// The failures that acquiring an object from a managed pool can report.
pub enum PoolError {
    Timeout(TimeoutType),
    Backend(FaucetError),
    Closed,
    NoRuntimeSpecified,
    PostCreateHook,
}

/// A minimal plain-text HTTP response built from an error.
pub struct ErrorResponse {
    pub status: u16,
    pub body: String,
}

pub const INTERNAL_SERVER_ERROR: u16 = 500;

pub open spec fn timeout_name(t: TimeoutType) -> Seq<char> {
    match t {
        TimeoutType::Wait => "Wait"@,
        TimeoutType::Create => "Create"@,
        TimeoutType::Recycle => "Recycle"@,
    }
}

pub open spec fn bad_request_description(r: BadRequestReason) -> Seq<char> {
    match r {
        BadRequestReason::MissingHeader(h) => "Missing header: "@ + h@,
        BadRequestReason::InvalidHeader(h) => "Invalid header: "@ + h@,
    }
}

/// The human-readable description of an error; `cause` renders the payload
/// of `Unknown` (plain for display, quoted for debugging output).
pub open spec fn rendered(e: FaucetError, cause: Seq<char>) -> Seq<char> {
    match e {
        FaucetError::PoolBuild(m) => "Pool build error: "@ + m@,
        FaucetError::PoolTimeout(t) => "Pool timeout error: "@ + timeout_name(t),
        FaucetError::PoolPostCreateHook => "Pool post create hook error"@,
        FaucetError::PoolClosed => "Pool closed error"@,
        FaucetError::PoolNoRuntimeSpecified => "Pool no runtime specified error"@,
        FaucetError::Io(m) => "IO error: "@ + m@,
        FaucetError::Unknown(_) => "Unknown error: "@ + cause,
        FaucetError::HostParseError(m) => "Error parsing host address: "@ + m@,
        FaucetError::Hyper(m) => "Hyper error: "@ + m@,
        FaucetError::Http(m) => "Http error: "@ + m@,
        FaucetError::InvalidHeaderValues(m) => "Invalid header values: "@ + m@,
        FaucetError::MissingArgument(s) => "Missing argument: "@ + s@,
        FaucetError::DuplicateRoute(r) => "Route '"@ + r@ + "' is duplicated\n"@,
        FaucetError::BadRequest(r) => bad_request_description(r),
    }
}

pub open spec fn unknown_message(e: FaucetError) -> Seq<char> {
    match e {
        FaucetError::Unknown(m) => m@,
        _ => Seq::empty(),
    }
}

/// What `to_string` renders.
pub open spec fn description(e: FaucetError) -> Seq<char> {
    rendered(e, unknown_message(e))
}

/// What `debug_string` renders: the message of `Unknown` appears quoted.
pub open spec fn debug_description(e: FaucetError) -> Seq<char> {
    rendered(e, quoted_of(unknown_message(e)))
}

/// The error a pool failure becomes.
pub open spec fn from_pool_error_spec(e: PoolError) -> FaucetError {
    match e {
        PoolError::Backend(inner) => inner,
        PoolError::Timeout(t) => FaucetError::PoolTimeout(t),
        PoolError::Closed => FaucetError::PoolClosed,
        PoolError::PostCreateHook => FaucetError::PoolPostCreateHook,
        PoolError::NoRuntimeSpecified => FaucetError::PoolNoRuntimeSpecified,
    }
}

/// The debug rendering of a string: quoted, with special characters escaped.
pub uninterp spec fn quoted_of(s: Seq<char>) -> Seq<char>;

/// Relies on `<str as Debug>::fmt`: the string in double quotes with escapes,
/// which depends on the characters alone.
#[verifier::external_body]
fn quoted(s: &str) -> (r: String)
    ensures
        r@ == quoted_of(s@),
{
    format!("{:?}", s)
}

fn prefixed(prefix: &str, rest: &str) -> (r: String)
    ensures
        r@ == prefix@ + rest@,
{
    let mut s = String::from_str(prefix);
    s.append(rest);
    s
}

fn timeout_type_name(t: TimeoutType) -> (r: &'static str)
    ensures
        r@ == timeout_name(t),
{
    proof {
        reveal_strlit("Wait");
        reveal_strlit("Create");
        reveal_strlit("Recycle");
    }
    match t {
        TimeoutType::Wait => "Wait",
        TimeoutType::Create => "Create",
        TimeoutType::Recycle => "Recycle",
    }
}

impl FaucetError {
    /// The error reported when a WebSocket upgrade lacks its key header.
    pub fn no_sec_web_socket_key() -> (r: FaucetError)
        ensures
            r matches FaucetError::BadRequest(BadRequestReason::MissingHeader(h))
                && h@ == "Sec-WebSocket-Key"@,
    {
        FaucetError::BadRequest(BadRequestReason::MissingHeader("Sec-WebSocket-Key"))
    }

    /// An error outside the taxonomy, carrying a message.
    pub fn unknown(s: &str) -> (r: FaucetError)
        ensures
            r matches FaucetError::Unknown(m) && m@ == s@,
    {
        FaucetError::Unknown(s.to_owned())
    }

    /// Whether the error is the caller-correctable, malformed-request kind.
    pub fn is_bad_request(&self) -> (r: bool)
        ensures
            r == (*self is BadRequest),
    {
        match self {
            FaucetError::BadRequest(_) => true,
            _ => false,
        }
    }

    /// Renders the error with the given rendering of the `Unknown` payload.
    fn render(&self, cause: &str) -> (r: String)
        ensures
            r@ == rendered(*self, cause@),
    {
        match self {
            FaucetError::PoolBuild(m) => prefixed("Pool build error: ", m.as_str()),
            FaucetError::PoolTimeout(t) => prefixed("Pool timeout error: ", timeout_type_name(*t)),
            FaucetError::PoolPostCreateHook => "Pool post create hook error".to_owned(),
            FaucetError::PoolClosed => "Pool closed error".to_owned(),
            FaucetError::PoolNoRuntimeSpecified => "Pool no runtime specified error".to_owned(),
            FaucetError::Io(m) => prefixed("IO error: ", m.as_str()),
            FaucetError::Unknown(_) => prefixed("Unknown error: ", cause),
            FaucetError::HostParseError(m) => prefixed("Error parsing host address: ", m.as_str()),
            FaucetError::Hyper(m) => prefixed("Hyper error: ", m.as_str()),
            FaucetError::Http(m) => prefixed("Http error: ", m.as_str()),
            FaucetError::InvalidHeaderValues(m) => prefixed("Invalid header values: ", m.as_str()),
            FaucetError::MissingArgument(s) => prefixed("Missing argument: ", s),
            FaucetError::DuplicateRoute(route) => {
                let mut s = prefixed("Route '", route);
                s.append("' is duplicated\n");
                s
            },
            FaucetError::BadRequest(BadRequestReason::MissingHeader(h)) => prefixed(
                "Missing header: ",
                h,
            ),
            FaucetError::BadRequest(BadRequestReason::InvalidHeader(h)) => prefixed(
                "Invalid header: ",
                h,
            ),
        }
    }

    /// The error's description, as shown to operators and in responses.
    pub fn to_string(&self) -> (r: String)
        ensures
            r@ == description(*self),
    {
        match self {
            FaucetError::Unknown(m) => self.render(m.as_str()),
            _ => self.render(""),
        }
    }

    /// The error's debugging description: like `to_string`, with the message
    /// of an unknown error quoted.
    pub fn debug_string(&self) -> (r: String)
        ensures
            r@ == debug_description(*self),
    {
        match self {
            FaucetError::Unknown(m) => {
                let q = quoted(m.as_str());
                self.render(q.as_str())
            },
            _ => self.render(""),
        }
    }

    /// Converts a pool acquisition failure: a backend error is passed on as
    /// it is, every other failure becomes the matching pool variant.
    pub fn from_pool_error(e: PoolError) -> (r: FaucetError)
        ensures
            r == from_pool_error_spec(e),
    {
        match e {
            PoolError::Backend(inner) => inner,
            PoolError::Timeout(t) => FaucetError::PoolTimeout(t),
            PoolError::Closed => FaucetError::PoolClosed,
            PoolError::PostCreateHook => FaucetError::PoolPostCreateHook,
            PoolError::NoRuntimeSpecified => FaucetError::PoolNoRuntimeSpecified,
        }
    }

    /// The internal-server-error response that carries the description.
    pub fn into_response(self) -> (r: ErrorResponse)
        ensures
            r.status == INTERNAL_SERVER_ERROR,
            r.body@ == description(self),
    {
        let body = self.to_string();
        ErrorResponse { status: INTERNAL_SERVER_ERROR, body }
    }
}

impl From<PoolError> for FaucetError {
    fn from(e: PoolError) -> (r: FaucetError) {
        FaucetError::from_pool_error(e)
    }
}

impl vstd::std_specs::convert::FromSpecImpl<PoolError> for FaucetError {
    open spec fn obeys_from_spec() -> bool {
        true
    }

    open spec fn from_spec(e: PoolError) -> FaucetError {
        from_pool_error_spec(e)
    }
}

/// A pool acquisition that timed out is reported as a timeout of the same
/// stage, never as a build failure.
pub proof fn pool_timeout_is_reported_as_timeout(t: TimeoutType)
    ensures
        from_pool_error_spec(PoolError::Timeout(t)) == FaucetError::PoolTimeout(t),
        !(from_pool_error_spec(PoolError::Timeout(t)) is PoolBuild),
{
}

/// The description of every error, which `into_response` puts in the body of
/// its status-500 response, is never empty.
pub proof fn response_body_is_nonempty_description(e: FaucetError)
    ensures
        description(e).len() > 0,
{
    reveal_strlit("Pool build error: ");
    reveal_strlit("Pool timeout error: ");
    reveal_strlit("Pool post create hook error");
    reveal_strlit("Pool closed error");
    reveal_strlit("Pool no runtime specified error");
    reveal_strlit("IO error: ");
    reveal_strlit("Unknown error: ");
    reveal_strlit("Error parsing host address: ");
    reveal_strlit("Hyper error: ");
    reveal_strlit("Http error: ");
    reveal_strlit("Invalid header values: ");
    reveal_strlit("Missing argument: ");
    reveal_strlit("Route '");
    reveal_strlit("Missing header: ");
    reveal_strlit("Invalid header: ");
}

} // verus!
