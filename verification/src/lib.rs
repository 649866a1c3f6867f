//! Kong HTTP client
//!
//! The client decides what is sent and what an answer means; it starts no
//! transport and submits nothing itself.
//!
//! A handle is made in three steps: the configuration gives the options of
//! the transport, the caller builds the transport from them, and the handle
//! is made from the configuration and from what the build returned.
//!
//! A call of an operation is made in three steps as well: the handle makes
//! the [`Request`], the caller encodes its payload and submits it through
//! the handle's transport, and the operation is finished with what the
//! transport returned: it succeeded, or it failed with one [`KlientError`].
use reqwest::blocking::multipart::Form;
use reqwest::blocking::{Client, ClientBuilder};
use vstd::prelude::*;

pub mod error;
pub mod laws;
pub mod operation;
pub mod outcome;
pub mod request;
pub mod transport;

pub use error::KlientError;
pub use operation::{Encoding, Method, Operation};
pub use outcome::{classify, Outcome};
pub use request::Request;

use transport::spec_cookie_store;

verus! {

/// Whether the transport of a handle keeps the session cookies that the
/// server sets, from one request to the next.
pub const COOKIE_STORE: bool = true;

/// What a handle is made from: the address of each operation that the handle
/// is to be enabled for, and the options of its transport.
pub struct Config {
    /// Accounts route
    pub accounts_endpoint: Option<String>,
    /// Login route
    pub login_endpoint: Option<String>,
    /// Blog route
    pub blog_endpoint: Option<String>,
    /// Newsletter route
    pub newsletter_endpoint: Option<String>,
    /// Whether the transport keeps the session cookies that the server sets,
    /// from one request to the next
    pub cookie_store: bool,
}

impl Config {
    /// Makes the options of the transport that this configuration asks for:
    /// one that keeps session cookies exactly where `cookie_store` says so.
    ///
    /// The caller builds the transport from them and hands what the build
    /// returned to `Klient::with_transport`.
    pub fn transport_options(&self) -> (builder: ClientBuilder)
        ensures
            spec_cookie_store(builder) == self.cookie_store,
    {
        Client::builder().cookie_store(self.cookie_store)
    }
}

/// Kong HTTP client
///
/// A handle holds the transport and, for each operation that it is enabled
/// for, the address that the operation is submitted to. The addresses are not
/// examined: a malformed one makes the transport fail when the request is
/// submitted.
pub struct Klient {
    /// HTTP client
    pub client: Client,
    /// Accounts route
    pub accounts_endpoint: Option<String>,
    /// Login route
    pub login_endpoint: Option<String>,
    /// Blog route
    pub blog_endpoint: Option<String>,
    /// Newsletter route
    pub newsletter_endpoint: Option<String>,
}

impl Klient {
    /// The address that `operation` is submitted to, if this handle is
    /// enabled for it.
    pub open spec fn spec_endpoint(&self, operation: Operation) -> Option<String> {
        match operation {
            Operation::CreateAccount => self.accounts_endpoint,
            Operation::Login => self.login_endpoint,
            Operation::BlogPost => self.blog_endpoint,
            Operation::SubscribeNewsletter => self.newsletter_endpoint,
        }
    }

    /// Whether this handle is enabled for `operation`.
    pub open spec fn enabled(&self, operation: Operation) -> bool {
        self.spec_endpoint(operation) is Some
    }

    /// The request that this handle makes for `operation` with `payload`:
    /// none where the handle is not enabled for the operation, else the one
    /// with the operation's method and encoding, the handle's address for the
    /// operation, and the payload as it was given.
    pub open spec fn spec_request<P>(&self, operation: Operation, payload: P) -> Option<
        Request<P>,
    > {
        match self.spec_endpoint(operation) {
            Some(url) => Some(
                Request {
                    operation,
                    method: operation.spec_method(),
                    url,
                    encoding: operation.spec_encoding(),
                    payload,
                },
            ),
            None => None,
        }
    }

    /// The handle that is made from `config` and from what the build of its
    /// transport returned: none where the transport was not built, whatever
    /// the reason, and else the one that holds the transport and the
    /// addresses of `config`, as they were given.
    pub open spec fn spec_with_transport(
        config: Config,
        built: Result<Client, reqwest::Error>,
    ) -> Result<Klient, KlientError> {
        match built {
            Ok(client) => Ok(
                Klient {
                    client,
                    accounts_endpoint: config.accounts_endpoint,
                    login_endpoint: config.login_endpoint,
                    blog_endpoint: config.blog_endpoint,
                    newsletter_endpoint: config.newsletter_endpoint,
                },
            ),
            Err(_) => Err(KlientError::Client),
        }
    }

    /// Makes a handle from `config` and from what the build of its transport
    /// returned.
    ///
    /// The handle holds the transport that was built and the addresses of
    /// `config`, which are taken as they are given, without being examined.
    /// Where the transport was not built the error is `KlientError::Client`,
    /// whatever the reason, and there is no other error.
    pub fn with_transport(config: Config, built: Result<Client, reqwest::Error>) -> (handle:
        Result<Klient, KlientError>)
        ensures
            handle == Klient::spec_with_transport(config, built),
            built matches Ok(transport) ==> (handle matches Ok(klient) && klient.client
                == transport && klient.accounts_endpoint == config.accounts_endpoint
                && klient.login_endpoint == config.login_endpoint && klient.blog_endpoint
                == config.blog_endpoint && klient.newsletter_endpoint
                == config.newsletter_endpoint),
            built is Err ==> (handle matches Err(error) && error == KlientError::Client),
    {
        match built {
            Ok(client) => Ok(
                Klient {
                    client,
                    accounts_endpoint: config.accounts_endpoint,
                    login_endpoint: config.login_endpoint,
                    blog_endpoint: config.blog_endpoint,
                    newsletter_endpoint: config.newsletter_endpoint,
                },
            ),
            Err(_) => Err(KlientError::Client),
        }
    }

    /// Makes the options of the transport of `new_client`: one that keeps
    /// session cookies where `COOKIE_STORE` says so.
    pub fn client_options() -> (builder: ClientBuilder)
        ensures
            spec_cookie_store(builder) == COOKIE_STORE,
    {
        Client::builder().cookie_store(COOKIE_STORE)
    }

    /// Create new klient
    ///
    /// Concludes the construction of a transport from what the build
    /// returned: hands the transport on where it was built, and reports
    /// `KlientError::Client` where it was not, whatever the reason.
    pub fn new_client(built: Result<Client, reqwest::Error>) -> (client: Result<
        Client,
        KlientError,
    >)
        ensures
            built matches Ok(transport) ==> client == Ok::<Client, KlientError>(transport),
            built is Err ==> client == Err::<Client, KlientError>(KlientError::Client),
    {
        match built {
            Ok(transport) => Ok(transport),
            Err(_) => Err(KlientError::Client),
        }
    }

    /// Returns the address that `operation` is submitted to, if this handle
    /// is enabled for it.
    pub fn endpoint(&self, operation: Operation) -> (url: Option<&String>)
        ensures
            url is Some <==> self.enabled(operation),
            url matches Some(address) ==> self.spec_endpoint(operation) == Some(*address),
    {
        match operation {
            Operation::CreateAccount => self.accounts_endpoint.as_ref(),
            Operation::Login => self.login_endpoint.as_ref(),
            Operation::BlogPost => self.blog_endpoint.as_ref(),
            Operation::SubscribeNewsletter => self.newsletter_endpoint.as_ref(),
        }
    }

    /// Makes the request of `operation` with `payload`.
    ///
    /// Returns `None` exactly where this handle is not enabled for the
    /// operation; nothing is to be submitted then.
    pub fn request<P>(&self, operation: Operation, payload: P) -> (request: Option<Request<P>>)
        ensures
            request == self.spec_request(operation, payload),
    {
        match self.endpoint(operation) {
            Some(address) => Some(
                Request {
                    operation,
                    method: operation.method(),
                    url: address.clone(),
                    encoding: operation.encoding(),
                    payload,
                },
            ),
            None => None,
        }
    }

    /// Create a new user account
    pub fn create_account<P>(&self, account: P) -> (request: Option<Request<P>>)
        ensures
            request == self.spec_request(Operation::CreateAccount, account),
    {
        self.request(Operation::CreateAccount, account)
    }

    /// Account login
    pub fn login<P>(&self, login_input: P) -> (request: Option<Request<P>>)
        ensures
            request == self.spec_request(Operation::Login, login_input),
    {
        self.request(Operation::Login, login_input)
    }

    /// Post a new blog post
    pub fn blog_post(&self, blog_input: Form) -> (request: Option<Request<Form>>)
        ensures
            request == self.spec_request(Operation::BlogPost, blog_input),
    {
        self.request(Operation::BlogPost, blog_input)
    }

    /// Subscribe to newsletter
    pub fn subscribe_newsletter<P>(&self, newsletter_input: P) -> (request: Option<Request<P>>)
        ensures
            request == self.spec_request(Operation::SubscribeNewsletter, newsletter_input),
    {
        self.request(Operation::SubscribeNewsletter, newsletter_input)
    }
}

} // verus!
