//! The operations that the client can ask of the remote application.
use vstd::prelude::*;

verus! {

/// The status code by which the server reports that a request did what it asked.
pub const OK: u16 = 200;

/// The status code by which the server reports that a resource was created.
pub const CREATED: u16 = 201;

/// The status code by which the server rejects a request as malformed.
pub const BAD_REQUEST: u16 = 400;

/// The HTTP method of a request.
#[derive(Debug, Clone, Copy, PartialEq, Eq, Structural)]
pub enum Method {
    /// `POST`
    Post,
}

/// How the payload of a request becomes its body.
#[derive(Debug, Clone, Copy, PartialEq, Eq, Structural)]
pub enum Encoding {
    /// The payload is serialized to a JSON document.
    Json,
    /// The payload is a multi-part form: named text fields and named files.
    Multipart,
}

/// A request that the client can make.
///
/// An operation fixes the method of its request, the encoding of its body and
/// the one status code that counts as its success.
#[derive(Debug, Clone, Copy, PartialEq, Eq, Structural)]
pub enum Operation {
    /// Create a new user account.
    CreateAccount,
    /// Log an account in.
    Login,
    /// Publish a blog post.
    BlogPost,
    /// Subscribe an address to the newsletter.
    SubscribeNewsletter,
}

impl Operation {
    /// The only status code that counts as the success of this operation.
    pub open spec fn spec_success_code(self) -> u16 {
        match self {
            Operation::Login => OK,
            Operation::CreateAccount | Operation::BlogPost | Operation::SubscribeNewsletter =>
                CREATED,
        }
    }

    /// The method of this operation's request.
    pub open spec fn spec_method(self) -> Method {
        Method::Post
    }

    /// The encoding of this operation's body.
    pub open spec fn spec_encoding(self) -> Encoding {
        match self {
            Operation::BlogPost => Encoding::Multipart,
            Operation::CreateAccount | Operation::Login | Operation::SubscribeNewsletter =>
                Encoding::Json,
        }
    }

    /// Returns the only status code that counts as the success of this operation.
    #[verifier::when_used_as_spec(spec_success_code)]
    pub fn success_code(self) -> (code: u16)
        ensures
            code == self.spec_success_code(),
    {
        match self {
            Operation::Login => OK,
            Operation::CreateAccount => CREATED,
            Operation::BlogPost => CREATED,
            Operation::SubscribeNewsletter => CREATED,
        }
    }

    /// Returns the method of this operation's request.
    #[verifier::when_used_as_spec(spec_method)]
    pub fn method(self) -> (method: Method)
        ensures
            method == self.spec_method(),
    {
        Method::Post
    }

    /// Returns the encoding of this operation's body.
    #[verifier::when_used_as_spec(spec_encoding)]
    pub fn encoding(self) -> (encoding: Encoding)
        ensures
            encoding == self.spec_encoding(),
    {
        match self {
            Operation::BlogPost => Encoding::Multipart,
            Operation::CreateAccount => Encoding::Json,
            Operation::Login => Encoding::Json,
            Operation::SubscribeNewsletter => Encoding::Json,
        }
    }
}

} // verus!
