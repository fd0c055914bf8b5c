//! The cross-origin policy of the server.
use vstd::prelude::*;

verus! {

/// The request methods that cross-origin requests may use.
#[derive(Debug, PartialEq, Eq, Structural, Clone, Copy)]
pub enum AllowedMethod {
    Post,
    Get,
    Patch,
    Delete,
}

/// The request headers that cross-origin requests may send.
#[derive(Debug, PartialEq, Eq, Structural, Clone, Copy)]
pub enum AllowedHeader {
    Authorization,
    Accept,
    ContentType,
}

/// Which cross-origin requests the server accepts.
#[derive(Debug, PartialEq, Eq)]
pub struct CorsPolicy {
    pub allowed_origin: String,
    pub allowed_methods: Vec<AllowedMethod>,
    pub allow_credentials: bool,
    pub allowed_headers: Vec<AllowedHeader>,
}

/// The policy: the server's own origin, with credentials, for the methods
/// and headers that the pages use.
pub fn initialise_cors() -> (p: CorsPolicy)
    ensures
        p.allowed_origin@ == "http://localhost:3333"@,
        p.allowed_methods@ == seq![
            AllowedMethod::Post,
            AllowedMethod::Get,
            AllowedMethod::Patch,
            AllowedMethod::Delete,
        ],
        p.allow_credentials,
        p.allowed_headers@ == seq![
            AllowedHeader::Authorization,
            AllowedHeader::Accept,
            AllowedHeader::ContentType,
        ],
{
    let mut allowed_methods: Vec<AllowedMethod> = Vec::new();
    allowed_methods.push(AllowedMethod::Post);
    allowed_methods.push(AllowedMethod::Get);
    allowed_methods.push(AllowedMethod::Patch);
    allowed_methods.push(AllowedMethod::Delete);
    let mut allowed_headers: Vec<AllowedHeader> = Vec::new();
    allowed_headers.push(AllowedHeader::Authorization);
    allowed_headers.push(AllowedHeader::Accept);
    allowed_headers.push(AllowedHeader::ContentType);
    proof {
        assert(allowed_methods@ =~= seq![
            AllowedMethod::Post,
            AllowedMethod::Get,
            AllowedMethod::Patch,
            AllowedMethod::Delete,
        ]);
        assert(allowed_headers@ =~= seq![
            AllowedHeader::Authorization,
            AllowedHeader::Accept,
            AllowedHeader::ContentType,
        ]);
    }
    CorsPolicy {
        allowed_origin: "http://localhost:3333".to_owned(),
        allowed_methods,
        allow_credentials: true,
        allowed_headers,
    }
}

} // verus!
