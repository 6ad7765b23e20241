//! Requests as the library builds them, before any transport sends them.
use vstd::prelude::*;

verus! {

/// The HTTP method of a request.
#[derive(Debug, Clone, Copy, PartialEq, Eq, Structural)]
pub enum HttpMethod {
    Get,
    Post,
}

/// How a request proves who sends it.
#[derive(Debug)]
pub enum Credential {
    /// HTTP Basic authentication.
    Basic { user: String, password: String },
    /// `Authorization: Bearer <token>`.
    Bearer { token: String },
    /// `Authorization: <token>`, as upload targets expect.
    Token { token: String },
}

/// What a request carries in its body. The JSON variants name the fields of
/// the JSON object that is sent; `Content` is a file upload.
#[derive(Debug)]
pub enum Payload {
    Empty,
    ListBuckets { account_id: String },
    CreateBucket { account_id: String, bucket_name: String, bucket_type: String },
    /// An absent `start_file_name` is sent as `null`.
    ListFileNames { bucket_id: String, start_file_name: Option<String> },
    GetUploadUrl { bucket_id: String },
    /// The bytes to store, sent as the raw body, with the file name, content
    /// type and content hash as headers.
    Content { file_name: String, content_type: String, content_sha1: String, content: Vec<u8> },
}

/// A request ready to be sent.
#[derive(Debug)]
pub struct ApiRequest {
    pub method: HttpMethod,
    pub url: String,
    pub credential: Credential,
    pub payload: Payload,
}

/// The mathematical value of a [`Credential`].
pub enum CredentialView {
    Basic { user: Seq<char>, password: Seq<char> },
    Bearer { token: Seq<char> },
    Token { token: Seq<char> },
}

/// The mathematical value of a [`Payload`].
pub enum PayloadView {
    Empty,
    ListBuckets { account_id: Seq<char> },
    CreateBucket { account_id: Seq<char>, bucket_name: Seq<char>, bucket_type: Seq<char> },
    ListFileNames { bucket_id: Seq<char>, start_file_name: Option<Seq<char>> },
    GetUploadUrl { bucket_id: Seq<char> },
    Content {
        file_name: Seq<char>,
        content_type: Seq<char>,
        content_sha1: Seq<char>,
        content: Seq<u8>,
    },
}

/// The mathematical value of an [`ApiRequest`].
pub struct RequestView {
    pub method: HttpMethod,
    pub url: Seq<char>,
    pub credential: CredentialView,
    pub payload: PayloadView,
}

/// The view of an optional string.
pub open spec fn opt_view(s: Option<String>) -> Option<Seq<char>> {
    match s {
        Some(v) => Some(v@),
        None => None,
    }
}

impl View for Credential {
    type V = CredentialView;

    open spec fn view(&self) -> CredentialView {
        match self {
            Credential::Basic { user, password } => CredentialView::Basic {
                user: user@,
                password: password@,
            },
            Credential::Bearer { token } => CredentialView::Bearer { token: token@ },
            Credential::Token { token } => CredentialView::Token { token: token@ },
        }
    }
}

impl View for Payload {
    type V = PayloadView;

    open spec fn view(&self) -> PayloadView {
        match self {
            Payload::Empty => PayloadView::Empty,
            Payload::ListBuckets { account_id } => PayloadView::ListBuckets {
                account_id: account_id@,
            },
            Payload::CreateBucket { account_id, bucket_name, bucket_type } =>
                PayloadView::CreateBucket {
                account_id: account_id@,
                bucket_name: bucket_name@,
                bucket_type: bucket_type@,
            },
            Payload::ListFileNames { bucket_id, start_file_name } => PayloadView::ListFileNames {
                bucket_id: bucket_id@,
                start_file_name: opt_view(*start_file_name),
            },
            Payload::GetUploadUrl { bucket_id } => PayloadView::GetUploadUrl {
                bucket_id: bucket_id@,
            },
            Payload::Content { file_name, content_type, content_sha1, content } =>
                PayloadView::Content {
                file_name: file_name@,
                content_type: content_type@,
                content_sha1: content_sha1@,
                content: content@,
            },
        }
    }
}

impl View for ApiRequest {
    type V = RequestView;

    open spec fn view(&self) -> RequestView {
        RequestView {
            method: self.method,
            url: self.url@,
            credential: self.credential@,
            payload: self.payload@,
        }
    }
}

} // verus!
