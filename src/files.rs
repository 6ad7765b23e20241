//! File operations: listing, upload targets and uploads.
use crate::client::{authed_request, B2Client};
use crate::digest::{sha1_hex, sha1_hex_of};
use crate::errors::{B2Error, Result};
use crate::models::{Authorization, UploadUrl};
use crate::request::{ApiRequest, Credential, CredentialView, HttpMethod, Payload, PayloadView, RequestView};
use vstd::prelude::*;

verus! {

/// The endpoint that lists file names in a bucket.
pub const LIST_FILES_ENDPOINT: &'static str = "b2_list_file_names";

/// The endpoint that hands out an upload target.
pub const GET_UPLOAD_URL_ENDPOINT: &'static str = "b2_get_upload_url";

/// The content type of uploads: let the server classify the content.
pub const UPLOAD_CONTENT_TYPE: &'static str = "b2/x-auto";

/// The size of the chunks in which streamed content is read.
pub const CHUNK_SIZE: usize = 8192;

/// The view of an optional string slice.
pub open spec fn opt_str_view(s: Option<&str>) -> Option<Seq<char>> {
    match s {
        Some(v) => Some(v@),
        None => None,
    }
}

/// The request that lists the files of a bucket, from `start_file_name` on.
pub open spec fn list_files_request(
    a: Authorization,
    bucket_id: Seq<char>,
    start_file_name: Option<Seq<char>>,
) -> RequestView {
    authed_request(
        HttpMethod::Post,
        a,
        LIST_FILES_ENDPOINT@,
        PayloadView::ListFileNames { bucket_id, start_file_name },
    )
}

/// The request for an upload target in a bucket.
pub open spec fn upload_url_request(a: Authorization, bucket_id: Seq<char>) -> RequestView {
    authed_request(
        HttpMethod::Post,
        a,
        GET_UPLOAD_URL_ENDPOINT@,
        PayloadView::GetUploadUrl { bucket_id },
    )
}

/// The request that uploads `content` as `file_name` to an upload target.
pub open spec fn upload_request(target: UploadUrl, file_name: Seq<char>, content: Seq<u8>) -> RequestView {
    RequestView {
        method: HttpMethod::Post,
        url: target.url@,
        credential: CredentialView::Token { token: target.authorization_token@ },
        payload: PayloadView::Content {
            file_name,
            content_type: UPLOAD_CONTENT_TYPE@,
            content_sha1: sha1_hex_of(content),
            content,
        },
    }
}

/// The hash a request states for its body is the hash of that body.
pub open spec fn hash_matches_body(q: RequestView) -> bool {
    q.payload matches PayloadView::Content { content_sha1, content, .. } && content_sha1
        == sha1_hex_of(content)
}

/// Listing with and without a start file name gives requests that differ in
/// that field alone; without one the field is absent (`None`), never an
/// empty name.
pub proof fn lemma_list_files_cursor_only(a: Authorization, bucket_id: Seq<char>, cursor: Seq<char>)
    ensures
        ({
            let with = list_files_request(a, bucket_id, Some(cursor));
            let without = list_files_request(a, bucket_id, None);
            &&& with.method == without.method
            &&& with.url == without.url
            &&& with.credential == without.credential
            &&& with.payload == (PayloadView::ListFileNames { bucket_id, start_file_name: Some(cursor) })
            &&& without.payload == (PayloadView::ListFileNames { bucket_id, start_file_name: None })
        }),
{
}

/// Every upload request states the hash of exactly the bytes it carries.
pub proof fn lemma_upload_hash_matches_body(target: UploadUrl, file_name: Seq<char>, content: Seq<u8>)
    ensures
        hash_matches_body(upload_request(target, file_name, content)),
{
}

/// Content gathered chunk by chunk from a source before one upload.
pub struct UploadBuffer {
    content: Vec<u8>,
}

impl View for UploadBuffer {
    type V = Seq<u8>;

    closed spec fn view(&self) -> Seq<u8> {
        self.content@
    }
}

impl UploadBuffer {
    /// An empty buffer.
    pub fn new() -> (r: Self)
        ensures
            r@ == Seq::<u8>::empty(),
    {
        UploadBuffer { content: Vec::new() }
    }

    /// Appends a chunk read from the source.
    pub fn push_chunk(&mut self, chunk: &[u8])
        ensures
            final(self)@ == old(self)@ + chunk@,
    {
        let mut i: usize = 0;
        while i < chunk.len()
            invariant
                i <= chunk@.len(),
                self@ == old(self)@ + chunk@.subrange(0, i as int),
            decreases chunk@.len() - i,
        {
            self.content.push(chunk[i]);
            i = i + 1;
            assert(self@ =~= old(self)@ + chunk@.subrange(0, i as int));
        }
        assert(chunk@.subrange(0, i as int) =~= chunk@);
    }

    /// The number of bytes gathered.
    pub fn len(&self) -> (r: usize)
        ensures
            r == self@.len(),
    {
        self.content.len()
    }

    /// The bytes gathered, in order.
    pub fn into_content(self) -> (r: Vec<u8>)
        ensures
            r@ == self@,
    {
        self.content
    }
}

impl B2Client {
    /// The request that lists the files of bucket `bucket_id`, starting at
    /// `start_file_name` when given. Its reply's body holds the file records,
    /// in order, under the key `files`. Further pages are the caller's to ask
    /// for.
    pub fn list_files(&self, bucket_id: &str, start_file_name: Option<&str>) -> (r: Result<
        ApiRequest,
    >)
        ensures
            match self.session() {
                Some(a) => r matches Ok(q) && q@ == list_files_request(
                    a,
                    bucket_id@,
                    opt_str_view(start_file_name),
                ),
                None => r == Err::<ApiRequest, B2Error>(B2Error::NotAuthorized),
            },
    {
        let start = match start_file_name {
            Some(s) => Some(String::from_str(s)),
            None => None,
        };
        let body = Payload::ListFileNames { bucket_id: String::from_str(bucket_id), start_file_name: start };
        self.post(LIST_FILES_ENDPOINT, body)
    }

    /// The request for a fresh, single-use upload target in bucket
    /// `bucket_id`. Its reply's body is an [`UploadUrl`].
    pub fn get_upload_url(&self, bucket_id: &str) -> (r: Result<ApiRequest>)
        ensures
            match self.session() {
                Some(a) => r matches Ok(q) && q@ == upload_url_request(a, bucket_id@),
                None => r == Err::<ApiRequest, B2Error>(B2Error::NotAuthorized),
            },
    {
        let body = Payload::GetUploadUrl { bucket_id: String::from_str(bucket_id) };
        self.post(GET_UPLOAD_URL_ENDPOINT, body)
    }

    /// The request that uploads `content` as `file_name` to `target`, which
    /// [`B2Client::get_upload_url`]'s reply handed out. The hash of the whole
    /// content is computed before sending. Its reply's body is the stored
    /// file's record.
    pub fn upload_file(&self, target: UploadUrl, file_name: &str, content: Vec<u8>) -> (r:
        ApiRequest)
        ensures
            r@ == upload_request(target, file_name@, content@),
            hash_matches_body(r@),
    {
        let content_sha1 = sha1_hex(content.as_slice());
        ApiRequest {
            method: HttpMethod::Post,
            url: target.url,
            credential: Credential::Token { token: target.authorization_token },
            payload: Payload::Content {
                file_name: String::from_str(file_name),
                content_type: String::from_str(UPLOAD_CONTENT_TYPE),
                content_sha1,
                content,
            },
        }
    }

    /// The request that uploads what `source` gathered, as `file_name`, to
    /// `target`. The whole content is buffered before it is sent.
    pub fn upload_file_stream(&self, target: UploadUrl, file_name: &str, source: UploadBuffer) -> (r:
        ApiRequest)
        ensures
            r@ == upload_request(target, file_name@, source@),
            hash_matches_body(r@),
    {
        self.upload_file(target, file_name, source.into_content())
    }
}

} // verus!
