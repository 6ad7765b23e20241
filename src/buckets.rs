//! Bucket operations.
use crate::client::{authed_request, B2Client};
use crate::errors::{B2Error, Result};
use crate::models::Authorization;
use crate::request::{ApiRequest, HttpMethod, Payload, PayloadView, RequestView};
use vstd::prelude::*;

verus! {

/// The endpoint that lists the buckets of an account.
pub const LIST_BUCKETS_ENDPOINT: &'static str = "b2_list_buckets";

/// The endpoint that creates a bucket.
pub const CREATE_BUCKET_ENDPOINT: &'static str = "b2_create_bucket";

/// The request that lists the buckets of the session's account.
pub open spec fn list_buckets_request(a: Authorization) -> RequestView {
    authed_request(
        HttpMethod::Post,
        a,
        LIST_BUCKETS_ENDPOINT@,
        PayloadView::ListBuckets { account_id: a.account_id@ },
    )
}

/// The request that creates a bucket in the session's account.
pub open spec fn create_bucket_request(
    a: Authorization,
    bucket_name: Seq<char>,
    bucket_type: Seq<char>,
) -> RequestView {
    authed_request(
        HttpMethod::Post,
        a,
        CREATE_BUCKET_ENDPOINT@,
        PayloadView::CreateBucket { account_id: a.account_id@, bucket_name, bucket_type },
    )
}

impl B2Client {
    /// The request that lists all buckets of the account. Its reply's body
    /// holds the bucket records, in order, under the key `buckets`.
    pub fn list_buckets(&self) -> (r: Result<ApiRequest>)
        ensures
            match self.session() {
                Some(a) => r matches Ok(q) && q@ == list_buckets_request(a),
                None => r == Err::<ApiRequest, B2Error>(B2Error::NotAuthorized),
            },
    {
        let auth = self.get_auth()?;
        let body = Payload::ListBuckets { account_id: auth.account_id.clone() };
        self.post(LIST_BUCKETS_ENDPOINT, body)
    }

    /// The request that creates a bucket named `bucket_name` of type
    /// `bucket_type` (such as `allPrivate` or `allPublic`). Its reply's body
    /// is the created bucket record.
    pub fn create_bucket(&self, bucket_name: &str, bucket_type: &str) -> (r: Result<ApiRequest>)
        ensures
            match self.session() {
                Some(a) => r matches Ok(q) && q@ == create_bucket_request(
                    a,
                    bucket_name@,
                    bucket_type@,
                ),
                None => r == Err::<ApiRequest, B2Error>(B2Error::NotAuthorized),
            },
    {
        let auth = self.get_auth()?;
        let body = Payload::CreateBucket {
            account_id: auth.account_id.clone(),
            bucket_name: String::from_str(bucket_name),
            bucket_type: String::from_str(bucket_type),
        };
        self.post(CREATE_BUCKET_ENDPOINT, body)
    }
}

} // verus!
