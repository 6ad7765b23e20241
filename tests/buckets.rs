use backblaze_b2::client::{B2Client, HttpReply};
use backblaze_b2::config::Config;
use backblaze_b2::errors::{B2Error, B2ErrorResponse};
use backblaze_b2::models::{Authorization, Bucket};
use backblaze_b2::request::{Credential, HttpMethod, Payload};

const SERVER: &str = "http://127.0.0.1:9001";

fn authorized_client() -> B2Client {
    let config = Config {
        application_key_id: "test_id".to_string(),
        application_key: "test_key".to_string(),
        api_base_url: SERVER.to_string(),
    };
    let mut client = B2Client::new(config);
    let record = Authorization {
        account_id: "test_account".to_string(),
        authorization_token: "test_token".to_string(),
        api_url: SERVER.to_string(),
        download_url: SERVER.to_string(),
        recommended_part_size: 100000000,
        absolute_minimum_part_size: 5000000,
    };
    let auth_result = client.authorize_account(HttpReply {
        status: 200,
        body: Ok(record),
        error_body: Err("not an error payload".to_string()),
    });
    assert!(auth_result.is_ok(), "Authorization failed: {:?}", auth_result.err());
    client
}

fn bucket(id: &str, name: &str, kind: &str) -> Bucket {
    Bucket {
        bucket_id: id.to_string(),
        bucket_name: name.to_string(),
        bucket_type: kind.to_string(),
    }
}

fn error_reply<T>(status: u16, code: &str, message: &str) -> HttpReply<T> {
    HttpReply {
        status,
        body: Err("missing field `buckets`".to_string()),
        error_body: Ok(B2ErrorResponse {
            status: status as u32,
            code: code.to_string(),
            message: message.to_string(),
        }),
    }
}

#[test]
fn test_list_buckets_success() {
    let client = authorized_client();
    let request = client.list_buckets().unwrap();
    assert_eq!(request.method, HttpMethod::Post);
    assert_eq!(request.url, format!("{}/b2api/v3/b2_list_buckets", SERVER));
    match &request.payload {
        Payload::ListBuckets { account_id } => assert_eq!(account_id, "test_account"),
        other => panic!("unexpected payload {:?}", other),
    }
    match &request.credential {
        Credential::Bearer { token } => assert_eq!(token, "test_token"),
        other => panic!("unexpected credential {:?}", other),
    }

    let reply = HttpReply {
        status: 200,
        body: Ok(vec![bucket("bucket1", "test-bucket", "allPrivate")]),
        error_body: Err("missing field `code`".to_string()),
    };
    let buckets_result = client.handle_response(reply);
    assert!(buckets_result.is_ok(), "List buckets failed: {:?}", buckets_result);
    let buckets = buckets_result.unwrap();
    assert_eq!(buckets.len(), 1);
    assert_eq!(buckets[0].bucket_id, "bucket1");
    assert_eq!(buckets[0].bucket_name, "test-bucket");
}

#[test]
fn list_buckets_keeps_server_order() {
    let client = authorized_client();
    let reply = HttpReply {
        status: 200,
        body: Ok(vec![
            bucket("b3", "zeta", "allPublic"),
            bucket("b1", "alpha", "allPrivate"),
            bucket("b2", "mid", "allPrivate"),
        ]),
        error_body: Err("missing field `code`".to_string()),
    };
    let buckets = client.handle_response(reply).unwrap();
    let ids: Vec<&str> = buckets.iter().map(|b| b.bucket_id.as_str()).collect();
    assert_eq!(ids, vec!["b3", "b1", "b2"]);
}

#[test]
fn test_list_buckets_unauthorized() {
    let client = authorized_client();
    assert!(client.list_buckets().is_ok());
    let buckets_result: Result<Vec<Bucket>, B2Error> =
        client.handle_response(error_reply(401, "unauthorized", "Unauthorized"));
    assert!(buckets_result.is_err(), "Expected error, but got: {:?}", buckets_result);
    if let Err(B2Error::ApiError(error)) = buckets_result {
        assert_eq!(error.status, 401);
        assert_eq!(error.code, "unauthorized");
        assert_eq!(error.message, "Unauthorized");
    } else {
        panic!("Expected ApiError, but got: {:?}", buckets_result);
    }
}

#[test]
fn list_buckets_429_fails_without_retry() {
    let client = authorized_client();
    let buckets_result: Result<Vec<Bucket>, B2Error> =
        client.handle_response(error_reply(429, "too_many_requests", "Too many requests"));
    match buckets_result {
        Err(B2Error::ApiError(error)) => {
            assert_eq!(error.status, 429);
            assert_eq!(error.code, "too_many_requests");
            assert_eq!(error.message, "Too many requests");
        }
        other => panic!("Expected ApiError, but got: {:?}", other),
    }
}

#[test]
fn list_buckets_before_authorize_fails() {
    let config = Config {
        application_key_id: "test_id".to_string(),
        application_key: "test_key".to_string(),
        api_base_url: SERVER.to_string(),
    };
    let client = B2Client::new(config);
    assert!(matches!(client.list_buckets(), Err(B2Error::NotAuthorized)));
    assert!(matches!(
        client.create_bucket("test-bucket", "allPrivate"),
        Err(B2Error::NotAuthorized)
    ));
}

#[test]
fn create_bucket_scenario() {
    let client = authorized_client();
    let request = client.create_bucket("test-bucket", "allPrivate").unwrap();
    assert_eq!(request.method, HttpMethod::Post);
    assert_eq!(request.url, format!("{}/b2api/v3/b2_create_bucket", SERVER));
    match &request.payload {
        Payload::CreateBucket { account_id, bucket_name, bucket_type } => {
            assert_eq!(account_id, "test_account");
            assert_eq!(bucket_name, "test-bucket");
            assert_eq!(bucket_type, "allPrivate");
        }
        other => panic!("unexpected payload {:?}", other),
    }
    let reply = HttpReply {
        status: 200,
        body: Ok(bucket("4a48fe8875c6214145260818", "test-bucket", "allPrivate")),
        error_body: Err("missing field `code`".to_string()),
    };
    let created = client.handle_response(reply).unwrap();
    assert_eq!(created.bucket_name, "test-bucket");
    assert_eq!(created.bucket_type, "allPrivate");
    assert_eq!(created.bucket_id, "4a48fe8875c6214145260818");
}
