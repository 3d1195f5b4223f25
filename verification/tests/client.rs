use meilisearch_sdk::client::{Client, GetOrCreate, Health};
use meilisearch_sdk::errors::{Error, ErrorCode, ErrorType};
use meilisearch_sdk::indexes::{Index, JsonIndex};
use meilisearch_sdk::request::Method;

fn client() -> Client {
    Client::new("http://localhost:7700", "masterKey")
}

fn not_found() -> Error {
    Error::MeiliSearchError {
        message: "Index movies not found".to_string(),
        error_code: ErrorCode::IndexNotFound,
        error_type: ErrorType::InvalidRequest,
        error_link: "https://docs.meilisearch.com/errors#index_not_found".to_string(),
    }
}

#[test]
fn new_keeps_host_and_key() {
    let c = client();
    assert_eq!(c.host.as_str(), "http://localhost:7700");
    assert_eq!(c.api_key.as_str(), "masterKey");
    let owned = Client::new(String::from("http://h"), String::from("k"));
    assert_eq!(owned.host.as_str(), "http://h");
    assert_eq!(owned.api_key.as_str(), "k");
}

#[test]
fn assume_index_shares_the_client() {
    let c = client();
    let index: Index<()> = c.assume_index("movies");
    assert_eq!(index.uid.as_str(), "movies");
    assert_eq!(index.host.as_str(), "http://localhost:7700");
    assert_eq!(index.api_key.as_str(), "masterKey");
    assert!(std::rc::Rc::ptr_eq(&index.host, &c.host));
    assert!(std::rc::Rc::ptr_eq(&index.api_key, &c.api_key));
}

#[test]
fn get_index_request_targets_the_index() {
    let req = client().get_index_request("movies");
    assert_eq!(req.url, "http://localhost:7700/indexes/movies");
    assert_eq!(req.api_key.as_str(), "masterKey");
    assert!(matches!(req.method, Method::Get));
    assert_eq!(req.expected_status_code, 200);
}

#[test]
fn create_index_request_posts_to_the_collection() {
    let req = client().create_index_request("movies", Some("id"));
    assert_eq!(req.url, "http://localhost:7700/indexes");
    assert_eq!(req.expected_status_code, 201);
    match req.method {
        Method::Post(body) => {
            assert_eq!(body.uid, "movies");
            assert_eq!(body.primary_key.as_deref(), Some("id"));
        }
        _ => panic!("create_index must POST"),
    }
    let req = client().create_index_request("books", None);
    match req.method {
        Method::Post(body) => {
            assert_eq!(body.uid, "books");
            assert_eq!(body.primary_key, None);
        }
        _ => panic!("create_index must POST"),
    }
}

#[test]
fn delete_index_request_deletes_the_index() {
    let req = client().delete_index_request("movies");
    assert_eq!(req.url, "http://localhost:7700/indexes/movies");
    assert!(matches!(req.method, Method::Delete));
    assert_eq!(req.expected_status_code, 204);
}

#[test]
fn server_wide_requests() {
    let c = client();
    let cases = [
        (c.get_stats_request(), "http://localhost:7700/stats"),
        (c.health_request(), "http://localhost:7700/health"),
        (c.get_keys_request(), "http://localhost:7700/keys"),
        (c.get_version_request(), "http://localhost:7700/version"),
    ];
    for (req, url) in cases.iter() {
        assert_eq!(req.url, *url);
        assert!(matches!(req.method, Method::Get));
        assert_eq!(req.expected_status_code, 200);
        assert_eq!(req.api_key.as_str(), "masterKey");
    }
}

#[test]
fn request_accepts_only_its_status() {
    let req = client().delete_index_request("movies");
    assert!(req.accepts(204));
    assert!(!req.accepts(200));
    assert!(!req.accepts(404));
}

#[test]
fn index_result_maps_the_answer() {
    let c = client();
    let json = JsonIndex {
        uid: "movies".to_string(),
        primary_key: Some("id".to_string()),
        created_at: "2021-01-01T00:00:00Z".to_string(),
        updated_at: "2021-01-01T00:00:00Z".to_string(),
    };
    let index: Index<()> = c.index_result(Ok(json)).unwrap();
    assert_eq!(index.uid.as_str(), "movies");
    assert_eq!(index.host.as_str(), "http://localhost:7700");
    let err: Result<Index<()>, Error> = c.index_result(Err(Error::Timeout));
    assert!(matches!(err, Err(Error::Timeout)));
}

#[test]
fn into_index_uses_the_client() {
    let c = Client::new("http://other:1", "key");
    let json = JsonIndex {
        uid: "books".to_string(),
        primary_key: None,
        created_at: String::new(),
        updated_at: String::new(),
    };
    let index: Index<()> = json.into_index(&c);
    assert_eq!(index.uid.as_str(), "books");
    assert_eq!(index.host.as_str(), "http://other:1");
    assert_eq!(index.api_key.as_str(), "key");
}

#[test]
fn delete_if_exists_when_deleted() {
    assert!(matches!(Client::delete_index_if_exists_outcome(Ok(())), Ok(true)));
}

#[test]
fn delete_if_exists_when_missing() {
    assert!(matches!(Client::delete_index_if_exists_outcome(Err(not_found())), Ok(false)));
}

#[test]
fn delete_if_exists_passes_other_errors() {
    let other = Error::MeiliSearchError {
        message: "bad".to_string(),
        error_code: ErrorCode::InvalidIndexUid,
        error_type: ErrorType::InvalidRequest,
        error_link: String::new(),
    };
    match Client::delete_index_if_exists_outcome(Err(other)) {
        Err(Error::MeiliSearchError { error_code, message, .. }) => {
            assert_eq!(error_code, ErrorCode::InvalidIndexUid);
            assert_eq!(message, "bad");
        }
        _ => panic!("the error must come back unchanged"),
    }
    assert!(matches!(
        Client::delete_index_if_exists_outcome(Err(Error::UnreachableServer)),
        Err(Error::UnreachableServer)
    ));
}

#[test]
fn get_or_create_keeps_a_found_index() {
    let c = client();
    let found: Index<()> = c.assume_index("movies");
    match c.get_or_create_next("movies", Ok(found)) {
        GetOrCreate::Found(index) => assert_eq!(index.uid.as_str(), "movies"),
        GetOrCreate::Create(_) => panic!("an existing index must not be created"),
    }
}

#[test]
fn get_or_create_creates_a_missing_index() {
    let c = client();
    match c.get_or_create_next::<()>("movies", Err(not_found())) {
        GetOrCreate::Create(req) => {
            assert_eq!(req.url, "http://localhost:7700/indexes");
            assert_eq!(req.expected_status_code, 201);
            match req.method {
                Method::Post(body) => {
                    assert_eq!(body.uid, "movies");
                    assert_eq!(body.primary_key, None);
                }
                _ => panic!("create_index must POST"),
            }
        }
        GetOrCreate::Found(_) => panic!("a missing index must be created"),
    }
}

#[test]
fn is_healthy_reads_the_status() {
    assert!(Client::is_healthy_outcome(&Ok(Health { status: "available".to_string() })));
    assert!(!Client::is_healthy_outcome(&Ok(Health { status: "unavailable".to_string() })));
    assert!(!Client::is_healthy_outcome(&Ok(Health { status: String::new() })));
    assert!(!Client::is_healthy_outcome(&Err(Error::UnreachableServer)));
}

#[test]
fn index_urls_of_distinct_uids_differ() {
    let c = client();
    assert_ne!(c.get_index_request("a").url, c.get_index_request("b").url);
    assert_eq!(c.get_index_request("a").url, c.delete_index_request("a").url);
    assert_eq!(
        c.get_index_request("a").url,
        format!("{}/{}", c.create_index_request("a", None).url, "a")
    );
}
