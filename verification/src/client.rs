use std::collections::HashMap;
use std::marker::PhantomData;
use std::rc::Rc;
use vstd::prelude::*;

use crate::errors::{Error, ErrorCode};
use crate::indexes::{Index, IndexStats, JsonIndex};
use crate::request::{CreateIndexBody, Method, Request};
use crate::support::share;

verus! {

/// The top-level struct of the SDK: a MeiliSearch server's address and the
/// key that authorizes requests to it.
#[derive(Debug, Clone)]
pub struct Client {
    pub host: Rc<String>,
    pub api_key: Rc<String>,
}

/// Statistics of all the indexes of a server.
#[derive(Debug, Clone)]
pub struct ClientStats {
    pub database_size: usize,
    pub last_update: Option<String>,
    pub indexes: HashMap<String, IndexStats>,
}

/// Health of the MeiliSearch server.
#[derive(Debug, Clone)]
pub struct Health {
    pub status: String,
}

/// The private and the public key of a server.
#[derive(Debug, Clone)]
pub struct Keys {
    pub public: Option<String>,
    pub private: Option<String>,
}

/// Version of a MeiliSearch server.
#[derive(Debug, Clone)]
pub struct Version {
    pub commit_sha: String,
    pub build_date: String,
    pub pkg_version: String,
}

/// The next step of `get_or_create` once the index has been asked for.
#[derive(Debug)]
pub enum GetOrCreate<Document> {
    /// The index exists: here it is, nothing more to do.
    Found(Index<Document>),
    /// The index could not be fetched: send this request, whose answer is the result.
    Create(Request<CreateIndexBody>),
}

/// The address of the collection of indexes of the server at `host`.
pub open spec fn indexes_url(host: Seq<char>) -> Seq<char> {
    host + "/indexes"@
}

/// The address of the index `uid` of the server at `host`.
pub open spec fn index_url(host: Seq<char>, uid: Seq<char>) -> Seq<char> {
    host + "/indexes/"@ + uid
}

/// Whether `e` is the server's answer that the index does not exist.
pub open spec fn is_index_not_found(e: Error) -> bool {
    e matches Error::MeiliSearchError { error_code: ErrorCode::IndexNotFound, .. }
}

/// Whether the health answer `answer` says that the server is available.
pub open spec fn reports_available(answer: Result<Health, Error>) -> bool {
    answer matches Ok(health) && health.status@ == "available"@
}

/// Whether `req` is the request that creates the index `uid` with the primary
/// key `primary_key` on the server of `client`.
pub open spec fn creates_index(
    req: Request<CreateIndexBody>,
    client: Client,
    uid: Seq<char>,
    primary_key: Option<Seq<char>>,
) -> bool {
    &&& req.url@ == indexes_url(client.host@)
    &&& req.api_key@ == client.api_key@
    &&& req.method matches Method::Post(body) && body.uid@ == uid && match (body.primary_key, primary_key) {
        (Some(k), Some(p)) => k@ == p,
        (None, None) => true,
        _ => false,
    }
    &&& req.expected_status_code == 201
}

/// Whether `req` is the `GET` of `url` with the key of `client`, successful on `200`.
pub open spec fn gets(req: Request<()>, client: Client, url: Seq<char>) -> bool {
    &&& req.url@ == url
    &&& req.api_key@ == client.api_key@
    &&& req.method is Get
    &&& req.expected_status_code == 200
}

impl Client {
    /// Creates a client for the server at `host` (written without a final
    /// `/`), authorized by `api_key`.
    pub fn new<H: Into<String>, K: Into<String>>(host: H, api_key: K) -> (client: Client)
        ensures
            call_ensures(H::into, (host,), *client.host),
            call_ensures(K::into, (api_key,), *client.api_key),
    {
        Client { host: Rc::new(host.into()), api_key: Rc::new(api_key.into()) }
    }

    /// The address `host` followed by `path`.
    fn endpoint(&self, path: &str) -> (url: String)
        ensures
            url@ == self.host@ + path@,
    {
        let mut url = (*self.host).clone();
        url.append(path);
        url
    }

    /// A `GET` of `url` with this client's key, successful on `200`.
    fn get_request(&self, url: String) -> (req: Request<()>)
        ensures
            gets(req, *self, url@),
            req.url@ == url@,
            req.api_key@ == self.api_key@,
            req.method is Get,
            req.expected_status_code == 200,
    {
        Request { url, api_key: share(&self.api_key), method: Method::Get, expected_status_code: 200 }
    }

    /// The request that fetches the index `uid`.
    pub fn get_index_request(&self, uid: &str) -> (req: Request<()>)
        ensures
            gets(req, *self, index_url(self.host@, uid@)),
            req.url@ == self.host@ + "/indexes/"@ + uid@,
            req.api_key@ == self.api_key@,
            req.method is Get,
            req.expected_status_code == 200,
    {
        let mut url = self.endpoint("/indexes/");
        url.append(uid);
        self.get_request(url)
    }

    /// What `get_index` and `create_index` return for the server's answer:
    /// the described index reached through this client, or the error.
    pub fn index_result<Document>(&self, answer: Result<JsonIndex, Error>) -> (res: Result<
        Index<Document>,
        Error,
    >)
        ensures
            match (answer, res) {
                (Ok(json), Ok(index)) => index.uid@ == json.uid@ && index.host@ == self.host@
                    && index.api_key@ == self.api_key@,
                (Err(e1), Err(e2)) => e1 == e2,
                _ => false,
            },
    {
        match answer {
            Ok(json) => Ok(json.into_index(self)),
            Err(e) => Err(e),
        }
    }

    /// Assumes that the index `uid` exists and makes a handle on it, without
    /// asking the server.
    pub fn assume_index<Document, U: Into<String>>(&self, uid: U) -> (index: Index<Document>)
        ensures
            call_ensures(U::into, (uid,), *index.uid),
            index.host@ == self.host@,
            index.api_key@ == self.api_key@,
    {
        Index {
            uid: Rc::new(uid.into()),
            host: share(&self.host),
            api_key: share(&self.api_key),
            _phantom_document: PhantomData,
        }
    }

    /// The request that creates the index `uid`; without a primary key the
    /// server tries to infer one.
    pub fn create_index_request(&self, uid: &str, primary_key: Option<&str>) -> (req: Request<
        CreateIndexBody,
    >)
        ensures
            creates_index(
                req,
                *self,
                uid@,
                match primary_key {
                    Some(k) => Some(k@),
                    None => None,
                },
            ),
            req.url@ == self.host@ + "/indexes"@,
            req.api_key@ == self.api_key@,
            req.expected_status_code == 201,
            req.method matches Method::Post(body) && body.uid@ == uid@ && (match (
                body.primary_key,
                primary_key,
            ) {
                (Some(k), Some(p)) => k@ == p@,
                (None, None) => true,
                _ => false,
            }),
    {
        let body = CreateIndexBody {
            uid: String::from(uid),
            primary_key: match primary_key {
                Some(k) => Some(String::from(k)),
                None => None,
            },
        };
        Request {
            url: self.endpoint("/indexes"),
            api_key: share(&self.api_key),
            method: Method::Post(body),
            expected_status_code: 201,
        }
    }

    /// The request that deletes the index `uid`.
    pub fn delete_index_request(&self, uid: &str) -> (req: Request<()>)
        ensures
            req.url@ == index_url(self.host@, uid@),
            req.api_key@ == self.api_key@,
            req.method is Delete,
            req.expected_status_code == 204,
    {
        let mut url = self.endpoint("/indexes/");
        url.append(uid);
        Request { url, api_key: share(&self.api_key), method: Method::Delete, expected_status_code: 204 }
    }

    /// What `delete_index_if_exists` returns for the answer to the deletion:
    /// `true` if the index was deleted, `false` if it did not exist, and any
    /// other error unchanged.
    pub fn delete_index_if_exists_outcome(answer: Result<(), Error>) -> (res: Result<bool, Error>)
        ensures
            res == match answer {
                Ok(()) => Ok(true),
                Err(e) => if is_index_not_found(e) {
                    Ok(false)
                } else {
                    Err(e)
                },
            },
            answer is Ok ==> res == Ok::<bool, Error>(true),
            res == Ok::<bool, Error>(false) ==> answer matches Err(
                Error::MeiliSearchError { error_code: ErrorCode::IndexNotFound, .. },
            ),
            answer matches Err(e) ==> (!(e matches Error::MeiliSearchError {
                error_code: ErrorCode::IndexNotFound,
                ..
            }) ==> res == Err::<bool, Error>(e)),
    {
        match answer {
            Ok(()) => Ok(true),
            Err(Error::MeiliSearchError { error_code: ErrorCode::IndexNotFound, .. }) => Ok(false),
            Err(error) => Err(error),
        }
    }

    /// The next step of `get_or_create` once the index `uid` has been asked
    /// for: keep it if it came, else create it with no primary key.
    pub fn get_or_create_next<Document>(
        &self,
        uid: &str,
        fetched: Result<Index<Document>, Error>,
    ) -> (next: GetOrCreate<Document>)
        ensures
            fetched matches Ok(index) ==> next == GetOrCreate::Found(index),
            fetched is Err ==> (next matches GetOrCreate::Create(req) && creates_index(
                req,
                *self,
                uid@,
                None,
            )),
            fetched is Err ==> (next matches GetOrCreate::Create(req) && req.url@ == self.host@
                + "/indexes"@ && req.api_key@ == self.api_key@ && req.expected_status_code == 201
                && (req.method matches Method::Post(body) && body.uid@ == uid@
                && body.primary_key is None)),
    {
        match fetched {
            Ok(index) => GetOrCreate::Found(index),
            Err(_) => GetOrCreate::Create(self.create_index_request(uid, None)),
        }
    }

    /// The request that fetches the statistics of all indexes.
    pub fn get_stats_request(&self) -> (req: Request<()>)
        ensures
            gets(req, *self, self.host@ + "/stats"@),
            req.url@ == self.host@ + "/stats"@,
            req.api_key@ == self.api_key@,
            req.method is Get,
            req.expected_status_code == 200,
    {
        self.get_request(self.endpoint("/stats"))
    }

    /// The request that fetches the health of the server.
    pub fn health_request(&self) -> (req: Request<()>)
        ensures
            gets(req, *self, self.host@ + "/health"@),
            req.url@ == self.host@ + "/health"@,
            req.api_key@ == self.api_key@,
            req.method is Get,
            req.expected_status_code == 200,
    {
        self.get_request(self.endpoint("/health"))
    }

    /// What `is_healthy` returns for the answer to the health request: `true`
    /// exactly when the server says that it is available.
    pub fn is_healthy_outcome(answer: &Result<Health, Error>) -> (healthy: bool)
        ensures
            healthy == reports_available(*answer),
            answer is Err ==> !healthy,
            healthy <==> (answer matches Ok(health) && health.status@ == "available"@),
    {
        match answer {
            Ok(health) => health.status == String::from("available"),
            Err(_) => false,
        }
    }

    /// The request that fetches the private and the public key.
    pub fn get_keys_request(&self) -> (req: Request<()>)
        ensures
            gets(req, *self, self.host@ + "/keys"@),
            req.url@ == self.host@ + "/keys"@,
            req.api_key@ == self.api_key@,
            req.method is Get,
            req.expected_status_code == 200,
    {
        self.get_request(self.endpoint("/keys"))
    }

    /// The request that fetches the version of the server.
    pub fn get_version_request(&self) -> (req: Request<()>)
        ensures
            gets(req, *self, self.host@ + "/version"@),
            req.url@ == self.host@ + "/version"@,
            req.api_key@ == self.api_key@,
            req.method is Get,
            req.expected_status_code == 200,
    {
        self.get_request(self.endpoint("/version"))
    }
}

/// The address of an index is the address of the collection of indexes, a
/// `/` and the uid: `get_index` and `delete_index` reach an element of the
/// collection to which `create_index` posts.
pub proof fn lemma_index_url_in_collection(host: Seq<char>, uid: Seq<char>)
    ensures
        index_url(host, uid) == indexes_url(host) + "/"@ + uid,
{
    reveal_strlit("/indexes/");
    reveal_strlit("/indexes");
    reveal_strlit("/");
    assert(index_url(host, uid) =~= indexes_url(host) + "/"@ + uid);
}

/// Different uids give different index addresses on one server.
pub proof fn lemma_index_url_injective(host: Seq<char>, uid1: Seq<char>, uid2: Seq<char>)
    requires
        index_url(host, uid1) == index_url(host, uid2),
    ensures
        uid1 == uid2,
{
    let prefix = host + "/indexes/"@;
    assert(index_url(host, uid1) == prefix + uid1);
    assert(index_url(host, uid2) == prefix + uid2);
    assert(uid1 =~= (prefix + uid1).subrange(prefix.len() as int, (prefix + uid1).len() as int));
    assert(uid2 =~= (prefix + uid2).subrange(prefix.len() as int, (prefix + uid2).len() as int));
}

/// Only the server's `index_not_found` answer means that the index did not
/// exist: any other error, whatever its code (an unknown one too), is not.
pub proof fn lemma_not_found_only_for_index_not_found(e: Error)
    ensures
        is_index_not_found(e) <==> (e is MeiliSearchError && e->error_code == ErrorCode::IndexNotFound),
        e matches Error::MeiliSearchError { error_code: ErrorCode::Unknown(_), .. } ==> !is_index_not_found(e),
{
}

/// An error answer never reports a healthy server, and a healthy report
/// always comes from an answer whose status is `available`.
pub proof fn lemma_available_only_when_ok(answer: Result<Health, Error>)
    ensures
        answer is Err ==> !reports_available(answer),
        reports_available(answer) <==> (answer is Ok && answer->Ok_0.status@ == "available"@),
{
}

/// Whatever it creates, the create-index request goes to the collection of
/// indexes of the client's server, carries the client's key, waits for `201`
/// and posts the uid it was given.
pub proof fn lemma_create_request_belongs_to_client(
    req: Request<CreateIndexBody>,
    client: Client,
    uid: Seq<char>,
    primary_key: Option<Seq<char>>,
)
    requires
        creates_index(req, client, uid, primary_key),
    ensures
        req.url@ == client.host@ + "/indexes"@,
        req.api_key@ == client.api_key@,
        req.expected_status_code == 201,
        req.method matches Method::Post(body) && body.uid@ == uid,
{
}

/// Every `GET` that a client builds carries that client's key, whatever the
/// key is, and goes to the address it names.
pub proof fn lemma_get_request_belongs_to_client(req: Request<()>, client: Client, url: Seq<char>)
    requires
        gets(req, client, url),
    ensures
        req.api_key@ == client.api_key@,
        req.url@ == url,
        req.method is Get,
        req.expected_status_code == 200,
{
}

} // verus!
