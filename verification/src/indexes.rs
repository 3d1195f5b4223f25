use std::collections::HashMap;
use std::marker::PhantomData;
use std::rc::Rc;
use vstd::prelude::*;

use crate::client::Client;
use crate::support::share;

verus! {

/// A handle on an index of a MeiliSearch server: its uid and the server's
/// address and key, shared with the client that made it.
#[derive(Debug)]
pub struct Index<Document> {
    pub uid: Rc<String>,
    pub host: Rc<String>,
    pub api_key: Rc<String>,
    pub _phantom_document: PhantomData<Document>,
}

/// An index as the server describes it.
#[derive(Debug, Clone)]
pub struct JsonIndex {
    pub uid: String,
    pub primary_key: Option<String>,
    pub created_at: String,
    pub updated_at: String,
}

/// Statistics of one index.
#[derive(Debug, Clone)]
pub struct IndexStats {
    pub number_of_documents: usize,
    pub is_indexing: bool,
    pub fields_distribution: HashMap<String, usize>,
}

impl JsonIndex {
    /// The handle on the described index, reached through `client`.
    pub fn into_index<Document>(self, client: &Client) -> (index: Index<Document>)
        ensures
            index.uid@ == self.uid@,
            index.host@ == client.host@,
            index.api_key@ == client.api_key@,
    {
        Index {
            uid: Rc::new(self.uid),
            host: share(&client.host),
            api_key: share(&client.api_key),
            _phantom_document: PhantomData,
        }
    }
}

} // verus!
