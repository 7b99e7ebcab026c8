//! The requests that the add-on service answers.
//!
//! A [`Client`] sends nothing itself: each of its operations hands back the
//! [`Request`] to send, and the caller sends it and reads the answer.

use crate::models::{LatestFile, PackProject};
use crate::url::{
    download_url_endpoint, file_url, project_url, search_url, spec_download_url_endpoint, spec_file_url,
    spec_project_url, spec_search_url,
};
use vstd::prelude::*;

verus! {

/// The seconds a request may take when nothing else is said.
pub const DEFAULT_TIMEOUT_SECS: u64 = 60;

/// How the body of a response is to be read.
#[derive(Clone, Copy, Debug, PartialEq, Eq, Structural)]
pub enum Body {
    /// As a JSON document.
    Json,
    /// As plain text.
    Text,
    /// As the bytes it is made of.
    Bytes,
}

/// One `GET` request, ready to be sent.
#[derive(Clone, Debug, PartialEq, Eq)]
pub struct Request {
    /// The address to get.
    pub url: String,
    /// How to read what comes back.
    pub body: Body,
    /// The seconds after which the request is given up.
    pub timeout_secs: u64,
}

impl Request {
    /// Whether this is the request of `client` for `url`, to be read as
    /// `body`.
    pub open spec fn is_get(&self, client: &Client, url: Seq<char>, body: Body) -> bool {
        &&& self.url@ == url
        &&& self.body == body
        &&& self.timeout_secs == client.timeout_secs
    }
}

/// A client of the add-on service.
#[derive(Clone, Copy, Debug, PartialEq, Eq, Structural)]
pub struct Client {
    /// The seconds after which each request of this client is given up.
    pub timeout_secs: u64,
}

impl Client {
    /// A client whose requests time out after sixty seconds.
    pub fn new() -> (client: Client)
        ensures
            client.timeout_secs == DEFAULT_TIMEOUT_SECS,
    {
        Client { timeout_secs: DEFAULT_TIMEOUT_SECS }
    }

    /// A client whose requests time out after `timeout_secs` seconds.
    pub fn with_timeout(timeout_secs: u64) -> (client: Client)
        ensures
            client.timeout_secs == timeout_secs,
    {
        Client { timeout_secs }
    }

    fn get(&self, url: String, body: Body) -> (request: Request)
        ensures
            request.is_get(self, url@, body),
    {
        Request { url, body, timeout_secs: self.timeout_secs }
    }

    /// The request that searches the modpacks for `term` and asks for at most
    /// `page_size` of them. The answer is a JSON list of projects; what the
    /// search has found is [`found_packs`] of that list.
    pub fn search_packs(&self, term: &str, page_size: u64) -> (request: Request)
        ensures
            request.is_get(self, spec_search_url(term@, page_size), Body::Json),
    {
        self.get(search_url(term, page_size), Body::Json)
    }

    /// The request for the project `id`. The answer is a JSON project.
    pub fn get_pack_data(&self, id: u64) -> (request: Request)
        ensures
            request.is_get(self, spec_project_url(id), Body::Json),
    {
        self.get(project_url(id), Body::Json)
    }

    /// The request for the file `file_id` of the project `project_id`. The
    /// answer is a JSON file record.
    pub fn get_file_data(&self, project_id: u64, file_id: u64) -> (request: Request)
        ensures
            request.is_get(self, spec_file_url(project_id, file_id), Body::Json),
    {
        self.get(file_url(project_id, file_id), Body::Json)
    }

    /// The request for the address from which the file `file_id` of the
    /// project `project_id` can be downloaded. The answer is that address, as
    /// plain text; it is taken as it comes.
    pub fn get_download_url(&self, project_id: u64, file_id: u64) -> (request: Request)
        ensures
            request.is_get(self, spec_download_url_endpoint(project_id, file_id), Body::Text),
    {
        self.get(download_url_endpoint(project_id, file_id), Body::Text)
    }

    /// The request for the address of the server pack of `file`, a file of
    /// the project `project_id`; none if `file` has no server pack.
    pub fn get_server_pack_url(&self, project_id: u64, file: &LatestFile) -> (request: Option<
        Request,
    >)
        ensures
            match file.server_pack_file_id {
                Some(file_id) => request is Some && request->0.is_get(
                    self,
                    spec_download_url_endpoint(project_id, file_id),
                    Body::Text,
                ),
                None => request is None,
            },
    {
        match file.server_pack_file_id {
            Some(file_id) => Some(self.get_download_url(project_id, file_id)),
            None => None,
        }
    }

    /// The request for the server pack at `url`. The answer is the pack, byte
    /// for byte.
    pub fn download_server_pack(&self, url: &str) -> (request: Request)
        ensures
            request.is_get(self, url@, Body::Bytes),
    {
        self.get(String::from_str(url), Body::Bytes)
    }
}

/// How many of `count` packs a search for at most `page_size` keeps.
pub open spec fn kept(count: nat, page_size: u64) -> nat {
    if count <= page_size {
        count
    } else {
        page_size as nat
    }
}

/// What a search for at most `page_size` packs has found, given the list
/// `packs` that the service answered with: the packs in the order in which
/// they came, and no more of them than were asked for.
pub fn found_packs(packs: Vec<PackProject>, page_size: u64) -> (found: Vec<PackProject>)
    ensures
        found@ == packs@.take(kept(packs@.len(), page_size) as int),
        found@.len() <= page_size,
        packs@.len() == 0 ==> found@.len() == 0,
{
    let mut found = packs;
    if found.len() as u64 > page_size {
        found.truncate(page_size as usize);
    } else {
    }
    found
}

} // verus!
