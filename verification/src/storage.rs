//! Where uploaded objects live: the mapping between an object's key in the
//! bucket and the URL under which the object is served.

use crate::text::{contains, spec_contains, spec_strip_prefix, strip_prefix};
use crate::views::option_view;
use vstd::prelude::*;
use vstd::string::*;

verus! {

pub const SUPABASE: &'static str = "supabase";

pub const AWS_SCHEME: &'static str = "https://";

pub const AWS_HOST_SUFFIX: &'static str = ".s3.amazonaws.com/";

pub const SLASH: &'static str = "/";

/// A bucket and the endpoints it is reached by.
pub struct S3StorageView {
    pub bucket: Seq<char>,
    /// The endpoint the service itself talks to, where it is not the default.
    pub endpoint: Option<Seq<char>>,
    /// The endpoint that clients are given, where it differs.
    pub public_endpoint: Option<Seq<char>>,
}

impl S3StorageView {
    /// The endpoint that URLs are built on: the public one where there is
    /// one, else the service's own.
    pub open spec fn endpoint_for_url(self) -> Option<Seq<char>> {
        if self.public_endpoint is Some {
            self.public_endpoint
        } else {
            self.endpoint
        }
    }

    /// What every URL of an object in the bucket begins with.
    pub open spec fn url_prefix(self) -> Seq<char> {
        match self.endpoint_for_url() {
            Some(endpoint) => endpoint + SLASH@ + self.bucket + SLASH@,
            None => AWS_SCHEME@ + self.bucket + AWS_HOST_SUFFIX@,
        }
    }

    /// The URL under which the object `key` is served.
    pub open spec fn object_url(self, key: Seq<char>) -> Seq<char> {
        self.url_prefix() + key
    }

    /// The key of the object that `url` serves, where `url` points into the
    /// bucket.
    pub open spec fn key_of(self, url: Seq<char>) -> Option<Seq<char>> {
        spec_strip_prefix(url, self.url_prefix())
    }

    /// The key of an object is read back from the URL it was given.
    pub proof fn law_key_of_object_url(self, key: Seq<char>)
        ensures
            self.key_of(self.object_url(key)) == Some(key),
    {
        let prefix = self.url_prefix();
        let url = self.object_url(key);
        assert(url.subrange(0, prefix.len() as int) =~= prefix);
        assert(url.subrange(prefix.len() as int, url.len() as int) =~= key);
    }
}

/// The object store's bucket and endpoints.
#[derive(Debug)]
pub struct S3Storage {
    bucket: String,
    endpoint: Option<String>,
    public_endpoint: Option<String>,
}

impl View for S3Storage {
    type V = S3StorageView;

    closed spec fn view(&self) -> S3StorageView {
        S3StorageView {
            bucket: self.bucket@,
            endpoint: option_view(self.endpoint),
            public_endpoint: option_view(self.public_endpoint),
        }
    }
}

impl S3Storage {
    pub fn new(bucket: String, endpoint: Option<String>, public_endpoint: Option<String>) -> (storage:
        Self)
        ensures
            storage@ == (S3StorageView {
                bucket: bucket@,
                endpoint: option_view(endpoint),
                public_endpoint: option_view(public_endpoint),
            }),
    {
        S3Storage { bucket, endpoint, public_endpoint }
    }

    pub fn bucket(&self) -> (bucket: &str)
        ensures
            bucket@ == self@.bucket,
    {
        self.bucket.as_str()
    }

    pub fn endpoint(&self) -> (endpoint: &Option<String>)
        ensures
            option_view(*endpoint) == self@.endpoint,
    {
        &self.endpoint
    }

    pub fn public_endpoint(&self) -> (endpoint: &Option<String>)
        ensures
            option_view(*endpoint) == self@.public_endpoint,
    {
        &self.public_endpoint
    }

    /// Whether the service's endpoint is one of Supabase, which asks for a
    /// client of its own.
    pub fn is_supabase(&self) -> (supabase: bool)
        ensures
            supabase == match self@.endpoint {
                Some(endpoint) => spec_contains(endpoint, SUPABASE@),
                None => false,
            },
    {
        match &self.endpoint {
            Some(endpoint) => contains(endpoint.as_str(), SUPABASE),
            None => false,
        }
    }

    fn url_prefix(&self) -> (prefix: String)
        ensures
            prefix@ == self@.url_prefix(),
    {
        let chosen = match &self.public_endpoint {
            Some(endpoint) => Some(endpoint),
            None => match &self.endpoint {
                Some(endpoint) => Some(endpoint),
                None => None,
            },
        };
        match chosen {
            Some(endpoint) => {
                let mut prefix = endpoint.clone();
                prefix.append(SLASH);
                prefix.append(self.bucket.as_str());
                prefix.append(SLASH);
                prefix
            },
            None => {
                let mut prefix = String::from_str(AWS_SCHEME);
                prefix.append(self.bucket.as_str());
                prefix.append(AWS_HOST_SUFFIX);
                prefix
            },
        }
    }

    /// The URL under which the object `key` is served once it is uploaded.
    pub fn object_url(&self, key: &str) -> (url: String)
        ensures
            url@ == self@.object_url(key@),
    {
        let mut url = self.url_prefix();
        url.append(key);
        url
    }

    /// The key of the object that `url` serves, or `None` where `url` does not
    /// point into this bucket.
    pub fn extract_key_from_url(&self, url: &str) -> (key: Option<String>)
        ensures
            option_view(key) == self@.key_of(url@),
    {
        let prefix = self.url_prefix();
        match strip_prefix(url, prefix.as_str()) {
            Some(key) => Some(String::from_str(key)),
            None => None,
        }
    }
}

} // verus!
