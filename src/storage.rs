//! Connection settings for the object store and the writes issued to it.

use vstd::prelude::*;
use vstd::string::*;

verus! {

/// The environment variables that configure the store, in the order they are read.
#[derive(Clone, Copy, Debug, PartialEq, Eq, Structural)]
pub enum ConfigVar {
    AccessId,
    AccessSecret,
    AccountId,
    BucketName,
    Region,
}

impl ConfigVar {
    pub open spec fn spec_name(self) -> Seq<char> {
        match self {
            ConfigVar::AccessId => "ACCESS_ID"@,
            ConfigVar::AccessSecret => "ACCESS_SECRET"@,
            ConfigVar::AccountId => "ACCOUNT_ID"@,
            ConfigVar::BucketName => "BUCKET_NAME"@,
            ConfigVar::Region => "REGION"@,
        }
    }

    /// The name of the environment variable.
    pub fn name(self) -> (r: &'static str)
        ensures
            r@ == self.spec_name(),
    {
        match self {
            ConfigVar::AccessId => "ACCESS_ID",
            ConfigVar::AccessSecret => "ACCESS_SECRET",
            ConfigVar::AccountId => "ACCOUNT_ID",
            ConfigVar::BucketName => "BUCKET_NAME",
            ConfigVar::Region => "REGION",
        }
    }
}

/// Why the store client could not be set up at startup.
#[derive(Clone, Copy, Debug, PartialEq, Eq, Structural)]
pub enum StartupError {
    /// A required variable is absent.
    Configuration(ConfigVar),
    /// The values are present but cannot describe a reachable endpoint.
    ConnectionSetup,
}

/// The first absent variable, in reading order, given which ones are present.
pub open spec fn first_missing(
    access_id: bool,
    access_secret: bool,
    account_id: bool,
    bucket_name: bool,
    region: bool,
) -> Option<ConfigVar> {
    if !access_id {
        Some(ConfigVar::AccessId)
    } else if !access_secret {
        Some(ConfigVar::AccessSecret)
    } else if !account_id {
        Some(ConfigVar::AccountId)
    } else if !bucket_name {
        Some(ConfigVar::BucketName)
    } else if !region {
        Some(ConfigVar::Region)
    } else {
        None
    }
}

/// Connection parameters, read once at startup.
pub struct StorageConfig {
    pub access_id: String,
    pub access_secret: String,
    pub account_id: String,
    pub bucket_name: String,
    pub region: String,
}

impl StorageConfig {
    /// Builds the configuration from the looked-up variable values; the
    /// first absent one, in reading order, is reported.
    pub fn load(
        access_id: Option<String>,
        access_secret: Option<String>,
        account_id: Option<String>,
        bucket_name: Option<String>,
        region: Option<String>,
    ) -> (r: Result<StorageConfig, StartupError>)
        ensures
            match r {
                Ok(c) => {
                    &&& access_id == Some(c.access_id)
                    &&& access_secret == Some(c.access_secret)
                    &&& account_id == Some(c.account_id)
                    &&& bucket_name == Some(c.bucket_name)
                    &&& region == Some(c.region)
                },
                Err(e) => {
                    let missing = first_missing(
                        access_id is Some,
                        access_secret is Some,
                        account_id is Some,
                        bucket_name is Some,
                        region is Some,
                    );
                    &&& missing is Some
                    &&& e == StartupError::Configuration(missing->0)
                },
            },
    {
        let access_id = match access_id {
            Some(v) => v,
            None => return Err(StartupError::Configuration(ConfigVar::AccessId)),
        };
        let access_secret = match access_secret {
            Some(v) => v,
            None => return Err(StartupError::Configuration(ConfigVar::AccessSecret)),
        };
        let account_id = match account_id {
            Some(v) => v,
            None => return Err(StartupError::Configuration(ConfigVar::AccountId)),
        };
        let bucket_name = match bucket_name {
            Some(v) => v,
            None => return Err(StartupError::Configuration(ConfigVar::BucketName)),
        };
        let region = match region {
            Some(v) => v,
            None => return Err(StartupError::Configuration(ConfigVar::Region)),
        };
        Ok(StorageConfig { access_id, access_secret, account_id, bucket_name, region })
    }
}

/// A character allowed in a host name label.
pub open spec fn is_label_char(c: char) -> bool {
    ('a' <= c && c <= 'z') || ('A' <= c && c <= 'Z') || ('0' <= c && c <= '9') || c == '-'
}

/// A non-empty host name label: letters, digits and hyphens.
pub open spec fn is_host_label(s: Seq<char>) -> bool {
    &&& s.len() > 0
    &&& forall|i: int| 0 <= i < s.len() ==> is_label_char(#[trigger] s[i])
}

/// Whether the account identifier can stand as the first label of the endpoint host.
pub fn valid_account_id(s: &str) -> (r: bool)
    ensures
        r == is_host_label(s@),
{
    let n = s.unicode_len();
    if n == 0 {
        return false;
    }
    let mut i: usize = 0;
    while i < n
        invariant
            0 <= i <= n,
            n == s@.len(),
            forall|j: int| 0 <= j < i ==> is_label_char(#[trigger] s@[j]),
        decreases n - i,
    {
        let c = s.get_char(i);
        let ok = ('a' <= c && c <= 'z') || ('A' <= c && c <= 'Z') || ('0' <= c && c <= '9')
            || c == '-';
        if !ok {
            return false;
        }
        i += 1;
    }
    true
}

/// The endpoint of the account's S3-compatible API.
pub open spec fn endpoint_for(account_id: Seq<char>) -> Seq<char> {
    "https://"@ + account_id + ".r2.cloudflarestorage.com"@
}

pub fn endpoint_url(account_id: &str) -> (r: String)
    ensures
        r@ == endpoint_for(account_id@),
{
    let mut url = String::from_str("https://");
    url.append(account_id);
    url.append(".r2.cloudflarestorage.com");
    url
}

/// One file to persist: its key in the bucket and its full payload.
pub struct StorageObject {
    pub key: String,
    pub data: Vec<u8>,
}

/// The mathematical value of a `StorageObject`.
pub struct ObjectView {
    pub key: Seq<char>,
    pub data: Seq<u8>,
}

impl View for StorageObject {
    type V = ObjectView;

    open spec fn view(&self) -> ObjectView {
        ObjectView { key: self.key@, data: self.data@ }
    }
}

/// A single write of a whole payload to a bucket under a key; it replaces
/// whatever the key held.
pub struct PutRequest {
    pub bucket: String,
    pub key: String,
    pub body: Vec<u8>,
}

/// The object store client's settings: where to connect, with which
/// credentials, and the bucket it writes to.
pub struct Storage {
    endpoint_url: String,
    region: String,
    access_id: String,
    access_secret: String,
    bucket_name: String,
}

impl Storage {
    pub fn builder() -> (r: StorageBuilder) {
        StorageBuilder::new()
    }

    pub closed spec fn spec_endpoint_url(&self) -> Seq<char> {
        self.endpoint_url@
    }

    pub closed spec fn spec_region(&self) -> Seq<char> {
        self.region@
    }

    pub closed spec fn spec_access_id(&self) -> Seq<char> {
        self.access_id@
    }

    pub closed spec fn spec_access_secret(&self) -> Seq<char> {
        self.access_secret@
    }

    pub closed spec fn spec_bucket_name(&self) -> Seq<char> {
        self.bucket_name@
    }

    /// The write that stores `object` in the configured bucket.
    pub fn put_request(&self, object: StorageObject) -> (r: PutRequest)
        requires
            object.key@.len() > 0,
        ensures
            r.bucket@ == self.spec_bucket_name(),
            r.key@ == object.key@,
            r.body@ == object.data@,
    {
        PutRequest { bucket: self.bucket_name.clone(), key: object.key, body: object.data }
    }

    pub fn endpoint_url(&self) -> (r: &str)
        ensures
            r@ == self.spec_endpoint_url(),
    {
        self.endpoint_url.as_str()
    }

    pub fn region(&self) -> (r: &str)
        ensures
            r@ == self.spec_region(),
    {
        self.region.as_str()
    }

    pub fn access_id(&self) -> (r: &str)
        ensures
            r@ == self.spec_access_id(),
    {
        self.access_id.as_str()
    }

    pub fn access_secret(&self) -> (r: &str)
        ensures
            r@ == self.spec_access_secret(),
    {
        self.access_secret.as_str()
    }

    pub fn bucket_name(&self) -> (r: &str)
        ensures
            r@ == self.spec_bucket_name(),
    {
        self.bucket_name.as_str()
    }
}

/// Sets up the object store client from a configuration.
pub struct StorageBuilder;

impl StorageBuilder {
    pub fn new() -> (r: StorageBuilder) {
        StorageBuilder
    }

    /// Derives the client settings: the endpoint comes from the account
    /// identifier, the rest is carried over. An account identifier that is
    /// not a host name label, or an empty region, cannot be connected to.
    pub fn initialize(&self, config: StorageConfig) -> (r: Result<Storage, StartupError>)
        ensures
            r is Ok <==> (is_host_label(config.account_id@) && config.region@.len() > 0),
            r matches Err(e) ==> e == StartupError::ConnectionSetup,
            r matches Ok(s) ==> {
                &&& s.spec_endpoint_url() == endpoint_for(config.account_id@)
                &&& s.spec_region() == config.region@
                &&& s.spec_access_id() == config.access_id@
                &&& s.spec_access_secret() == config.access_secret@
                &&& s.spec_bucket_name() == config.bucket_name@
            },
    {
        if !valid_account_id(config.account_id.as_str()) || config.region.as_str().unicode_len()
            == 0 {
            return Err(StartupError::ConnectionSetup);
        }
        let endpoint_url = endpoint_url(config.account_id.as_str());
        Ok(
            Storage {
                endpoint_url,
                region: config.region,
                access_id: config.access_id,
                access_secret: config.access_secret,
                bucket_name: config.bucket_name,
            },
        )
    }
}

} // verus!
