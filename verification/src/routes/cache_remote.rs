//! The remote copy of a cache entry, kept as an object of an S3 bucket.
//!
//! The requests to S3 are made by the program around this crate; this module
//! holds what decides them: the settings of the client, the object a cache
//! entry maps to, and how the answer to an existence check is read.

use vstd::prelude::*;
use crate::config::{Config, S3Config};

verus! {

/// The settings the S3 client is built with, on top of the defaults that
/// the environment gives.
pub struct S3ClientSettings {
    /// The endpoint URL of the service.
    pub endpoint: String,
    /// The static credentials.
    pub access_key: String,
    pub secret_key: String,
    /// The name the credentials are provided under.
    pub provider_name: &'static str,
    /// The region, when the configuration names one; else the default
    /// region of the environment stays.
    pub region: Option<String>,
}

/// The settings of the S3 client for this configuration: the endpoint and
/// the keys it names, the provider name `bbc`, and its region unless that is
/// empty.
pub fn s3_client_settings(cfg: &S3Config) -> (r: S3ClientSettings)
    ensures
        r.endpoint@ == cfg.endpoint@,
        r.access_key@ == cfg.access_key@,
        r.secret_key@ == cfg.secret_key@,
        r.provider_name@ == "bbc"@,
        cfg.region@.len() == 0 ==> r.region is None,
        cfg.region@.len() != 0 ==> (r.region matches Some(reg) && reg@ == cfg.region@),
{
    let region = if cfg.region.as_str().is_empty() {
        None
    } else {
        Some(cfg.region.clone())
    };
    S3ClientSettings {
        endpoint: cfg.endpoint.clone(),
        access_key: cfg.access_key.clone(),
        secret_key: cfg.secret_key.clone(),
        provider_name: "bbc",
        region,
    }
}

/// A cache entry as an object of the configured bucket: `key` is the object
/// key, `file` the local file that is uploaded or downloaded.
pub struct RemoteCache {
    bucket: String,
    pub key: String,
    pub file: Vec<u8>,
}

impl RemoteCache {
    /// The bucket the object lives in.
    pub closed spec fn bucket_name(&self) -> Seq<char> {
        self.bucket@
    }

    /// The object key.
    pub closed spec fn object_key(&self) -> Seq<char> {
        self.key@
    }

    /// The local file.
    pub closed spec fn local_file(&self) -> Seq<u8> {
        self.file@
    }

    /// The object `key` of the bucket that `config` names, mirrored from the
    /// local `file`.
    pub fn new(key: String, file: Vec<u8>, config: &Config) -> (r: Self)
        ensures
            r.bucket_name() == config.s3.bucket@,
            r.object_key() == key@,
            r.local_file() == file@,
    {
        let bucket = config.s3.bucket.clone();
        RemoteCache { bucket, key, file }
    }

    /// The bucket the object lives in.
    pub fn bucket(&self) -> (r: &String)
        ensures
            r@ == self.bucket_name(),
    {
        &self.bucket
    }
}

/// The answer to a request for an object's metadata.
#[derive(Debug, Clone, Copy, PartialEq, Eq, Structural)]
pub enum HeadReply {
    /// The object's metadata came back.
    Found,
    /// The request failed; with the HTTP status of the service's answer
    /// when there was one.
    Failed(Option<u16>),
}

/// What a metadata request says of the object.
#[derive(Debug, Clone, Copy, PartialEq, Eq, Structural)]
pub enum HeadOutcome {
    /// The object exists.
    Exists,
    /// The service answered with a client error: the object is taken to be
    /// missing.
    Missing,
    /// Anything else: the question stays open and the error is passed on.
    Failed,
}

/// Whether an HTTP status is a client error (4xx).
pub open spec fn is_client_error(status: u16) -> bool {
    400 <= status < 500
}

/// How the answer to a metadata request is read.
pub open spec fn head_outcome_spec(reply: HeadReply) -> HeadOutcome {
    match reply {
        HeadReply::Found => HeadOutcome::Exists,
        HeadReply::Failed(Some(status)) => if is_client_error(status) {
            HeadOutcome::Missing
        } else {
            HeadOutcome::Failed
        },
        HeadReply::Failed(None) => HeadOutcome::Failed,
    }
}

/// How a metadata answer is read, over every answer: a found object
/// exists; a failure means the object is missing exactly when the service
/// answered with a 4xx status; a failure with any other status (a 5xx
/// among them) or with no answer at all is an error.
pub proof fn law_head_outcome(reply: HeadReply)
    ensures
        reply == HeadReply::Found ==> head_outcome_spec(reply) == HeadOutcome::Exists,
        forall|s: u16|
            reply == HeadReply::Failed(Some(s)) ==> (head_outcome_spec(reply) == HeadOutcome::Missing
                <==> 400 <= s && s <= 499),
        forall|s: u16|
            reply == HeadReply::Failed(Some(s)) && 500 <= s && s <= 599 ==> head_outcome_spec(reply)
                == HeadOutcome::Failed,
        forall|s: u16|
            reply == HeadReply::Failed(Some(s)) && !(400 <= s && s <= 499) ==> head_outcome_spec(
                reply,
            ) == HeadOutcome::Failed,
        reply == HeadReply::Failed(None) ==> head_outcome_spec(reply) == HeadOutcome::Failed,
        head_outcome_spec(reply) != HeadOutcome::Exists ==> reply is Failed,
{
}

/// Reads the answer to a metadata request: found means the object exists, a
/// client-error status means it is missing, any other failure is an error.
pub fn head_outcome(reply: HeadReply) -> (r: HeadOutcome)
    ensures
        r == head_outcome_spec(reply),
        reply == HeadReply::Found ==> r == HeadOutcome::Exists,
        reply is Failed ==> (r == HeadOutcome::Missing <==> (reply matches HeadReply::Failed(Some(
            s,
        )) && 400 <= s < 500)),
        reply is Failed ==> (r == HeadOutcome::Failed <==> !(reply matches HeadReply::Failed(Some(
            s,
        )) && 400 <= s < 500)),
{
    proof {
        law_head_outcome(reply);
    }
    match reply {
        HeadReply::Found => HeadOutcome::Exists,
        HeadReply::Failed(Some(status)) => {
            if 400 <= status && status < 500 {
                HeadOutcome::Missing
            } else {
                HeadOutcome::Failed
            }
        },
        HeadReply::Failed(None) => HeadOutcome::Failed,
    }
}

/// Whether a removal asks the bucket to delete the object after the
/// existence check: whenever that check did not fail, whether the object
/// was found or not; after a failed check nothing is deleted.
pub fn deletes_after(exist: HeadOutcome) -> (r: bool)
    ensures
        r == (exist != HeadOutcome::Failed),
{
    match exist {
        HeadOutcome::Failed => false,
        _ => true,
    }
}

} // verus!
