//! Which storage backend the application state is built with, and the serve
//! prefix that lets stored URLs be turned back into storage keys.
use vstd::prelude::*;

use crate::configuration::Configs;
use crate::storage::cloud::{r2_url_spec, s3_base_spec, s3_public_base, lemma_s3_url_roundtrip};
use crate::storage::localstorage::{joined, lemma_key_from_joined_url, lemma_local_url_roundtrip, trim_trailing_slashes};
use crate::storage::storage_util::key_from_url_spec;
use crate::text::{chars_of, str_eq, trim_end_char};

verus! {

broadcast use vstd::string::group_string_axioms;

/// The storage backend to construct, with the settings it is built from.
#[derive(Debug, Clone)]
pub enum StorageBackend {
    /// AWS S3: bucket and region.
    Aws { bucket: String, region: String },
    /// Cloudflare R2 through its S3-compatible API.
    Cloudflare {
        access_key: String,
        secret_key: String,
        endpoint: String,
        bucket: String,
        key_prefix: String,
        public_url: String,
    },
    /// The local file system: base path and serve prefix.
    Local { base_path: String, serve_prefix: String },
}

/// The backend and the serve prefix of its URLs.
#[derive(Debug, Clone)]
pub struct StoragePlan {
    pub backend: StorageBackend,
    /// The URL prefix of stored files, used to recover storage keys from URLs.
    pub serve_prefix: String,
}

/// The serve prefix that a configuration's backend gets.
pub open spec fn serve_prefix_spec(c: Configs) -> Seq<char> {
    if c.storage_provider@ == "aws"@ {
        s3_base_spec(c.aws_bucket@, c.aws_region@)
    } else if c.storage_provider@ == "cloudflare"@ {
        r2_serve_prefix_spec(c.r2_public_url@, c.r2_endpoint@, c.r2_key_prefix@)
    } else {
        c.storage_local_serve_prefix@
    }
}

/// The serve prefix of an R2 bucket: its public URL when it has one;
/// otherwise the endpoint, followed by the key prefix when one is set, since
/// URLs on the endpoint carry the full key.
pub open spec fn r2_serve_prefix_spec(public_url: Seq<char>, endpoint: Seq<char>, key_prefix: Seq<char>) -> Seq<char> {
    if trim_end_char(public_url, '/').len() != 0 {
        public_url
    } else if trim_end_char(key_prefix, '/').len() == 0 {
        endpoint
    } else {
        joined(trim_end_char(endpoint, '/'), trim_end_char(key_prefix, '/'))
    }
}

/// Whether a plan's backend is the one the configuration selects, with its settings.
pub open spec fn backend_spec(c: Configs, b: StorageBackend) -> bool {
    if c.storage_provider@ == "aws"@ {
        b matches StorageBackend::Aws { bucket, region } && bucket@ == c.aws_bucket@ && region@ == c.aws_region@
    } else if c.storage_provider@ == "cloudflare"@ {
        b matches StorageBackend::Cloudflare { access_key, secret_key, endpoint, bucket, key_prefix, public_url }
            && access_key@ == c.r2_access_key@ && secret_key@ == c.r2_secret_key@ && endpoint@ == c.r2_endpoint@
            && bucket@ == c.r2_bucket@ && key_prefix@ == c.r2_key_prefix@ && public_url@ == c.r2_public_url@
    } else {
        b matches StorageBackend::Local { base_path, serve_prefix } && base_path@ == c.storage_local_path@
            && serve_prefix@ == c.storage_local_serve_prefix@
    }
}

/// Chooses the storage backend named by `storage_provider` ("aws",
/// "cloudflare", anything else is local) and the serve prefix of its URLs:
/// the bucket URL for S3; for R2 the public URL when set, else the endpoint
/// with the key prefix (`r2_serve_prefix_spec`); the local serve prefix
/// otherwise.
pub fn plan_storage(config: &Configs) -> (p: StoragePlan)
    ensures
        backend_spec(*config, p.backend),
        p.serve_prefix@ == serve_prefix_spec(*config),
{
    if str_eq(config.storage_provider.as_str(), "aws") {
        StoragePlan {
            backend: StorageBackend::Aws { bucket: config.aws_bucket.clone(), region: config.aws_region.clone() },
            serve_prefix: s3_public_base(config.aws_bucket.as_str(), config.aws_region.as_str()),
        }
    } else if str_eq(config.storage_provider.as_str(), "cloudflare") {
        let public_trimmed = trim_trailing_slashes(config.r2_public_url.as_str());
        let prefix_trimmed = trim_trailing_slashes(config.r2_key_prefix.as_str());
        let serve_prefix = if chars_of(public_trimmed.as_str()).len() != 0 {
            config.r2_public_url.clone()
        } else if chars_of(prefix_trimmed.as_str()).len() == 0 {
            config.r2_endpoint.clone()
        } else {
            let mut sp = trim_trailing_slashes(config.r2_endpoint.as_str());
            sp.append("/");
            sp.append(prefix_trimmed.as_str());
            sp
        };
        StoragePlan {
            backend: StorageBackend::Cloudflare {
                access_key: config.r2_access_key.clone(),
                secret_key: config.r2_secret_key.clone(),
                endpoint: config.r2_endpoint.clone(),
                bucket: config.r2_bucket.clone(),
                key_prefix: config.r2_key_prefix.clone(),
                public_url: config.r2_public_url.clone(),
            },
            serve_prefix,
        }
    } else {
        StoragePlan {
            backend: StorageBackend::Local {
                base_path: config.storage_local_path.clone(),
                serve_prefix: config.storage_local_serve_prefix.clone(),
            },
            serve_prefix: config.storage_local_serve_prefix.clone(),
        }
    }
}

/// The URL at which the configured backend serves a file stored under `raw_key`.
pub open spec fn stored_url_spec(c: Configs, raw_key: Seq<char>) -> Seq<char> {
    if c.storage_provider@ == "aws"@ {
        joined(s3_base_spec(c.aws_bucket@, c.aws_region@), raw_key)
    } else if c.storage_provider@ == "cloudflare"@ {
        r2_url_spec(
            trim_end_char(c.r2_key_prefix@, '/'),
            trim_end_char(c.r2_public_url@, '/'),
            trim_end_char(c.r2_endpoint@, '/'),
            raw_key,
        )
    } else {
        joined(trim_end_char(c.storage_local_serve_prefix@, '/'), raw_key)
    }
}

/// The serve prefix gives back the stored key: recovering the key from the
/// URL of a stored file with the plan's serve prefix yields the key that the
/// backend stored (and deletes) the file under, for every configuration.
pub proof fn lemma_serve_prefix_recovers_key(c: Configs, raw_key: Seq<char>)
    ensures
        key_from_url_spec(stored_url_spec(c, raw_key), serve_prefix_spec(c)) == raw_key,
{
    if c.storage_provider@ == "aws"@ {
        lemma_s3_url_roundtrip(c.aws_bucket@, c.aws_region@, raw_key);
    } else if c.storage_provider@ == "cloudflare"@ {
        let public = trim_end_char(c.r2_public_url@, '/');
        let kp = trim_end_char(c.r2_key_prefix@, '/');
        let ep = trim_end_char(c.r2_endpoint@, '/');
        if public.len() != 0 {
            lemma_local_url_roundtrip(c.r2_public_url@, raw_key);
        } else if kp.len() == 0 {
            lemma_local_url_roundtrip(c.r2_endpoint@, raw_key);
        } else {
            reveal_strlit("/");
            let sp = joined(ep, kp);
            lemma_trim_end_nonempty(c.r2_key_prefix@);
            assert(sp.last() == kp.last());
            assert(trim_end_char(sp, '/') == sp);
            assert(joined(ep, joined(kp, raw_key)) =~= joined(sp, raw_key));
            lemma_key_from_joined_url(sp, raw_key);
        }
    } else {
        lemma_local_url_roundtrip(c.storage_local_serve_prefix@, raw_key);
    }
}

/// A non-empty trimmed string does not end in '/'.
proof fn lemma_trim_end_nonempty(s: Seq<char>)
    ensures
        trim_end_char(s, '/').len() != 0 ==> trim_end_char(s, '/').last() != '/',
    decreases s.len(),
{
    if s.len() > 0 && s.last() == '/' {
        lemma_trim_end_nonempty(s.drop_last());
    }
}

} // verus!
