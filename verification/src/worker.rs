//! The worker's immutable half: the configuration resolved into ready
//! targets. Construction parses every target URL eagerly and fails on the
//! first one that is not a well-formed absolute URL; no network or file
//! activity happens here.

use vstd::prelude::*;

use crate::config::{Config, Target, TargetView, Variant};
use crate::errors::Error;

verus! {

#[verifier::external_type_specification]
#[verifier::external_body]
pub struct ExUrl(url::Url);

#[verifier::external_type_specification]
#[verifier::external_body]
pub struct ExUrlParseError(url::ParseError);

/// Whether `url::Url::parse` accepts `s`. The parse is a function of the
/// string alone, so its acceptance can carry a name.
pub uninterp spec fn url_accepted(s: Seq<char>) -> bool;

/// Relies on `url::Url::parse`: it returns `Ok` exactly on the well-formed
/// absolute URL strings, deterministically in the string alone.
#[verifier::external_body]
fn parse_url(s: &str) -> (r: Result<url::Url, url::ParseError>)
    ensures
        r is Ok <==> url_accepted(s@),
{
    url::Url::parse(s)
}

/// The worker: experiment identity, the targets with their parsed URLs in
/// configured order, and where captures go.
pub struct Worker {
    pub experiment_name: String,
    pub variant: Variant,
    pub targets: Vec<(Target, url::Url)>,
    pub capture_path: String,
}

/// The targets of a worker, as mathematical values, in order.
pub open spec fn targets_views(ts: Seq<(Target, url::Url)>) -> Seq<TargetView> {
    ts.map_values(|p: (Target, url::Url)| p.0@)
}

impl Worker {
    /// Resolves a configuration into a worker. Fails if and only if some
    /// target URL is not well-formed, naming the first such target.
    pub fn new(config: Config) -> (r: Result<Worker, Error>)
        ensures
            r is Ok <==> (forall|i: int|
                0 <= i < config.targets@.len() ==> url_accepted(#[trigger] config.targets@[i]@.url)),
            r matches Ok(w) ==> {
                &&& w.experiment_name@ == config.experiment_name@
                &&& w.variant == config.variant
                &&& w.capture_path@ == config.capture_path@
                &&& w.targets@.len() == config.targets@.len()
                &&& forall|i: int|
                    0 <= i < w.targets@.len() ==> #[trigger] w.targets@[i].0@ == config.targets@[i]@
            },
            r matches Err(e) ==> (e matches Error::InvalidUrl { index } && 0 <= index
                < config.targets@.len() && !url_accepted(config.targets@[index as int]@.url)
                && (forall|j: int|
                0 <= j < index ==> url_accepted(#[trigger] config.targets@[j]@.url))),
    {
        let mut targets: Vec<(Target, url::Url)> = Vec::new();
        let mut i: usize = 0;
        while i < config.targets.len()
            invariant
                i <= config.targets@.len(),
                targets@.len() == i,
                forall|j: int|
                    0 <= j < i ==> #[trigger] targets@[j].0@ == config.targets@[j]@,
                forall|j: int|
                    0 <= j < i ==> url_accepted(#[trigger] config.targets@[j]@.url),
            decreases config.targets@.len() - i,
        {
            let t = &config.targets[i];
            match parse_url(t.url.as_str()) {
                Ok(u) => {
                    targets.push((Target { id: t.id.clone(), url: t.url.clone() }, u));
                },
                Err(_) => {
                    proof {
                        assert(!url_accepted(config.targets@[i as int]@.url));
                    }
                    return Err(Error::InvalidUrl { index: i });
                },
            }
            i = i + 1;
        }
        Ok(
            Worker {
                experiment_name: config.experiment_name,
                variant: config.variant,
                targets,
                capture_path: config.capture_path,
            },
        )
    }
}

} // verus!
