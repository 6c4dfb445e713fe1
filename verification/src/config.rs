//! Configuration data for a collection run: the experiment being observed,
//! its variant tag, the scrape targets, and the capture file path.

use vstd::prelude::*;
use vstd::string::StringExecFns;

verus! {

/// The experiment condition a run belongs to, carried into every record so
/// that downstream analysis can compare the two conditions.
#[derive(Clone, Copy, Debug, PartialEq, Eq, Structural)]
pub enum Variant {
    Baseline,
    Comparison,
}

/// One scrape endpoint: a stable `id` label used for tagging output, and the
/// URL to fetch. The `id` is opaque and not required to be unique.
#[derive(Debug)]
pub struct Target {
    pub id: String,
    pub url: String,
}

/// The mathematical content of a `Target`: both fields as character sequences.
pub ghost struct TargetView {
    pub id: Seq<char>,
    pub url: Seq<char>,
}

impl View for Target {
    type V = TargetView;

    open spec fn view(&self) -> TargetView {
        TargetView { id: self.id@, url: self.url@ }
    }
}

/// The full configuration, loaded once and immutable for the process lifetime.
#[derive(Debug)]
pub struct Config {
    /// The name of the experiment being observed
    pub experiment_name: String,
    /// The variant of the experiment, generally 'baseline' or 'comparison'
    pub variant: Variant,
    /// The targets for this experiment.
    pub targets: Vec<Target>,
    /// The file to record captures into
    pub capture_path: String,
}

/// The path where the configuration file is looked for when the command line
/// names none.
pub fn default_config_path() -> (s: String)
    ensures
        s@ == "/etc/vector/soak/observer.yaml"@,
{
    String::from_str("/etc/vector/soak/observer.yaml")
}

} // verus!
