//! The configuration: the domains to block.

use crate::error::PlnkError;
use crate::text::{is_blank, is_blank_text};
use vstd::prelude::*;
use vstd::string::StringExecFns;

verus! {

/// The variable that names the home directory.
pub const HOME_ENV: &'static str = "HOME";

/// Where the configuration file lies below the home directory.
pub const PLNK_PARTIAL_PATH: &'static str = ".config/plnk/config.toml";

/// Whether none of `domains` is empty or blank.
pub open spec fn no_blank_domain(domains: Seq<Seq<char>>) -> bool {
    forall|i: int| 0 <= i < domains.len() ==> !is_blank(#[trigger] domains[i])
}

/// The domains to block, in the order in which they were configured. A
/// domain may stand in the list more than once.
#[derive(Clone, Debug, PartialEq, Eq)]
pub struct Config {
    pub blocked_domains: Vec<String>,
}

impl Config {
    /// Whether the configuration can be used: none of its domains is empty
    /// or blank.
    pub open spec fn wf(self) -> bool {
        no_blank_domain(self.blocked_domains.deep_view())
    }

    /// Makes a configuration of `blocked_domains`, and refuses them where
    /// one is empty or blank.
    pub fn new(blocked_domains: Vec<String>) -> (config: Result<Config, PlnkError>)
        ensures
            match config {
                Ok(config) => config.wf() && config.blocked_domains == blocked_domains,
                Err(error) => error == PlnkError::EmptyDomain && !no_blank_domain(
                    blocked_domains.deep_view(),
                ),
            },
    {
        let mut i: usize = 0;
        while i < blocked_domains.len()
            invariant
                i <= blocked_domains.len(),
                no_blank_domain(blocked_domains.deep_view().take(i as int)),
            decreases blocked_domains.len() - i,
        {
            if is_blank_text(blocked_domains[i].as_str()) {
                assert(is_blank(blocked_domains.deep_view()[i as int]));
                return Err(PlnkError::EmptyDomain);
            }
            assert forall|k: int| 0 <= k < i + 1 implies !is_blank(
                #[trigger] blocked_domains.deep_view().take(i as int + 1)[k],
            ) by {
                if k < i {
                    assert(blocked_domains.deep_view().take(i as int)[k]
                        == blocked_domains.deep_view()[k]);
                }
            }
            i = i + 1;
        }
        assert(blocked_domains.deep_view().take(i as int) == blocked_domains.deep_view());
        Ok(Config { blocked_domains })
    }
}

/// The path of the configuration file of a user whose home directory is
/// `home`.
pub fn config_path(home: &str) -> (path: String)
    ensures
        path@ == home@ + seq!['/'] + PLNK_PARTIAL_PATH@,
{
    proof {
        reveal_strlit("/");
    }
    assert("/"@ == seq!['/']);
    String::from_str(home).concat("/").concat(PLNK_PARTIAL_PATH)
}

} // verus!
