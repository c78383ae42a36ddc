//! The system configuration: the policies and limits that an administrator sets.

use crate::seqs::{first_index, lemma_first_index_is, lemma_first_index_none};
use crate::text::same;
use vstd::prelude::*;
use vstd::string::*;

verus! {

/// Server system configurations.
#[derive(Debug)]
pub struct SystemConfig {
    /// Maximum number of unpublished workspaces allowed per technique.
    pub max_num_workspaces: i32,
    /// Number of days a finished workspace is kept before it may be trimmed.
    pub unpublished_days_limit: i32,
    /// Sample budgets with which benchmarks are executed.
    pub spps: Vec<i32>,
    /// The container images on offer, each under its alias.
    pub configs: Vec<(String, String)>,
    pub mailer_smtp_domain: String,
    pub mailer_email_user: String,
    pub mailer_email_password: String,
    /// Polling rate for checking e-mail tasks, in seconds.
    pub mailer_polling_rate: i32,
    /// Timeout for the connection with the SMTP server, in seconds.
    pub mailer_timeout: i32,
}

/// Aliases and images as sequences of characters.
pub open spec fn config_views(configs: Seq<(String, String)>) -> Seq<(Seq<char>, Seq<char>)> {
    configs.map_values(|c: (String, String)| (c.0@, c.1@))
}

/// The entry stands under the alias.
pub open spec fn with_alias(alias: Seq<char>) -> spec_fn((Seq<char>, Seq<char>)) -> bool {
    |c: (Seq<char>, Seq<char>)| c.0 == alias
}

/// The image of the first entry under the alias, if there is one.
pub open spec fn image_of(configs: Seq<(Seq<char>, Seq<char>)>, alias: Seq<char>) -> Option<
    Seq<char>,
> {
    match first_index(configs, with_alias(alias)) {
        Some(i) => Some(configs[i].1),
        None => None,
    }
}

impl SystemConfig {
    /// The container image that the alias stands for, if the alias is on offer.
    pub fn image(&self, alias: &str) -> (image: Option<&String>)
        ensures
            match image {
                Some(image) => image_of(config_views(self.configs@), alias@) == Some(image@),
                None => image_of(config_views(self.configs@), alias@) is None,
            },
    {
        let mut i: usize = 0;
        while i < self.configs.len()
            invariant
                i <= self.configs.len(),
                forall|j: int|
                    0 <= j < i ==> !with_alias(alias@)(#[trigger] config_views(self.configs@)[j]),
            decreases self.configs.len() - i,
        {
            if same(self.configs[i].0.as_str(), alias) {
                proof {
                    lemma_first_index_is(config_views(self.configs@), with_alias(alias@), i as int);
                }
                return Some(&self.configs[i].1);
            }
            i += 1;
        }
        proof {
            lemma_first_index_none(config_views(self.configs@), with_alias(alias@));
        }
        None
    }
}

} // verus!
