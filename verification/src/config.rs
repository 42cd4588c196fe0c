//! What the operator configures, and what follows from it for delivery.

use vstd::prelude::*;

verus! {

/// The settings of one run. They are read once and never changed.
#[derive(Debug)]
pub struct Config {
    pub slack_token: String,
    pub slack_channel: String,
    pub github_token: String,
    /// The repositories to watch, each as `owner/name`.
    pub repos: Vec<String>,
    pub filter_labels: Vec<String>,
    pub discourse_base_url: String,
    /// The names of the forum categories to watch.
    pub discourse_categories: Vec<String>,
    /// The forum user names of the team.
    pub discourse_members: Vec<String>,
}

/// Where a finished report goes.
#[derive(Clone, Copy, Debug, PartialEq, Eq, Structural)]
pub enum Delivery {
    /// To the configured chat channel.
    Chat,
    /// To standard output.
    Print,
    /// Nowhere: there is nothing to say.
    Skip,
}

impl Config {
    /// Whether a chat channel is configured: both the token and the channel are given.
    pub open spec fn has_chat(self) -> bool {
        self.slack_token@.len() > 0 && self.slack_channel@.len() > 0
    }

    /// Where a report goes. With a chat channel configured it is sent there,
    /// but only when it lists something; without one it is printed, even
    /// when it is empty.
    pub open spec fn delivery(self, has_items: bool) -> Delivery {
        if self.has_chat() {
            if has_items {
                Delivery::Chat
            } else {
                Delivery::Skip
            }
        } else {
            Delivery::Print
        }
    }

    /// Decides where a report goes.
    pub fn choose_delivery(&self, has_items: bool) -> (r: Delivery)
        ensures
            r == self.delivery(has_items),
    {
        if !self.slack_token.as_str().is_empty() && !self.slack_channel.as_str().is_empty() {
            if has_items {
                Delivery::Chat
            } else {
                Delivery::Skip
            }
        } else {
            Delivery::Print
        }
    }
}

} // verus!
