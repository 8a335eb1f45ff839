//! The reconciler's configuration, and the start of each pass.
use vstd::prelude::*;
use crate::events::{event_catalog, webhook_events, WebhookEvent};
use crate::names::{canonical_all, missing, plan, texts};
use crate::provision::{Pass, Stage};

verus! {

/// The organization to mirror, the guild to mirror it into, and the
/// credentials of both sides.
pub struct Github {
    /// The source-control token; without one, access is unauthenticated.
    pub github_token: Option<String>,
    pub bot_token: String,
    pub guild_id: u64,
    pub org: String,
    /// The event types each hook registration subscribes to.
    pub webhook_events: Vec<WebhookEvent>,
}

impl Github {
    /// A configuration whose hooks subscribe to the full event catalog.
    pub fn new(org: String, github_token: Option<String>, bot_token: String, guild_id: u64) -> (r: Self)
        ensures
            r.org == org,
            r.github_token == github_token,
            r.bot_token == bot_token,
            r.guild_id == guild_id,
            r.webhook_events@ == event_catalog(),
    {
        Github { github_token, bot_token, guild_id, org, webhook_events: webhook_events() }
    }

    /// Starts a pass over the repository listing `repos`, given the names of
    /// the guild's channel groups: the pass provisions, in listing order,
    /// each repository without a channel group of the same canonical name
    /// whose canonical name is not blacklisted.
    pub fn update(&self, repos: &Vec<String>, categories: &Vec<String>) -> (r: Pass)
        ensures
            r.wf(),
            r@.targets == missing(
                texts(repos@),
                canonical_all(texts(repos@)),
                canonical_all(texts(categories@)),
            ),
            r@.events == self.webhook_events@,
            r@.index == 0,
            r@.stage == Stage::Category,
    {
        let targets = plan(repos, categories);
        Pass::new(targets, self.webhook_events.clone())
    }
}

} // verus!
