//! The provisioning sequence of a pass as a state machine: the pass says
//! which outside call comes next, and takes back what that call returned.
//! Repositories are provisioned one after another, each through six steps.
//! There is no rollback: a failed step ends the pass and leaves the steps
//! before it in place. This is a deliberate policy: a channel group left by a
//! failed pass satisfies the existence check of later passes, so the
//! repository counts as provisioned and is not completed automatically.
use vstd::prelude::*;
use crate::events::WebhookEvent;
use crate::inventory::ChannelKind;

verus! {

/// A step of the provisioning sequence of one repository, in order.
#[derive(PartialEq, Eq, Structural, Clone, Copy, Debug)]
pub enum Stage {
    /// Create the channel group named after the repository.
    Category,
    /// Create the `announcement` channel in the group.
    Announcement,
    /// Create the `<repository>-general` text channel in the group.
    General,
    /// Create the `git` text channel in the group.
    Git,
    /// Create the inbound webhook on the `git` channel.
    Webhook,
    /// Register the hook on the repository, pointing at the webhook.
    Hook,
}

/// The position of a step in the sequence.
pub open spec fn stage_rank(s: Stage) -> nat {
    match s {
        Stage::Category => 0,
        Stage::Announcement => 1,
        Stage::General => 2,
        Stage::Git => 3,
        Stage::Webhook => 4,
        Stage::Hook => 5,
    }
}

/// The payload format of a hook's deliveries.
#[derive(PartialEq, Eq, Structural, Clone, Copy, Debug)]
pub enum ContentType {
    Json,
    Form,
}

/// A channel to create in the guild.
#[derive(Clone, Debug, PartialEq, Eq)]
pub struct ChannelRequest {
    pub name: String,
    pub kind: ChannelKind,
    /// The channel group to create it in.
    pub parent: Option<u64>,
}

/// A hook to register on a repository.
#[derive(Clone, Debug, PartialEq, Eq)]
pub struct HookRequest {
    pub repo: String,
    pub name: String,
    pub active: bool,
    pub url: String,
    pub content_type: ContentType,
    pub secret: Option<String>,
    pub events: Vec<WebhookEvent>,
}

/// The next outside call of a pass.
#[derive(Clone, Debug, PartialEq, Eq)]
pub enum Action {
    CreateChannel(ChannelRequest),
    CreateWebhook { channel: u64, name: String },
    RegisterHook(HookRequest),
    /// Every repository of the pass is provisioned.
    Finished,
}

/// An action, with texts in place of strings.
pub enum ActionV {
    CreateChannel { name: Seq<char>, kind: ChannelKind, parent: Option<u64> },
    CreateWebhook { channel: u64, name: Seq<char> },
    RegisterHook {
        repo: Seq<char>,
        name: Seq<char>,
        active: bool,
        url: Seq<char>,
        content_type: ContentType,
        secret: Option<Seq<char>>,
        events: Seq<WebhookEvent>,
    },
    Finished,
}

impl View for Action {
    type V = ActionV;

    open spec fn view(&self) -> ActionV {
        match self {
            Action::CreateChannel(c) => ActionV::CreateChannel { name: c.name@, kind: c.kind, parent: c.parent },
            Action::CreateWebhook { channel, name } => ActionV::CreateWebhook { channel: *channel, name: name@ },
            Action::RegisterHook(h) => ActionV::RegisterHook {
                repo: h.repo@,
                name: h.name@,
                active: h.active,
                url: h.url@,
                content_type: h.content_type,
                secret: match h.secret {
                    Some(s) => Some(s@),
                    None => None,
                },
                events: h.events@,
            },
            Action::Finished => ActionV::Finished,
        }
    }
}

/// What the outside call of the current step returned.
#[derive(Clone, Debug, PartialEq, Eq)]
pub enum Reply {
    /// A channel was created, with this id.
    ChannelCreated(u64),
    /// A webhook was created, with this delivery URL.
    WebhookCreated(String),
    /// The hook was registered.
    HookRegistered,
    /// The call failed.
    Failed,
}

/// A reply, with texts in place of strings.
pub enum ReplyV {
    ChannelCreated(u64),
    WebhookCreated(Seq<char>),
    HookRegistered,
    Failed,
}

impl View for Reply {
    type V = ReplyV;

    open spec fn view(&self) -> ReplyV {
        match self {
            Reply::ChannelCreated(id) => ReplyV::ChannelCreated(*id),
            Reply::WebhookCreated(url) => ReplyV::WebhookCreated(url@),
            Reply::HookRegistered => ReplyV::HookRegistered,
            Reply::Failed => ReplyV::Failed,
        }
    }
}

/// Why a pass stopped before its end.
#[derive(PartialEq, Eq, Structural, Clone, Copy, Debug)]
pub enum PassError {
    /// The call of this step, for the repository at this index, failed.
    StepFailed { index: usize, stage: Stage },
    /// The reply does not answer the call of this step.
    UnexpectedReply { index: usize, stage: Stage },
}

/// A reconciliation pass in progress: the repositories to provision, in
/// order, and how far the pass has come.
pub struct Pass {
    /// The repositories to provision, in listing order.
    pub targets: Vec<String>,
    /// The event types each hook subscribes to.
    pub events: Vec<WebhookEvent>,
    /// The repository being provisioned; all before it are done.
    pub index: usize,
    /// The next step for that repository.
    pub stage: Stage,
    /// The id of its channel group, once created.
    pub category: u64,
    /// The id of its `git` channel, once created.
    pub git_channel: u64,
    /// The delivery URL of its webhook, once created.
    pub webhook_url: String,
}

/// A pass, with texts in place of strings.
pub struct PassV {
    pub targets: Seq<Seq<char>>,
    pub events: Seq<WebhookEvent>,
    pub index: nat,
    pub stage: Stage,
    pub category: u64,
    pub git_channel: u64,
    pub webhook_url: Seq<char>,
}

impl View for Pass {
    type V = PassV;

    open spec fn view(&self) -> PassV {
        PassV {
            targets: self.targets@.map_values(|s: String| s@),
            events: self.events@,
            index: self.index as nat,
            stage: self.stage,
            category: self.category,
            git_channel: self.git_channel,
            webhook_url: self.webhook_url@,
        }
    }
}

impl PassV {
    /// Every repository of the pass is provisioned.
    pub open spec fn finished(self) -> bool {
        self.index >= self.targets.len()
    }

    /// The outside call that the current step makes.
    pub open spec fn action(self) -> ActionV {
        if self.finished() {
            ActionV::Finished
        } else {
            let repo = self.targets[self.index as int];
            match self.stage {
                Stage::Category => ActionV::CreateChannel { name: repo, kind: ChannelKind::Category, parent: None },
                Stage::Announcement => ActionV::CreateChannel {
                    name: "announcement"@,
                    kind: ChannelKind::News,
                    parent: Some(self.category),
                },
                Stage::General => ActionV::CreateChannel {
                    name: repo + "-general"@,
                    kind: ChannelKind::Text,
                    parent: Some(self.category),
                },
                Stage::Git => ActionV::CreateChannel {
                    name: "git"@,
                    kind: ChannelKind::Text,
                    parent: Some(self.category),
                },
                Stage::Webhook => ActionV::CreateWebhook { channel: self.git_channel, name: "GitHub"@ },
                Stage::Hook => ActionV::RegisterHook {
                    repo,
                    name: "web"@,
                    active: true,
                    url: self.webhook_url + "/github"@,
                    content_type: ContentType::Json,
                    secret: None,
                    events: self.events,
                },
            }
        }
    }

    /// The pass after a reply that answers the current step, or `None`
    /// where the reply does not answer it (or the call failed).
    pub open spec fn step(self, reply: ReplyV) -> Option<PassV> {
        if self.finished() {
            None
        } else {
            match (self.stage, reply) {
                (Stage::Category, ReplyV::ChannelCreated(id)) => Some(
                    PassV { stage: Stage::Announcement, category: id, ..self },
                ),
                (Stage::Announcement, ReplyV::ChannelCreated(_)) => Some(PassV { stage: Stage::General, ..self }),
                (Stage::General, ReplyV::ChannelCreated(_)) => Some(PassV { stage: Stage::Git, ..self }),
                (Stage::Git, ReplyV::ChannelCreated(id)) => Some(
                    PassV { stage: Stage::Webhook, git_channel: id, ..self },
                ),
                (Stage::Webhook, ReplyV::WebhookCreated(url)) => Some(
                    PassV { stage: Stage::Hook, webhook_url: url, ..self },
                ),
                (Stage::Hook, ReplyV::HookRegistered) => Some(
                    PassV { index: self.index + 1, stage: Stage::Category, ..self },
                ),
                _ => None,
            }
        }
    }

    /// The error with which a pass stops on a reply that it does not accept.
    pub open spec fn error(self, reply: ReplyV) -> PassError {
        if reply is Failed && !self.finished() {
            PassError::StepFailed { index: self.index as usize, stage: self.stage }
        } else {
            PassError::UnexpectedReply { index: self.index as usize, stage: self.stage }
        }
    }
}

impl Pass {
    /// The index stays within the targets.
    pub open spec fn wf(&self) -> bool {
        self.index <= self.targets.len()
    }

    /// A pass over `targets`, at the first step of the first repository.
    pub fn new(targets: Vec<String>, events: Vec<WebhookEvent>) -> (r: Pass)
        ensures
            r.wf(),
            r@.targets == targets@.map_values(|s: String| s@),
            r@.events == events@,
            r@.index == 0,
            r@.stage == Stage::Category,
    {
        Pass {
            targets,
            events,
            index: 0,
            stage: Stage::Category,
            category: 0,
            git_channel: 0,
            webhook_url: String::new(),
        }
    }

    /// Whether every repository of the pass is provisioned.
    pub fn is_finished(&self) -> (r: bool)
        requires
            self.wf(),
        ensures
            r == self@.finished(),
    {
        self.index >= self.targets.len()
    }

    /// The outside call that the current step makes.
    pub fn next_action(&self) -> (a: Action)
        requires
            self.wf(),
        ensures
            a@ == self@.action(),
    {
        if self.index >= self.targets.len() {
            return Action::Finished;
        }
        let repo = self.targets[self.index].clone();
        match self.stage {
            Stage::Category => Action::CreateChannel(
                ChannelRequest { name: repo, kind: ChannelKind::Category, parent: None },
            ),
            Stage::Announcement => Action::CreateChannel(
                ChannelRequest {
                    name: String::from_str("announcement"),
                    kind: ChannelKind::News,
                    parent: Some(self.category),
                },
            ),
            Stage::General => Action::CreateChannel(
                ChannelRequest {
                    name: repo.concat("-general"),
                    kind: ChannelKind::Text,
                    parent: Some(self.category),
                },
            ),
            Stage::Git => Action::CreateChannel(
                ChannelRequest {
                    name: String::from_str("git"),
                    kind: ChannelKind::Text,
                    parent: Some(self.category),
                },
            ),
            Stage::Webhook => Action::CreateWebhook {
                channel: self.git_channel,
                name: String::from_str("GitHub"),
            },
            Stage::Hook => Action::RegisterHook(
                HookRequest {
                    repo,
                    name: String::from_str("web"),
                    active: true,
                    url: self.webhook_url.clone().concat("/github"),
                    content_type: ContentType::Json,
                    secret: None,
                    events: self.events.clone(),
                },
            ),
        }
    }

    /// Takes the reply to the current step's call. A reply that answers it
    /// moves the pass on; any other, a failure among them, leaves the pass
    /// as it was and says which step stopped it.
    pub fn on_reply(&mut self, reply: Reply) -> (r: Result<(), PassError>)
        requires
            old(self).wf(),
        ensures
            final(self).wf(),
            match old(self)@.step(reply@) {
                Some(next) => r is Ok && final(self)@ == next,
                None => r == Err::<(), PassError>(old(self)@.error(reply@)) && final(self)@ == old(self)@,
            },
    {
        let index = self.index;
        let stage = self.stage;
        if self.index >= self.targets.len() {
            return Err(PassError::UnexpectedReply { index, stage });
        }
        match (self.stage, reply) {
            (Stage::Category, Reply::ChannelCreated(id)) => {
                self.stage = Stage::Announcement;
                self.category = id;
            },
            (Stage::Announcement, Reply::ChannelCreated(_)) => {
                self.stage = Stage::General;
            },
            (Stage::General, Reply::ChannelCreated(_)) => {
                self.stage = Stage::Git;
            },
            (Stage::Git, Reply::ChannelCreated(id)) => {
                self.stage = Stage::Webhook;
                self.git_channel = id;
            },
            (Stage::Webhook, Reply::WebhookCreated(url)) => {
                self.stage = Stage::Hook;
                self.webhook_url = url;
            },
            (Stage::Hook, Reply::HookRegistered) => {
                self.stage = Stage::Category;
                self.index = self.index + 1;
            },
            (_, Reply::Failed) => {
                return Err(PassError::StepFailed { index, stage });
            },
            _ => {
                return Err(PassError::UnexpectedReply { index, stage });
            },
        }
        Ok(())
    }
}

/// Provisioning is sequential: a reply that a step accepts either moves to
/// the next step of the same repository, or, after the last step (the hook
/// registration), to the first step of the next repository in listing
/// order. So every call for one repository comes before any call for the
/// repositories after it.
pub proof fn law_sequential_steps(s: PassV, reply: ReplyV)
    requires
        s.step(reply) is Some,
    ensures
        ({
            let t = s.step(reply)->Some_0;
            &&& t.targets == s.targets
            &&& (t.index == s.index && stage_rank(t.stage) == stage_rank(s.stage) + 1)
                || (s.stage == Stage::Hook && t.index == s.index + 1 && t.stage == Stage::Category)
        }),
{
}

} // verus!
