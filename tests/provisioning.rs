use guild_sync::events::{webhook_events, WebhookEvent};
use guild_sync::github::Github;
use guild_sync::inventory::ChannelKind;
use guild_sync::names::plan;
use guild_sync::provision::{Action, ChannelRequest, ContentType, HookRequest, Pass, PassError, Reply, Stage};
use guild_sync::supervisor::{supervise, LoopAction, LoopEvent, LoopState, DELAY_MS};

fn strings(v: &[&str]) -> Vec<String> {
    v.iter().map(|s| s.to_string()).collect()
}

fn channel(name: &str, kind: ChannelKind, parent: Option<u64>) -> Action {
    Action::CreateChannel(ChannelRequest { name: name.to_string(), kind, parent })
}

/// Drives a pass to its end with successful replies, recording each action.
fn run(pass: &mut Pass, first_id: u64) -> Vec<Action> {
    let mut actions = Vec::new();
    let mut id = first_id;
    loop {
        let action = pass.next_action();
        let reply = match &action {
            Action::Finished => break,
            Action::CreateChannel(_) => {
                id += 1;
                Reply::ChannelCreated(id)
            }
            Action::CreateWebhook { channel, .. } => {
                Reply::WebhookCreated(format!("https://chat.example/hooks/{}", channel))
            }
            Action::RegisterHook(_) => Reply::HookRegistered,
        };
        actions.push(action);
        pass.on_reply(reply).unwrap();
    }
    actions
}

#[test]
fn catalog_has_every_event_once() {
    let events = webhook_events();
    assert_eq!(events.len(), 47);
    for i in 0..events.len() {
        for j in 0..i {
            assert_ne!(events[i], events[j]);
        }
    }
    assert_eq!(events[0], WebhookEvent::BranchProtectionRule);
    assert_eq!(events[46], WebhookEvent::Watch);
}

#[test]
fn new_keeps_configuration() {
    let g = Github::new("org".to_string(), None, "bot".to_string(), 42);
    assert_eq!(g.org, "org");
    assert_eq!(g.github_token, None);
    assert_eq!(g.bot_token, "bot");
    assert_eq!(g.guild_id, 42);
    assert_eq!(g.webhook_events, webhook_events());
}

#[test]
fn happy_path_provisions_one_repository() {
    let g = Github::new("org".to_string(), Some("t".to_string()), "bot".to_string(), 1);
    let mut pass = g.update(&strings(&["demo"]), &Vec::new());
    assert_eq!(pass.targets, strings(&["demo"]));
    let actions = run(&mut pass, 100);
    let expected = vec![
        channel("demo", ChannelKind::Category, None),
        channel("announcement", ChannelKind::News, Some(101)),
        channel("demo-general", ChannelKind::Text, Some(101)),
        channel("git", ChannelKind::Text, Some(101)),
        Action::CreateWebhook { channel: 104, name: "GitHub".to_string() },
        Action::RegisterHook(HookRequest {
            repo: "demo".to_string(),
            name: "web".to_string(),
            active: true,
            url: "https://chat.example/hooks/104/github".to_string(),
            content_type: ContentType::Json,
            secret: None,
            events: webhook_events(),
        }),
    ];
    assert_eq!(actions, expected);
    assert!(pass.is_finished());
    assert_eq!(pass.next_action(), Action::Finished);
    let again = g.update(&strings(&["demo"]), &strings(&["demo"]));
    assert!(again.is_finished());
}

#[test]
fn partial_failure_masks_the_repository() {
    let g = Github::new("org".to_string(), None, "bot".to_string(), 1);
    let mut pass = g.update(&strings(&["demo"]), &Vec::new());
    assert_eq!(pass.on_reply(Reply::ChannelCreated(7)), Ok(()));
    assert_eq!(pass.next_action(), channel("announcement", ChannelKind::News, Some(7)));
    assert_eq!(
        pass.on_reply(Reply::Failed),
        Err(PassError::StepFailed { index: 0, stage: Stage::Announcement })
    );
    assert_eq!(pass.stage, Stage::Announcement);
    let (state, action) = supervise(LoopState::Reconciling, LoopEvent::PassFailed);
    assert_eq!((state, action), (LoopState::Aborted, LoopAction::Stop));
    // The channel group alone makes a later pass count the repository as done.
    assert_eq!(plan(&strings(&["demo"]), &strings(&["demo"])), Vec::<String>::new());
}

#[test]
fn repositories_are_provisioned_one_after_another() {
    let mut pass = Pass::new(strings(&["A", "B"]), webhook_events());
    let actions = run(&mut pass, 0);
    assert_eq!(actions.len(), 12);
    assert_eq!(actions[0], channel("A", ChannelKind::Category, None));
    assert_eq!(actions[2], channel("A-general", ChannelKind::Text, Some(1)));
    match &actions[5] {
        Action::RegisterHook(h) => assert_eq!(h.repo, "A"),
        other => panic!("unexpected action {:?}", other),
    }
    assert_eq!(actions[6], channel("B", ChannelKind::Category, None));
    assert_eq!(actions[8], channel("B-general", ChannelKind::Text, Some(5)));
    match &actions[11] {
        Action::RegisterHook(h) => assert_eq!(h.repo, "B"),
        other => panic!("unexpected action {:?}", other),
    }
}

#[test]
fn replies_that_do_not_answer_the_step_are_refused() {
    let mut pass = Pass::new(strings(&["A"]), Vec::new());
    assert_eq!(
        pass.on_reply(Reply::HookRegistered),
        Err(PassError::UnexpectedReply { index: 0, stage: Stage::Category })
    );
    assert_eq!(pass.stage, Stage::Category);
    let mut done = Pass::new(Vec::new(), Vec::new());
    assert_eq!(
        done.on_reply(Reply::ChannelCreated(1)),
        Err(PassError::UnexpectedReply { index: 0, stage: Stage::Category })
    );
}

#[test]
fn loop_runs_passes_and_stops_on_failure() {
    assert_eq!(supervise(LoopState::Idle, LoopEvent::Tick), (LoopState::Reconciling, LoopAction::StartPass));
    assert_eq!(
        supervise(LoopState::Reconciling, LoopEvent::PassCompleted),
        (LoopState::Idle, LoopAction::Sleep { ms: 10000 })
    );
    assert_eq!(DELAY_MS, 10000);
    assert_eq!(supervise(LoopState::Aborted, LoopEvent::Tick), (LoopState::Aborted, LoopAction::Stop));
    assert_eq!(supervise(LoopState::Reconciling, LoopEvent::Tick), (LoopState::Reconciling, LoopAction::Nothing));
    assert_eq!(supervise(LoopState::Idle, LoopEvent::PassFailed), (LoopState::Idle, LoopAction::Nothing));
}
