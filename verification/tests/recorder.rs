use agent_rep::{
    log_action, register_agent, Action, ActionLogged, ActionOutcome, ActionType, Agent,
    AgentRepError, AgentType, LogAction, RegisterAgent, MAX_METADATA_LEN, MAX_PROTOCOL_LEN,
};
use anchor_lang::prelude::Pubkey;

fn key(byte: u8) -> Pubkey {
    Pubkey::new_from_array([byte; 32])
}

fn fresh_agent(now: i64) -> Agent {
    let (agent, _, _) = register_agent(
        RegisterAgent { agent: key(1), owner: key(2), stake_amount: 1000 },
        String::from("alpha"),
        String::from("an agent"),
        AgentType::Trading,
        now,
    )
    .unwrap();
    agent
}

fn log(
    agent: &mut Agent,
    input_value: u64,
    output_value: u64,
    outcome: ActionOutcome,
    now: i64,
) -> Result<(Action, ActionLogged), AgentRepError> {
    log_action(
        LogAction { agent: key(1), action: key(9) },
        agent,
        ActionType::Trade,
        String::from("venue"),
        input_value,
        output_value,
        outcome,
        String::from("note"),
        now,
    )
}

#[test]
fn logged_action_holds_the_callers_values() {
    let mut agent: Agent = fresh_agent(100);
    let (action, event) = log_action(
        LogAction { agent: key(1), action: key(7) },
        &mut agent,
        ActionType::Lend,
        String::from("pool"),
        2_000,
        1_500,
        ActionOutcome::Loss,
        String::from("{\"leg\":1}"),
        250,
    )
    .unwrap();
    assert_eq!(
        action,
        Action {
            agent: key(1),
            action_type: ActionType::Lend,
            protocol: String::from("pool"),
            input_value: 2_000,
            output_value: 1_500,
            pnl: -500,
            outcome: ActionOutcome::Loss,
            metadata: String::from("{\"leg\":1}"),
            timestamp: 250,
            action_index: 0,
        }
    );
    // 0 in a hundred -> 0; volume 2000 -> 9; age 0; consistency 0
    assert_eq!(
        event,
        ActionLogged {
            agent: key(1),
            action: key(7),
            action_type: ActionType::Lend,
            outcome: ActionOutcome::Loss,
            pnl: -500,
            new_score: 9,
            timestamp: 250,
        }
    );
    assert_eq!(agent.total_actions, 1);
    assert_eq!(agent.successful_actions, 0);
    assert_eq!(agent.total_volume, 2_000);
    assert_eq!(agent.last_action_at, 250);
    assert_eq!(agent.reputation_score, 9);
    assert_eq!(agent.registered_at, 100);
    assert_eq!(agent.stake, 1000);
    assert!(agent.is_active);
}

#[test]
fn indices_run_from_zero_without_gaps() {
    let mut agent: Agent = fresh_agent(0);
    let mut expected: u64 = 0;
    while expected < 25 {
        let (action, _) = log(&mut agent, 1, 1, ActionOutcome::Neutral, 10).unwrap();
        assert_eq!(action.action_index, expected);
        expected += 1;
        assert_eq!(agent.total_actions, expected);
    }
    assert_eq!(agent.total_actions, 25);
}

#[test]
fn rejected_requests_use_up_no_index() {
    let mut agent: Agent = fresh_agent(0);
    let (first, _) = log(&mut agent, 1, 1, ActionOutcome::Neutral, 10).unwrap();
    let rejected = log_action(
        LogAction { agent: key(1), action: key(9) },
        &mut agent,
        ActionType::Trade,
        "p".repeat(33),
        1,
        1,
        ActionOutcome::Neutral,
        String::new(),
        11,
    );
    assert_eq!(rejected, Err(AgentRepError::ProtocolNameTooLong));
    let (second, _) = log(&mut agent, 1, 1, ActionOutcome::Neutral, 12).unwrap();
    assert_eq!(first.action_index, 0);
    assert_eq!(second.action_index, 1);
    assert_eq!(agent.total_actions, 2);
}

#[test]
fn volume_is_the_sum_of_the_inputs() {
    let mut agent: Agent = fresh_agent(0);
    let inputs: [u64; 6] = [100, 0, 7, 1_000_000, 42, 3];
    let mut sum: u64 = 0;
    for input in inputs {
        log(&mut agent, input, 0, ActionOutcome::Failure, 10).unwrap();
        sum += input;
        assert_eq!(agent.total_volume, sum);
    }
    assert_eq!(agent.total_volume, 1_000_152);
}

#[test]
fn volume_stops_at_the_largest_value() {
    let mut agent: Agent = fresh_agent(0);
    log(&mut agent, u64::MAX - 5, 0, ActionOutcome::Neutral, 10).unwrap();
    assert_eq!(agent.total_volume, u64::MAX - 5);
    log(&mut agent, 5, 0, ActionOutcome::Neutral, 10).unwrap();
    assert_eq!(agent.total_volume, u64::MAX);
    log(&mut agent, 1, 0, ActionOutcome::Neutral, 10).unwrap();
    assert_eq!(agent.total_volume, u64::MAX);
    log(&mut agent, u64::MAX, 0, ActionOutcome::Neutral, 10).unwrap();
    assert_eq!(agent.total_volume, u64::MAX);
    assert_eq!(agent.total_actions, 4);
}

#[test]
fn only_success_and_profit_count_as_successes() {
    let outcomes: [(ActionOutcome, bool); 5] = [
        (ActionOutcome::Success, true),
        (ActionOutcome::Failure, false),
        (ActionOutcome::Profit, true),
        (ActionOutcome::Loss, false),
        (ActionOutcome::Neutral, false),
    ];
    for (outcome, counts) in outcomes {
        assert_eq!(outcome.counts_as_success(), counts);
        let mut agent: Agent = fresh_agent(0);
        let (action, event) = log(&mut agent, 0, 0, outcome, 1).unwrap();
        assert_eq!(action.outcome, outcome);
        assert_eq!(event.outcome, outcome);
        assert_eq!(agent.successful_actions, if counts { 1 } else { 0 });
        assert_eq!(agent.total_actions, 1);
    }
}

#[test]
fn score_follows_the_updated_statistics() {
    let mut agent: Agent = fresh_agent(0);
    // 1 of 1 -> 40; volume 100 -> 6
    let (_, event) = log(&mut agent, 100, 150, ActionOutcome::Success, 0).unwrap();
    assert_eq!(event.new_score, 46);
    // 1 of 2 -> 20; volume 1000 -> 9
    let (_, event) = log(&mut agent, 900, 0, ActionOutcome::Failure, 0).unwrap();
    assert_eq!(event.new_score, 29);
    // 2 of 3 -> 26; volume 1000 -> 9; 90 days -> 10
    let (_, event) = log(&mut agent, 0, 0, ActionOutcome::Profit, 90 * 86400).unwrap();
    assert_eq!(event.new_score, 45);
    assert_eq!(agent.reputation_score, 45);
}

#[test]
fn pnl_is_the_signed_difference() {
    let cases: [(u64, u64, i128); 6] = [
        (100, 150, 50),
        (150, 100, -50),
        (0, 0, 0),
        (0, u64::MAX, 18_446_744_073_709_551_615),
        (u64::MAX, 0, -18_446_744_073_709_551_615),
        (u64::MAX, u64::MAX, 0),
    ];
    for (input, output, pnl) in cases {
        let mut agent: Agent = fresh_agent(0);
        let (action, event) = log(&mut agent, input, output, ActionOutcome::Neutral, 1).unwrap();
        assert_eq!(action.pnl, pnl);
        assert_eq!(event.pnl, pnl);
        assert_eq!(action.input_value, input);
        assert_eq!(action.output_value, output);
    }
}

#[test]
fn protocol_of_exactly_the_limit_is_accepted() {
    assert_eq!(MAX_PROTOCOL_LEN, 32);
    let mut agent: Agent = fresh_agent(0);
    let result = log_action(
        LogAction { agent: key(1), action: key(9) },
        &mut agent,
        ActionType::Mint,
        "p".repeat(32),
        1,
        1,
        ActionOutcome::Neutral,
        String::new(),
        1,
    );
    assert_eq!(result.unwrap().0.protocol, "p".repeat(32));
}

#[test]
fn protocol_over_the_limit_is_rejected() {
    let mut agent: Agent = fresh_agent(0);
    let before: Agent = agent.clone();
    let result = log_action(
        LogAction { agent: key(1), action: key(9) },
        &mut agent,
        ActionType::Mint,
        "p".repeat(33),
        1,
        1,
        ActionOutcome::Success,
        String::new(),
        1,
    );
    assert_eq!(result, Err(AgentRepError::ProtocolNameTooLong));
    assert_eq!(agent, before);
}

#[test]
fn metadata_of_exactly_the_limit_is_accepted() {
    assert_eq!(MAX_METADATA_LEN, 512);
    let mut agent: Agent = fresh_agent(0);
    let result = log_action(
        LogAction { agent: key(1), action: key(9) },
        &mut agent,
        ActionType::Burn,
        String::new(),
        1,
        1,
        ActionOutcome::Neutral,
        "m".repeat(512),
        1,
    );
    assert_eq!(result.unwrap().0.metadata, "m".repeat(512));
}

#[test]
fn metadata_over_the_limit_is_rejected() {
    let mut agent: Agent = fresh_agent(0);
    let before: Agent = agent.clone();
    let result = log_action(
        LogAction { agent: key(1), action: key(9) },
        &mut agent,
        ActionType::Burn,
        String::new(),
        1,
        1,
        ActionOutcome::Success,
        "m".repeat(513),
        1,
    );
    assert_eq!(result, Err(AgentRepError::MetadataTooLong));
    assert_eq!(agent, before);
}

#[test]
fn protocol_is_judged_before_metadata() {
    let mut agent: Agent = fresh_agent(0);
    let result = log_action(
        LogAction { agent: key(1), action: key(9) },
        &mut agent,
        ActionType::Vote,
        "p".repeat(33),
        1,
        1,
        ActionOutcome::Success,
        "m".repeat(513),
        1,
    );
    assert_eq!(result, Err(AgentRepError::ProtocolNameTooLong));
}

#[test]
fn inactive_is_judged_before_the_texts() {
    let mut agent: Agent = fresh_agent(0);
    agent.is_active = false;
    let before: Agent = agent.clone();
    let result = log_action(
        LogAction { agent: key(1), action: key(9) },
        &mut agent,
        ActionType::Vote,
        "p".repeat(33),
        1,
        1,
        ActionOutcome::Success,
        "m".repeat(513),
        1,
    );
    assert_eq!(result, Err(AgentRepError::AgentNotActive));
    assert_eq!(agent, before);
}

#[test]
fn every_action_type_is_recorded_as_given() {
    let kinds: [ActionType; 11] = [
        ActionType::Trade,
        ActionType::Swap,
        ActionType::Stake,
        ActionType::Unstake,
        ActionType::Lend,
        ActionType::Borrow,
        ActionType::Mint,
        ActionType::Burn,
        ActionType::Transfer,
        ActionType::Vote,
        ActionType::Other,
    ];
    let mut agent: Agent = fresh_agent(0);
    for kind in kinds {
        let (action, event) = log_action(
            LogAction { agent: key(1), action: key(9) },
            &mut agent,
            kind,
            String::new(),
            0,
            0,
            ActionOutcome::Neutral,
            String::new(),
            1,
        )
        .unwrap();
        assert_eq!(action.action_type, kind);
        assert_eq!(event.action_type, kind);
    }
    assert_eq!(agent.total_actions, 11);
}

#[test]
fn last_index_before_the_counter_is_full() {
    let mut agent: Agent = fresh_agent(0);
    agent.total_actions = u64::MAX - 1;
    agent.successful_actions = u64::MAX - 1;
    let (action, _) = log(&mut agent, 1, 1, ActionOutcome::Success, 1).unwrap();
    assert_eq!(action.action_index, u64::MAX - 1);
    assert_eq!(agent.total_actions, u64::MAX);
    assert_eq!(agent.successful_actions, u64::MAX);
}
