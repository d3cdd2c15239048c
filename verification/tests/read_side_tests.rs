use masp_rewards::appstate::AppState;
use masp_rewards::entity::{MaspPoolAggregate, MaspPoolAggregateKind, MaspPoolAggregateWindow};
use masp_rewards::gas::{GasRepository, TX_SIGNATURES_WINDOW_UPPERBOUND};
use masp_rewards::governance::{
    proposal_data_with_hash, GovernanceError, GovernanceProposalKindDb,
    GovernanceProposalResultDb, GovernanceService, ProposalDataDb, ProposalKind, ProposalStatus,
    ProposalType,
};
use masp_rewards::masp::{Amount, Id, MaspEntry, MaspEntryDirection, MaspRewardData};
use masp_rewards::masp_service::{AggregateQuery, MaspError, MaspRepository, MaspService};
use masp_rewards::repository::MaspRateRow;
use masp_rewards::response::{
    AddressBalanceResponse, MaspPoolAggregateKindResponse, MaspPoolAggregateResponse,
    MaspPoolAggregateWindowResponse, MaspRewardDataResponse, TokenResponse,
};
use masp_rewards::storage::Storage;

fn state() -> AppState {
    AppState::new("postgres://store".to_string())
}

fn governance() -> GovernanceService {
    GovernanceService::new(state())
}

const EMPTY_DIGEST: &str = "e3b0c44298fc1c149afbf4c8996fb92427ae41e4649b934ca495991b7852b855";
const HELLO_DIGEST: &str = "2cf24dba5fb0a30e26e83b2ac5b9e29e1b161e5c1fa7425e73043362938b9824";

#[test]
fn proposal_with_code_is_answered_with_its_digest() {
    let row = ProposalDataDb {
        kind: GovernanceProposalKindDb::DefaultWithWasm,
        data: Some("68656c6c6f".to_string()),
    };
    let answer = governance().find_proposal_data(7, Ok(Some(row))).unwrap();
    assert_eq!(answer.data.as_deref(), Some("68656c6c6f"));
    assert_eq!(answer.hash.as_deref(), Some(HELLO_DIGEST));
    assert_eq!(answer.kind, ProposalType::DefaultWithWasm);
}

#[test]
fn undecodable_code_counts_as_empty() {
    for data in [
        None,
        Some(""),
        Some("68656C6C6F"),
        Some("68656c6c6"),
        Some("zz"),
        Some("6865 "),
        Some("0x6865"),
    ] {
        let row = ProposalDataDb {
            kind: GovernanceProposalKindDb::DefaultWithWasm,
            data: data.map(|d| d.to_string()),
        };
        let answer = governance().find_proposal_data(1, Ok(Some(row))).unwrap();
        assert_eq!(answer.hash.as_deref(), Some(EMPTY_DIGEST), "{:?}", data);
        assert_eq!(answer.data.as_deref(), data);
    }
}

#[test]
fn hex_pairs_decode_high_digit_first() {
    let row = |data: &str| ProposalDataDb {
        kind: GovernanceProposalKindDb::DefaultWithWasm,
        data: Some(data.to_string()),
    };
    let a = governance().find_proposal_data(1, Ok(Some(row("0a")))).unwrap();
    let b = governance().find_proposal_data(1, Ok(Some(row("a0")))).unwrap();
    assert_eq!(a.hash.as_deref(), Some("01ba4719c80b6fe911b091a7c05124b64eeece964e09c058ef8f9805daca546b"));
    assert_ne!(a.hash, b.hash);
    assert_ne!(b.hash.as_deref(), Some(EMPTY_DIGEST));
}

#[test]
fn proposal_without_code_has_no_digest() {
    for (kind, answered) in [
        (GovernanceProposalKindDb::Default, ProposalType::Default),
        (GovernanceProposalKindDb::PgfSteward, ProposalType::PgfSteward),
        (GovernanceProposalKindDb::PgfFunding, ProposalType::PgfFunding),
    ] {
        let row = ProposalDataDb { kind, data: Some("68656c6c6f".to_string()) };
        let answer = governance().find_proposal_data(3, Ok(Some(row))).unwrap();
        assert_eq!(answer.hash, None);
        assert_eq!(answer.data.as_deref(), Some("68656c6c6f"));
        assert_eq!(answer.kind, answered);
    }
}

#[test]
fn missing_proposal_and_failed_read_are_told_apart() {
    match governance().find_proposal_data(42, Ok(None)) {
        Err(GovernanceError::NotFound(id)) => assert_eq!(id, 42),
        other => panic!("{:?}", other),
    }
    match governance().find_proposal_data(42, Err("connection reset".to_string())) {
        Err(GovernanceError::Database(text)) => assert_eq!(text, "connection reset"),
        other => panic!("{:?}", other),
    }
    assert!(governance().require_proposal(5, Ok(true)).is_ok());
    match governance().require_proposal(5, Ok(false)) {
        Err(GovernanceError::NotFound(id)) => assert_eq!(id, 5),
        other => panic!("{:?}", other),
    }
    match governance().require_proposal(5, Err("down".to_string())) {
        Err(GovernanceError::Database(text)) => assert_eq!(text, "down"),
        other => panic!("{:?}", other),
    }
}

#[test]
fn status_and_kind_map_one_to_one() {
    let g = governance();
    assert_eq!(g.map_status(None), None);
    assert_eq!(g.map_status(Some(ProposalStatus::Pending)), Some(GovernanceProposalResultDb::Pending));
    assert_eq!(g.map_status(Some(ProposalStatus::VotingPeriod)), Some(GovernanceProposalResultDb::VotingPeriod));
    assert_eq!(g.map_status(Some(ProposalStatus::Passed)), Some(GovernanceProposalResultDb::Passed));
    assert_eq!(g.map_status(Some(ProposalStatus::Rejected)), Some(GovernanceProposalResultDb::Rejected));
    assert_eq!(g.map_status(Some(ProposalStatus::ExecutedPassed)), Some(GovernanceProposalResultDb::ExecutedPassed));
    assert_eq!(g.map_status(Some(ProposalStatus::ExecutedRejected)), Some(GovernanceProposalResultDb::ExecutedRejected));
    assert_eq!(g.map_kind(None), None);
    assert_eq!(g.map_kind(Some(ProposalKind::Default)), Some(GovernanceProposalKindDb::Default));
    assert_eq!(g.map_kind(Some(ProposalKind::DefaultWithWasm)), Some(GovernanceProposalKindDb::DefaultWithWasm));
    assert_eq!(g.map_kind(Some(ProposalKind::PgfSteward)), Some(GovernanceProposalKindDb::PgfSteward));
    assert_eq!(g.map_kind(Some(ProposalKind::PgfFunding)), Some(GovernanceProposalKindDb::PgfFunding));
    assert_eq!(ProposalType::from(GovernanceProposalKindDb::PgfFunding), ProposalType::PgfFunding);
    let built = proposal_data_with_hash(
        ProposalDataDb { kind: GovernanceProposalKindDb::Default, data: None },
        Some("h".to_string()),
    );
    assert_eq!(built.data, None);
    assert_eq!(built.hash.as_deref(), Some("h"));
    assert_eq!(built.kind, ProposalType::Default);
}

#[test]
fn services_keep_what_they_are_opened_with() {
    let service = MaspService::new(state());
    assert_eq!(service.masp_repo.app_state.database_url, "postgres://store");
    assert_eq!(service.clone().masp_repo.app_state.database_url, "postgres://store");
    let repo = MaspRepository::new(state());
    assert_eq!(repo.clone().app_state.database_url, "postgres://store");
    let gas = GasRepository::new(state());
    assert_eq!(gas.clone().app_state.database_url, "postgres://store");
    let _ = GovernanceService::new(state().clone());
}

#[test]
fn aggregate_question_picks_the_rows() {
    let service = MaspService::new(state());
    assert!(matches!(service.aggregate_query(None), AggregateQuery::All));
    assert!(
        matches!(service.aggregate_query(Some("tnam1x".to_string())), AggregateQuery::ByToken(ref t) if t == "tnam1x")
    );
    let rows = vec![MaspPoolAggregate {
        token_address: Id::Account("tnam1x".to_string()),
        time_window: MaspPoolAggregateWindow::SevenDays,
        kind: MaspPoolAggregateKind::Outflows,
        total_amount: Amount::parse("12").unwrap(),
    }];
    let found = service.find_all_masp_aggregates(Ok(rows)).unwrap();
    assert_eq!(found.len(), 1);
    assert_eq!(found[0].total_amount.to_string(), "12");
    match service.find_all_masp_aggregates(Err("boom".to_string())) {
        Err(MaspError::Database(text)) => assert_eq!(text, "boom"),
        other => panic!("{:?}", other),
    }
}

#[test]
fn stored_rates_are_answered_as_written() {
    let mut store = Storage::new(None);
    let batch = vec![
        MaspRewardData {
            address: Id::Account("tnam1b".to_string()),
            max_reward_rate: "0.01".to_string(),
            kp_gain: "120000".to_string(),
            kd_gain: "0.5".to_string(),
            locked_amount_target: Amount::parse("1000000").unwrap(),
        },
        MaspRewardData {
            address: Id::Account("tnam1a".to_string()),
            max_reward_rate: "0.02".to_string(),
            kp_gain: "1".to_string(),
            kd_gain: "2".to_string(),
            locked_amount_target: Amount::parse("3").unwrap(),
        },
    ];
    assert!(store.commit(batch, Some(1)).is_ok());
    let service = MaspService::new(state());
    let rows = store.find_all_rates().map_err(|e| format!("{:?}", e));
    let rates = service.find_all_masp_rates(rows).unwrap();
    let answers: Vec<MaspRewardDataResponse> =
        rates.into_iter().map(MaspRewardDataResponse::from).collect();
    assert_eq!(answers.len(), 2);
    assert_eq!(answers[0].address, "tnam1b");
    assert_eq!(answers[0].max_reward_rate, "0.01");
    assert_eq!(answers[0].kp_gain, "120000");
    assert_eq!(answers[0].kd_gain, "0.5");
    assert_eq!(answers[0].locked_amount_target, "1000000");
    assert_eq!(answers[1].address, "tnam1a");
    assert_eq!(answers[1].locked_amount_target, "3");
    match service.find_all_masp_rates(Err("gone".to_string())) {
        Err(MaspError::Database(text)) => assert_eq!(text, "gone"),
        other => panic!("{:?}", other),
    }
    let one = service
        .find_all_masp_rates(Ok(vec![MaspRateRow {
            token: "t".to_string(),
            max_reward_rate: "1".to_string(),
            kp_gain: "2".to_string(),
            kd_gain: "3".to_string(),
            locked_amount_target: Amount::parse("4").unwrap(),
        }]))
        .unwrap();
    assert!(matches!(one[0].address, Id::Account(ref t) if t == "t"));
}

#[test]
fn aggregates_are_answered_tag_for_tag() {
    let windows = [
        (MaspPoolAggregateWindow::OneDay, MaspPoolAggregateWindowResponse::OneDay),
        (MaspPoolAggregateWindow::SevenDays, MaspPoolAggregateWindowResponse::SevenDays),
        (MaspPoolAggregateWindow::ThirtyDays, MaspPoolAggregateWindowResponse::ThirtyDays),
        (MaspPoolAggregateWindow::AllTime, MaspPoolAggregateWindowResponse::AllTime),
    ];
    let kinds = [
        (MaspPoolAggregateKind::Inflows, MaspPoolAggregateKindResponse::Inflows),
        (MaspPoolAggregateKind::Outflows, MaspPoolAggregateKindResponse::Outflows),
    ];
    for (window, window_answer) in windows {
        for (kind, kind_answer) in kinds {
            let answer = MaspPoolAggregateResponse::from(MaspPoolAggregate {
                token_address: Id::Account("tnam1x".to_string()),
                time_window: window,
                kind,
                total_amount: Amount::parse("987654321").unwrap(),
            });
            assert_eq!(answer.token_address, "tnam1x");
            assert_eq!(answer.time_window, window_answer);
            assert_eq!(answer.kind, kind_answer);
            assert_eq!(answer.total_amount, "987654321");
        }
    }
}

#[test]
fn plain_types_hold_their_fields() {
    let balance = AddressBalanceResponse {
        token_address: TokenResponse::Ibc { address: "tnam1i".to_string(), trace: "transfer/channel-0/uosmo".to_string() },
        min_denom_amount: "5".to_string(),
    };
    assert_eq!(balance.min_denom_amount, "5");
    assert!(matches!(balance.token_address, TokenResponse::Ibc { .. }));
    let native = TokenResponse::Native { address: "tnam1n".to_string() };
    assert!(matches!(native, TokenResponse::Native { ref address } if address == "tnam1n"));
    let entry = MaspEntry {
        token_address: "tnam1x".to_string(),
        timestamp: -3,
        raw_amount: Amount::parse("9").unwrap(),
        direction: MaspEntryDirection::Out,
        inner_tx_id: Id::Hash("ab".to_string()),
    };
    let copy = entry.clone();
    assert_eq!(copy.token_address, "tnam1x");
    assert_eq!(copy.timestamp, -3);
    assert_eq!(copy.raw_amount.to_string(), "9");
    assert_eq!(copy.direction, MaspEntryDirection::Out);
    assert_ne!(copy.direction, MaspEntryDirection::In);
    assert_eq!(copy.inner_tx_id.to_string(), "ab");
}

#[test]
fn signature_window_bounds() {
    let gas = GasRepository::new(state());
    assert_eq!(TX_SIGNATURES_WINDOW_UPPERBOUND, 5);
    assert_eq!(gas.signature_bounds(0), (2, 5));
    assert_eq!(gas.signature_bounds(1), (1, 6));
    assert_eq!(gas.signature_bounds(12), (12, 17));
    assert_eq!(gas.signature_bounds(0x7fff_fffa), (0x7fff_fffa, i32::MAX));
    assert_eq!(gas.signature_bounds(0x7fff_fffb), (0x7fff_fffb, i32::MIN));
    assert_eq!(gas.signature_bounds(1 << 32), (0, 5));
    assert_eq!(gas.signature_bounds(u64::MAX - 5), (-6, -1));
}
