use battleship::duel::{
    auction_compute_complete, calculate_winner, get_player_address, get_player_id, initialize,
    inputted_variable, open_auction_variable, read_variable_u32_le, record_result, setup_board, shoot,
};
use battleship::types::{
    Address, AddressType, CalculationStatus, ContractState, DuelError, GamePhase, OpenedVariable,
    PlayerId, SecretVarId, SecretVarMetadata, StoredSecret, ZkStateChange,
};
use battleship::zk_compute::zk_compute;

fn addr(n: u8) -> Address {
    let mut identifier = [0u8; 20];
    identifier[19] = n;
    Address { address_type: AddressType::Account, identifier }
}

fn opened(player: bool, data: Option<Vec<u8>>) -> OpenedVariable {
    OpenedVariable { id: SecretVarId { raw_id: 7 }, metadata: SecretVarMetadata { player }, data }
}

fn placements(flags: &[bool]) -> Vec<SecretVarMetadata> {
    flags.iter().map(|&player| SecretVarMetadata { player }).collect()
}

fn playing() -> ContractState {
    let mut st = initialize(addr(1), addr(2));
    inputted_variable(&mut st, &placements(&[false]));
    inputted_variable(&mut st, &placements(&[false, true]));
    st
}

fn disclose(st: &mut ContractState, target: bool, value: u32) -> Result<ZkStateChange, DuelError> {
    open_auction_variable(st, &vec![opened(target, Some(value.to_le_bytes().to_vec()))])
}

#[test]
fn initialize_starts_in_setup_with_a_to_move() {
    let st = initialize(addr(1), addr(2));
    assert_eq!(st.player_a, addr(1));
    assert_eq!(st.player_b, addr(2));
    assert_eq!(st.next_turn, addr(1));
    assert_eq!(st.winner, None);
    assert_eq!(st.hit_a, None);
    assert_eq!(st.hit_b, None);
    assert_eq!(st.game_state, GamePhase::Setup);
}

#[test]
fn scenario_placements_start_the_game() {
    let mut st = initialize(addr(1), addr(2));
    let def_a = setup_board(addr(1), &st).unwrap();
    assert_eq!(def_a.metadata, SecretVarMetadata { player: false });
    assert!(!def_a.seal);
    assert_eq!(def_a.expected_bit_lengths, vec![32]);
    inputted_variable(&mut st, &placements(&[false]));
    assert_eq!(st.game_state, GamePhase::Setup);
    let def_b = setup_board(addr(2), &st).unwrap();
    assert_eq!(def_b.metadata, SecretVarMetadata { player: true });
    inputted_variable(&mut st, &placements(&[false, true]));
    assert_eq!(st.game_state, GamePhase::Playing);
    assert_eq!(st.next_turn, addr(1));
}

#[test]
fn scenario_a_hits_b() {
    let mut st = playing();
    match shoot(addr(1), &st, CalculationStatus::Waiting, 5).unwrap() {
        ZkStateChange::StartComputation { output_metadata, target, position } => {
            assert_eq!(output_metadata, vec![SecretVarMetadata { player: true }]);
            assert!(target);
            assert_eq!(position, 5);
        }
        _ => panic!("expected a computation"),
    }
    match auction_compute_complete(vec![SecretVarId { raw_id: 3 }]) {
        ZkStateChange::OpenVariables { variables } => assert_eq!(variables, vec![SecretVarId { raw_id: 3 }]),
        _ => panic!("expected an opening"),
    }
    match disclose(&mut st, true, 1).unwrap() {
        ZkStateChange::OutputComplete { variables_to_delete } => assert!(variables_to_delete.is_empty()),
        _ => panic!("expected completion"),
    }
    assert_eq!(st.hit_b, Some(true));
    assert_eq!(st.hit_a, None);
    assert_eq!(st.next_turn, addr(2));
    assert_eq!(st.game_state, GamePhase::Playing);
}

#[test]
fn scenario_both_hit_ends_in_a_draw() {
    let mut st = playing();
    shoot(addr(1), &st, CalculationStatus::Waiting, 5).unwrap();
    disclose(&mut st, true, 1).unwrap();
    match shoot(addr(2), &st, CalculationStatus::Waiting, 0).unwrap() {
        ZkStateChange::StartComputation { output_metadata, target, position } => {
            assert_eq!(output_metadata, vec![SecretVarMetadata { player: false }]);
            assert!(!target);
            assert_eq!(position, 0);
        }
        _ => panic!("expected a computation"),
    }
    disclose(&mut st, false, 1).unwrap();
    assert_eq!(st.hit_a, Some(true));
    assert_eq!(st.game_state, GamePhase::Ended);
    assert_eq!(st.winner, None);
    assert_eq!(st.next_turn, addr(1));
}

#[test]
fn scenario_shot_during_setup_is_not_playable() {
    let mut st = initialize(addr(1), addr(2));
    inputted_variable(&mut st, &placements(&[true]));
    assert_eq!(shoot(addr(2), &st, CalculationStatus::Waiting, 3).unwrap_err(), DuelError::GameNotPlayable);
}

#[test]
fn scenario_second_shot_while_busy() {
    let st = playing();
    assert!(shoot(addr(1), &st, CalculationStatus::Waiting, 5).is_ok());
    assert_eq!(shoot(addr(1), &st, CalculationStatus::Calculating, 6).unwrap_err(), DuelError::ComputationBusy);
}

#[test]
fn shot_out_of_turn() {
    let st = playing();
    assert_eq!(shoot(addr(2), &st, CalculationStatus::Waiting, 1).unwrap_err(), DuelError::NotYourTurn);
    assert_eq!(shoot(addr(9), &st, CalculationStatus::Waiting, 1).unwrap_err(), DuelError::UnauthorizedCaller);
}

#[test]
fn resolve_players_and_strangers() {
    let st = initialize(addr(1), addr(2));
    assert_eq!(get_player_id(addr(1), &st), Ok(PlayerId::A));
    assert_eq!(get_player_id(addr(2), &st), Ok(PlayerId::B));
    assert_eq!(get_player_id(addr(3), &st), Err(DuelError::UnauthorizedCaller));
    let mut other_kind = addr(1);
    other_kind.address_type = AddressType::PublicContract;
    assert_eq!(get_player_id(other_kind, &st), Err(DuelError::UnauthorizedCaller));
    assert_eq!(get_player_address(PlayerId::A, &st), addr(1));
    assert_eq!(get_player_address(PlayerId::B, &st), addr(2));
    assert_eq!(setup_board(addr(3), &st).unwrap_err(), DuelError::UnauthorizedCaller);
}

#[test]
fn player_flags() {
    assert!(!PlayerId::A.flag());
    assert!(PlayerId::B.flag());
    assert_eq!(PlayerId::from_flag(true), PlayerId::B);
    assert_eq!(PlayerId::A.opponent(), PlayerId::B);
    assert_eq!(PlayerId::B.opponent(), PlayerId::A);
}

#[test]
fn malformed_disclosures() {
    let mut st = playing();
    let before = st;
    assert_eq!(open_auction_variable(&mut st, &vec![]).unwrap_err(), DuelError::MalformedDisclosure);
    let two = vec![opened(true, Some(vec![1, 0, 0, 0])), opened(false, Some(vec![1, 0, 0, 0]))];
    assert_eq!(open_auction_variable(&mut st, &two).unwrap_err(), DuelError::MalformedDisclosure);
    let short = vec![opened(true, Some(vec![1, 0, 0]))];
    assert_eq!(open_auction_variable(&mut st, &short).unwrap_err(), DuelError::MalformedDisclosure);
    let missing = vec![opened(true, None)];
    assert_eq!(open_auction_variable(&mut st, &missing).unwrap_err(), DuelError::MalformedDisclosure);
    assert_eq!(st.hit_a, before.hit_a);
    assert_eq!(st.hit_b, before.hit_b);
    assert_eq!(st.next_turn, before.next_turn);
}

#[test]
fn duplicate_result_is_refused() {
    let mut st = playing();
    disclose(&mut st, true, 0).unwrap();
    assert_eq!(disclose(&mut st, true, 1).unwrap_err(), DuelError::DuplicateResult);
    assert_eq!(st.hit_b, Some(false));
    assert_eq!(record_result(&mut st, PlayerId::B, true), Err(DuelError::DuplicateResult));
    assert_eq!(st.hit_b, Some(false));
}

#[test]
fn disclosure_outside_play_is_refused() {
    let mut st = initialize(addr(1), addr(2));
    assert_eq!(disclose(&mut st, true, 1).unwrap_err(), DuelError::GameNotPlayable);
    assert_eq!(st.hit_b, None);
}

#[test]
fn ended_duel_is_absorbing() {
    let mut st = playing();
    disclose(&mut st, true, 1).unwrap();
    disclose(&mut st, false, 0).unwrap();
    assert_eq!(st.game_state, GamePhase::Ended);
    assert_eq!(st.winner, Some(addr(1)));
    assert_eq!(st.next_turn, addr(1));
    assert_eq!(shoot(addr(1), &st, CalculationStatus::Waiting, 1).unwrap_err(), DuelError::GameNotPlayable);
    assert_eq!(shoot(addr(2), &st, CalculationStatus::Waiting, 1).unwrap_err(), DuelError::GameNotPlayable);
    inputted_variable(&mut st, &placements(&[false, true]));
    assert_eq!(st.game_state, GamePhase::Ended);
    assert_eq!(disclose(&mut st, true, 1).unwrap_err(), DuelError::DuplicateResult);
    assert_eq!(disclose(&mut st, false, 1).unwrap_err(), DuelError::DuplicateResult);
    assert_eq!(st.hit_a, Some(false));
    assert_eq!(st.hit_b, Some(true));
}

#[test]
fn winner_when_only_a_is_hit() {
    let mut st = playing();
    disclose(&mut st, false, 1).unwrap();
    disclose(&mut st, true, 0).unwrap();
    assert_eq!(st.winner, Some(addr(2)));
    assert_eq!(st.next_turn, addr(2));
}

#[test]
fn nobody_wins_when_nobody_is_hit() {
    let mut st = playing();
    disclose(&mut st, false, 0).unwrap();
    disclose(&mut st, true, 0).unwrap();
    assert_eq!(st.game_state, GamePhase::Ended);
    assert_eq!(st.winner, None);
}

#[test]
fn calculate_winner_all_cases() {
    let mut st = playing();
    for (a, b, w) in [(true, true, None), (true, false, Some(addr(2))), (false, true, Some(addr(1))), (false, false, None)] {
        st.hit_a = Some(a);
        st.hit_b = Some(b);
        assert_eq!(calculate_winner(&st), w);
    }
}

#[test]
fn read_little_endian_values() {
    assert_eq!(read_variable_u32_le(&opened(true, Some(vec![1, 0, 0, 0]))), 1);
    assert_eq!(read_variable_u32_le(&opened(true, Some(vec![0x78, 0x56, 0x34, 0x12]))), 0x12345678);
    assert_eq!(read_variable_u32_le(&opened(true, Some(vec![255, 255, 255, 255]))), u32::MAX);
    let mut st = playing();
    let long = vec![opened(true, Some(vec![1, 0, 0, 0, 0]))];
    assert_eq!(open_auction_variable(&mut st, &long).unwrap_err(), DuelError::MalformedDisclosure);
}

#[test]
fn large_nonzero_value_counts_as_hit() {
    let mut st = playing();
    disclose(&mut st, true, 0x0100_0000).unwrap();
    assert_eq!(st.hit_b, Some(true));
}

#[test]
fn comparison_routine() {
    let stored = vec![
        StoredSecret { metadata: SecretVarMetadata { player: false }, value: 0 },
        StoredSecret { metadata: SecretVarMetadata { player: true }, value: 1 },
        StoredSecret { metadata: SecretVarMetadata { player: true }, value: 0 },
    ];
    assert_eq!(zk_compute(true, 5, &stored), 1);
    assert_eq!(zk_compute(true, 0, &stored), 0);
    assert_eq!(zk_compute(false, 0, &stored), 1);
    assert_eq!(zk_compute(false, 9, &stored), 0);
    assert_eq!(zk_compute(true, 1, &vec![]), 0);
    let only_a = vec![StoredSecret { metadata: SecretVarMetadata { player: false }, value: 1 }];
    assert_eq!(zk_compute(true, 1, &only_a), 0);
}

#[test]
fn two_placements_of_one_player_do_not_start() {
    let mut st = initialize(addr(1), addr(2));
    inputted_variable(&mut st, &placements(&[false, false]));
    assert_eq!(st.game_state, GamePhase::Setup);
    inputted_variable(&mut st, &placements(&[true, true]));
    assert_eq!(st.game_state, GamePhase::Setup);
    inputted_variable(&mut st, &placements(&[false, true, true]));
    assert_eq!(st.game_state, GamePhase::Setup);
    inputted_variable(&mut st, &placements(&[true, false]));
    assert_eq!(st.game_state, GamePhase::Playing);
}

#[test]
fn stranger_is_unauthorized_in_every_phase() {
    let mut st = initialize(addr(1), addr(2));
    assert_eq!(shoot(addr(9), &st, CalculationStatus::Waiting, 1).unwrap_err(), DuelError::UnauthorizedCaller);
    inputted_variable(&mut st, &placements(&[false, true]));
    disclose(&mut st, true, 0).unwrap();
    disclose(&mut st, false, 0).unwrap();
    assert_eq!(st.game_state, GamePhase::Ended);
    assert_eq!(shoot(addr(9), &st, CalculationStatus::Waiting, 1).unwrap_err(), DuelError::UnauthorizedCaller);
}
