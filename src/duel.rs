use vstd::prelude::*;

use crate::types::{
    Address, CalculationStatus, ContractState, DuelError, GamePhase, OpenedVariable, PlayerId,
    SecretVarId, SecretVarMetadata, ZkInputDef, ZkStateChange,
};

verus! {

/// Bit length of each player's concealed placement.
pub const BITLENGTH_OF_SECRET_VARIABLES: u32 = 32;

impl ContractState {
    /// The seat of `caller`, if it is one of the two registered players.
    pub open spec fn player_of(self, caller: Address) -> Option<PlayerId> {
        if caller == self.player_a {
            Some(PlayerId::A)
        } else if caller == self.player_b {
            Some(PlayerId::B)
        } else {
            None
        }
    }

    pub open spec fn address_of(self, id: PlayerId) -> Address {
        match id {
            PlayerId::A => self.player_a,
            PlayerId::B => self.player_b,
        }
    }

    /// The winner once both results are known: the player whose opponent was
    /// hit while they were not; nobody when both or neither were hit.
    pub open spec fn winner_of(self, hit_a: bool, hit_b: bool) -> Option<Address> {
        if hit_a && hit_b {
            None
        } else if hit_a {
            Some(self.player_b)
        } else if hit_b {
            Some(self.player_a)
        } else {
            None
        }
    }

    pub open spec fn both_recorded(self) -> bool {
        self.hit_a is Some && self.hit_b is Some
    }

    /// The winner the record must show for its results.
    pub open spec fn expected_winner(self) -> Option<Address> {
        if self.both_recorded() {
            self.winner_of(self.hit_a->0, self.hit_b->0)
        } else {
            None
        }
    }

    /// The record's invariant: the turn belongs to a player, the duel has
    /// ended exactly when both results are in, and the winner follows them.
    pub open spec fn wf(self) -> bool {
        &&& (self.next_turn == self.player_a || self.next_turn == self.player_b)
        &&& (self.game_state == GamePhase::Ended) == self.both_recorded()
        &&& self.winner == self.expected_winner()
    }

    /// Whom a shot by `sender` targets, or why it is refused.
    pub open spec fn shot_target(self, sender: Address, calculation_state: CalculationStatus)
        -> Result<PlayerId, DuelError>
    {
        match self.player_of(sender) {
            None => Err(DuelError::UnauthorizedCaller),
            Some(p) => if self.game_state != GamePhase::Playing {
                Err(DuelError::GameNotPlayable)
            } else if sender != self.next_turn {
                Err(DuelError::NotYourTurn)
            } else if calculation_state != CalculationStatus::Waiting {
                Err(DuelError::ComputationBusy)
            } else {
                Ok(p.other())
            },
        }
    }

    /// The record after the result `hit` of the shot at `target` is folded in,
    /// or why it is refused.
    pub open spec fn record_result(self, target: PlayerId, hit: bool) -> Result<ContractState, DuelError> {
        if (target == PlayerId::A && self.hit_a is Some) || (target == PlayerId::B
            && self.hit_b is Some) {
            Err(DuelError::DuplicateResult)
        } else if self.game_state != GamePhase::Playing {
            Err(DuelError::GameNotPlayable)
        } else {
            let s1 = if target == PlayerId::A {
                ContractState { hit_a: Some(hit), ..self }
            } else {
                ContractState { hit_b: Some(hit), ..self }
            };
            let s2 = if s1.both_recorded() {
                ContractState {
                    game_state: GamePhase::Ended,
                    winner: s1.winner_of(s1.hit_a->0, s1.hit_b->0),
                    ..s1
                }
            } else {
                s1
            };
            Ok(ContractState { next_turn: self.address_of(target), ..s2 })
        }
    }

    /// The record after the engine discloses `opened`, or why it is refused.
    pub open spec fn after_disclosure(self, opened: Seq<OpenedVariable>) -> Result<ContractState, DuelError> {
        if opened.len() != 1 {
            Err(DuelError::MalformedDisclosure)
        } else {
            match decoded_u32(opened[0].data) {
                None => Err(DuelError::MalformedDisclosure),
                Some(v) => self.record_result(PlayerId::of_flag(opened[0].metadata.player), v != 0),
            }
        }
    }

    /// The record after the engine reports the owners of the placements it
    /// holds: the duel starts once it holds exactly one of each player.
    pub open spec fn after_input(self, placements: Seq<SecretVarMetadata>) -> ContractState {
        if self.game_state == GamePhase::Setup && placements_complete(placements) {
            ContractState { game_state: GamePhase::Playing, ..self }
        } else {
            self
        }
    }
}

/// Exactly two placements are stored, one of each player.
pub open spec fn placements_complete(placements: Seq<SecretVarMetadata>) -> bool {
    placements.len() == 2 && placements[0].player != placements[1].player
}

/// The unsigned integer whose little-endian bytes are `b[0..4]`.
pub open spec fn le_u32(b: Seq<u8>) -> int {
    b[0] + 256 * b[1] + 65536 * b[2] + 16777216 * b[3]
}

/// The value of opened plaintext bytes: exactly four, little-endian.
pub open spec fn decoded_u32(data: Option<Vec<u8>>) -> Option<int> {
    match data {
        Some(d) => if d@.len() == 4 {
            Some(le_u32(d@))
        } else {
            None
        },
        None => None,
    }
}

/// Creates the record of a new duel between `player_a` and `player_b`, with A
/// to move first.
pub fn initialize(player_a: Address, player_b: Address) -> (r: ContractState)
    ensures
        r == (ContractState {
            player_a,
            player_b,
            next_turn: player_a,
            winner: None,
            hit_a: None,
            hit_b: None,
            game_state: GamePhase::Setup,
        }),
        r.wf(),
{
    ContractState {
        player_a,
        player_b,
        next_turn: player_a,
        winner: None,
        hit_a: None,
        hit_b: None,
        game_state: GamePhase::Setup,
    }
}

/// The seat of `sender`; fails for anyone but the two registered players.
pub fn get_player_id(sender: Address, state: &ContractState) -> (r: Result<PlayerId, DuelError>)
    ensures
        r == (match state.player_of(sender) {
            Some(p) => Ok(p),
            None => Err(DuelError::UnauthorizedCaller),
        }),
{
    if sender == state.player_a {
        Ok(PlayerId::A)
    } else if sender == state.player_b {
        Ok(PlayerId::B)
    } else {
        Err(DuelError::UnauthorizedCaller)
    }
}

/// The address registered for seat `id`.
pub fn get_player_address(id: PlayerId, state: &ContractState) -> (r: Address)
    ensures
        r == state.address_of(id),
{
    match id {
        PlayerId::A => state.player_a,
        PlayerId::B => state.player_b,
    }
}

/// Accepts a concealed placement from `sender`, tagged with the sender's seat.
pub fn setup_board(sender: Address, state: &ContractState) -> (r: Result<ZkInputDef, DuelError>)
    ensures
        match state.player_of(sender) {
            Some(p) => r matches Ok(def) && !def.seal && def.metadata == (SecretVarMetadata {
                player: p.flag_of(),
            }) && def.expected_bit_lengths@ == seq![BITLENGTH_OF_SECRET_VARIABLES],
            None => r == Err::<ZkInputDef, DuelError>(DuelError::UnauthorizedCaller),
        },
{
    let player_id = get_player_id(sender, state)?;
    let input_def = ZkInputDef {
        seal: false,
        metadata: SecretVarMetadata { player: player_id.flag() },
        expected_bit_lengths: vec![BITLENGTH_OF_SECRET_VARIABLES],
    };
    Ok(input_def)
}

/// A shot by `sender` at `position`: when the duel is playing, it is the
/// sender's turn and the engine is idle, asks the engine to compare the
/// opponent's concealed placement with the guess, tagging the single result
/// with the opponent's flag.
pub fn shoot(
    sender: Address,
    state: &ContractState,
    calculation_state: CalculationStatus,
    position: u32,
) -> (r: Result<ZkStateChange, DuelError>)
    ensures
        match state.shot_target(sender, calculation_state) {
            Ok(t) => r matches Ok(ZkStateChange::StartComputation { output_metadata, target, position: p })
                && output_metadata@ == seq![SecretVarMetadata { player: t.flag_of() }]
                && target == t.flag_of() && p == position,
            Err(e) => r == Err::<ZkStateChange, DuelError>(e),
        },
{
    let player_id = get_player_id(sender, state)?;
    if state.game_state != GamePhase::Playing {
        return Err(DuelError::GameNotPlayable);
    }
    if sender != state.next_turn {
        return Err(DuelError::NotYourTurn);
    }
    if calculation_state != CalculationStatus::Waiting {
        return Err(DuelError::ComputationBusy);
    }
    let target = player_id.opponent().flag();
    let output_metadata: Vec<SecretVarMetadata> = vec![SecretVarMetadata { player: target }];
    Ok(ZkStateChange::StartComputation { output_metadata, target, position })
}

/// When the engine has computed the shot's result, asks it to disclose
/// every output variable.
pub fn auction_compute_complete(output_variables: Vec<SecretVarId>) -> (r: ZkStateChange)
    ensures
        r matches ZkStateChange::OpenVariables { variables } && variables@ == output_variables@,
{
    ZkStateChange::OpenVariables { variables: output_variables }
}

/// Reads an opened variable's four attached bytes as a little-endian `u32`.
pub fn read_variable_u32_le(variable: &OpenedVariable) -> (r: u32)
    requires
        variable.data matches Some(d) && d@.len() == 4,
    ensures
        r as int == le_u32(variable.data->0@),
{
    let d = variable.data.as_ref().unwrap();
    let b0 = d[0] as u32;
    let b1 = d[1] as u32;
    let b2 = d[2] as u32;
    let b3 = d[3] as u32;
    b0 + 256 * b1 + 65536 * b2 + 16777216 * b3
}

/// The winner of a record whose two results are both in.
pub fn calculate_winner(state: &ContractState) -> (r: Option<Address>)
    requires
        state.both_recorded(),
    ensures
        r == state.winner_of(state.hit_a->0, state.hit_b->0),
{
    let hit_a = state.hit_a.unwrap();
    let hit_b = state.hit_b.unwrap();
    if hit_a && hit_b {
        None
    } else if hit_a {
        Some(state.player_b)
    } else if hit_b {
        Some(state.player_a)
    } else {
        None
    }
}

/// Folds the result `hit` of the shot at `target` into the record: sets that
/// player's slot, ends the duel with its winner once both slots are set, and
/// hands the turn to the player who was shot at.
pub fn record_result(state: &mut ContractState, target: PlayerId, hit: bool) -> (r: Result<(), DuelError>)
    ensures
        match old(state).record_result(target, hit) {
            Ok(s) => r is Ok && *final(state) == s,
            Err(e) => r == Err::<(), DuelError>(e) && *final(state) == *old(state),
        },
{
    let recorded = match target {
        PlayerId::A => state.hit_a.is_some(),
        PlayerId::B => state.hit_b.is_some(),
    };
    if recorded {
        return Err(DuelError::DuplicateResult);
    }
    if state.game_state != GamePhase::Playing {
        return Err(DuelError::GameNotPlayable);
    }
    match target {
        PlayerId::A => state.hit_a = Some(hit),
        PlayerId::B => state.hit_b = Some(hit),
    }
    if state.hit_a.is_some() && state.hit_b.is_some() {
        state.game_state = GamePhase::Ended;
        state.winner = calculate_winner(state);
    }
    state.next_turn = get_player_address(target, state);
    Ok(())
}

/// Consumes the disclosure of a shot's result: exactly one variable, whose
/// four bytes are nonzero on a hit and whose metadata names the player shot
/// at. On success the engine may keep the disclosed variable.
pub fn open_auction_variable(state: &mut ContractState, opened_variables: &Vec<OpenedVariable>) -> (r:
    Result<ZkStateChange, DuelError>)
    ensures
        match old(state).after_disclosure(opened_variables@) {
            Ok(s) => {
                &&& *final(state) == s
                &&& r matches Ok(ZkStateChange::OutputComplete { variables_to_delete })
                &&& variables_to_delete@.len() == 0
            },
            Err(e) => r == Err::<ZkStateChange, DuelError>(e) && *final(state) == *old(state),
        },
        old(state).wf() ==> final(state).wf(),
{
    if opened_variables.len() != 1 {
        return Err(DuelError::MalformedDisclosure);
    }
    let variable = &opened_variables[0];
    let well_formed = match &variable.data {
        Some(d) => d.len() == 4,
        None => false,
    };
    if !well_formed {
        return Err(DuelError::MalformedDisclosure);
    }
    let was_ship = read_variable_u32_le(variable);
    let shot_at = PlayerId::from_flag(variable.metadata.player);
    record_result(state, shot_at, was_ship != 0)?;
    Ok(ZkStateChange::OutputComplete { variables_to_delete: Vec::new() })
}

/// Notes that the engine has accepted a placement; `placements` holds the
/// owners' metadata of all it now stores. The duel starts once it holds
/// exactly one placement of each player.
pub fn inputted_variable(state: &mut ContractState, placements: &Vec<SecretVarMetadata>)
    ensures
        *final(state) == old(state).after_input(placements@),
        old(state).wf() ==> final(state).wf(),
{
    if state.game_state == GamePhase::Setup && placements.len() == 2
        && placements[0].player != placements[1].player {
        state.game_state = GamePhase::Playing;
    }
}

} // verus!
