use vstd::prelude::*;

use crate::types::{Address, CalculationStatus, ContractState, DuelError, GamePhase, OpenedVariable, PlayerId,
    SecretVarMetadata,
};

verus! {

/// `b` is `a` or the phase that directly follows it.
pub open spec fn phase_step(a: GamePhase, b: GamePhase) -> bool {
    ||| a == b
    ||| (a == GamePhase::Setup && b == GamePhase::Playing)
    ||| (a == GamePhase::Playing && b == GamePhase::Ended)
}

/// After a shot's result is consumed, the turn belongs to the player who was
/// shot at.
pub proof fn lemma_turn_goes_to_target(s: ContractState, opened: Seq<OpenedVariable>)
    requires
        s.after_disclosure(opened) is Ok,
    ensures
        s.after_disclosure(opened)->Ok_0.next_turn == s.address_of(
            PlayerId::of_flag(opened[0].metadata.player),
        ),
{
}

/// Consuming a result moves the phase at most one step forward.
pub proof fn lemma_disclosure_phase_forward(s: ContractState, opened: Seq<OpenedVariable>)
    requires
        s.after_disclosure(opened) is Ok,
    ensures
        phase_step(s.game_state, s.after_disclosure(opened)->Ok_0.game_state),
{
}

/// A reported placement moves the phase at most one step forward.
pub proof fn lemma_input_phase_forward(s: ContractState, placements: Seq<SecretVarMetadata>)
    ensures
        phase_step(s.game_state, s.after_input(placements).game_state),
{
}

/// An ended duel stays ended: every shot fails, a registered player's as not
/// playable; every result and disclosure is refused; reported placements
/// change nothing.
pub proof fn lemma_ended_is_absorbing(
    s: ContractState,
    sender: Address,
    calculation_state: CalculationStatus,
    opened: Seq<OpenedVariable>,
    placements: Seq<SecretVarMetadata>,
)
    requires
        s.game_state == GamePhase::Ended,
    ensures
        s.shot_target(sender, calculation_state) is Err,
        s.player_of(sender) is Some ==> s.shot_target(sender, calculation_state) == Err::<
            PlayerId,
            DuelError,
        >(DuelError::GameNotPlayable),
        forall|target: PlayerId, hit: bool| #[trigger] s.record_result(target, hit) is Err,
        s.after_disclosure(opened) is Err,
        s.after_input(placements) == s,
{
}

/// A result slot is filled only while it is empty and leaves the other slot
/// as it was; once filled, every further result for that player is refused,
/// and reported placements leave both slots alone.
pub proof fn lemma_result_recorded_once(
    s: ContractState,
    target: PlayerId,
    hit: bool,
    placements: Seq<SecretVarMetadata>,
)
    ensures
        s.record_result(target, hit) is Ok && target == PlayerId::A ==> {
            &&& s.hit_a is None
            &&& s.record_result(target, hit)->Ok_0.hit_a == Some(hit)
            &&& s.record_result(target, hit)->Ok_0.hit_b == s.hit_b
        },
        s.record_result(target, hit) is Ok && target == PlayerId::B ==> {
            &&& s.hit_b is None
            &&& s.record_result(target, hit)->Ok_0.hit_b == Some(hit)
            &&& s.record_result(target, hit)->Ok_0.hit_a == s.hit_a
        },
        (target == PlayerId::A && s.hit_a is Some) || (target == PlayerId::B && s.hit_b is Some)
            ==> s.record_result(target, hit) is Err,
        s.after_input(placements).hit_a == s.hit_a,
        s.after_input(placements).hit_b == s.hit_b,
{
}

/// Every handler keeps the record's invariant.
pub proof fn lemma_wf_preserved(
    s: ContractState,
    opened: Seq<OpenedVariable>,
    placements: Seq<SecretVarMetadata>,
)
    requires
        s.wf(),
    ensures
        s.after_disclosure(opened) is Ok ==> s.after_disclosure(opened)->Ok_0.wf(),
        s.after_input(placements).wf(),
{
}

/// Of a well-formed record between two distinct players: B has won exactly
/// when A was hit and B was not, A exactly in the mirror case, and nobody
/// otherwise.
pub proof fn lemma_winner_consistency(s: ContractState)
    requires
        s.wf(),
        s.player_a != s.player_b,
    ensures
        (s.winner == Some(s.player_b)) == (s.hit_a == Some(true) && s.hit_b == Some(false)),
        (s.winner == Some(s.player_a)) == (s.hit_a == Some(false) && s.hit_b == Some(true)),
        (s.winner is None) == !((s.hit_a == Some(true) && s.hit_b == Some(false)) || (s.hit_a
            == Some(false) && s.hit_b == Some(true))),
{
}

/// Folding in a result sets the winner only when both results are in: then
/// B has won exactly when A was hit and B was not, A in the mirror case, and
/// nobody when both or neither were hit; before that the winner is untouched.
pub proof fn lemma_winner_follows_results(s: ContractState, target: PlayerId, hit: bool)
    requires
        s.record_result(target, hit) is Ok,
    ensures
        ({
            let t = s.record_result(target, hit)->Ok_0;
            &&& t.both_recorded() ==> {
                &&& t.hit_a == Some(true) && t.hit_b == Some(false) ==> t.winner == Some(t.player_b)
                &&& t.hit_a == Some(false) && t.hit_b == Some(true) ==> t.winner == Some(t.player_a)
                &&& t.hit_a == t.hit_b ==> t.winner is None
                &&& t.game_state == GamePhase::Ended
            }
            &&& !t.both_recorded() ==> t.winner == s.winner && t.game_state == s.game_state
        }),
{
}

/// Only the two registered players have a seat, and a shot by anyone else
/// is refused as unauthorized.
pub proof fn lemma_only_players_resolve(s: ContractState, caller: Address)
    ensures
        (s.player_of(caller) is None) == (caller != s.player_a && caller != s.player_b),
        s.player_of(caller) is Some ==> s.address_of(s.player_of(caller)->0) == caller,
        caller != s.player_a && caller != s.player_b ==> forall|c: CalculationStatus|
            #[trigger] s.shot_target(caller, c) == Err::<PlayerId, DuelError>(
                DuelError::UnauthorizedCaller,
            ),
{
}

} // verus!
