use vstd::prelude::*;

verus! {

/// Kind of account behind an address.
#[derive(Clone, Copy, Debug, PartialEq, Eq, Structural)]
pub enum AddressType {
    Account,
    SystemContract,
    PublicContract,
    ZkContract,
    Gov,
}

/// Identity of a participant: its kind and its 20-byte identifier.
#[derive(Clone, Copy, Debug, Eq)]
pub struct Address {
    pub address_type: AddressType,
    pub identifier: [u8; 20],
}

impl PartialEq for Address {
    fn eq(&self, other: &Address) -> (r: bool)
        ensures
            r == (*self == *other),
    {
        if self.address_type != other.address_type {
            return false;
        }
        let mut i: usize = 0;
        while i < 20
            invariant
                0 <= i <= 20,
                forall|j: int| 0 <= j < i ==> self.identifier[j] == other.identifier[j],
            decreases 20 - i,
        {
            if self.identifier[i] != other.identifier[i] {
                return false;
            }
            i = i + 1;
        }
        assert(self.identifier =~= other.identifier);
        true
    }
}

impl vstd::std_specs::cmp::PartialEqSpecImpl for Address {
    open spec fn obeys_eq_spec() -> bool {
        true
    }

    open spec fn eq_spec(&self, other: &Address) -> bool {
        *self == *other
    }
}

/// One of the two seats of the duel.
#[derive(Clone, Copy, Debug, PartialEq, Eq, Structural)]
pub enum PlayerId {
    A,
    B,
}

impl PlayerId {
    /// The flag under which the engine stores this player's values.
    pub open spec fn flag_of(self) -> bool {
        self == PlayerId::B
    }

    pub open spec fn of_flag(flag: bool) -> PlayerId {
        if flag {
            PlayerId::B
        } else {
            PlayerId::A
        }
    }

    pub open spec fn other(self) -> PlayerId {
        match self {
            PlayerId::A => PlayerId::B,
            PlayerId::B => PlayerId::A,
        }
    }

    pub fn flag(&self) -> (r: bool)
        ensures
            r == self.flag_of(),
    {
        match self {
            PlayerId::A => false,
            PlayerId::B => true,
        }
    }

    pub fn from_flag(flag: bool) -> (r: PlayerId)
        ensures
            r == PlayerId::of_flag(flag),
    {
        if flag {
            PlayerId::B
        } else {
            PlayerId::A
        }
    }

    pub fn opponent(&self) -> (r: PlayerId)
        ensures
            r == self.other(),
    {
        match self {
            PlayerId::A => PlayerId::B,
            PlayerId::B => PlayerId::A,
        }
    }
}

/// Coarse lifecycle stage of the duel.
#[derive(Clone, Copy, Debug, PartialEq, Eq, Structural)]
pub enum GamePhase {
    Setup,
    Playing,
    Ended,
}

/// Status of the secret computation engine.
#[derive(Clone, Copy, Debug, PartialEq, Eq, Structural)]
pub enum CalculationStatus {
    Waiting,
    Calculating,
    Output,
    MaliciousBehaviour,
    Done,
}

/// Why a handler refused an event; the state is left as it was.
#[derive(Clone, Copy, Debug, PartialEq, Eq, Structural)]
pub enum DuelError {
    /// The caller is neither registered player.
    UnauthorizedCaller,
    /// The caller is not the player whose shot is legal now.
    NotYourTurn,
    /// The duel is not in the playing phase.
    GameNotPlayable,
    /// A computation is still outstanding in the engine.
    ComputationBusy,
    /// A disclosure did not carry exactly one four-byte result.
    MalformedDisclosure,
    /// The targeted player's result was already recorded.
    DuplicateResult,
}

/// Handle of a variable held by the secret computation engine.
#[derive(Clone, Copy, Debug, PartialEq, Eq, Structural)]
pub struct SecretVarId {
    pub raw_id: u32,
}

/// Cleartext metadata attached to a secret variable: the player it belongs to,
/// as a flag (`false` for A, `true` for B).
#[derive(Clone, Copy, Debug, PartialEq, Eq, Structural)]
pub struct SecretVarMetadata {
    pub player: bool,
}

/// A variable handed back by the engine after it was opened.
#[derive(Debug)]
pub struct OpenedVariable {
    pub id: SecretVarId,
    pub metadata: SecretVarMetadata,
    /// The plaintext bytes, when the engine attached them.
    pub data: Option<Vec<u8>>,
}

/// A concealed value as the engine stores it, with its owner's flag.
#[derive(Clone, Copy, Debug, PartialEq, Eq, Structural)]
pub struct StoredSecret {
    pub metadata: SecretVarMetadata,
    pub value: i32,
}

/// How the engine must accept a player's concealed placement.
#[derive(Debug)]
pub struct ZkInputDef {
    pub seal: bool,
    pub metadata: SecretVarMetadata,
    pub expected_bit_lengths: Vec<u32>,
}

/// A request that a handler hands back to the engine.
#[derive(Debug)]
pub enum ZkStateChange {
    /// Start the comparison routine on the plaintext inputs `target` and
    /// `position`; one output variable is made per entry of `output_metadata`.
    StartComputation { output_metadata: Vec<SecretVarMetadata>, target: bool, position: u32 },
    /// Disclose these variables.
    OpenVariables { variables: Vec<SecretVarId> },
    /// The disclosure was consumed; delete these variables.
    OutputComplete { variables_to_delete: Vec<SecretVarId> },
}

/// The public record of the duel.
#[derive(Clone, Copy, Debug)]
pub struct ContractState {
    pub player_a: Address,
    pub player_b: Address,
    pub next_turn: Address,
    pub winner: Option<Address>,
    pub hit_a: Option<bool>,
    pub hit_b: Option<bool>,
    pub game_state: GamePhase,
}

} // verus!
