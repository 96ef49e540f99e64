//! State of the phonon, the particle being simulated.
use vstd::prelude::*;

verus! {

/// Life cycle of a phonon: it moves while alive, and ends absorbed, lost through a
/// bridge or clamp, or down-converted into two secondary phonons.
#[derive(Debug, Clone, Copy, PartialEq, Eq, Structural)]
pub enum PhononState {
    Alive,
    Absorbed,
    Lost,
    Downconverted,
}

/// Where the energy of a phonon is booked when its track ends within the simulated time.
#[derive(Debug, Clone, Copy, PartialEq, Eq, Structural)]
pub enum EnergyAccount {
    /// Energy absorbed in an absorber region.
    Absorbed,
    /// Energy lost through a bridge or a clamp.
    Lost,
}

/// The account that receives the energy of a phonon in a state.
pub open spec fn account_of(state: PhononState) -> Option<EnergyAccount> {
    match state {
        PhononState::Absorbed => Some(EnergyAccount::Absorbed),
        PhononState::Lost => Some(EnergyAccount::Lost),
        PhononState::Alive => None,
        PhononState::Downconverted => None,
    }
}

impl PhononState {
    /// Whether the phonon still moves.
    pub fn is_alive(&self) -> (alive: bool)
        ensures
            alive == (*self == PhononState::Alive),
    {
        match self {
            PhononState::Alive => true,
            _ => false,
        }
    }

    /// The state after the phonon hits a wall edge: an edge that is a bridge loses the
    /// phonon entirely; a solid wall edge scatters it and leaves its state as it was.
    pub fn after_wall_hit(&self, edge_is_bridge: bool) -> (next: PhononState)
        ensures
            edge_is_bridge ==> next == PhononState::Lost,
            !edge_is_bridge ==> next == *self,
    {
        if edge_is_bridge {
            PhononState::Lost
        } else {
            *self
        }
    }

    /// The account that receives the phonon's energy when its track ends: none for a
    /// phonon still alive at the end of the simulated time, and none for a
    /// down-converted phonon, whose energy the two secondary phonons carry on.
    pub fn energy_account(&self) -> (account: Option<EnergyAccount>)
        ensures
            account == account_of(*self),
            account == Some(EnergyAccount::Absorbed) <==> *self == PhononState::Absorbed,
            account == Some(EnergyAccount::Lost) <==> *self == PhononState::Lost,
            account is None <==> *self == PhononState::Alive || *self == PhononState::Downconverted,
    {
        match self {
            PhononState::Absorbed => Some(EnergyAccount::Absorbed),
            PhononState::Lost => Some(EnergyAccount::Lost),
            PhononState::Alive => None,
            PhononState::Downconverted => None,
        }
    }
}

} // verus!
