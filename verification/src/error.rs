use vstd::prelude::*;

verus! {

/// Why a transition was rejected. A rejected transition changes nothing and
/// publishes nothing.
#[derive(Clone, Copy, Debug, PartialEq, Eq, Structural)]
pub enum AgentRepError {
    /// The agent's name is longer than `MAX_NAME_LEN` characters.
    NameTooLong,
    /// The agent's description is longer than `MAX_DESCRIPTION_LEN` characters.
    DescriptionTooLong,
    /// The protocol name of an action is longer than `MAX_PROTOCOL_LEN` characters.
    ProtocolNameTooLong,
    /// The metadata of an action is longer than `MAX_METADATA_LEN` characters.
    MetadataTooLong,
    /// The reason given for a slash is longer than `MAX_REASON_LEN` characters.
    ReasonTooLong,
    /// More was to be slashed than the agent has at stake.
    SlashExceedsStake,
    /// Less than the cooldown has passed since the agent's last action.
    CooldownNotComplete,
    /// The agent has been deregistered.
    AgentNotActive,
}

} // verus!
