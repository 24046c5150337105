use vstd::prelude::*;

use crate::identity::Identity;
use crate::records::AgentAccount;
use crate::records::ProgramConfig;

verus! {

/// Whether a supplied agent record, by itself, grants `signer` access: the
/// record must exist, name `signer` as its agent, and still be active.
pub open spec fn spec_is_valid_agent(agent: Option<AgentAccount>, signer: Identity) -> bool {
    match agent {
        Some(a) => a.agent == signer && a.is_active,
        None => false,
    }
}

/// Whether `caller` may perform a delegable mutating operation: always when
/// it is the configured authority, otherwise only through an active agent
/// record naming it. No other path grants access; a missing agent record
/// is simply unauthorized, not an error of its own.
pub open spec fn spec_is_authorized(
    caller: Identity,
    config: ProgramConfig,
    agent: Option<AgentAccount>,
) -> bool {
    caller == config.authority || spec_is_valid_agent(agent, caller)
}

/// Decides whether an agent record grants `signer` access.
pub fn is_valid_agent(agent: &Option<AgentAccount>, signer: &Identity) -> (r: bool)
    ensures
        r == spec_is_valid_agent(*agent, *signer),
{
    match agent {
        Some(agent_account) => agent_account.agent == *signer && agent_account.is_active,
        None => false,
    }
}

/// Decides whether `caller` may perform a delegable mutating operation,
/// as the authority or through the supplied agent record.
pub fn is_authorized(
    caller: &Identity,
    config: &ProgramConfig,
    agent: &Option<AgentAccount>,
) -> (r: bool)
    ensures
        r == spec_is_authorized(*caller, *config, *agent),
{
    *caller == config.authority || is_valid_agent(agent, caller)
}

} // verus!
