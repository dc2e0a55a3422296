//! The validated runtime configuration: required identifiers, optional
//! channels (zero means unset), and the two remote addresses.

use vstd::prelude::*;

use crate::router::ChannelConfig;

verus! {

/// The configuration the process runs under. Loading it is the caller's
/// part; this type only states and checks what the fields must satisfy.
pub struct Config {
    pub guild_id: u64,
    pub mod_role_id: u64,
    pub mod_channel_id: u64,
    /// Zero when no log channel is bound.
    pub log_channel_id: u64,
    /// Zero when no approvals channel is bound.
    pub name_approvals_channel_id: u64,
    pub monitor_address: String,
    pub ofapi_endpoint: String,
}

impl Config {
    /// The first unmet requirement, or nothing when every required
    /// identifier is set.
    pub fn validate(&self) -> (r: Option<&'static str>)
        ensures
            r is None <==> (self.guild_id != 0 && self.mod_role_id != 0 && self.mod_channel_id
                != 0),
            self.guild_id == 0 ==> (r matches Some(m) && m@ == "guild_id must be set"@),
            self.guild_id != 0 && self.mod_role_id == 0 ==> (r matches Some(m) && m@
                == "mod_role_id must be set"@),
            self.guild_id != 0 && self.mod_role_id != 0 && self.mod_channel_id == 0 ==> (r
                matches Some(m) && m@ == "mod_channel_id must be set"@),
    {
        if self.guild_id == 0 {
            return Some("guild_id must be set");
        }
        if self.mod_role_id == 0 {
            return Some("mod_role_id must be set");
        }
        if self.mod_channel_id == 0 {
            return Some("mod_channel_id must be set");
        }
        None
    }

    /// An optional channel: a zero identifier means unset.
    pub fn optional_channel(id: u64) -> (r: Option<u64>)
        ensures
            r == if id != 0 {
                Some(id)
            } else {
                None::<u64>
            },
    {
        if id != 0 {
            Some(id)
        } else {
            None
        }
    }

    /// The router's channel bindings this configuration prescribes.
    pub fn channel_config(&self) -> (c: ChannelConfig)
        ensures
            c.log_channel == if self.log_channel_id != 0 {
                Some(self.log_channel_id)
            } else {
                None::<u64>
            },
            c.name_approvals_channel == if self.name_approvals_channel_id != 0 {
                Some(self.name_approvals_channel_id)
            } else {
                None::<u64>
            },
    {
        ChannelConfig {
            log_channel: Self::optional_channel(self.log_channel_id),
            name_approvals_channel: Self::optional_channel(self.name_approvals_channel_id),
        }
    }
}

} // verus!
