//! The monitor's configuration, as resolved from command-line flags.

use vstd::prelude::*;
use vstd::std_specs::convert::FromSpecImpl;
use crate::auth::AuthType;

verus! {

/// The rate-limited resource whose status is shown.
#[derive(Debug, Clone, Copy, PartialEq, Eq, Structural)]
pub enum Resource {
    Core,
    Search,
    Graphql,
}

impl Resource {
    /// The resource's name in lower case.
    pub open spec fn spec_name(self) -> Seq<char> {
        match self {
            Resource::Core => "core"@,
            Resource::Search => "search"@,
            Resource::Graphql => "graphql"@,
        }
    }

    /// The resource's name: `core`, `search` or `graphql`.
    pub fn name(&self) -> (name: &'static str)
        ensures
            name@ == self.spec_name(),
    {
        match self {
            Resource::Core => "core",
            Resource::Search => "search",
            Resource::Graphql => "graphql",
        }
    }

    /// The resource's name as an owned string.
    pub fn to_string(&self) -> (name: String)
        ensures
            name@ == self.spec_name(),
    {
        String::from_str(self.name())
    }
}

/// The flags as they were given; a flag that was not given is empty.
#[derive(Debug, Clone, PartialEq, Eq)]
pub struct Arguments {
    pub flag_login: String,
    pub flag_password: String,
    pub flag_access_token: String,
    pub flag_frequency: u64,
    pub flag_version: bool,
    pub flag_short: bool,
    pub flag_resource: Resource,
}

/// What the monitor is started with.
#[derive(Debug, PartialEq, Eq)]
pub struct Options {
    /// Seconds between two fetches.
    pub frequency: u64,
    pub auth: AuthType,
    pub resource: Resource,
}

impl Clone for Options {
    /// A copy holds the same configuration.
    fn clone(&self) -> (copy: Options)
        ensures
            copy == *self,
    {
        Options { frequency: self.frequency, auth: self.auth.clone(), resource: self.resource }
    }
}

impl Arguments {
    /// The credentials the flags select: the access token where one is
    /// given, else login and password where a login is given, else none.
    pub open spec fn spec_auth(self) -> AuthType {
        if self.flag_access_token@.len() != 0 {
            AuthType::Token(self.flag_access_token)
        } else if self.flag_login@.len() != 0 {
            AuthType::Login { login: self.flag_login, password: self.flag_password }
        } else {
            AuthType::Anonymos
        }
    }
}

impl FromSpecImpl<Arguments> for Options {
    open spec fn obeys_from_spec() -> bool {
        true
    }

    open spec fn from_spec(item: Arguments) -> Options {
        Options {
            frequency: item.flag_frequency,
            auth: item.spec_auth(),
            resource: item.flag_resource,
        }
    }
}

impl From<Arguments> for Options {
    /// Resolves the flags: frequency and resource are taken over, and an
    /// access token takes precedence over login and password.
    fn from(item: Arguments) -> (options: Options) {
        if !item.flag_access_token.as_str().is_empty() {
            Options {
                resource: item.flag_resource,
                frequency: item.flag_frequency,
                auth: AuthType::Token(item.flag_access_token),
            }
        } else if !item.flag_login.as_str().is_empty() {
            Options {
                resource: item.flag_resource,
                frequency: item.flag_frequency,
                auth: AuthType::Login { login: item.flag_login, password: item.flag_password },
            }
        } else {
            Options {
                resource: item.flag_resource,
                frequency: item.flag_frequency,
                auth: AuthType::Anonymos,
            }
        }
    }
}

} // verus!
