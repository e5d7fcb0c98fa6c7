//! The mode a runtime works in, and the part of a configuration that a user edits.

use crate::text::str_eq;
use vstd::prelude::*;

verus! {

/// The role of a runtime in the network.
#[derive(Debug, Clone, Copy, PartialEq, Eq, Structural)]
pub enum ZenohMode {
    Peer,
    Router,
    Client,
}

impl ZenohMode {
    /// The name of a mode in configuration files.
    pub open spec fn name(self) -> Seq<char> {
        match self {
            ZenohMode::Peer => "peer"@,
            ZenohMode::Router => "router"@,
            ZenohMode::Client => "client"@,
        }
    }

    /// The mode that a text names, if it names one.
    pub open spec fn of_name(s: Seq<char>) -> Option<ZenohMode> {
        if s == "peer"@ {
            Some(ZenohMode::Peer)
        } else if s == "router"@ {
            Some(ZenohMode::Router)
        } else if s == "client"@ {
            Some(ZenohMode::Client)
        } else {
            None
        }
    }

    /// The error for a text that names no mode.
    pub open spec fn invalid_message(s: Seq<char>) -> Seq<char> {
        "Invalid mode: "@ + s + ". Must be 'peer', 'router', or 'client'"@
    }

    /// Every mode is found again from its name.
    pub proof fn lemma_name_round_trip(mode: ZenohMode)
        ensures
            ZenohMode::of_name(mode.name()) == Some(mode),
    {
        reveal_strlit("peer");
        reveal_strlit("router");
        reveal_strlit("client");
        assert("router"@.len() == 6);
        assert("peer"@.len() == 4);
        assert("client"@[0] == 'c');
        assert("router"@[0] == 'r');
    }

    pub fn as_str(&self) -> (r: &'static str)
        ensures
            r@ == self.name(),
    {
        match self {
            ZenohMode::Peer => "peer",
            ZenohMode::Router => "router",
            ZenohMode::Client => "client",
        }
    }

    pub fn from_str(s: &str) -> (r: Result<Self, String>)
        ensures
            match r {
                Ok(mode) => ZenohMode::of_name(s@) == Some(mode),
                Err(message) => ZenohMode::of_name(s@) is None && message@
                    == ZenohMode::invalid_message(s@),
            },
    {
        if str_eq(s, "peer") {
            Ok(ZenohMode::Peer)
        } else if str_eq(s, "router") {
            Ok(ZenohMode::Router)
        } else if str_eq(s, "client") {
            Ok(ZenohMode::Client)
        } else {
            let mut message = String::from_str("Invalid mode: ");
            message.append(s);
            message.append(". Must be 'peer', 'router', or 'client'");
            Err(message)
        }
    }
}

impl Default for ZenohMode {
    fn default() -> (r: Self)
        ensures
            r == ZenohMode::Peer,
    {
        ZenohMode::Peer
    }
}

/// The fields of a configuration that a user may edit.
#[derive(Debug, Clone, Copy, PartialEq, Eq, Structural)]
pub struct ZenohConfigEdit {
    /// The mode of the runtime.
    pub mode: ZenohMode,
}

impl ZenohConfigEdit {
    /// Builds the edit from the name of a mode, which must be one of the three.
    pub fn new(mode: &str) -> (r: Result<Self, String>)
        ensures
            match r {
                Ok(edit) => ZenohMode::of_name(mode@) == Some(edit.mode),
                Err(message) => ZenohMode::of_name(mode@) is None && message@
                    == ZenohMode::invalid_message(mode@),
            },
    {
        match ZenohMode::from_str(mode) {
            Ok(mode) => Ok(ZenohConfigEdit { mode }),
            Err(message) => Err(message),
        }
    }

    /// The edit that stands for a configuration whose mode is `mode`; a
    /// configuration without a mode runs as a peer.
    pub fn from_config(mode: Option<ZenohMode>) -> (r: Self)
        ensures
            r.mode == match mode {
                Some(m) => m,
                None => ZenohMode::Peer,
            },
    {
        match mode {
            Some(mode) => ZenohConfigEdit { mode },
            None => ZenohConfigEdit { mode: ZenohMode::Peer },
        }
    }

    /// The mode to hand to the runtime.
    pub fn to_what_am_i(&self) -> (r: ZenohMode)
        ensures
            r == self.mode,
    {
        self.mode
    }
}

/// One change to a configuration of the runtime, to be made through the
/// runtime's own interface.
#[derive(Debug, PartialEq, Eq)]
pub enum ConfigStep {
    /// Set the mode.
    SetMode(ZenohMode),
    /// Enable the admin space.
    EnableAdminspace,
    /// Enable the loading of plugins.
    EnablePluginsLoading,
    /// Insert a value, written as JSON5, under a key.
    InsertJson5 { key: String, value: String },
}

/// What a change holds.
pub enum ConfigStepView {
    SetMode(ZenohMode),
    EnableAdminspace,
    EnablePluginsLoading,
    InsertJson5 { key: Seq<char>, value: Seq<char> },
}

impl View for ConfigStep {
    type V = ConfigStepView;

    open spec fn view(&self) -> ConfigStepView {
        match self {
            ConfigStep::SetMode(mode) => ConfigStepView::SetMode(*mode),
            ConfigStep::EnableAdminspace => ConfigStepView::EnableAdminspace,
            ConfigStep::EnablePluginsLoading => ConfigStepView::EnablePluginsLoading,
            ConfigStep::InsertJson5 { key, value } => ConfigStepView::InsertJson5 {
                key: key@,
                value: value@,
            },
        }
    }
}

impl Clone for ConfigStep {
    fn clone(&self) -> (r: Self)
        ensures
            r@ == self@,
    {
        match self {
            ConfigStep::SetMode(mode) => ConfigStep::SetMode(*mode),
            ConfigStep::EnableAdminspace => ConfigStep::EnableAdminspace,
            ConfigStep::EnablePluginsLoading => ConfigStep::EnablePluginsLoading,
            ConfigStep::InsertJson5 { key, value } => ConfigStep::InsertJson5 {
                key: key.clone(),
                value: value.clone(),
            },
        }
    }
}

/// What a sequence of changes holds.
pub open spec fn steps_view(steps: Seq<ConfigStep>) -> Seq<ConfigStepView> {
    steps.map_values(|step: ConfigStep| step@)
}

/// The changes that make a configuration serve the sandbox: the admin space
/// and the loading of plugins are enabled, and the remote API plugin is set
/// up with the text of its websocket's port.
pub open spec fn sandbox_steps(port_text: Seq<char>) -> Seq<ConfigStepView> {
    seq![
        ConfigStepView::EnableAdminspace,
        ConfigStepView::EnablePluginsLoading,
        ConfigStepView::InsertJson5 { key: "plugins/remote_api"@, value: "{}"@ },
        ConfigStepView::InsertJson5 {
            key: "plugins/remote_api/websocket_port"@,
            value: port_text,
        },
    ]
}

impl ConfigStepView {
    /// The error for a change that the runtime refuses with `reason`.
    pub open spec fn failure_message(self, reason: Seq<char>) -> Seq<char> {
        match self {
            ConfigStepView::SetMode(_) => "Failed to set mode: "@ + reason,
            ConfigStepView::EnableAdminspace => "Failed to enable adminspace: "@ + reason,
            ConfigStepView::EnablePluginsLoading => "Failed to enable plugins loading: "@
                + reason,
            ConfigStepView::InsertJson5 { key, .. } => if key == "plugins/remote_api"@ {
                "Failed to add remote_api plugin config: "@ + reason
            } else {
                "Failed to set websocket_port: "@ + reason
            },
        }
    }
}

impl ConfigStep {
    /// The error for a change that the runtime refuses with `reason`.
    pub fn failure_message(&self, reason: &str) -> (r: String)
        ensures
            r@ == self@.failure_message(reason@),
    {
        let mut message = match self {
            ConfigStep::SetMode(_) => String::from_str("Failed to set mode: "),
            ConfigStep::EnableAdminspace => String::from_str("Failed to enable adminspace: "),
            ConfigStep::EnablePluginsLoading => String::from_str(
                "Failed to enable plugins loading: ",
            ),
            ConfigStep::InsertJson5 { key, .. } => {
                if str_eq(key.as_str(), "plugins/remote_api") {
                    String::from_str("Failed to add remote_api plugin config: ")
                } else {
                    String::from_str("Failed to set websocket_port: ")
                }
            },
        };
        message.append(reason);
        message
    }
}

/// The four changes of the sandbox, added to `steps`.
pub fn push_sandbox_steps(steps: &mut Vec<ConfigStep>, port_text: String)
    ensures
        steps_view(final(steps)@) == steps_view(old(steps)@) + sandbox_steps(port_text@),
{
    steps.push(ConfigStep::EnableAdminspace);
    steps.push(ConfigStep::EnablePluginsLoading);
    steps.push(
        ConfigStep::InsertJson5 {
            key: String::from_str("plugins/remote_api"),
            value: String::from_str("{}"),
        },
    );
    steps.push(
        ConfigStep::InsertJson5 {
            key: String::from_str("plugins/remote_api/websocket_port"),
            value: port_text,
        },
    );
    assert(steps_view(steps@) =~= steps_view(old(steps)@) + sandbox_steps(port_text@));
}

} // verus!
