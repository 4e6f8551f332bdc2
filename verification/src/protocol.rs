//! What clients are told about an agent.
use crate::text::opt_owned_text;
use crate::text::owned_texts;
use vstd::prelude::*;

verus! {

/// How an agent's stream is framed.
#[derive(Debug, Clone, Copy, PartialEq, Eq, Structural)]
pub enum AgentWire {
    Websocket,
    Jsonl,
    Terminal,
}

/// How an agent's terminal is reached.
#[derive(Debug, Clone, Copy, PartialEq, Eq, Structural)]
pub enum AgentTerminalTransport {
    DroidPty,
}

/// How an agent is shown.
#[derive(Debug, Clone, PartialEq, Eq)]
pub struct AgentPresentation {
    pub title: Option<String>,
    pub is_beta: bool,
    pub sort_order: i32,
    pub description: Option<String>,
    pub aliases: Vec<String>,
}

/// What a presentation says.
#[verifier::ext_equal]
pub struct PresentationView {
    pub title: Option<Seq<char>>,
    pub is_beta: bool,
    pub sort_order: i32,
    pub description: Option<Seq<char>>,
    pub aliases: Seq<Seq<char>>,
}

impl View for AgentPresentation {
    type V = PresentationView;

    open spec fn view(&self) -> PresentationView {
        PresentationView {
            title: opt_owned_text(self.title),
            is_beta: self.is_beta,
            sort_order: self.sort_order,
            description: opt_owned_text(self.description),
            aliases: owned_texts(self.aliases@),
        }
    }
}

/// The terminal that an agent offers.
#[derive(Debug, Clone, PartialEq, Eq)]
pub struct AgentTerminalCapability {
    pub transport: AgentTerminalTransport,
    pub protocol_version: u32,
    pub features: Vec<String>,
    pub launch_agent: Option<String>,
    pub label: Option<String>,
}

/// What is said of an agent's terminal.
#[verifier::ext_equal]
pub struct TerminalView {
    pub transport: AgentTerminalTransport,
    pub protocol_version: u32,
    pub features: Seq<Seq<char>>,
    pub launch_agent: Option<Seq<char>>,
    pub label: Option<Seq<char>>,
}

impl View for AgentTerminalCapability {
    type V = TerminalView;

    open spec fn view(&self) -> TerminalView {
        TerminalView {
            transport: self.transport,
            protocol_version: self.protocol_version,
            features: owned_texts(self.features@),
            launch_agent: opt_owned_text(self.launch_agent),
            label: opt_owned_text(self.label),
        }
    }
}

/// What an agent can do.
#[derive(Debug, Clone, PartialEq, Eq)]
pub struct AgentCapabilities {
    pub locks_reasoning_effort_after_activity: bool,
    pub visible_modes: Option<Vec<String>>,
    pub supports_ssh_bridge: bool,
    pub uses_direct_codex_port: bool,
    pub supports_thread_permission_overrides: bool,
    pub reports_effective_thread_permissions: bool,
    pub terminal: Option<AgentTerminalCapability>,
}

/// What is said of an agent's capabilities.
#[verifier::ext_equal]
pub struct CapabilitiesView {
    pub locks_reasoning_effort_after_activity: bool,
    pub visible_modes: Option<Seq<Seq<char>>>,
    pub supports_ssh_bridge: bool,
    pub uses_direct_codex_port: bool,
    pub supports_thread_permission_overrides: bool,
    pub reports_effective_thread_permissions: bool,
    pub terminal: Option<TerminalView>,
}

impl View for AgentCapabilities {
    type V = CapabilitiesView;

    open spec fn view(&self) -> CapabilitiesView {
        CapabilitiesView {
            locks_reasoning_effort_after_activity: self.locks_reasoning_effort_after_activity,
            visible_modes: match self.visible_modes {
                Some(modes) => Some(owned_texts(modes@)),
                None => None,
            },
            supports_ssh_bridge: self.supports_ssh_bridge,
            uses_direct_codex_port: self.uses_direct_codex_port,
            supports_thread_permission_overrides: self.supports_thread_permission_overrides,
            reports_effective_thread_permissions: self.reports_effective_thread_permissions,
            terminal: match self.terminal {
                Some(terminal) => Some(terminal@),
                None => None,
            },
        }
    }
}

/// What clients are told is seen as what its fields hold.
pub proof fn told_is_seen_as_it_is(
    shown: AgentPresentation,
    able: AgentCapabilities,
    terminal: AgentTerminalCapability,
)
    ensures
        shown@.title == opt_owned_text(shown.title),
        shown@.is_beta == shown.is_beta,
        shown@.sort_order == shown.sort_order,
        shown@.description == opt_owned_text(shown.description),
        shown@.aliases == owned_texts(shown.aliases@),
        able@.locks_reasoning_effort_after_activity == able.locks_reasoning_effort_after_activity,
        able@.visible_modes is Some <==> able.visible_modes is Some,
        able.visible_modes matches Some(modes) ==> able@.visible_modes->0 == owned_texts(modes@),
        able@.supports_ssh_bridge == able.supports_ssh_bridge,
        able@.uses_direct_codex_port == able.uses_direct_codex_port,
        able@.supports_thread_permission_overrides == able.supports_thread_permission_overrides,
        able@.reports_effective_thread_permissions == able.reports_effective_thread_permissions,
        able@.terminal is Some <==> able.terminal is Some,
        able.terminal matches Some(t) ==> able@.terminal->0 == t@,
        terminal@.transport == terminal.transport,
        terminal@.protocol_version == terminal.protocol_version,
        terminal@.features == owned_texts(terminal.features@),
        terminal@.launch_agent == opt_owned_text(terminal.launch_agent),
        terminal@.label == opt_owned_text(terminal.label),
{
}

} // verus!
