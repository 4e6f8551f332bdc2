//! Static metadata of every agent on offer: how it is presented (label, beta,
//! sort order, aliases) and what it can do. A new agent needs an entry in the
//! list here and its bridge wired up.
//!
//! Icons are not part of it: clients keep their own assets by agent name, and
//! show a generic monogram for a name they have none for.
//!
//! One agent, the guest, is worded by the embedding program: its name, label,
//! description and aliases come as an argument. Its place in the list and what
//! it can do are fixed here, as for every other agent.
use crate::payload::feature_list;
use crate::protocol::AgentCapabilities;
use crate::protocol::AgentPresentation;
use crate::protocol::AgentTerminalCapability;
use crate::protocol::AgentTerminalTransport;
use crate::protocol::AgentWire;
use crate::protocol::CapabilitiesView;
use crate::protocol::PresentationView;
use crate::protocol::TerminalView;
use crate::text::opt_owned_text;
use crate::text::opt_text;
use crate::text::own_all;
use crate::text::own_opt;
use crate::text::owned_texts;
use crate::text::same_text;
use crate::text::texts;
use crate::wire::TERMINAL_PROTOCOL_VERSION;
use vstd::prelude::*;

verus! {

/// An agent's metadata. It owns nothing, so that it can be copied about;
/// `presentation` and `capabilities` give what goes to clients.
#[derive(Debug, Clone, Copy)]
pub struct AgentManifest {
    pub name: &'static str,
    pub display_name: &'static str,
    pub wire: AgentWire,
    pub title: Option<&'static str>,
    pub is_beta: bool,
    pub sort_order: i32,
    pub description: Option<&'static str>,
    pub aliases: &'static [&'static str],
    pub locks_reasoning_effort_after_activity: bool,
    pub visible_modes: Option<&'static [&'static str]>,
    pub supports_ssh_bridge: bool,
    pub uses_direct_codex_port: bool,
    pub supports_thread_permission_overrides: bool,
    pub reports_effective_thread_permissions: bool,
    pub terminal: Option<AgentTerminalManifest>,
}

/// The terminal that an agent offers.
#[derive(Debug, Clone, Copy)]
pub struct AgentTerminalManifest {
    pub transport: AgentTerminalTransport,
    pub protocol_version: u32,
    pub features: &'static [&'static str],
    pub launch_agent: Option<&'static str>,
    pub label: Option<&'static str>,
}

impl View for AgentTerminalManifest {
    type V = TerminalView;

    open spec fn view(&self) -> TerminalView {
        TerminalView {
            transport: self.transport,
            protocol_version: self.protocol_version,
            features: texts(self.features@),
            launch_agent: opt_text(self.launch_agent),
            label: opt_text(self.label),
        }
    }
}

/// What a manifest says.
#[verifier::ext_equal]
pub struct ManifestView {
    pub name: Seq<char>,
    pub display_name: Seq<char>,
    pub wire: AgentWire,
    pub title: Option<Seq<char>>,
    pub is_beta: bool,
    pub sort_order: i32,
    pub description: Option<Seq<char>>,
    pub aliases: Seq<Seq<char>>,
    pub locks_reasoning_effort_after_activity: bool,
    pub visible_modes: Option<Seq<Seq<char>>>,
    pub supports_ssh_bridge: bool,
    pub uses_direct_codex_port: bool,
    pub supports_thread_permission_overrides: bool,
    pub reports_effective_thread_permissions: bool,
    pub terminal: Option<TerminalView>,
}

impl View for AgentManifest {
    type V = ManifestView;

    open spec fn view(&self) -> ManifestView {
        ManifestView {
            name: self.name@,
            display_name: self.display_name@,
            wire: self.wire,
            title: opt_text(self.title),
            is_beta: self.is_beta,
            sort_order: self.sort_order,
            description: opt_text(self.description),
            aliases: texts(self.aliases@),
            locks_reasoning_effort_after_activity: self.locks_reasoning_effort_after_activity,
            visible_modes: match self.visible_modes {
                Some(modes) => Some(texts(modes@)),
                None => None,
            },
            supports_ssh_bridge: self.supports_ssh_bridge,
            uses_direct_codex_port: self.uses_direct_codex_port,
            supports_thread_permission_overrides: self.supports_thread_permission_overrides,
            reports_effective_thread_permissions: self.reports_effective_thread_permissions,
            terminal: match self.terminal {
                Some(terminal) => Some(terminal@),
                None => None,
            },
        }
    }
}

impl ManifestView {
    /// How the agent is shown.
    pub open spec fn presented(self) -> PresentationView {
        PresentationView {
            title: self.title,
            is_beta: self.is_beta,
            sort_order: self.sort_order,
            description: self.description,
            aliases: self.aliases,
        }
    }

    /// What the agent can do.
    pub open spec fn capable(self) -> CapabilitiesView {
        CapabilitiesView {
            locks_reasoning_effort_after_activity: self.locks_reasoning_effort_after_activity,
            visible_modes: self.visible_modes,
            supports_ssh_bridge: self.supports_ssh_bridge,
            uses_direct_codex_port: self.uses_direct_codex_port,
            supports_thread_permission_overrides: self.supports_thread_permission_overrides,
            reports_effective_thread_permissions: self.reports_effective_thread_permissions,
            terminal: self.terminal,
        }
    }
}

impl AgentManifest {
    /// How the agent is shown.
    pub fn presentation(&self) -> (r: AgentPresentation)
        ensures
            r@ == self@.presented(),
            opt_owned_text(r.title) == opt_text(self.title),
            r.is_beta == self.is_beta,
            r.sort_order == self.sort_order,
            opt_owned_text(r.description) == opt_text(self.description),
            owned_texts(r.aliases@) == texts(self.aliases@),
    {
        AgentPresentation {
            title: own_opt(self.title),
            is_beta: self.is_beta,
            sort_order: self.sort_order,
            description: own_opt(self.description),
            aliases: own_all(self.aliases),
        }
    }

    /// What the agent can do.
    pub fn capabilities(&self) -> (r: AgentCapabilities)
        ensures
            r@ == self@.capable(),
            r.locks_reasoning_effort_after_activity == self.locks_reasoning_effort_after_activity,
            r.visible_modes is Some <==> self.visible_modes is Some,
            self.visible_modes matches Some(modes) ==> owned_texts(r.visible_modes->0@) == texts(
                modes@,
            ),
            r.supports_ssh_bridge == self.supports_ssh_bridge,
            r.uses_direct_codex_port == self.uses_direct_codex_port,
            r.supports_thread_permission_overrides == self.supports_thread_permission_overrides,
            r.reports_effective_thread_permissions == self.reports_effective_thread_permissions,
            r.terminal is Some <==> self.terminal is Some,
            self.terminal matches Some(terminal) ==> {
                &&& r.terminal->0.transport == terminal.transport
                &&& r.terminal->0.protocol_version == terminal.protocol_version
                &&& owned_texts(r.terminal->0.features@) == texts(terminal.features@)
                &&& opt_owned_text(r.terminal->0.launch_agent) == opt_text(terminal.launch_agent)
                &&& opt_owned_text(r.terminal->0.label) == opt_text(terminal.label)
            },
    {
        AgentCapabilities {
            locks_reasoning_effort_after_activity: self.locks_reasoning_effort_after_activity,
            visible_modes: match self.visible_modes {
                Some(modes) => Some(own_all(modes)),
                None => None,
            },
            supports_ssh_bridge: self.supports_ssh_bridge,
            uses_direct_codex_port: self.uses_direct_codex_port,
            supports_thread_permission_overrides: self.supports_thread_permission_overrides,
            reports_effective_thread_permissions: self.reports_effective_thread_permissions,
            terminal: match self.terminal {
                Some(terminal) => Some(
                    AgentTerminalCapability {
                        transport: terminal.transport,
                        protocol_version: terminal.protocol_version,
                        features: own_all(terminal.features),
                        launch_agent: own_opt(terminal.launch_agent),
                        label: own_opt(terminal.label),
                    },
                ),
                None => None,
            },
        }
    }
}

/// How the guest is called, labelled and described, and what else it goes by.
#[derive(Debug, Clone, Copy)]
pub struct GuestTexts {
    pub name: &'static str,
    pub display_name: &'static str,
    pub description: &'static str,
    pub aliases: &'static [&'static str],
}

/// What the guest's texts say.
#[verifier::ext_equal]
pub struct GuestView {
    pub name: Seq<char>,
    pub display_name: Seq<char>,
    pub description: Seq<char>,
    pub aliases: Seq<Seq<char>>,
}

impl View for GuestTexts {
    type V = GuestView;

    open spec fn view(&self) -> GuestView {
        GuestView {
            name: self.name@,
            display_name: self.display_name@,
            description: self.description@,
            aliases: texts(self.aliases@),
        }
    }
}

/// The guest's place in the list of agents.
pub const GUEST_PLACE: usize = 4;

/// The agents on offer.
pub open spec fn manifest_table(guest: GuestView) -> Seq<ManifestView> {
    seq![
        ManifestView {
            name: "codex"@,
            display_name: "Codex"@,
            wire: AgentWire::Websocket,
            title: None,
            is_beta: false,
            sort_order: 0,
            description: Some("OpenAI Codex app-server."@),
            aliases: seq![],
            locks_reasoning_effort_after_activity: false,
            visible_modes: None,
            supports_ssh_bridge: true,
            uses_direct_codex_port: true,
            supports_thread_permission_overrides: true,
            reports_effective_thread_permissions: true,
            terminal: None,
        },
        ManifestView {
            name: "pi"@,
            display_name: "Pi"@,
            wire: AgentWire::Jsonl,
            title: None,
            is_beta: true,
            sort_order: 1,
            description: Some("Pi coding agent."@),
            aliases: seq!["pi.dev"@, "pidev"@],
            locks_reasoning_effort_after_activity: false,
            visible_modes: None,
            supports_ssh_bridge: true,
            uses_direct_codex_port: false,
            supports_thread_permission_overrides: false,
            reports_effective_thread_permissions: false,
            terminal: None,
        },
        ManifestView {
            name: "amp"@,
            display_name: "Amp"@,
            wire: AgentWire::Jsonl,
            title: Some("Amp"@),
            is_beta: true,
            sort_order: 2,
            description: Some("Sourcegraph Amp."@),
            aliases: seq!["ampcode"@, "amp-code"@, "amp_code"@, "amp code"@],
            locks_reasoning_effort_after_activity: true,
            visible_modes: Some(seq!["smart"@, "rush"@, "deep"@]),
            supports_ssh_bridge: false,
            uses_direct_codex_port: false,
            supports_thread_permission_overrides: false,
            reports_effective_thread_permissions: false,
            terminal: None,
        },
        ManifestView {
            name: "opencode"@,
            display_name: "opencode"@,
            wire: AgentWire::Jsonl,
            title: Some("Opencode"@),
            is_beta: true,
            sort_order: 3,
            description: Some("Open-source local coding agent."@),
            aliases: seq!["open-code"@, "open_code"@, "open code"@],
            locks_reasoning_effort_after_activity: false,
            visible_modes: None,
            supports_ssh_bridge: true,
            uses_direct_codex_port: false,
            supports_thread_permission_overrides: false,
            reports_effective_thread_permissions: false,
            terminal: None,
        },
        ManifestView {
            name: guest.name,
            display_name: guest.display_name,
            wire: AgentWire::Jsonl,
            title: None,
            is_beta: true,
            sort_order: 4,
            description: Some(guest.description),
            aliases: guest.aliases,
            locks_reasoning_effort_after_activity: false,
            visible_modes: None,
            supports_ssh_bridge: true,
            uses_direct_codex_port: false,
            supports_thread_permission_overrides: false,
            reports_effective_thread_permissions: false,
            terminal: None,
        },
        ManifestView {
            name: "droid"@,
            display_name: "Droid"@,
            wire: AgentWire::Jsonl,
            title: Some("Factory Droid"@),
            is_beta: true,
            sort_order: 5,
            description: Some("Factory Droid coding agent."@),
            aliases: seq!["factory"@, "factory-droid"@, "factory_droid"@, "factory droid"@],
            locks_reasoning_effort_after_activity: false,
            visible_modes: None,
            supports_ssh_bridge: false,
            uses_direct_codex_port: false,
            supports_thread_permission_overrides: false,
            reports_effective_thread_permissions: false,
            terminal: None,
        },
        ManifestView {
            name: "droid-pty"@,
            display_name: "Droid TUI"@,
            wire: AgentWire::Terminal,
            title: Some("Factory Droid TUI"@),
            is_beta: true,
            sort_order: 6,
            description: Some("Factory Droid interactive PTY/TUI terminal."@),
            aliases: seq!["droid-terminal"@, "droid_tui"@, "factory-droid-pty"@, "factory droid tui"@],
            locks_reasoning_effort_after_activity: false,
            visible_modes: Some(seq!["terminal"@]),
            supports_ssh_bridge: false,
            uses_direct_codex_port: false,
            supports_thread_permission_overrides: false,
            reports_effective_thread_permissions: false,
            terminal: Some(TerminalView {
                transport: AgentTerminalTransport::DroidPty,
                protocol_version: 1,
                features: seq!["hello"@, "start"@, "output"@, "input"@, "resize"@, "close"@, "exit"@, "error"@],
                launch_agent: Some("droid-pty"@),
                label: Some("Droid TUI"@),
            }),
        },
        ManifestView {
            name: "hermes"@,
            display_name: "Hermes"@,
            wire: AgentWire::Jsonl,
            title: Some("Hermes"@),
            is_beta: true,
            sort_order: 7,
            description: Some("Nous Research Hermes agent."@),
            aliases: seq![],
            locks_reasoning_effort_after_activity: false,
            visible_modes: None,
            supports_ssh_bridge: false,
            uses_direct_codex_port: false,
            supports_thread_permission_overrides: false,
            reports_effective_thread_permissions: false,
            terminal: None,
        },
        ManifestView {
            name: "devin"@,
            display_name: "Devin"@,
            wire: AgentWire::Jsonl,
            title: Some("Devin"@),
            is_beta: true,
            sort_order: 8,
            description: Some("Devin coding agent."@),
            aliases: seq![],
            locks_reasoning_effort_after_activity: false,
            visible_modes: None,
            supports_ssh_bridge: true,
            uses_direct_codex_port: false,
            supports_thread_permission_overrides: false,
            reports_effective_thread_permissions: false,
            terminal: None,
        },
        ManifestView {
            name: "grok"@,
            display_name: "Grok"@,
            wire: AgentWire::Jsonl,
            title: Some("Grok"@),
            is_beta: true,
            sort_order: 9,
            description: Some("xAI Grok coding agent."@),
            aliases: seq!["grok-code"@, "xai-grok"@, "xai grok"@],
            locks_reasoning_effort_after_activity: false,
            visible_modes: None,
            supports_ssh_bridge: true,
            uses_direct_codex_port: false,
            supports_thread_permission_overrides: false,
            reports_effective_thread_permissions: false,
            terminal: None,
        },
        ManifestView {
            name: "shell"@,
            display_name: "Shell"@,
            wire: AgentWire::Jsonl,
            title: Some("Shell"@),
            is_beta: true,
            sort_order: 10,
            description: Some("PTY-backed host shell."@),
            aliases: seq!["terminal"@],
            locks_reasoning_effort_after_activity: false,
            visible_modes: None,
            supports_ssh_bridge: false,
            uses_direct_codex_port: false,
            supports_thread_permission_overrides: false,
            reports_effective_thread_permissions: false,
            terminal: None,
        },
    ]
}

/// The agents on offer.
pub fn manifests(guest: GuestTexts) -> (r: [AgentManifest; 11])
    ensures
        r@.map_values(|m: AgentManifest| m@) == manifest_table(guest@),
{
    let r: [AgentManifest; 11] = [
        AgentManifest {
            name: "codex",
            display_name: "Codex",
            wire: AgentWire::Websocket,
            title: None,
            is_beta: false,
            sort_order: 0,
            description: Some("OpenAI Codex app-server."),
            aliases: &[],
            locks_reasoning_effort_after_activity: false,
            visible_modes: None,
            supports_ssh_bridge: true,
            uses_direct_codex_port: true,
            supports_thread_permission_overrides: true,
            reports_effective_thread_permissions: true,
            terminal: None,
        },
        AgentManifest {
            name: "pi",
            display_name: "Pi",
            wire: AgentWire::Jsonl,
            title: None,
            is_beta: true,
            sort_order: 1,
            description: Some("Pi coding agent."),
            aliases: &["pi.dev", "pidev"],
            locks_reasoning_effort_after_activity: false,
            visible_modes: None,
            supports_ssh_bridge: true,
            uses_direct_codex_port: false,
            supports_thread_permission_overrides: false,
            reports_effective_thread_permissions: false,
            terminal: None,
        },
        AgentManifest {
            name: "amp",
            display_name: "Amp",
            wire: AgentWire::Jsonl,
            title: Some("Amp"),
            is_beta: true,
            sort_order: 2,
            description: Some("Sourcegraph Amp."),
            aliases: &["ampcode", "amp-code", "amp_code", "amp code"],
            locks_reasoning_effort_after_activity: true,
            visible_modes: Some(&["smart", "rush", "deep"]),
            supports_ssh_bridge: false,
            uses_direct_codex_port: false,
            supports_thread_permission_overrides: false,
            reports_effective_thread_permissions: false,
            terminal: None,
        },
        AgentManifest {
            name: "opencode",
            display_name: "opencode",
            wire: AgentWire::Jsonl,
            title: Some("Opencode"),
            is_beta: true,
            sort_order: 3,
            description: Some("Open-source local coding agent."),
            aliases: &["open-code", "open_code", "open code"],
            locks_reasoning_effort_after_activity: false,
            visible_modes: None,
            supports_ssh_bridge: true,
            uses_direct_codex_port: false,
            supports_thread_permission_overrides: false,
            reports_effective_thread_permissions: false,
            terminal: None,
        },
        AgentManifest {
            name: guest.name,
            display_name: guest.display_name,
            wire: AgentWire::Jsonl,
            title: None,
            is_beta: true,
            sort_order: 4,
            description: Some(guest.description),
            aliases: guest.aliases,
            locks_reasoning_effort_after_activity: false,
            visible_modes: None,
            supports_ssh_bridge: true,
            uses_direct_codex_port: false,
            supports_thread_permission_overrides: false,
            reports_effective_thread_permissions: false,
            terminal: None,
        },
        AgentManifest {
            name: "droid",
            display_name: "Droid",
            wire: AgentWire::Jsonl,
            title: Some("Factory Droid"),
            is_beta: true,
            sort_order: 5,
            description: Some("Factory Droid coding agent."),
            aliases: &["factory", "factory-droid", "factory_droid", "factory droid"],
            locks_reasoning_effort_after_activity: false,
            visible_modes: None,
            supports_ssh_bridge: false,
            uses_direct_codex_port: false,
            supports_thread_permission_overrides: false,
            reports_effective_thread_permissions: false,
            terminal: None,
        },
        AgentManifest {
            name: "droid-pty",
            display_name: "Droid TUI",
            wire: AgentWire::Terminal,
            title: Some("Factory Droid TUI"),
            is_beta: true,
            sort_order: 6,
            description: Some("Factory Droid interactive PTY/TUI terminal."),
            aliases: &["droid-terminal", "droid_tui", "factory-droid-pty", "factory droid tui"],
            locks_reasoning_effort_after_activity: false,
            visible_modes: Some(&["terminal"]),
            supports_ssh_bridge: false,
            uses_direct_codex_port: false,
            supports_thread_permission_overrides: false,
            reports_effective_thread_permissions: false,
            terminal: Some(AgentTerminalManifest {
                transport: AgentTerminalTransport::DroidPty,
                protocol_version: 1,
                features: &["hello", "start", "output", "input", "resize", "close", "exit", "error"],
                launch_agent: Some("droid-pty"),
                label: Some("Droid TUI"),
            }),
        },
        AgentManifest {
            name: "hermes",
            display_name: "Hermes",
            wire: AgentWire::Jsonl,
            title: Some("Hermes"),
            is_beta: true,
            sort_order: 7,
            description: Some("Nous Research Hermes agent."),
            aliases: &[],
            locks_reasoning_effort_after_activity: false,
            visible_modes: None,
            supports_ssh_bridge: false,
            uses_direct_codex_port: false,
            supports_thread_permission_overrides: false,
            reports_effective_thread_permissions: false,
            terminal: None,
        },
        AgentManifest {
            name: "devin",
            display_name: "Devin",
            wire: AgentWire::Jsonl,
            title: Some("Devin"),
            is_beta: true,
            sort_order: 8,
            description: Some("Devin coding agent."),
            aliases: &[],
            locks_reasoning_effort_after_activity: false,
            visible_modes: None,
            supports_ssh_bridge: true,
            uses_direct_codex_port: false,
            supports_thread_permission_overrides: false,
            reports_effective_thread_permissions: false,
            terminal: None,
        },
        AgentManifest {
            name: "grok",
            display_name: "Grok",
            wire: AgentWire::Jsonl,
            title: Some("Grok"),
            is_beta: true,
            sort_order: 9,
            description: Some("xAI Grok coding agent."),
            aliases: &["grok-code", "xai-grok", "xai grok"],
            locks_reasoning_effort_after_activity: false,
            visible_modes: None,
            supports_ssh_bridge: true,
            uses_direct_codex_port: false,
            supports_thread_permission_overrides: false,
            reports_effective_thread_permissions: false,
            terminal: None,
        },
        AgentManifest {
            name: "shell",
            display_name: "Shell",
            wire: AgentWire::Jsonl,
            title: Some("Shell"),
            is_beta: true,
            sort_order: 10,
            description: Some("PTY-backed host shell."),
            aliases: &["terminal"],
            locks_reasoning_effort_after_activity: false,
            visible_modes: None,
            supports_ssh_bridge: false,
            uses_direct_codex_port: false,
            supports_thread_permission_overrides: false,
            reports_effective_thread_permissions: false,
            terminal: None,
        },
    ];
    assert(r@.map_values(|m: AgentManifest| m@) =~~= manifest_table(guest@));
    r
}

/// The agent of this name, if it is on offer.
pub fn manifest_for(guest: GuestTexts, name: &str) -> (r: Option<AgentManifest>)
    ensures
        match r {
            Some(m) => exists|i: int|
                0 <= i < manifest_table(guest@).len() && m@ == #[trigger] manifest_table(guest@)[i]
                    && m@.name == name@ && forall|j: int|
                    0 <= j < i ==> (#[trigger] manifest_table(guest@)[j]).name != name@,
            None => forall|i: int|
                0 <= i < manifest_table(guest@).len() ==> (#[trigger] manifest_table(
                    guest@,
                )[i]).name != name@,
        },
{
    let list: [AgentManifest; 11] = manifests(guest);
    let mut i: usize = 0;
    while i < 11
        invariant
            list@.map_values(|m: AgentManifest| m@) == manifest_table(guest@),
            i <= list@.len(),
            forall|j: int| 0 <= j < i ==> (#[trigger] manifest_table(guest@)[j]).name != name@,
        decreases 11 - i,
    {
        let ghost views = list@.map_values(|m: AgentManifest| m@);
        assert(views[i as int] == list@[i as int]@);
        if same_text(list[i].name, name) {
            assert(list@[i as int]@ == manifest_table(guest@)[i as int]);
            return Some(list[i]);
        }
        i = i + 1;
    }
    None
}

/// The agent goes by this text: it is its name or one of its aliases.
pub open spec fn goes_by(agent: ManifestView, text: Seq<char>) -> bool {
    agent.name == text || agent.aliases.contains(text)
}

/// The place in the list of the agent other than the guest that goes by `text`:
/// its first two characters and its length tell.
spec fn owner(text: Seq<char>) -> int {
    let a = text[0];
    if a == 'c' {
        0
    } else if a == 'p' {
        1
    } else if a == 'a' {
        2
    } else if a == 'o' {
        3
    } else if a == 'd' && text[1] == 'e' {
        8
    } else if a == 'd' || a == 'f' {
        if text.len() == 5 || text.len() == 7 || text.len() == 13 {
            5
        } else {
            6
        }
    } else if a == 'h' {
        7
    } else if a == 'g' || a == 'x' {
        9
    } else {
        10
    }
}

/// The list and `owner` agree.
proof fn owner_is_right(guest: GuestView, i: int, text: Seq<char>)
    requires
        0 <= i < manifest_table(guest).len(),
        i != GUEST_PLACE,
        goes_by(manifest_table(guest)[i], text),
    ensures
        owner(text) == i,
{
    reveal_strlit("codex");
    reveal_strlit("pi");
    reveal_strlit("pi.dev");
    reveal_strlit("pidev");
    reveal_strlit("amp");
    reveal_strlit("ampcode");
    reveal_strlit("amp-code");
    reveal_strlit("amp_code");
    reveal_strlit("amp code");
    reveal_strlit("opencode");
    reveal_strlit("open-code");
    reveal_strlit("open_code");
    reveal_strlit("open code");
    reveal_strlit("droid");
    reveal_strlit("factory");
    reveal_strlit("factory-droid");
    reveal_strlit("factory_droid");
    reveal_strlit("factory droid");
    reveal_strlit("droid-pty");
    reveal_strlit("droid-terminal");
    reveal_strlit("droid_tui");
    reveal_strlit("factory-droid-pty");
    reveal_strlit("factory droid tui");
    reveal_strlit("hermes");
    reveal_strlit("devin");
    reveal_strlit("grok");
    reveal_strlit("grok-code");
    reveal_strlit("xai-grok");
    reveal_strlit("xai grok");
    reveal_strlit("shell");
    reveal_strlit("terminal");
    let agent = manifest_table(guest)[i];
    if i == 0 {
        assert(agent.aliases =~= seq![]);
        assert(owner("codex"@) == 0);
    } else if i == 1 {
        assert(agent.aliases =~= seq!["pi.dev"@, "pidev"@]);
        assert(owner("pi"@) == 1);
        assert(owner("pi.dev"@) == 1);
        assert(owner("pidev"@) == 1);
    } else if i == 2 {
        assert(agent.aliases =~= seq!["ampcode"@, "amp-code"@, "amp_code"@, "amp code"@]);
        assert(owner("amp"@) == 2);
        assert(owner("ampcode"@) == 2);
        assert(owner("amp-code"@) == 2);
        assert(owner("amp_code"@) == 2);
        assert(owner("amp code"@) == 2);
    } else if i == 3 {
        assert(agent.aliases =~= seq!["open-code"@, "open_code"@, "open code"@]);
        assert(owner("opencode"@) == 3);
        assert(owner("open-code"@) == 3);
        assert(owner("open_code"@) == 3);
        assert(owner("open code"@) == 3);
    } else if i == 5 {
        assert(agent.aliases =~= seq!["factory"@, "factory-droid"@, "factory_droid"@, "factory droid"@]);
        assert(owner("droid"@) == 5);
        assert(owner("factory"@) == 5);
        assert(owner("factory-droid"@) == 5);
        assert(owner("factory_droid"@) == 5);
        assert(owner("factory droid"@) == 5);
    } else if i == 6 {
        assert(agent.aliases =~= seq!["droid-terminal"@, "droid_tui"@, "factory-droid-pty"@, "factory droid tui"@]);
        assert(owner("droid-pty"@) == 6);
        assert(owner("droid-terminal"@) == 6);
        assert(owner("droid_tui"@) == 6);
        assert(owner("factory-droid-pty"@) == 6);
        assert(owner("factory droid tui"@) == 6);
    } else if i == 7 {
        assert(agent.aliases =~= seq![]);
        assert(owner("hermes"@) == 7);
    } else if i == 8 {
        assert(agent.aliases =~= seq![]);
        assert(owner("devin"@) == 8);
    } else if i == 9 {
        assert(agent.aliases =~= seq!["grok-code"@, "xai-grok"@, "xai grok"@]);
        assert(owner("grok"@) == 9);
        assert(owner("grok-code"@) == 9);
        assert(owner("xai-grok"@) == 9);
        assert(owner("xai grok"@) == 9);
    } else if i == 10 {
        assert(agent.aliases =~= seq!["terminal"@]);
        assert(owner("shell"@) == 10);
        assert(owner("terminal"@) == 10);
    }
}

/// No agent other than the guest has its name among its aliases.
proof fn alias_is_not_own_name(guest: GuestView, i: int, alias: Seq<char>)
    requires
        0 <= i < manifest_table(guest).len(),
        i != GUEST_PLACE,
        manifest_table(guest)[i].aliases.contains(alias),
    ensures
        manifest_table(guest)[i].name != alias,
{
    reveal_strlit("pi");
    reveal_strlit("pi.dev");
    reveal_strlit("pidev");
    reveal_strlit("amp");
    reveal_strlit("ampcode");
    reveal_strlit("amp-code");
    reveal_strlit("amp_code");
    reveal_strlit("amp code");
    reveal_strlit("opencode");
    reveal_strlit("open-code");
    reveal_strlit("open_code");
    reveal_strlit("open code");
    reveal_strlit("droid");
    reveal_strlit("factory");
    reveal_strlit("factory-droid");
    reveal_strlit("factory_droid");
    reveal_strlit("factory droid");
    reveal_strlit("droid-pty");
    reveal_strlit("droid-terminal");
    reveal_strlit("droid_tui");
    reveal_strlit("factory-droid-pty");
    reveal_strlit("factory droid tui");
    reveal_strlit("grok");
    reveal_strlit("grok-code");
    reveal_strlit("xai-grok");
    reveal_strlit("xai grok");
    reveal_strlit("shell");
    reveal_strlit("terminal");
    let agent = manifest_table(guest)[i];
    if i == 0 {
        assert(agent.aliases =~= seq![]);
    } else if i == 1 {
        assert(agent.aliases =~= seq!["pi.dev"@, "pidev"@]);
        assert(agent.name.len() != "pi.dev"@.len());
        assert(agent.name.len() != "pidev"@.len());
    } else if i == 2 {
        assert(agent.aliases =~= seq!["ampcode"@, "amp-code"@, "amp_code"@, "amp code"@]);
        assert(agent.name.len() != "ampcode"@.len());
        assert(agent.name.len() != "amp-code"@.len());
        assert(agent.name.len() != "amp_code"@.len());
        assert(agent.name.len() != "amp code"@.len());
    } else if i == 3 {
        assert(agent.aliases =~= seq!["open-code"@, "open_code"@, "open code"@]);
        assert(agent.name.len() != "open-code"@.len());
        assert(agent.name.len() != "open_code"@.len());
        assert(agent.name.len() != "open code"@.len());
    } else if i == 5 {
        assert(agent.aliases =~= seq!["factory"@, "factory-droid"@, "factory_droid"@, "factory droid"@]);
        assert(agent.name.len() != "factory"@.len());
        assert(agent.name.len() != "factory-droid"@.len());
        assert(agent.name.len() != "factory_droid"@.len());
        assert(agent.name.len() != "factory droid"@.len());
    } else if i == 6 {
        assert(agent.aliases =~= seq!["droid-terminal"@, "droid_tui"@, "factory-droid-pty"@, "factory droid tui"@]);
        assert(agent.name.len() != "droid-terminal"@.len());
        assert(agent.name[5] != "droid_tui"@[5]);
        assert(agent.name.len() != "factory-droid-pty"@.len());
        assert(agent.name.len() != "factory droid tui"@.len());
    } else if i == 7 {
        assert(agent.aliases =~= seq![]);
    } else if i == 8 {
        assert(agent.aliases =~= seq![]);
    } else if i == 9 {
        assert(agent.aliases =~= seq!["grok-code"@, "xai-grok"@, "xai grok"@]);
        assert(agent.name.len() != "grok-code"@.len());
        assert(agent.name.len() != "xai-grok"@.len());
        assert(agent.name.len() != "xai grok"@.len());
    } else if i == 10 {
        assert(agent.aliases =~= seq!["terminal"@]);
        assert(agent.name.len() != "terminal"@.len());
    }
}

/// The guest goes by nothing that another agent goes by, and its name is none of
/// its aliases.
pub open spec fn stands_apart(guest: GuestView) -> bool {
    &&& !guest.aliases.contains(guest.name)
    &&& forall|i: int, text: Seq<char>|
        0 <= i < manifest_table(guest).len() && i != GUEST_PLACE && (text == guest.name
            || guest.aliases.contains(text)) ==> !(#[trigger] goes_by(
            manifest_table(guest)[i],
            text,
        ))
}

/// No two agents go by the same name or alias.
pub proof fn agents_go_by_their_own_names(guest: GuestView, i: int, j: int, text: Seq<char>)
    requires
        stands_apart(guest),
        0 <= i < manifest_table(guest).len(),
        0 <= j < manifest_table(guest).len(),
        goes_by(manifest_table(guest)[i], text),
        goes_by(manifest_table(guest)[j], text),
    ensures
        i == j,
{
    if i != GUEST_PLACE && j != GUEST_PLACE {
        owner_is_right(guest, i, text);
        owner_is_right(guest, j, text);
    }
}

/// A name leads to at most one agent: what is found by a name is the agent of
/// that name.
pub proof fn names_are_distinct(guest: GuestView, i: int, j: int)
    requires
        stands_apart(guest),
        0 <= i < manifest_table(guest).len(),
        0 <= j < manifest_table(guest).len(),
        manifest_table(guest)[i].name == manifest_table(guest)[j].name,
    ensures
        i == j,
{
    agents_go_by_their_own_names(guest, i, j, manifest_table(guest)[i].name);
}

/// No alias is the name of an agent, so that none is found by an alias.
pub proof fn aliases_are_no_names(guest: GuestView, i: int, j: int, alias: Seq<char>)
    requires
        stands_apart(guest),
        0 <= i < manifest_table(guest).len(),
        0 <= j < manifest_table(guest).len(),
        manifest_table(guest)[i].aliases.contains(alias),
    ensures
        manifest_table(guest)[j].name != alias,
{
    if manifest_table(guest)[j].name == alias {
        agents_go_by_their_own_names(guest, i, j, alias);
        if i != GUEST_PLACE {
            alias_is_not_own_name(guest, i, alias);
        }
    }
}

/// An agent's sort order is its place in the list.
pub proof fn agents_are_sorted(guest: GuestView, i: int)
    requires
        0 <= i < manifest_table(guest).len(),
    ensures
        manifest_table(guest).len() == 11,
        manifest_table(guest)[i].sort_order == i,
{
}

/// The agents that stand out are known by their names: `codex` alone is out of
/// beta and reached through the direct port, and `droid-pty` alone offers a
/// terminal.
pub proof fn names_tell_what_stands_out(guest: GuestView, i: int)
    requires
        stands_apart(guest),
        0 <= i < manifest_table(guest).len(),
    ensures
        !manifest_table(guest)[i].is_beta <==> manifest_table(guest)[i].name == "codex"@,
        manifest_table(guest)[i].uses_direct_codex_port <==> manifest_table(guest)[i].name
            == "codex"@,
        manifest_table(guest)[i].terminal is Some <==> manifest_table(guest)[i].name
            == "droid-pty"@,
{
    assert(manifest_table(guest)[0].name == "codex"@);
    assert(manifest_table(guest)[6].name == "droid-pty"@);
    if manifest_table(guest)[i].name == "codex"@ {
        names_are_distinct(guest, i, 0);
    }
    if manifest_table(guest)[i].name == "droid-pty"@ {
        names_are_distinct(guest, i, 6);
    }
}

/// An agent offers a terminal if and only if its stream is a terminal's. The
/// terminal speaks the version and has the features of the terminal wire, is
/// launched under the agent's name, and is labelled as the agent is.
pub proof fn terminal_agents_speak_the_terminal_wire(guest: GuestView, i: int)
    requires
        0 <= i < manifest_table(guest).len(),
    ensures
        manifest_table(guest)[i].wire is Terminal <==> manifest_table(guest)[i].terminal is Some,
        manifest_table(guest)[i].terminal matches Some(terminal) ==> {
            &&& terminal.protocol_version == TERMINAL_PROTOCOL_VERSION
            &&& terminal.features == feature_list()
            &&& terminal.launch_agent == Some(manifest_table(guest)[i].name)
            &&& terminal.label == Some(manifest_table(guest)[i].display_name)
        },
{
    if manifest_table(guest)[i].terminal is Some {
        assert(manifest_table(guest)[i].terminal->0.features =~= feature_list());
    }
}

/// Only an agent on a websocket is reached through the direct port, and only
/// such an agent takes or reports thread permissions.
pub proof fn direct_port_is_for_websockets(guest: GuestView, i: int)
    requires
        0 <= i < manifest_table(guest).len(),
    ensures
        manifest_table(guest)[i].uses_direct_codex_port <==> manifest_table(guest)[i].wire is Websocket,
        manifest_table(guest)[i].supports_thread_permission_overrides
            <==> manifest_table(guest)[i].wire is Websocket,
        manifest_table(guest)[i].reports_effective_thread_permissions
            <==> manifest_table(guest)[i].wire is Websocket,
{
}

/// The agents in their order.
pub proof fn agents_have_their_places(guest: GuestView)
    ensures
        manifest_table(guest).len() == 11,
        manifest_table(guest)[0].name == "codex"@,
        manifest_table(guest)[1].name == "pi"@,
        manifest_table(guest)[2].name == "amp"@,
        manifest_table(guest)[3].name == "opencode"@,
        manifest_table(guest)[4].name == guest.name,
        manifest_table(guest)[5].name == "droid"@,
        manifest_table(guest)[6].name == "droid-pty"@,
        manifest_table(guest)[7].name == "hermes"@,
        manifest_table(guest)[8].name == "devin"@,
        manifest_table(guest)[9].name == "grok"@,
        manifest_table(guest)[10].name == "shell"@,
{
}

/// The agents that can be reached over the SSH bridge are known by their names.
pub proof fn names_tell_the_ssh_bridge(guest: GuestView, i: int)
    requires
        stands_apart(guest),
        0 <= i < manifest_table(guest).len(),
    ensures
        manifest_table(guest)[i].supports_ssh_bridge <==> ({
            let name = manifest_table(guest)[i].name;
            ||| name == "codex"@
            ||| name == "pi"@
            ||| name == "opencode"@
            ||| name == guest.name
            ||| name == "devin"@
            ||| name == "grok"@
        }),
{
    place_is_told_by_name(guest, i);
}

/// What sets an agent's modes and wire apart is known by its name: `amp` alone
/// locks its effort, `amp` and `droid-pty` alone show chosen modes, `codex` alone is
/// on a websocket and has thread permissions, and `droid-pty` alone is on the
/// terminal wire.
pub proof fn names_tell_modes_and_wire(guest: GuestView, i: int)
    requires
        stands_apart(guest),
        0 <= i < manifest_table(guest).len(),
    ensures
        ({
            let agent = manifest_table(guest)[i];
            &&& agent.locks_reasoning_effort_after_activity <==> agent.name == "amp"@
            &&& agent.visible_modes is Some <==> agent.name == "amp"@ || agent.name == "droid-pty"@
            &&& agent.name == "amp"@ ==> agent.visible_modes->0 == seq!["smart"@, "rush"@, "deep"@]
            &&& agent.name == "droid-pty"@ ==> agent.visible_modes->0 == seq!["terminal"@]
            &&& agent.wire is Websocket <==> agent.name == "codex"@
            &&& agent.wire is Terminal <==> agent.name == "droid-pty"@
            &&& agent.supports_thread_permission_overrides <==> agent.name == "codex"@
            &&& agent.reports_effective_thread_permissions <==> agent.name == "codex"@
        }),
{
    place_is_told_by_name(guest, i);
}

/// How an agent is presented is known by its name: its label, its title if it has
/// one of its own, its description and its aliases.
pub proof fn names_tell_the_presentation(guest: GuestView, i: int)
    requires
        stands_apart(guest),
        0 <= i < manifest_table(guest).len(),
    ensures
        ({
            let agent = manifest_table(guest)[i];
            &&& agent.name == "codex"@ ==> {
                &&& agent.display_name == "Codex"@
                &&& agent.title == None::<Seq<char>>
                &&& agent.description == Some("OpenAI Codex app-server."@)
                &&& agent.aliases == Seq::<Seq<char>>::empty()
            }
            &&& agent.name == "pi"@ ==> {
                &&& agent.display_name == "Pi"@
                &&& agent.title == None::<Seq<char>>
                &&& agent.description == Some("Pi coding agent."@)
                &&& agent.aliases == seq!["pi.dev"@, "pidev"@]
            }
            &&& agent.name == "amp"@ ==> {
                &&& agent.display_name == "Amp"@
                &&& agent.title == Some("Amp"@)
                &&& agent.description == Some("Sourcegraph Amp."@)
                &&& agent.aliases == seq!["ampcode"@, "amp-code"@, "amp_code"@, "amp code"@]
            }
            &&& agent.name == "opencode"@ ==> {
                &&& agent.display_name == "opencode"@
                &&& agent.title == Some("Opencode"@)
                &&& agent.description == Some("Open-source local coding agent."@)
                &&& agent.aliases == seq!["open-code"@, "open_code"@, "open code"@]
            }
            &&& agent.name == guest.name ==> {
                &&& agent.display_name == guest.display_name
                &&& agent.title == None::<Seq<char>>
                &&& agent.description == Some(guest.description)
                &&& agent.aliases == guest.aliases
            }
            &&& agent.name == "droid"@ ==> {
                &&& agent.display_name == "Droid"@
                &&& agent.title == Some("Factory Droid"@)
                &&& agent.description == Some("Factory Droid coding agent."@)
                &&& agent.aliases == seq!["factory"@, "factory-droid"@, "factory_droid"@, "factory droid"@]
            }
            &&& agent.name == "droid-pty"@ ==> {
                &&& agent.display_name == "Droid TUI"@
                &&& agent.title == Some("Factory Droid TUI"@)
                &&& agent.description == Some("Factory Droid interactive PTY/TUI terminal."@)
                &&& agent.aliases == seq!["droid-terminal"@, "droid_tui"@, "factory-droid-pty"@, "factory droid tui"@]
            }
            &&& agent.name == "hermes"@ ==> {
                &&& agent.display_name == "Hermes"@
                &&& agent.title == Some("Hermes"@)
                &&& agent.description == Some("Nous Research Hermes agent."@)
                &&& agent.aliases == Seq::<Seq<char>>::empty()
            }
            &&& agent.name == "devin"@ ==> {
                &&& agent.display_name == "Devin"@
                &&& agent.title == Some("Devin"@)
                &&& agent.description == Some("Devin coding agent."@)
                &&& agent.aliases == Seq::<Seq<char>>::empty()
            }
            &&& agent.name == "grok"@ ==> {
                &&& agent.display_name == "Grok"@
                &&& agent.title == Some("Grok"@)
                &&& agent.description == Some("xAI Grok coding agent."@)
                &&& agent.aliases == seq!["grok-code"@, "xai-grok"@, "xai grok"@]
            }
            &&& agent.name == "shell"@ ==> {
                &&& agent.display_name == "Shell"@
                &&& agent.title == Some("Shell"@)
                &&& agent.description == Some("PTY-backed host shell."@)
                &&& agent.aliases == seq!["terminal"@]
            }
        }),
{
    place_is_told_by_name(guest, i);
}

/// The name of an agent tells its place.
proof fn place_is_told_by_name(guest: GuestView, i: int)
    requires
        stands_apart(guest),
        0 <= i < manifest_table(guest).len(),
    ensures
        manifest_table(guest)[i].name == "codex"@ <==> i == 0,
        manifest_table(guest)[i].name == "pi"@ <==> i == 1,
        manifest_table(guest)[i].name == "amp"@ <==> i == 2,
        manifest_table(guest)[i].name == "opencode"@ <==> i == 3,
        manifest_table(guest)[i].name == guest.name <==> i == 4,
        manifest_table(guest)[i].name == "droid"@ <==> i == 5,
        manifest_table(guest)[i].name == "droid-pty"@ <==> i == 6,
        manifest_table(guest)[i].name == "hermes"@ <==> i == 7,
        manifest_table(guest)[i].name == "devin"@ <==> i == 8,
        manifest_table(guest)[i].name == "grok"@ <==> i == 9,
        manifest_table(guest)[i].name == "shell"@ <==> i == 10,
{
    agents_have_their_places(guest);
    if manifest_table(guest)[i].name == "codex"@ {
        names_are_distinct(guest, i, 0);
    }
    if manifest_table(guest)[i].name == "pi"@ {
        names_are_distinct(guest, i, 1);
    }
    if manifest_table(guest)[i].name == "amp"@ {
        names_are_distinct(guest, i, 2);
    }
    if manifest_table(guest)[i].name == "opencode"@ {
        names_are_distinct(guest, i, 3);
    }
    if manifest_table(guest)[i].name == guest.name {
        names_are_distinct(guest, i, 4);
    }
    if manifest_table(guest)[i].name == "droid"@ {
        names_are_distinct(guest, i, 5);
    }
    if manifest_table(guest)[i].name == "droid-pty"@ {
        names_are_distinct(guest, i, 6);
    }
    if manifest_table(guest)[i].name == "hermes"@ {
        names_are_distinct(guest, i, 7);
    }
    if manifest_table(guest)[i].name == "devin"@ {
        names_are_distinct(guest, i, 8);
    }
    if manifest_table(guest)[i].name == "grok"@ {
        names_are_distinct(guest, i, 9);
    }
    if manifest_table(guest)[i].name == "shell"@ {
        names_are_distinct(guest, i, 10);
    }
}

/// What clients are told of an agent is what its manifest says, thing by thing.
pub proof fn manifest_is_told_thing_by_thing(agent: ManifestView)
    ensures
        agent.presented().title == agent.title,
        agent.presented().is_beta == agent.is_beta,
        agent.presented().sort_order == agent.sort_order,
        agent.presented().description == agent.description,
        agent.presented().aliases == agent.aliases,
        agent.capable().locks_reasoning_effort_after_activity
            == agent.locks_reasoning_effort_after_activity,
        agent.capable().visible_modes == agent.visible_modes,
        agent.capable().supports_ssh_bridge == agent.supports_ssh_bridge,
        agent.capable().uses_direct_codex_port == agent.uses_direct_codex_port,
        agent.capable().supports_thread_permission_overrides
            == agent.supports_thread_permission_overrides,
        agent.capable().reports_effective_thread_permissions
            == agent.reports_effective_thread_permissions,
        agent.capable().terminal == agent.terminal,
{
}

/// A manifest is seen as what its fields hold.
pub proof fn manifest_is_seen_as_it_is(
    agent: AgentManifest,
    terminal: AgentTerminalManifest,
    guest: GuestTexts,
)
    ensures
        agent@.name == agent.name@,
        agent@.display_name == agent.display_name@,
        agent@.wire == agent.wire,
        agent@.title == opt_text(agent.title),
        agent@.is_beta == agent.is_beta,
        agent@.sort_order == agent.sort_order,
        agent@.description == opt_text(agent.description),
        agent@.aliases == texts(agent.aliases@),
        agent@.locks_reasoning_effort_after_activity == agent.locks_reasoning_effort_after_activity,
        agent@.visible_modes is Some <==> agent.visible_modes is Some,
        agent.visible_modes matches Some(modes) ==> agent@.visible_modes->0 == texts(modes@),
        agent@.supports_ssh_bridge == agent.supports_ssh_bridge,
        agent@.uses_direct_codex_port == agent.uses_direct_codex_port,
        agent@.supports_thread_permission_overrides == agent.supports_thread_permission_overrides,
        agent@.reports_effective_thread_permissions == agent.reports_effective_thread_permissions,
        agent@.terminal is Some <==> agent.terminal is Some,
        agent.terminal matches Some(t) ==> agent@.terminal->0 == t@,
        terminal@.transport == terminal.transport,
        terminal@.protocol_version == terminal.protocol_version,
        terminal@.features == texts(terminal.features@),
        terminal@.launch_agent == opt_text(terminal.launch_agent),
        terminal@.label == opt_text(terminal.label),
        guest@.name == guest.name@,
        guest@.display_name == guest.display_name@,
        guest@.description == guest.description@,
        guest@.aliases == texts(guest.aliases@),
{
}

/// Nothing in the list depends on the guest's texts but the guest's own texts,
/// which stand there as they were given.
pub proof fn guest_words_itself_alone(guest: GuestView, other: GuestView, i: int)
    requires
        0 <= i < manifest_table(guest).len(),
    ensures
        i != 4 ==> manifest_table(guest)[i] == manifest_table(other)[i],
        ({
            let row = manifest_table(guest)[4];
            &&& row.name == guest.name
            &&& row.display_name == guest.display_name
            &&& row.description == Some(guest.description)
            &&& row.aliases == guest.aliases
            &&& row.title is None
            &&& row.wire is Jsonl
            &&& row.is_beta
            &&& row.visible_modes is None
            &&& row.terminal is None
            &&& row.supports_ssh_bridge
            &&& !row.locks_reasoning_effort_after_activity
            &&& !row.uses_direct_codex_port
            &&& !row.supports_thread_permission_overrides
            &&& !row.reports_effective_thread_permissions
        }),
{
}

} // verus!
