use alleycat::agent_manifest::{manifest_for, manifests, GuestTexts, GUEST_PLACE};
use alleycat::payload::terminal_features;
use alleycat::protocol::{AgentTerminalTransport, AgentWire};
use alleycat::wire::TERMINAL_PROTOCOL_VERSION;

const GUEST: GuestTexts = GuestTexts {
    name: "visitor",
    display_name: "Visitor",
    description: "A visiting agent.",
    aliases: &["visitor-code", "visitor_code"],
};

#[test]
fn every_agent_is_found_by_its_name_and_no_other() {
    let names: Vec<&str> = manifests(GUEST).iter().map(|m| m.name).collect();
    assert_eq!(
        names,
        vec![
            "codex", "pi", "amp", "opencode", "visitor", "droid", "droid-pty", "hermes", "devin",
            "grok", "shell"
        ]
    );
    for m in manifests(GUEST) {
        let found = manifest_for(GUEST, m.name).unwrap();
        assert_eq!(found.display_name, m.display_name);
        assert_eq!(found.sort_order, m.sort_order);
    }
    for other in ["", "Codex", "droid_pty", "terminal", "pi.dev", "codex "] {
        assert!(manifest_for(GUEST, other).is_none(), "{other:?}");
    }
}

#[test]
fn presentation_is_copied() {
    let amp = manifest_for(GUEST, "amp").unwrap().presentation();
    assert_eq!(amp.title.as_deref(), Some("Amp"));
    assert!(amp.is_beta);
    assert_eq!(amp.sort_order, 2);
    assert_eq!(amp.description.as_deref(), Some("Sourcegraph Amp."));
    assert_eq!(amp.aliases, vec!["ampcode", "amp-code", "amp_code", "amp code"]);

    let codex = manifest_for(GUEST, "codex").unwrap().presentation();
    assert_eq!(codex.title, None);
    assert!(!codex.is_beta);
    assert!(codex.aliases.is_empty());
}

#[test]
fn capabilities_are_copied() {
    let amp = manifest_for(GUEST, "amp").unwrap().capabilities();
    assert!(amp.locks_reasoning_effort_after_activity);
    assert_eq!(
        amp.visible_modes,
        Some(vec!["smart".to_string(), "rush".to_string(), "deep".to_string()])
    );
    assert!(!amp.supports_ssh_bridge);
    assert_eq!(amp.terminal, None);

    let codex = manifest_for(GUEST, "codex").unwrap().capabilities();
    assert!(codex.supports_ssh_bridge);
    assert!(codex.uses_direct_codex_port);
    assert!(codex.supports_thread_permission_overrides);
    assert!(codex.reports_effective_thread_permissions);
    assert_eq!(codex.visible_modes, None);
}

#[test]
fn terminal_agent_speaks_the_terminal_wire() {
    let pty = manifest_for(GUEST, "droid-pty").unwrap();
    assert_eq!(pty.wire, AgentWire::Terminal);
    let terminal = pty.capabilities().terminal.unwrap();
    assert_eq!(terminal.transport, AgentTerminalTransport::DroidPty);
    assert_eq!(terminal.protocol_version, u32::from(TERMINAL_PROTOCOL_VERSION));
    assert_eq!(terminal.features, terminal_features());
    assert_eq!(terminal.launch_agent.as_deref(), Some("droid-pty"));
    assert_eq!(terminal.label.as_deref(), Some("Droid TUI"));
    for m in manifests(GUEST) {
        assert_eq!(m.terminal.is_some(), m.wire == AgentWire::Terminal);
    }
}

#[test]
fn names_and_aliases_are_unambiguous_and_sorted() {
    let mut seen: Vec<&str> = Vec::new();
    let orders: Vec<i32> = manifests(GUEST).iter().map(|m| m.sort_order).collect();
    assert_eq!(orders, vec![0, 1, 2, 3, 4, 5, 6, 7, 8, 9, 10]);
    for m in manifests(GUEST) {
        assert_eq!(m.uses_direct_codex_port, m.wire == AgentWire::Websocket);
        for word in std::iter::once(&m.name).chain(m.aliases) {
            assert!(!seen.contains(word), "{word}");
            seen.push(word);
        }
    }
}

#[test]
fn guest_has_the_given_texts_and_a_fixed_place() {
    let guest = manifest_for(GUEST, "visitor").unwrap();
    assert_eq!(guest.display_name, "Visitor");
    assert_eq!(guest.wire, AgentWire::Jsonl);
    assert_eq!(manifests(GUEST)[GUEST_PLACE].name, "visitor");

    let shown = guest.presentation();
    assert_eq!(shown.title, None);
    assert!(shown.is_beta);
    assert_eq!(shown.sort_order, 4);
    assert_eq!(shown.description.as_deref(), Some("A visiting agent."));
    assert_eq!(shown.aliases, vec!["visitor-code", "visitor_code"]);

    let able = guest.capabilities();
    assert!(able.supports_ssh_bridge);
    assert!(!able.uses_direct_codex_port);
    assert!(!able.locks_reasoning_effort_after_activity);
    assert!(!able.supports_thread_permission_overrides);
    assert!(!able.reports_effective_thread_permissions);
    assert_eq!(able.visible_modes, None);
    assert_eq!(able.terminal, None);
}

#[test]
fn no_agent_is_found_by_an_alias() {
    for m in manifests(GUEST) {
        for alias in m.aliases {
            assert!(manifest_for(GUEST, alias).is_none(), "{alias}");
        }
    }
}

#[test]
fn names_tell_which_agents_stand_out() {
    for m in manifests(GUEST) {
        assert_eq!(!m.is_beta, m.name == "codex");
        assert_eq!(m.uses_direct_codex_port, m.name == "codex");
        assert_eq!(m.terminal.is_some(), m.name == "droid-pty");
    }
}
