use keywright_core::registry::{decision_by_id, decisions, DefaultValue};
use keywright_core::{version, Error};

#[test]
fn version_is_nonempty() {
    // build-smoke: the lib compiles and is testable.
    assert!(!version().is_empty());
}

#[test]
fn resolve_error_carries_id_and_nonsecret_reason() {
    // a resolution error must surface the decision id + a non-secret reason
    // and never the secret value.
    let e = Error::Resolve {
        id: "pin-min-length",
        reason: "len < 8".into(),
    };
    let rendered = e.to_string();
    assert!(rendered.contains("pin-min-length"));
    assert!(rendered.contains("len < 8"));
}

#[test]
fn surface_invariant_secret_implies_no_cli_no_config_and_redacted() {
    // a secret decision must never become a --flag or a TOML key, and must be
    // redacted. Enforced for the whole table.
    for decision in decisions() {
        if decision.secret {
            assert!(
                !decision.cli,
                "secret decision {} must not be a CLI flag",
                decision.id
            );
            assert!(
                !decision.config,
                "secret decision {} must not be a TOML key",
                decision.id
            );
            assert!(
                decision.audit_redact,
                "secret decision {} must be audit_redact",
                decision.id
            );
        }
    }
}

#[test]
fn ids_are_unique_and_kebab() {
    // ids derive CLI flags / TOML keys / audit fields: collisions or non-kebab
    // ids would break the derivation surface.
    let mut seen = std::collections::BTreeSet::new();
    for decision in decisions() {
        assert!(
            seen.insert(decision.id),
            "duplicate decision id {}",
            decision.id
        );
        assert!(
            decision
                .id
                .chars()
                .all(|c| c.is_ascii_lowercase() || c == '-'),
            "non-kebab id {}",
            decision.id
        );
    }
}

#[test]
fn every_decision_has_a_nonempty_doc() {
    // `doc` is the single source of the CLI --help / dry-run preview / audit
    // description; an empty doc would ship a flag/field with no text.
    for decision in decisions() {
        assert!(
            !decision.doc.trim().is_empty(),
            "decision {} has no doc string",
            decision.id
        );
    }
}

#[test]
fn destructive_tokens_are_cli_only_and_independent() {
    // confirm-format / confirm-keytocard / force are distinct, CLI-only
    // acknowledgements, each defaulting to false so that satisfying one never
    // satisfies another.
    let ids = ["confirm-format", "confirm-keytocard", "force"];
    for id in ids {
        let decision = decision_by_id(id).unwrap();
        assert!(decision.cli && !decision.config, "{id} must be CLI-only");
        assert!(
            matches!(decision.default_value, DefaultValue::Bool(false)),
            "{id} must default to false"
        );
    }
    let set: std::collections::BTreeSet<_> = ids.iter().collect();
    assert_eq!(set.len(), 3, "the three tokens must be distinct ids");
}

#[test]
fn only_real_name_and_email_are_required() {
    // the non-interactive hard error must fire only for the UID's name and
    // email, not for optional fields or out-of-band secrets.
    for decision in decisions() {
        let expect = decision.id == "real-name" || decision.id == "email";
        assert_eq!(
            decision.required, expect,
            "required flag wrong for {}",
            decision.id
        );
    }
}
