use keywright_core::registry::{
    decision_by_id, decisions, Algo, AlgoSpec, ComplianceProfile, DecisionEnumValues,
    DefaultValue, Expiry, Role, ValueType,
};

#[test]
fn table_declares_every_decision_once_in_order() {
    let ids: Vec<&str> = decisions().iter().map(|d| d.id).collect();
    assert_eq!(
        ids,
        vec![
            "compliance-profile",
            "cnsa-use-case",
            "algo",
            "subkey-expiry",
            "pin-min-length",
            "pin-source",
            "admin-pin-scope",
            "reset-code",
            "factory-reset-required",
            "audit-required",
            "allow-bootstrap",
            "device-allowlist",
            "on-failure",
            "target-card-serial",
            "asserted-date",
            "real-name",
            "email",
            "user-pin",
            "admin-pin",
            "certify-passphrase",
            "confirm-format",
            "confirm-keytocard",
            "force",
        ]
    );
}

#[test]
fn every_decision_is_found_by_its_id() {
    for decision in decisions() {
        let found = decision_by_id(decision.id).expect("declared id must be found");
        assert_eq!(found.id, decision.id);
        assert_eq!(found.value_type, decision.value_type);
        assert_eq!(found.doc, decision.doc);
        assert_eq!(found.secret, decision.secret);
    }
}

#[test]
fn unknown_ids_are_not_found() {
    assert!(decision_by_id("").is_none());
    assert!(decision_by_id("pin").is_none());
    assert!(decision_by_id("Force").is_none());
    assert!(decision_by_id("force ").is_none());
    assert!(decision_by_id("real_name").is_none());
}

#[test]
fn lookup_returns_the_declared_defaults() {
    let d = decision_by_id("compliance-profile").unwrap();
    assert_eq!(d.value_type, ValueType::Compliance);
    assert!(matches!(
        d.default_value,
        DefaultValue::DecisionEnum(DecisionEnumValues::Compliance(ComplianceProfile::DrDuh))
    ));
    let d = decision_by_id("pin-min-length").unwrap();
    assert!(matches!(d.default_value, DefaultValue::Uint(6)));
    let d = decision_by_id("subkey-expiry").unwrap();
    assert!(matches!(d.default_value, DefaultValue::Expiry(Expiry::Days(730))));
    let d = decision_by_id("device-allowlist").unwrap();
    match d.default_value {
        DefaultValue::DeviceList(l) => assert!(l.is_empty()),
        _ => panic!("device-allowlist must default to an empty list"),
    }
    let d = decision_by_id("target-card-serial").unwrap();
    assert!(matches!(d.default_value, DefaultValue::Unset));
    assert!(!d.lockable);
}

#[test]
fn secrets_have_no_default_and_are_not_lockable() {
    let mut count = 0;
    for decision in decisions() {
        if decision.secret {
            count += 1;
            assert!(matches!(decision.default_value, DefaultValue::Unset));
            assert!(!decision.lockable);
            assert!(!decision.required);
            assert_eq!(decision.value_type, ValueType::Pin);
        }
    }
    assert_eq!(count, 3);
}

#[test]
fn defaults_fit_their_value_types() {
    for d in decisions() {
        let fits = match d.default_value {
            DefaultValue::Unset => true,
            DefaultValue::Bool(_) => d.value_type == ValueType::Bool,
            DefaultValue::DecisionEnum(e) => match e {
                DecisionEnumValues::Compliance(_) => d.value_type == ValueType::Compliance,
                DecisionEnumValues::CnsaUse(_) => d.value_type == ValueType::CnsaUse,
                DecisionEnumValues::PinSource(_) => d.value_type == ValueType::PinSource,
                DecisionEnumValues::AdminPin(_) => d.value_type == ValueType::AdminPin,
                DecisionEnumValues::Failure(_) => d.value_type == ValueType::Failure,
            },
            DefaultValue::Uint(_) => d.value_type == ValueType::Uint,
            DefaultValue::Expiry(_) => d.value_type == ValueType::Expiry,
            DefaultValue::Str(_) => d.value_type == ValueType::Str,
            DefaultValue::DeviceList(_) => d.value_type == ValueType::DeviceList,
            DefaultValue::Algo(_) => d.value_type == ValueType::AlgoProfile,
        };
        assert!(fits, "default of {} does not fit its type", d.id);
    }
}

#[test]
fn default_algo_profile_covers_each_role_once() {
    let d = decision_by_id("algo").unwrap();
    let profile = match d.default_value {
        DefaultValue::Algo(p) => p,
        _ => panic!("algo must default to a profile"),
    };
    assert_eq!(
        profile,
        &[
            (Role::Certify, AlgoSpec { algo: Algo::Ed25519, expiry: Expiry::Never }),
            (Role::Sign, AlgoSpec { algo: Algo::Ed25519, expiry: Expiry::Days(730) }),
            (Role::Auth, AlgoSpec { algo: Algo::Ed25519, expiry: Expiry::Days(730) }),
            (Role::Encrypt, AlgoSpec { algo: Algo::Cv25519, expiry: Expiry::Days(730) }),
        ][..]
    );
    let subkey = match decision_by_id("subkey-expiry").unwrap().default_value {
        DefaultValue::Expiry(x) => x,
        _ => panic!("subkey-expiry must default to an expiry"),
    };
    for (role, spec) in profile {
        if *role == Role::Certify {
            assert_eq!(spec.expiry, Expiry::Never);
        } else {
            assert_eq!(spec.expiry, subkey);
        }
    }
}

#[test]
fn lockable_settings_are_on_both_surfaces() {
    for d in decisions() {
        if d.lockable {
            assert!(d.cli && d.config && !d.secret, "{} lockable but not a setting", d.id);
        }
    }
}
