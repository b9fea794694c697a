//! Properties that hold of the whole decision registry, proved over the
//! table that [`crate::registry::decisions`] returns and the lookup that
//! [`crate::registry::decision_by_id`] performs.

use vstd::prelude::*;
use crate::registry::{
    AdminPinScope, Algo, CnsaUseCase, ComplianceProfile, FailureBehavior, PinSource,
    default_algo_profile, is_first_match, registry, spec_decision_by_id, AlgoSpec, DecisionEnumValues, DecisionView, DefaultView,
    Expiry, Role, ValueType,
};

verus! {

/// A character that may appear in a decision id: a lowercase ASCII letter or `-`.
pub open spec fn is_kebab_char(c: char) -> bool {
    ('a' <= c && c <= 'z') || c == '-'
}

/// A non-empty id made only of lowercase ASCII letters and `-`.
pub open spec fn is_kebab(s: Seq<char>) -> bool {
    s.len() > 0 && forall|k: int| 0 <= k < s.len() ==> is_kebab_char(#[trigger] s[k])
}

/// Unicode white space, the characters that `str::trim` removes.
pub open spec fn is_white_space(c: char) -> bool {
    let n = c as u32;
    (0x9 <= n && n <= 0xD) || n == 0x20 || n == 0x85 || n == 0xA0 || n == 0x1680
        || (0x2000 <= n && n <= 0x200A) || n == 0x2028 || n == 0x2029 || n == 0x202F
        || n == 0x205F || n == 0x3000
}

/// The text is not empty once white space is trimmed from both ends.
pub open spec fn has_visible_char(s: Seq<char>) -> bool {
    exists|k: int| 0 <= k < s.len() && !is_white_space(#[trigger] s[k])
}

/// A default value is absent or of the decision's own value type.
pub open spec fn default_fits(value_type: ValueType, default_value: DefaultView) -> bool {
    match default_value {
        DefaultView::Unset => true,
        DefaultView::Bool(_) => value_type == ValueType::Bool,
        DefaultView::DecisionEnum(e) => match e {
            DecisionEnumValues::Compliance(_) => value_type == ValueType::Compliance,
            DecisionEnumValues::CnsaUse(_) => value_type == ValueType::CnsaUse,
            DecisionEnumValues::PinSource(_) => value_type == ValueType::PinSource,
            DecisionEnumValues::AdminPin(_) => value_type == ValueType::AdminPin,
            DecisionEnumValues::Failure(_) => value_type == ValueType::Failure,
        },
        DefaultView::Uint(_) => value_type == ValueType::Uint,
        DefaultView::Expiry(_) => value_type == ValueType::Expiry,
        DefaultView::Str(_) => value_type == ValueType::Str,
        DefaultView::DeviceList(_) => value_type == ValueType::DeviceList,
        DefaultView::Algo(_) => value_type == ValueType::AlgoProfile,
    }
}

/// A secret decision is never a CLI flag or a TOML key and is always
/// redacted in audit and preview output.
pub proof fn lemma_secret_never_on_argv_or_config()
    ensures
        forall|i: int|
            0 <= i < registry().len() && (#[trigger] registry()[i]).secret ==> {
                &&& !registry()[i].cli
                &&& !registry()[i].config
                &&& registry()[i].audit_redact
            },
{
}

/// A secret decision is entered out of band only: it has no default, is not
/// required and cannot be locked by a policy.
pub proof fn lemma_secret_has_no_default()
    ensures
        forall|i: int|
            0 <= i < registry().len() && (#[trigger] registry()[i]).secret ==> {
                &&& registry()[i].default_value is Unset
                &&& !registry()[i].required
                &&& !registry()[i].lockable
            },
{
}

/// Only operator settings can be locked by a policy: a lockable decision is
/// settable from both the CLI and the config file and is not a secret.
pub proof fn lemma_lockable_decisions_are_settings()
    ensures
        forall|i: int|
            0 <= i < registry().len() && (#[trigger] registry()[i]).lockable ==> {
                &&& registry()[i].cli
                &&& registry()[i].config
                &&& !registry()[i].secret
            },
{
}

/// Every id is non-empty kebab case (lowercase ASCII letters and `-`).
pub proof fn lemma_ids_are_kebab()
    ensures
        forall|i: int| 0 <= i < registry().len() ==> is_kebab(#[trigger] registry()[i].id),
{
    reveal_strlit("compliance-profile");
    reveal_strlit("cnsa-use-case");
    reveal_strlit("algo");
    reveal_strlit("subkey-expiry");
    reveal_strlit("pin-min-length");
    reveal_strlit("pin-source");
    reveal_strlit("admin-pin-scope");
    reveal_strlit("reset-code");
    reveal_strlit("factory-reset-required");
    reveal_strlit("audit-required");
    reveal_strlit("allow-bootstrap");
    reveal_strlit("device-allowlist");
    reveal_strlit("on-failure");
    reveal_strlit("target-card-serial");
    reveal_strlit("asserted-date");
    reveal_strlit("real-name");
    reveal_strlit("email");
    reveal_strlit("user-pin");
    reveal_strlit("admin-pin");
    reveal_strlit("certify-passphrase");
    reveal_strlit("confirm-format");
    reveal_strlit("confirm-keytocard");
    reveal_strlit("force");
}

/// No two decisions share an id.
pub proof fn lemma_ids_are_unique()
    ensures
        forall|i: int, j: int|
            0 <= i < registry().len() && 0 <= j < registry().len() && i != j
                ==> #[trigger] registry()[i].id != #[trigger] registry()[j].id,
{
    reveal_strlit("compliance-profile");
    reveal_strlit("cnsa-use-case");
    reveal_strlit("algo");
    reveal_strlit("subkey-expiry");
    reveal_strlit("pin-min-length");
    reveal_strlit("pin-source");
    reveal_strlit("admin-pin-scope");
    reveal_strlit("reset-code");
    reveal_strlit("factory-reset-required");
    reveal_strlit("audit-required");
    reveal_strlit("allow-bootstrap");
    reveal_strlit("device-allowlist");
    reveal_strlit("on-failure");
    reveal_strlit("target-card-serial");
    reveal_strlit("asserted-date");
    reveal_strlit("real-name");
    reveal_strlit("email");
    reveal_strlit("user-pin");
    reveal_strlit("admin-pin");
    reveal_strlit("certify-passphrase");
    reveal_strlit("confirm-format");
    reveal_strlit("confirm-keytocard");
    reveal_strlit("force");
    assert forall|i: int, j: int|
        0 <= i < registry().len() && 0 <= j < registry().len() && i != j implies #[trigger] registry()[i].id
        != #[trigger] registry()[j].id by {
        // the length and the second character tell every two ids apart
        let a = registry()[i].id;
        let b = registry()[j].id;
        if a.len() == b.len() {
            assert(a[1] != b[1]);
        }
    }
}

/// Every decision carries a description that is not blank.
pub proof fn lemma_every_doc_is_nonblank()
    ensures
        forall|i: int| 0 <= i < registry().len() ==> has_visible_char(#[trigger] registry()[i].doc),
{
    reveal_strlit("Compliance regime to enforce: drduh (standalone) or fips/cnsa/bsi. Gates algorithms, key sizes, and expiry.");
    reveal_strlit("CNSA 2.0 transitional use case selecting the expiry ceiling: nss-2030 (default) or nss-2033.");
    reveal_strlit("Per-role key algorithm + expiry profile for certify/sign/auth/encrypt.");
    reveal_strlit("Default expiry for the sign/auth/encrypt subkeys; the certify key never expires.");
    reveal_strlit("Minimum YubiKey PIN length (card minimum 6; FIPS requires >= 8).");
    reveal_strlit("Whether PINs are tool-generated or operator-chosen (entered via fd/stdin).");
    reveal_strlit("Admin PIN scope: per-card (default) or fleet-shared (a documented single point of compromise).");
    reveal_strlit("Generate a Reset Code so a user can reset their own User PIN without the Admin PIN.");
    reveal_strlit("Require a factory reset of a fresh or dirty card before provisioning.");
    reveal_strlit("Require a signed, hash-chained audit record for every provisioning; refuse to proceed without it.");
    reveal_strlit("Allow a bootstrap User PIN to be set for first use, to be changed by the user on first login.");
    reveal_strlit("by-id allowlist of internal (rule-2) disks usable as backup/export targets; never re-includes a rule-1 (in-use) disk.");
    reveal_strlit("Behavior when a provisioning step fails: abort-leave-clean, or factory-reset-and-abort.");
    reveal_strlit("If set, the provisioned card's serial must match this value or the run aborts.");
    reveal_strlit("Operator-asserted current date (RFC-3339 UTC) for non-interactive runs; the clock upper bound, must be >= the baked floor.");
    reveal_strlit("OpenPGP UID real name for this identity. (Required.)");
    reveal_strlit("OpenPGP UID email for this identity (RFC-5322 subset). (Required.)");
    reveal_strlit("YubiKey User PIN; entered via fd/stdin only, never argv/config.");
    reveal_strlit("YubiKey Admin PIN; entered via fd/stdin only, never argv/config.");
    reveal_strlit("Passphrase protecting the offline certify key; entered via fd/stdin only.");
    reveal_strlit("Explicit acknowledgement to format/erase a selected target drive. CLI-only; distinct from confirm-keytocard and force.");
    reveal_strlit("Explicit acknowledgement of the irreversible keytocard (moving subkeys onto the card). CLI-only; distinct from confirm-format and force.");
    reveal_strlit("Override the single-shot idempotency guard (re-format a drive that already holds a Keywright backup, or re-provision an identity already backed up here). Does NOT bypass device safety or any other gate. CLI-only.");
    assert forall|i: int| 0 <= i < registry().len() implies has_visible_char(
        #[trigger] registry()[i].doc,
    ) by {
        assert(!is_white_space(registry()[i].doc[0]));
    }
}

/// Every default value is absent or of its decision's value type.
pub proof fn lemma_defaults_fit_their_types()
    ensures
        forall|i: int|
            0 <= i < registry().len() ==> default_fits(
                (#[trigger] registry()[i]).value_type,
                registry()[i].default_value,
            ),
{
}

/// Exactly the identity's real name and email are required.
pub proof fn lemma_only_real_name_and_email_are_required()
    ensures
        forall|i: int|
            0 <= i < registry().len() ==> ((#[trigger] registry()[i]).required <==> (
            registry()[i].id == "real-name"@ || registry()[i].id == "email"@)),
{
    lemma_ids_are_unique();
    assert(registry()[15].id == "real-name"@);
    assert(registry()[16].id == "email"@);
}

/// A lookup by the id of any declared decision finds that decision.
pub proof fn lemma_every_decision_found_by_its_id()
    ensures
        forall|i: int|
            0 <= i < registry().len() ==> spec_decision_by_id(#[trigger] registry()[i].id)
                == Some(registry()[i]),
{
    lemma_ids_are_unique();
    assert forall|i: int| 0 <= i < registry().len() implies spec_decision_by_id(
        #[trigger] registry()[i].id,
    ) == Some(registry()[i]) by {
        let id = registry()[i].id;
        assert(is_first_match(id, i));
        let k = choose|k: int| is_first_match(id, k);
        assert(k == i);
    }
}

/// The destructive acknowledgements `confirm-format`, `confirm-keytocard`
/// and `force` are three distinct decisions, each CLI-only and defaulting to
/// false, so that supplying one never supplies another.
pub proof fn lemma_destructive_tokens_are_cli_only_and_independent()
    ensures
        is_cli_only_off_token(spec_decision_by_id("confirm-format"@)),
        is_cli_only_off_token(spec_decision_by_id("confirm-keytocard"@)),
        is_cli_only_off_token(spec_decision_by_id("force"@)),
        "confirm-format"@ != "confirm-keytocard"@,
        "confirm-format"@ != "force"@,
        "confirm-keytocard"@ != "force"@,
{
    lemma_ids_are_unique();
    lemma_every_decision_found_by_its_id();
    assert(registry()[20].id == "confirm-format"@);
    assert(registry()[21].id == "confirm-keytocard"@);
    assert(registry()[22].id == "force"@);
}

/// The decision exists, is a CLI flag that no config file can set, and
/// defaults to false.
pub open spec fn is_cli_only_off_token(d: Option<DecisionView>) -> bool {
    match d {
        Some(d) => d.cli && !d.config && d.default_value == DefaultView::Bool(false),
        None => false,
    }
}

/// Some entry of the profile is for role `r`.
pub open spec fn names_role(p: Seq<(Role, AlgoSpec)>, r: Role) -> bool {
    exists|k: int| 0 <= k < p.len() && (#[trigger] p[k]).0 == r
}

/// The default algorithm profile names each role exactly once; the certify
/// key never expires, and the sign, auth and encrypt subkeys expire as the
/// `subkey-expiry` default says.
pub proof fn lemma_default_algo_profile_is_complete()
    ensures
        spec_decision_by_id("algo"@) matches Some(d) && d.default_value matches DefaultView::Algo(
            p,
        ) && spec_decision_by_id("subkey-expiry"@) matches Some(s)
            && s.default_value matches DefaultView::Expiry(x) && {
            &&& forall|r: Role| #[trigger] names_role(p, r)
            &&& forall|k: int, l: int|
                0 <= k < p.len() && 0 <= l < p.len() && k != l ==> (#[trigger] p[k]).0 != (
                #[trigger] p[l]).0
            &&& forall|k: int|
                0 <= k < p.len() ==> ((#[trigger] p[k]).0 == Role::Certify <==> p[k].1.expiry
                    == Expiry::Never)
            &&& forall|k: int|
                0 <= k < p.len() && (#[trigger] p[k]).0 != Role::Certify ==> p[k].1.expiry == x
        },
{
    lemma_every_decision_found_by_its_id();
    assert(registry()[2].id == "algo"@);
    assert(registry()[3].id == "subkey-expiry"@);
    let p = default_algo_profile();
    assert forall|r: Role| #[trigger] names_role(p, r) by {
        match r {
            Role::Certify => assert(p[0].0 == r),
            Role::Sign => assert(p[1].0 == r),
            Role::Auth => assert(p[2].0 == r),
            Role::Encrypt => assert(p[3].0 == r),
        }
    }
}


/// The built-in default of the decision that a lookup by `id` finds.
pub open spec fn default_of(id: Seq<char>) -> Option<DefaultView> {
    match spec_decision_by_id(id) {
        Some(d) => Some(d.default_value),
        None => None,
    }
}

/// A governance setting: found by its id, of value type `value_type`,
/// lockable by policy, settable from the CLI and TOML, neither required,
/// secret nor redacted.
pub open spec fn is_governance_setting(id: Seq<char>, value_type: ValueType) -> bool {
    spec_decision_by_id(id) matches Some(d) && {
        &&& d.value_type == value_type
        &&& d.lockable
        &&& d.cli
        &&& d.config
        &&& !d.required
        &&& !d.secret
        &&& !d.audit_redact
    }
}

/// A per-run input: found by its id, a string with no default, settable
/// from the CLI and TOML, not lockable, not secret, required as `required` says.
pub open spec fn is_run_input(id: Seq<char>, required: bool) -> bool {
    spec_decision_by_id(id) matches Some(d) && {
        &&& d.value_type == ValueType::Str
        &&& d.default_value is Unset
        &&& !d.lockable
        &&& d.cli
        &&& d.config
        &&& d.required == required
        &&& !d.secret
        &&& !d.audit_redact
    }
}

/// An out-of-band secret: found by its id, a PIN-typed value with no default
/// that is on no surface, never lockable or required, and always redacted.
pub open spec fn is_secret_input(id: Seq<char>) -> bool {
    spec_decision_by_id(id) matches Some(d) && {
        &&& d.value_type == ValueType::Pin
        &&& d.default_value is Unset
        &&& !d.lockable
        &&& !d.cli
        &&& !d.config
        &&& !d.required
        &&& d.secret
        &&& d.audit_redact
    }
}

/// The governance settings and their built-in defaults: the drduh profile,
/// the 2030 CNSA ceiling, Ed25519 keys with a Cv25519 encryption subkey (the
/// certify key never expiring, subkeys after 730 days), a 6-character PIN
/// minimum, generated PINs, a per-card Admin PIN, a reset code, a required
/// factory reset, a required audit record, a bootstrap PIN, an empty device
/// allowlist, and abort-leave-clean on failure. Each of them can be locked
/// by a policy and set from the CLI and from TOML.
pub proof fn lemma_governance_settings_and_defaults()
    ensures
        is_governance_setting("compliance-profile"@, ValueType::Compliance),
        default_of("compliance-profile"@) == Some(
            DefaultView::DecisionEnum(DecisionEnumValues::Compliance(ComplianceProfile::DrDuh)),
        ),
        is_governance_setting("cnsa-use-case"@, ValueType::CnsaUse),
        default_of("cnsa-use-case"@) == Some(
            DefaultView::DecisionEnum(DecisionEnumValues::CnsaUse(CnsaUseCase::Nss2030)),
        ),
        is_governance_setting("algo"@, ValueType::AlgoProfile),
        default_of("algo"@) == Some(
            DefaultView::Algo(
                seq![
                    (Role::Certify, AlgoSpec { algo: Algo::Ed25519, expiry: Expiry::Never }),
                    (Role::Sign, AlgoSpec { algo: Algo::Ed25519, expiry: Expiry::Days(730) }),
                    (Role::Auth, AlgoSpec { algo: Algo::Ed25519, expiry: Expiry::Days(730) }),
                    (Role::Encrypt, AlgoSpec { algo: Algo::Cv25519, expiry: Expiry::Days(730) }),
                ],
            ),
        ),
        is_governance_setting("subkey-expiry"@, ValueType::Expiry),
        default_of("subkey-expiry"@) == Some(DefaultView::Expiry(Expiry::Days(730))),
        is_governance_setting("pin-min-length"@, ValueType::Uint),
        default_of("pin-min-length"@) == Some(DefaultView::Uint(6)),
        is_governance_setting("pin-source"@, ValueType::PinSource),
        default_of("pin-source"@) == Some(
            DefaultView::DecisionEnum(DecisionEnumValues::PinSource(PinSource::Generated)),
        ),
        is_governance_setting("admin-pin-scope"@, ValueType::AdminPin),
        default_of("admin-pin-scope"@) == Some(
            DefaultView::DecisionEnum(DecisionEnumValues::AdminPin(AdminPinScope::PerCard)),
        ),
        is_governance_setting("reset-code"@, ValueType::Bool),
        default_of("reset-code"@) == Some(DefaultView::Bool(true)),
        is_governance_setting("factory-reset-required"@, ValueType::Bool),
        default_of("factory-reset-required"@) == Some(DefaultView::Bool(true)),
        is_governance_setting("audit-required"@, ValueType::Bool),
        default_of("audit-required"@) == Some(DefaultView::Bool(true)),
        is_governance_setting("allow-bootstrap"@, ValueType::Bool),
        default_of("allow-bootstrap"@) == Some(DefaultView::Bool(true)),
        is_governance_setting("device-allowlist"@, ValueType::DeviceList),
        default_of("device-allowlist"@) == Some(DefaultView::DeviceList(Seq::empty())),
        is_governance_setting("on-failure"@, ValueType::Failure),
        default_of("on-failure"@) == Some(
            DefaultView::DecisionEnum(DecisionEnumValues::Failure(FailureBehavior::AbortLeaveClean)),
        ),
{
    lemma_every_decision_found_by_its_id();
    lemma_found_at_declared_positions();
    assert(default_of("algo"@) matches Some(DefaultView::Algo(p)) && p =~= seq![
        (Role::Certify, AlgoSpec { algo: Algo::Ed25519, expiry: Expiry::Never }),
        (Role::Sign, AlgoSpec { algo: Algo::Ed25519, expiry: Expiry::Days(730) }),
        (Role::Auth, AlgoSpec { algo: Algo::Ed25519, expiry: Expiry::Days(730) }),
        (Role::Encrypt, AlgoSpec { algo: Algo::Cv25519, expiry: Expiry::Days(730) }),
    ]);
}

/// The per-run inputs (card serial, asserted date, real name, email) and the
/// out-of-band secrets (user PIN, admin PIN, certify passphrase): none has a
/// default or can be locked; only the real name and email are required.
pub proof fn lemma_run_inputs_and_secrets()
    ensures
        is_run_input("target-card-serial"@, false),
        is_run_input("asserted-date"@, false),
        is_run_input("real-name"@, true),
        is_run_input("email"@, true),
        is_secret_input("user-pin"@),
        is_secret_input("admin-pin"@),
        is_secret_input("certify-passphrase"@),
{
    lemma_every_decision_found_by_its_id();
    lemma_found_at_declared_positions();
}

/// Exactly the decisions with a built-in default that are settable from both
/// the CLI and TOML can be locked by a policy.
pub proof fn lemma_lockable_iff_defaulted_setting()
    ensures
        forall|i: int|
            0 <= i < registry().len() ==> ((#[trigger] registry()[i]).lockable <==> (
            !(registry()[i].default_value is Unset) && registry()[i].cli
                && registry()[i].config)),
{
}

/// A boolean decision that a config file may set defaults to true (the safe
/// choice: reset code, factory reset, audit, bootstrap PIN); one that it may
/// not set is an acknowledgement token and defaults to false.
pub proof fn lemma_boolean_defaults()
    ensures
        forall|i: int|
            0 <= i < registry().len() && (#[trigger] registry()[i]).value_type == ValueType::Bool
                ==> registry()[i].default_value == DefaultView::Bool(registry()[i].config),
{
}

/// The registry declares these decisions, each once, in this order: the
/// governance settings, the per-run inputs, the secrets, then the
/// destructive acknowledgements.
pub proof fn lemma_declaration_order()
    ensures
        registry().map_values(|d: DecisionView| d.id) == seq![
                "compliance-profile"@,
                "cnsa-use-case"@,
                "algo"@,
                "subkey-expiry"@,
                "pin-min-length"@,
                "pin-source"@,
                "admin-pin-scope"@,
                "reset-code"@,
                "factory-reset-required"@,
                "audit-required"@,
                "allow-bootstrap"@,
                "device-allowlist"@,
                "on-failure"@,
                "target-card-serial"@,
                "asserted-date"@,
                "real-name"@,
                "email"@,
                "user-pin"@,
                "admin-pin"@,
                "certify-passphrase"@,
                "confirm-format"@,
                "confirm-keytocard"@,
                "force"@,
            ],
{
    assert(registry().map_values(|d: DecisionView| d.id) =~= seq![
                "compliance-profile"@,
                "cnsa-use-case"@,
                "algo"@,
                "subkey-expiry"@,
                "pin-min-length"@,
                "pin-source"@,
                "admin-pin-scope"@,
                "reset-code"@,
                "factory-reset-required"@,
                "audit-required"@,
                "allow-bootstrap"@,
                "device-allowlist"@,
                "on-failure"@,
                "target-card-serial"@,
                "asserted-date"@,
                "real-name"@,
                "email"@,
                "user-pin"@,
                "admin-pin"@,
                "certify-passphrase"@,
                "confirm-format"@,
                "confirm-keytocard"@,
                "force"@,
    ]);
}

/// Each declared id is found at its position in declaration order.
proof fn lemma_found_at_declared_positions()
    requires
        forall|i: int|
            0 <= i < registry().len() ==> spec_decision_by_id(#[trigger] registry()[i].id)
                == Some(registry()[i]),
    ensures
        spec_decision_by_id("compliance-profile"@) == Some(registry()[0]),
        spec_decision_by_id("cnsa-use-case"@) == Some(registry()[1]),
        spec_decision_by_id("algo"@) == Some(registry()[2]),
        spec_decision_by_id("subkey-expiry"@) == Some(registry()[3]),
        spec_decision_by_id("pin-min-length"@) == Some(registry()[4]),
        spec_decision_by_id("pin-source"@) == Some(registry()[5]),
        spec_decision_by_id("admin-pin-scope"@) == Some(registry()[6]),
        spec_decision_by_id("reset-code"@) == Some(registry()[7]),
        spec_decision_by_id("factory-reset-required"@) == Some(registry()[8]),
        spec_decision_by_id("audit-required"@) == Some(registry()[9]),
        spec_decision_by_id("allow-bootstrap"@) == Some(registry()[10]),
        spec_decision_by_id("device-allowlist"@) == Some(registry()[11]),
        spec_decision_by_id("on-failure"@) == Some(registry()[12]),
        spec_decision_by_id("target-card-serial"@) == Some(registry()[13]),
        spec_decision_by_id("asserted-date"@) == Some(registry()[14]),
        spec_decision_by_id("real-name"@) == Some(registry()[15]),
        spec_decision_by_id("email"@) == Some(registry()[16]),
        spec_decision_by_id("user-pin"@) == Some(registry()[17]),
        spec_decision_by_id("admin-pin"@) == Some(registry()[18]),
        spec_decision_by_id("certify-passphrase"@) == Some(registry()[19]),
{
    assert(registry()[0].id == "compliance-profile"@);
    assert(registry()[1].id == "cnsa-use-case"@);
    assert(registry()[2].id == "algo"@);
    assert(registry()[3].id == "subkey-expiry"@);
    assert(registry()[4].id == "pin-min-length"@);
    assert(registry()[5].id == "pin-source"@);
    assert(registry()[6].id == "admin-pin-scope"@);
    assert(registry()[7].id == "reset-code"@);
    assert(registry()[8].id == "factory-reset-required"@);
    assert(registry()[9].id == "audit-required"@);
    assert(registry()[10].id == "allow-bootstrap"@);
    assert(registry()[11].id == "device-allowlist"@);
    assert(registry()[12].id == "on-failure"@);
    assert(registry()[13].id == "target-card-serial"@);
    assert(registry()[14].id == "asserted-date"@);
    assert(registry()[15].id == "real-name"@);
    assert(registry()[16].id == "email"@);
    assert(registry()[17].id == "user-pin"@);
    assert(registry()[18].id == "admin-pin"@);
    assert(registry()[19].id == "certify-passphrase"@);
}

} // verus!
