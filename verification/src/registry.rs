//! The decision registry: every operator decision is declared once, and the
//! CLI flags, TOML keys and audit fields all derive from that one table.
//!
//! The table is returned by [`decisions`]; its abstract content is the spec
//! function [`registry`], and every contract and law of this module is stated
//! over that sequence of [`DecisionView`] values.

use vstd::prelude::*;
use vstd::string::*;

verus! {

/// The type of value a decision resolves to.
#[derive(Debug, Clone, Copy, PartialEq, Eq, Structural)]
pub enum ValueType {
    Bool,
    Compliance,
    CnsaUse,
    PinSource,
    AdminPin,
    Failure,
    Uint,
    Expiry,
    AlgoProfile,
    DeviceList,
    Pin,
    Str,
}

/// A value of one of the enumerated decision types.
#[derive(Debug, Clone, Copy, PartialEq, Eq, Structural)]
pub enum DecisionEnumValues {
    Compliance(ComplianceProfile),
    CnsaUse(CnsaUseCase),
    PinSource(PinSource),
    AdminPin(AdminPinScope),
    Failure(FailureBehavior),
}

#[derive(Debug, Clone, Copy, PartialEq, Eq, Structural)]
pub enum ComplianceProfile {
    DrDuh,
    Fips,
    Cnsa,
    Bsi,
}

#[derive(Debug, Clone, Copy, PartialEq, Eq, Structural)]
pub enum CnsaUseCase {
    Nss2030,
    Nss2033,
}

#[derive(Debug, Clone, Copy, PartialEq, Eq, Structural)]
pub enum PinSource {
    Generated,
    Chosen,
}

#[derive(Debug, Clone, Copy, PartialEq, Eq, Structural)]
pub enum AdminPinScope {
    PerCard,
    FleetShared,
}

#[derive(Debug, Clone, Copy, PartialEq, Eq, Structural)]
pub enum FailureBehavior {
    AbortLeaveClean,
    FactoryResetAndAbort,
}

/// Key algorithms. Ed448 and secp256k1 are representable so that a
/// compliance regime can forbid them.
#[derive(Debug, Clone, Copy, PartialEq, Eq, Structural)]
pub enum Algo {
    Ed25519,
    Ed448,
    Cv25519,
    Rsa(u16),
    NistP(u16),
    Brainpool(u16),
    Secp256k1,
}

#[derive(Debug, Clone, Copy, PartialEq, Eq, Structural)]
pub enum Expiry {
    Never,
    Days(u32),
}

#[derive(Debug, Clone, Copy, PartialEq, Eq, Structural)]
pub enum Role {
    Certify,
    Sign,
    Auth,
    Encrypt,
}

#[derive(Debug, Clone, Copy, PartialEq, Eq, Structural)]
pub struct AlgoSpec {
    pub algo: Algo,
    pub expiry: Expiry,
}

/// The built-in default of a decision. `Unset` means "no default".
#[derive(Debug, Clone, Copy)]
pub enum DefaultValue {
    Unset,
    Bool(bool),
    DecisionEnum(DecisionEnumValues),
    Uint(u64),
    Expiry(Expiry),
    Str(&'static str),
    /// An empty slice is the `[]` default.
    DeviceList(&'static [&'static str]),
    Algo(&'static [(Role, AlgoSpec)]),
}

/// One operator decision and the surfaces it may appear on.
#[derive(Debug, Clone, Copy)]
pub struct Decision {
    /// canonical id: CLI flag (--kebab), TOML key and audit field
    pub id: &'static str,
    pub value_type: ValueType,
    pub default_value: DefaultValue,
    /// non-interactive + unsupplied + no default: hard error
    pub required: bool,
    /// may a policy lock this field?
    pub lockable: bool,
    /// exposed as a CLI flag?
    pub cli: bool,
    /// accepted from TOML?
    pub config: bool,
    /// value is a secret: fd/stdin entry only
    pub secret: bool,
    /// redact in audit and dry-run preview
    pub audit_redact: bool,
    /// single-source human description (CLI --help, dry-run preview, audit)
    pub doc: &'static str,
}

/// The abstract value of a [`DefaultValue`]: strings as character sequences.
pub enum DefaultView {
    Unset,
    Bool(bool),
    DecisionEnum(DecisionEnumValues),
    Uint(u64),
    Expiry(Expiry),
    Str(Seq<char>),
    DeviceList(Seq<Seq<char>>),
    Algo(Seq<(Role, AlgoSpec)>),
}

/// The abstract value of a [`Decision`].
pub struct DecisionView {
    pub id: Seq<char>,
    pub value_type: ValueType,
    pub default_value: DefaultView,
    pub required: bool,
    pub lockable: bool,
    pub cli: bool,
    pub config: bool,
    pub secret: bool,
    pub audit_redact: bool,
    pub doc: Seq<char>,
}

impl View for DefaultValue {
    type V = DefaultView;

    open spec fn view(&self) -> DefaultView {
        match *self {
            DefaultValue::Unset => DefaultView::Unset,
            DefaultValue::Bool(b) => DefaultView::Bool(b),
            DefaultValue::DecisionEnum(e) => DefaultView::DecisionEnum(e),
            DefaultValue::Uint(n) => DefaultView::Uint(n),
            DefaultValue::Expiry(x) => DefaultView::Expiry(x),
            DefaultValue::Str(s) => DefaultView::Str(s@),
            DefaultValue::DeviceList(l) => DefaultView::DeviceList(l@.map_values(|s: &str| s@)),
            DefaultValue::Algo(p) => DefaultView::Algo(p@),
        }
    }
}

impl View for Decision {
    type V = DecisionView;

    open spec fn view(&self) -> DecisionView {
        DecisionView {
            id: self.id@,
            value_type: self.value_type,
            default_value: self.default_value@,
            required: self.required,
            lockable: self.lockable,
            cli: self.cli,
            config: self.config,
            secret: self.secret,
            audit_redact: self.audit_redact,
            doc: self.doc@,
        }
    }
}

/// Two years, the default subkey lifetime.
pub open spec fn two_years() -> Expiry {
    Expiry::Days(730)
}

/// The default per-role algorithm profile: Ed25519 certify (never expires),
/// sign and auth, Cv25519 encrypt; subkeys expire after two years.
pub open spec fn default_algo_profile() -> Seq<(Role, AlgoSpec)> {
    seq![
        (Role::Certify, AlgoSpec { algo: Algo::Ed25519, expiry: Expiry::Never }),
        (Role::Sign, AlgoSpec { algo: Algo::Ed25519, expiry: two_years() }),
        (Role::Auth, AlgoSpec { algo: Algo::Ed25519, expiry: two_years() }),
        (Role::Encrypt, AlgoSpec { algo: Algo::Cv25519, expiry: two_years() }),
    ]
}

/// An operator setting: lockable by policy, settable from the CLI and TOML,
/// neither required, secret nor redacted.
pub open spec fn setting(
    id: Seq<char>,
    value_type: ValueType,
    default_value: DefaultView,
    doc: Seq<char>,
) -> DecisionView {
    DecisionView {
        id,
        value_type,
        default_value,
        required: false,
        lockable: true,
        cli: true,
        config: true,
        secret: false,
        audit_redact: false,
        doc,
    }
}

/// A per-run string input from the CLI or TOML with no default; not lockable.
pub open spec fn run_input(id: Seq<char>, required: bool, doc: Seq<char>) -> DecisionView {
    DecisionView {
        id,
        value_type: ValueType::Str,
        default_value: DefaultView::Unset,
        required,
        lockable: false,
        cli: true,
        config: true,
        secret: false,
        audit_redact: false,
        doc,
    }
}

/// A secret entered out of band (fd/stdin): never a flag or key, always redacted.
pub open spec fn secret_input(id: Seq<char>, doc: Seq<char>) -> DecisionView {
    DecisionView {
        id,
        value_type: ValueType::Pin,
        default_value: DefaultView::Unset,
        required: false,
        lockable: false,
        cli: false,
        config: false,
        secret: true,
        audit_redact: true,
        doc,
    }
}

/// A destructive acknowledgement token: CLI-only, defaulting to false.
pub open spec fn cli_token(id: Seq<char>, doc: Seq<char>) -> DecisionView {
    DecisionView {
        id,
        value_type: ValueType::Bool,
        default_value: DefaultView::Bool(false),
        required: false,
        lockable: false,
        cli: true,
        config: false,
        secret: false,
        audit_redact: false,
        doc,
    }
}

/// Every decision, in declaration order.
pub open spec fn registry() -> Seq<DecisionView> {
    seq![
        setting(
            "compliance-profile"@,
            ValueType::Compliance,
            DefaultView::DecisionEnum(DecisionEnumValues::Compliance(ComplianceProfile::DrDuh)),
            "Compliance regime to enforce: drduh (standalone) or fips/cnsa/bsi. Gates algorithms, key sizes, and expiry."@,
        ),
        setting(
            "cnsa-use-case"@,
            ValueType::CnsaUse,
            DefaultView::DecisionEnum(DecisionEnumValues::CnsaUse(CnsaUseCase::Nss2030)),
            "CNSA 2.0 transitional use case selecting the expiry ceiling: nss-2030 (default) or nss-2033."@,
        ),
        setting(
            "algo"@,
            ValueType::AlgoProfile,
            DefaultView::Algo(default_algo_profile()),
            "Per-role key algorithm + expiry profile for certify/sign/auth/encrypt."@,
        ),
        setting(
            "subkey-expiry"@,
            ValueType::Expiry,
            DefaultView::Expiry(two_years()),
            "Default expiry for the sign/auth/encrypt subkeys; the certify key never expires."@,
        ),
        setting(
            "pin-min-length"@,
            ValueType::Uint,
            DefaultView::Uint(6),
            "Minimum YubiKey PIN length (card minimum 6; FIPS requires >= 8)."@,
        ),
        setting(
            "pin-source"@,
            ValueType::PinSource,
            DefaultView::DecisionEnum(DecisionEnumValues::PinSource(PinSource::Generated)),
            "Whether PINs are tool-generated or operator-chosen (entered via fd/stdin)."@,
        ),
        setting(
            "admin-pin-scope"@,
            ValueType::AdminPin,
            DefaultView::DecisionEnum(DecisionEnumValues::AdminPin(AdminPinScope::PerCard)),
            "Admin PIN scope: per-card (default) or fleet-shared (a documented single point of compromise)."@,
        ),
        setting(
            "reset-code"@,
            ValueType::Bool,
            DefaultView::Bool(true),
            "Generate a Reset Code so a user can reset their own User PIN without the Admin PIN."@,
        ),
        setting(
            "factory-reset-required"@,
            ValueType::Bool,
            DefaultView::Bool(true),
            "Require a factory reset of a fresh or dirty card before provisioning."@,
        ),
        setting(
            "audit-required"@,
            ValueType::Bool,
            DefaultView::Bool(true),
            "Require a signed, hash-chained audit record for every provisioning; refuse to proceed without it."@,
        ),
        setting(
            "allow-bootstrap"@,
            ValueType::Bool,
            DefaultView::Bool(true),
            "Allow a bootstrap User PIN to be set for first use, to be changed by the user on first login."@,
        ),
        setting(
            "device-allowlist"@,
            ValueType::DeviceList,
            DefaultView::DeviceList(Seq::empty()),
            "by-id allowlist of internal (rule-2) disks usable as backup/export targets; never re-includes a rule-1 (in-use) disk."@,
        ),
        setting(
            "on-failure"@,
            ValueType::Failure,
            DefaultView::DecisionEnum(DecisionEnumValues::Failure(FailureBehavior::AbortLeaveClean)),
            "Behavior when a provisioning step fails: abort-leave-clean, or factory-reset-and-abort."@,
        ),
        run_input(
            "target-card-serial"@,
            false,
            "If set, the provisioned card's serial must match this value or the run aborts."@,
        ),
        run_input(
            "asserted-date"@,
            false,
            "Operator-asserted current date (RFC-3339 UTC) for non-interactive runs; the clock upper bound, must be >= the baked floor."@,
        ),
        run_input(
            "real-name"@,
            true,
            "OpenPGP UID real name for this identity. (Required.)"@,
        ),
        run_input(
            "email"@,
            true,
            "OpenPGP UID email for this identity (RFC-5322 subset). (Required.)"@,
        ),
        secret_input(
            "user-pin"@,
            "YubiKey User PIN; entered via fd/stdin only, never argv/config."@,
        ),
        secret_input(
            "admin-pin"@,
            "YubiKey Admin PIN; entered via fd/stdin only, never argv/config."@,
        ),
        secret_input(
            "certify-passphrase"@,
            "Passphrase protecting the offline certify key; entered via fd/stdin only."@,
        ),
        cli_token(
            "confirm-format"@,
            "Explicit acknowledgement to format/erase a selected target drive. CLI-only; distinct from confirm-keytocard and force."@,
        ),
        cli_token(
            "confirm-keytocard"@,
            "Explicit acknowledgement of the irreversible keytocard (moving subkeys onto the card). CLI-only; distinct from confirm-format and force."@,
        ),
        cli_token(
            "force"@,
            "Override the single-shot idempotency guard (re-format a drive that already holds a Keywright backup, or re-provision an identity already backed up here). Does NOT bypass device safety or any other gate. CLI-only."@,
        ),
    ]
}

/// `i` is the first position of the registry whose id is `id`.
pub open spec fn is_first_match(id: Seq<char>, i: int) -> bool {
    &&& 0 <= i < registry().len()
    &&& registry()[i].id == id
    &&& forall|j: int| 0 <= j < i ==> registry()[j].id != id
}

/// The decision that a lookup by `id` finds: the first one declared with
/// that id, or none when no decision has it.
pub open spec fn spec_decision_by_id(id: Seq<char>) -> Option<DecisionView> {
    if exists|i: int| 0 <= i < registry().len() && registry()[i].id == id {
        Some(registry()[choose|i: int| is_first_match(id, i)])
    } else {
        None
    }
}

/// Every decision, declared once.
pub fn decisions() -> (r: Vec<Decision>)
    ensures
        r@.map_values(|d: Decision| d@) == registry(),
{
    let mut v: Vec<Decision> = Vec::new();
    v.push(Decision {
        id: "compliance-profile",
        value_type: ValueType::Compliance,
        default_value: DefaultValue::DecisionEnum(DecisionEnumValues::Compliance(ComplianceProfile::DrDuh)),
        required: false,
        lockable: true,
        cli: true,
        config: true,
        secret: false,
        audit_redact: false,
        doc: "Compliance regime to enforce: drduh (standalone) or fips/cnsa/bsi. Gates algorithms, key sizes, and expiry.",
    });
    v.push(Decision {
        id: "cnsa-use-case",
        value_type: ValueType::CnsaUse,
        default_value: DefaultValue::DecisionEnum(DecisionEnumValues::CnsaUse(CnsaUseCase::Nss2030)),
        required: false,
        lockable: true,
        cli: true,
        config: true,
        secret: false,
        audit_redact: false,
        doc: "CNSA 2.0 transitional use case selecting the expiry ceiling: nss-2030 (default) or nss-2033.",
    });
    v.push(Decision {
        id: "algo",
        value_type: ValueType::AlgoProfile,
        default_value: DefaultValue::Algo(&[
            (Role::Certify, AlgoSpec { algo: Algo::Ed25519, expiry: Expiry::Never }),
            (Role::Sign, AlgoSpec { algo: Algo::Ed25519, expiry: Expiry::Days(730) }),
            (Role::Auth, AlgoSpec { algo: Algo::Ed25519, expiry: Expiry::Days(730) }),
            (Role::Encrypt, AlgoSpec { algo: Algo::Cv25519, expiry: Expiry::Days(730) }),
        ]),
        required: false,
        lockable: true,
        cli: true,
        config: true,
        secret: false,
        audit_redact: false,
        doc: "Per-role key algorithm + expiry profile for certify/sign/auth/encrypt.",
    });
    v.push(Decision {
        id: "subkey-expiry",
        value_type: ValueType::Expiry,
        default_value: DefaultValue::Expiry(Expiry::Days(730)),
        required: false,
        lockable: true,
        cli: true,
        config: true,
        secret: false,
        audit_redact: false,
        doc: "Default expiry for the sign/auth/encrypt subkeys; the certify key never expires.",
    });
    v.push(Decision {
        id: "pin-min-length",
        value_type: ValueType::Uint,
        default_value: DefaultValue::Uint(6),
        required: false,
        lockable: true,
        cli: true,
        config: true,
        secret: false,
        audit_redact: false,
        doc: "Minimum YubiKey PIN length (card minimum 6; FIPS requires >= 8).",
    });
    v.push(Decision {
        id: "pin-source",
        value_type: ValueType::PinSource,
        default_value: DefaultValue::DecisionEnum(DecisionEnumValues::PinSource(PinSource::Generated)),
        required: false,
        lockable: true,
        cli: true,
        config: true,
        secret: false,
        audit_redact: false,
        doc: "Whether PINs are tool-generated or operator-chosen (entered via fd/stdin).",
    });
    v.push(Decision {
        id: "admin-pin-scope",
        value_type: ValueType::AdminPin,
        default_value: DefaultValue::DecisionEnum(DecisionEnumValues::AdminPin(AdminPinScope::PerCard)),
        required: false,
        lockable: true,
        cli: true,
        config: true,
        secret: false,
        audit_redact: false,
        doc: "Admin PIN scope: per-card (default) or fleet-shared (a documented single point of compromise).",
    });
    v.push(Decision {
        id: "reset-code",
        value_type: ValueType::Bool,
        default_value: DefaultValue::Bool(true),
        required: false,
        lockable: true,
        cli: true,
        config: true,
        secret: false,
        audit_redact: false,
        doc: "Generate a Reset Code so a user can reset their own User PIN without the Admin PIN.",
    });
    v.push(Decision {
        id: "factory-reset-required",
        value_type: ValueType::Bool,
        default_value: DefaultValue::Bool(true),
        required: false,
        lockable: true,
        cli: true,
        config: true,
        secret: false,
        audit_redact: false,
        doc: "Require a factory reset of a fresh or dirty card before provisioning.",
    });
    v.push(Decision {
        id: "audit-required",
        value_type: ValueType::Bool,
        default_value: DefaultValue::Bool(true),
        required: false,
        lockable: true,
        cli: true,
        config: true,
        secret: false,
        audit_redact: false,
        doc: "Require a signed, hash-chained audit record for every provisioning; refuse to proceed without it.",
    });
    v.push(Decision {
        id: "allow-bootstrap",
        value_type: ValueType::Bool,
        default_value: DefaultValue::Bool(true),
        required: false,
        lockable: true,
        cli: true,
        config: true,
        secret: false,
        audit_redact: false,
        doc: "Allow a bootstrap User PIN to be set for first use, to be changed by the user on first login.",
    });
    v.push(Decision {
        id: "device-allowlist",
        value_type: ValueType::DeviceList,
        default_value: DefaultValue::DeviceList(&[]),
        required: false,
        lockable: true,
        cli: true,
        config: true,
        secret: false,
        audit_redact: false,
        doc: "by-id allowlist of internal (rule-2) disks usable as backup/export targets; never re-includes a rule-1 (in-use) disk.",
    });
    v.push(Decision {
        id: "on-failure",
        value_type: ValueType::Failure,
        default_value: DefaultValue::DecisionEnum(DecisionEnumValues::Failure(FailureBehavior::AbortLeaveClean)),
        required: false,
        lockable: true,
        cli: true,
        config: true,
        secret: false,
        audit_redact: false,
        doc: "Behavior when a provisioning step fails: abort-leave-clean, or factory-reset-and-abort.",
    });
    v.push(Decision {
        id: "target-card-serial",
        value_type: ValueType::Str,
        default_value: DefaultValue::Unset,
        required: false,
        lockable: false,
        cli: true,
        config: true,
        secret: false,
        audit_redact: false,
        doc: "If set, the provisioned card's serial must match this value or the run aborts.",
    });
    v.push(Decision {
        id: "asserted-date",
        value_type: ValueType::Str,
        default_value: DefaultValue::Unset,
        required: false,
        lockable: false,
        cli: true,
        config: true,
        secret: false,
        audit_redact: false,
        doc: "Operator-asserted current date (RFC-3339 UTC) for non-interactive runs; the clock upper bound, must be >= the baked floor.",
    });
    v.push(Decision {
        id: "real-name",
        value_type: ValueType::Str,
        default_value: DefaultValue::Unset,
        required: true,
        lockable: false,
        cli: true,
        config: true,
        secret: false,
        audit_redact: false,
        doc: "OpenPGP UID real name for this identity. (Required.)",
    });
    v.push(Decision {
        id: "email",
        value_type: ValueType::Str,
        default_value: DefaultValue::Unset,
        required: true,
        lockable: false,
        cli: true,
        config: true,
        secret: false,
        audit_redact: false,
        doc: "OpenPGP UID email for this identity (RFC-5322 subset). (Required.)",
    });
    // secrets: fd/stdin only; never a flag or a TOML key, always redacted
    v.push(Decision {
        id: "user-pin",
        value_type: ValueType::Pin,
        default_value: DefaultValue::Unset,
        required: false,
        lockable: false,
        cli: false,
        config: false,
        secret: true,
        audit_redact: true,
        doc: "YubiKey User PIN; entered via fd/stdin only, never argv/config.",
    });
    v.push(Decision {
        id: "admin-pin",
        value_type: ValueType::Pin,
        default_value: DefaultValue::Unset,
        required: false,
        lockable: false,
        cli: false,
        config: false,
        secret: true,
        audit_redact: true,
        doc: "YubiKey Admin PIN; entered via fd/stdin only, never argv/config.",
    });
    v.push(Decision {
        id: "certify-passphrase",
        value_type: ValueType::Pin,
        default_value: DefaultValue::Unset,
        required: false,
        lockable: false,
        cli: false,
        config: false,
        secret: true,
        audit_redact: true,
        doc: "Passphrase protecting the offline certify key; entered via fd/stdin only.",
    });
    v.push(Decision {
        id: "confirm-format",
        value_type: ValueType::Bool,
        default_value: DefaultValue::Bool(false),
        required: false,
        lockable: false,
        cli: true,
        config: false,
        secret: false,
        audit_redact: false,
        doc: "Explicit acknowledgement to format/erase a selected target drive. CLI-only; distinct from confirm-keytocard and force.",
    });
    v.push(Decision {
        id: "confirm-keytocard",
        value_type: ValueType::Bool,
        default_value: DefaultValue::Bool(false),
        required: false,
        lockable: false,
        cli: true,
        config: false,
        secret: false,
        audit_redact: false,
        doc: "Explicit acknowledgement of the irreversible keytocard (moving subkeys onto the card). CLI-only; distinct from confirm-format and force.",
    });
    v.push(Decision {
        id: "force",
        value_type: ValueType::Bool,
        default_value: DefaultValue::Bool(false),
        required: false,
        lockable: false,
        cli: true,
        config: false,
        secret: false,
        audit_redact: false,
        doc: "Override the single-shot idempotency guard (re-format a drive that already holds a Keywright backup, or re-provision an identity already backed up here). Does NOT bypass device safety or any other gate. CLI-only.",
    });
    assert(match v@[11].default_value {
        DefaultValue::DeviceList(l) => l@.map_values(|s: &str| s@) =~= Seq::<Seq<char>>::empty(),
        _ => false,
    });
    assert(v@.map_values(|d: Decision| d@) =~= registry());
    v
}

/// Whether two strings hold the same characters.
fn same_text(a: &str, b: &str) -> (r: bool)
    ensures
        r == (a@ == b@),
{
    let n = a.unicode_len();
    if n != b.unicode_len() {
        return false;
    }
    let mut k: usize = 0;
    while k < n
        invariant
            n == a@.len(),
            n == b@.len(),
            k <= n,
            forall|j: int| 0 <= j < k ==> a@[j] == b@[j],
        decreases n - k,
    {
        if a.get_char(k) != b.get_char(k) {
            return false;
        }
        k = k + 1;
    }
    assert(a@ =~= b@);
    true
}

/// The decision declared with `id`, if any (the first one, in declaration order).
pub fn decision_by_id(id: &str) -> (r: Option<Decision>)
    ensures
        match r {
            Some(d) => spec_decision_by_id(id@) == Some(d@),
            None => spec_decision_by_id(id@) is None,
        },
{
    let table = decisions();
    let ghost reg = registry();
    let mut i: usize = 0;
    while i < table.len()
        invariant
            table@.map_values(|d: Decision| d@) == reg,
            reg == registry(),
            i <= table.len(),
            forall|j: int| 0 <= j < i ==> reg[j].id != id@,
        decreases table.len() - i,
    {
        assert(table@.map_values(|d: Decision| d@)[i as int] == table@[i as int]@);
        if same_text(table[i].id, id) {
            assert(is_first_match(id@, i as int));
            let ghost k = choose|k: int| is_first_match(id@, k);
            assert(k == i);
            return Some(table[i]);
        }
        i = i + 1;
    }
    None
}

} // verus!
