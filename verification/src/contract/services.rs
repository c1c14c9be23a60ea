//! Services that anchors offer.
use crate::address::Address;
use crate::contract::attestors::{profile_of, profile_replaced, ProfileView};
use crate::contract::cache::cleared;
use crate::contract::events::{Event, ServicesConfiguredEvent};
use crate::contract::ledger::{
    auth_refusal, capability_refusal, either, follows, refuse_when, AdminAction, AdminOutcome,
    AdminTarget, AnchorKitContract, ContractError, Ledger, ServiceState,
};
use crate::contract::types::{
    copy_text, AdminCapability, AnchorServices, ServiceRetirementInfo, MAX_KNOWN_SERVICE_CODE,
    SERVICE_CAPABILITY_VERSION, SERVICE_DEPOSITS,
};
use crate::errors::ErrorCode;
use crate::service_management::{
    copy_codes, lists_code, ServiceConfigSnapshot, ServiceToggleState, ToggleView,
};
use vstd::prelude::*;
use vstd::string::*;

verus! {

/// Whether a code stands for a service.
pub open spec fn is_service(code: u32) -> bool {
    SERVICE_DEPOSITS <= code <= MAX_KNOWN_SERVICE_CODE
}

/// Whether a list of services can be configured: it is not empty, repeats none
/// and holds only known codes.
pub open spec fn are_services(codes: Seq<u32>) -> bool {
    &&& codes.len() > 0
    &&& codes.no_duplicates()
    &&& forall|i: int| 0 <= i < codes.len() ==> is_service(#[trigger] codes[i])
}

/// The codes that retirements are about.
pub open spec fn retired_codes(retirements: Seq<ServiceRetirementInfo>) -> Seq<u32> {
    retirements.map_values(|r: ServiceRetirementInfo| r.service_code)
}

/// Whether a list of retirements can be configured: it repeats no service and
/// is about known ones.
pub open spec fn are_retirements(retirements: Seq<ServiceRetirementInfo>) -> bool {
    let codes = retired_codes(retirements);
    &&& codes.no_duplicates()
    &&& forall|i: int| 0 <= i < codes.len() ==> is_service(#[trigger] codes[i])
}

/// Why a configuration is refused.
pub open spec fn configure_refusal(
    env: Ledger,
    anchor: Address,
    services: Seq<u32>,
    retirements: Seq<ServiceRetirementInfo>,
    version: u32,
) -> Option<ContractError> {
    either(
        auth_refusal(env, anchor),
        either(
            refuse_when(
                !env.attestors.registered@.contains_key(anchor),
                ErrorCode::AttestorNotRegistered,
            ),
            either(
                refuse_when(
                    version == 0 || version > SERVICE_CAPABILITY_VERSION,
                    ErrorCode::UnsupportedCapabilityVersion,
                ),
                refuse_when(
                    !are_services(services) || !are_retirements(retirements),
                    ErrorCode::InvalidServiceType,
                ),
            ),
        ),
    )
}

/// Whether `sorted` holds the same codes in strictly ascending order.
pub open spec fn is_ascending_form(codes: Seq<u32>, sorted: Seq<u32>) -> bool {
    &&& sorted.len() == codes.len()
    &&& forall|i: int, j: int| 0 <= i < j < sorted.len() ==> sorted[i] < sorted[j]
    &&& forall|c: u32|
        #![trigger sorted.contains(c)]
        #![trigger codes.contains(c)]
        sorted.contains(c) == codes.contains(c)
}

/// The ledger after services were configured: stored in ascending order,
/// stamped with the version, copied to the profile, and announced.
pub open spec fn configured(
    before: Ledger,
    after: Ledger,
    anchor: Address,
    services: Seq<u32>,
    retirements: Vec<ServiceRetirementInfo>,
    version: u32,
) -> bool {
    let record = after.services.configured@[anchor];
    &&& after == (Ledger {
        services: ServiceState { configured: after.services.configured, ..before.services },
        attestors: after.attestors,
        events: after.events,
        ..before
    })
    &&& after.services.configured@ == before.services.configured@.insert(anchor, record)
    &&& record.anchor == anchor
    &&& is_ascending_form(services, record.services@)
    &&& record.service_capability_version == version
    &&& record.service_retirements == retirements
    &&& profile_replaced(
        before.attestors,
        after.attestors,
        anchor,
        (ProfileView {
            services: record.services@,
            updated_at: before.clock.timestamp,
            ..profile_of(before, anchor)
        }),
    )
    &&& after.events@ == before.events@.push(
        Event::ServicesConfigured(
            ServicesConfiguredEvent {
                anchor,
                service_count: services.len() as u32,
                capability_version: version,
                timestamp: before.clock.timestamp,
            },
        ),
    )
}

/// The refusal of an anchor without configured services.
pub open spec fn services_refusal(env: Ledger, anchor: Address) -> Option<ContractError> {
    refuse_when(
        !env.services.configured@.contains_key(anchor),
        ErrorCode::ServicesNotConfigured,
    )
}

/// Whether a service is marked as retired.
pub open spec fn is_retired(retirements: Seq<ServiceRetirementInfo>, service: u32) -> bool {
    exists|i: int|
        0 <= i < retirements.len() && (#[trigger] retirements[i]).service_code == service
            && retirements[i].retired
}

/// Whether anything is recorded of a retirement of a service.
pub open spec fn has_retirement(retirements: Seq<ServiceRetirementInfo>, service: u32) -> bool {
    exists|i: int| 0 <= i < retirements.len() && (#[trigger] retirements[i]).service_code == service
}

/// What is recorded of a retirement after the service was retired: what is
/// given now, and where nothing is given what was recorded before.
pub open spec fn retired_entry(
    old_entry: ServiceRetirementInfo,
    timestamp: Option<u64>,
    notice: Option<String>,
) -> ServiceRetirementInfo {
    ServiceRetirementInfo {
        service_code: old_entry.service_code,
        retired: true,
        retirement_timestamp: if timestamp is Some {
            timestamp
        } else {
            old_entry.retirement_timestamp
        },
        deprecation_notice: if notice is Some {
            notice
        } else {
            old_entry.deprecation_notice
        },
    }
}

/// The retirements after a service was retired.
pub open spec fn with_retired(
    retirements: Seq<ServiceRetirementInfo>,
    service: u32,
    timestamp: Option<u64>,
    notice: Option<String>,
) -> Seq<ServiceRetirementInfo> {
    let updated = retirements.map_values(
        |r: ServiceRetirementInfo|
            if r.service_code == service {
                retired_entry(r, timestamp, notice)
            } else {
                r
            },
    );
    if has_retirement(retirements, service) {
        updated
    } else {
        updated.push(
            ServiceRetirementInfo {
                service_code: service,
                retired: true,
                retirement_timestamp: timestamp,
                deprecation_notice: notice,
            },
        )
    }
}

/// The retirements after a service was taken back: its notice is kept.
pub open spec fn with_unretired(retirements: Seq<ServiceRetirementInfo>, service: u32) -> Seq<
    ServiceRetirementInfo,
> {
    retirements.map_values(
        |r: ServiceRetirementInfo|
            if r.service_code == service {
                ServiceRetirementInfo {
                    service_code: service,
                    retired: false,
                    retirement_timestamp: None,
                    deprecation_notice: r.deprecation_notice,
                }
            } else {
                r
            },
    )
}

/// The ledger after the retirements of an anchor were replaced.
pub open spec fn retirements_replaced(
    before: Ledger,
    after: Ledger,
    anchor: Address,
    retirements: Seq<ServiceRetirementInfo>,
    event: Event,
) -> bool {
    let old_record = before.services.configured@[anchor];
    let record = after.services.configured@[anchor];
    &&& after == (Ledger {
        services: ServiceState { configured: after.services.configured, ..before.services },
        events: after.events,
        ..before
    })
    &&& after.services.configured@ == before.services.configured@.insert(anchor, record)
    &&& record == (AnchorServices {
        service_retirements: record.service_retirements,
        ..old_record
    })
    &&& record.service_retirements@ == retirements
    &&& after.events@ == before.events@.push(event)
}

/// What is switched on and off for an anchor.
pub open spec fn toggles_of(env: Ledger, anchor: Address) -> ToggleView {
    if env.services.toggled@.contains_key(anchor) {
        env.services.toggled@[anchor]@
    } else {
        ToggleView::none()
    }
}

/// The entry of a change of services in the administrative log.
pub open spec fn service_entry(
    caller: Address,
    action: &'static str,
    anchor: Address,
    before: &'static str,
    after: &'static str,
) -> AdminAction {
    AdminAction {
        actor: caller,
        action,
        target: AdminTarget::Account(anchor),
        before,
        after: AdminOutcome::Label(after),
    }
}

/// The services after the switches of one anchor were replaced.
pub open spec fn toggles_replaced(
    before: ServiceState,
    after: ServiceState,
    anchor: Address,
    toggles: ToggleView,
) -> bool {
    &&& after == (ServiceState { toggled: after.toggled, ..before })
    &&& after.toggled@ == before.toggled@.insert(anchor, after.toggled@[anchor])
    &&& after.toggled@[anchor]@ == toggles
}

/// The ledger after a service was switched: where that changed anything, what
/// was cached of the anchor is cleared.
pub open spec fn switched_service(
    before: Ledger,
    after: Ledger,
    anchor: Address,
    toggles: ToggleView,
    changed: bool,
    entry: AdminAction,
) -> bool {
    &&& toggles_replaced(before.services, after.services, anchor, toggles)
    &&& after.admin_log@ == before.admin_log@.push(entry)
    &&& if changed {
        cleared(
            before,
            (Ledger { services: before.services, admin_log: before.admin_log, ..after }),
            anchor,
        )
    } else {
        after == (Ledger { services: after.services, admin_log: after.admin_log, ..before })
    }
}

/// The capability that switching services asks for.
pub open spec fn toggle_refusal(env: Ledger, caller: Address) -> Option<ContractError> {
    capability_refusal(env, caller, AdminCapability::ToggleServices)
}

/// Whether a code stands for a service.
pub fn is_known_service_code(code: u32) -> (r: bool)
    ensures
        r == is_service(code),
{
    code >= SERVICE_DEPOSITS && code <= MAX_KNOWN_SERVICE_CODE
}

fn codes_are_sound(codes: &Vec<u32>) -> (r: bool)
    ensures
        r == (codes@.no_duplicates() && forall|i: int|
            0 <= i < codes@.len() ==> is_service(#[trigger] codes@[i])),
{
    let mut seen: Vec<u32> = Vec::new();
    let mut i: usize = 0;
    while i < codes.len()
        invariant
            0 <= i <= codes@.len(),
            seen@ == codes@.take(i as int),
            codes@.take(i as int).no_duplicates(),
            forall|j: int| 0 <= j < i ==> is_service(#[trigger] codes@[j]),
        decreases codes@.len() - i,
    {
        let c: u32 = codes[i];
        if lists_code(&seen, c) {
            proof {
                let w = choose|w: int| 0 <= w < seen@.len() && seen@[w] == c;
                assert(codes@[w] == codes@[i as int]);
            }
            return false;
        }
        if !is_known_service_code(c) {
            assert(!is_service(codes@[i as int]));
            return false;
        }
        seen.push(c);
        proof {
            let next = codes@.take(i + 1);
            assert(next =~= codes@.take(i as int).push(c));
            assert forall|a: int, b: int|
                0 <= a < next.len() && 0 <= b < next.len() && a != b implies next[a] != next[b] by {
                let old_part = codes@.take(i as int);
                if a < i && b < i {
                    assert(next[a] == old_part[a] && next[b] == old_part[b]);
                } else if a < i {
                    assert(next[a] == old_part[a]);
                    assert(old_part.contains(old_part[a]));
                } else {
                    assert(next[b] == old_part[b]);
                    assert(old_part.contains(old_part[b]));
                }
            }
        }
        i = i + 1;
    }
    assert(codes@.take(i as int) =~= codes@);
    true
}

/// The codes in ascending order, each as often as it was given.
pub fn sort_services(services: &Vec<u32>) -> (r: Vec<u32>)
    ensures
        r@.to_multiset() == services@.to_multiset(),
        forall|i: int, j: int| 0 <= i <= j < r@.len() ==> r@[i] <= r@[j],
        services@.no_duplicates() ==> is_ascending_form(services@, r@),
{
    broadcast use vstd::seq_lib::group_to_multiset_ensures;

    let mut result: Vec<u32> = Vec::new();
    let mut i: usize = 0;
    assert(result@ =~= services@.take(0));
    while i < services.len()
        invariant
            0 <= i <= services@.len(),
            result@.to_multiset() == services@.take(i as int).to_multiset(),
            forall|a: int, b: int| 0 <= a <= b < result@.len() ==> result@[a] <= result@[b],
        decreases services@.len() - i,
    {
        broadcast use vstd::seq_lib::group_to_multiset_ensures;

        let code: u32 = services[i];
        let mut k: usize = 0;
        while k < result.len() && result[k] <= code
            invariant
                0 <= k <= result@.len(),
                forall|a: int| 0 <= a < k ==> result@[a] <= code,
            decreases result@.len() - k,
        {
            k = k + 1;
        }
        assert(services@.take(i + 1) =~= services@.take(i as int).push(code));
        result.insert(k, code);
        i = i + 1;
    }
    assert(services@.take(i as int) =~= services@);
    proof {
        if services@.no_duplicates() {
            same_multiset_ascends(services@, result@);
        }
    }
    result
}

proof fn same_multiset_ascends(codes: Seq<u32>, sorted: Seq<u32>)
    requires
        codes.no_duplicates(),
        sorted.to_multiset() == codes.to_multiset(),
        forall|i: int, j: int| 0 <= i <= j < sorted.len() ==> sorted[i] <= sorted[j],
    ensures
        is_ascending_form(codes, sorted),
{
    broadcast use vstd::seq_lib::group_to_multiset_ensures;

    assert(sorted.to_multiset().len() == sorted.len());
    assert(codes.to_multiset().len() == codes.len());
    assert forall|c: u32| sorted.contains(c) == #[trigger] codes.contains(c) by {
        assert(sorted.contains(c) <==> sorted.to_multiset().count(c) > 0);
        assert(codes.contains(c) <==> codes.to_multiset().count(c) > 0);
    }
    codes.lemma_multiset_has_no_duplicates();
    sorted.lemma_multiset_has_no_duplicates_conv();
}

fn codes_of(retirements: &Vec<ServiceRetirementInfo>) -> (r: Vec<u32>)
    ensures
        r@ == retired_codes(retirements@),
{
    let mut codes: Vec<u32> = Vec::new();
    let mut i: usize = 0;
    let ghost all = retired_codes(retirements@);
    while i < retirements.len()
        invariant
            0 <= i <= retirements@.len(),
            all == retired_codes(retirements@),
            codes@ == all.take(i as int),
        decreases retirements@.len() - i,
    {
        codes.push(retirements[i].service_code);
        assert(all.take(i + 1) =~= all.take(i as int).push(all[i as int]));
        i = i + 1;
    }
    assert(all.take(i as int) =~= all);
    codes
}

fn retired_in(retirements: &Vec<ServiceRetirementInfo>, service: u32) -> (r: bool)
    ensures
        r == is_retired(retirements@, service),
{
    let mut i: usize = 0;
    while i < retirements.len()
        invariant
            0 <= i <= retirements@.len(),
            forall|j: int|
                0 <= j < i ==> !((#[trigger] retirements@[j]).service_code == service
                    && retirements@[j].retired),
        decreases retirements@.len() - i,
    {
        if retirements[i].service_code == service && retirements[i].retired {
            assert(retirements@[i as int].retired);
            return true;
        }
        i = i + 1;
    }
    false
}

/// Why a service cannot be retired.
pub open spec fn retire_refusal(env: Ledger, anchor: Address) -> Option<ContractError> {
    either(auth_refusal(env, anchor), services_refusal(env, anchor))
}

/// The ledger after a service was retired.
pub open spec fn service_retired(
    before: Ledger,
    after: Ledger,
    anchor: Address,
    service: u32,
    retirement_timestamp: Option<u64>,
    deprecation_notice: Option<String>,
) -> bool {
    retirements_replaced(
        before,
        after,
        anchor,
        with_retired(
            before.services.configured@[anchor].service_retirements@,
            service,
            retirement_timestamp,
            deprecation_notice,
        ),
        Event::ServiceRetired(anchor, service),
    )
}

/// Why a service cannot be taken back.
pub open spec fn unretire_refusal(env: Ledger, anchor: Address) -> Option<ContractError> {
    either(auth_refusal(env, anchor), services_refusal(env, anchor))
}

/// The ledger after a retired service was taken back.
pub open spec fn service_unretired(
    before: Ledger,
    after: Ledger,
    anchor: Address,
    service: u32,
) -> bool {
    retirements_replaced(
        before,
        after,
        anchor,
        with_unretired(
            before.services.configured@[anchor].service_retirements@,
            service,
        ),
        Event::ServiceUnretired(anchor, service),
    )
}

/// The ledger after a service was switched on.
pub open spec fn service_enabled(
    before: Ledger,
    after: Ledger,
    caller: Address,
    anchor: Address,
    service_code: u32,
    out: bool,
) -> bool {
    let toggles = toggles_of(before, anchor);
    &&& out == !toggles.enabled.contains(service_code)
    &&& switched_service(
        before,
        after,
        anchor,
        toggles.on(service_code),
        out,
        service_entry(caller, "enable_service", anchor, "disabled", "enabled"),
    )
}

/// The ledger after a service was switched off.
pub open spec fn service_disabled(
    before: Ledger,
    after: Ledger,
    caller: Address,
    anchor: Address,
    service_code: u32,
    out: bool,
) -> bool {
    let toggles = toggles_of(before, anchor);
    &&& out == !toggles.disabled.contains(service_code)
    &&& switched_service(
        before,
        after,
        anchor,
        toggles.off(service_code),
        out,
        service_entry(caller, "disable_service", anchor, "enabled", "disabled"),
    )
}

/// Why a snapshot of services is refused.
pub open spec fn snapshot_refusal(
    env: Ledger,
    caller: Address,
    description: String,
) -> Option<ContractError> {
    either(
        toggle_refusal(env, caller),
        refuse_when(description@.len() == 0, ErrorCode::ValidationError),
    )
}

/// The ledger after a snapshot of services was taken.
pub open spec fn snapshot_taken(
    before: Ledger,
    after: Ledger,
    caller: Address,
    anchor: Address,
    services: Vec<u32>,
    description: String,
    out: u64,
) -> bool {
    let id = out;
    &&& id == before.services.snapshot_count + 1
    &&& after == (Ledger {
        services: ServiceState {
            snapshots: after.services.snapshots,
            snapshot_count: id,
            ..before.services
        },
        admin_log: after.admin_log,
        ..before
    })
    &&& after.services.snapshots@ == before.services.snapshots@.insert(
        id,
        (ServiceConfigSnapshot {
            snapshot_id: id,
            anchor,
            services,
            description,
            created_at: before.clock.timestamp,
        }),
    )
    &&& after.admin_log@ == before.admin_log@.push(
        service_entry(caller, "snapshot_services", anchor, "", "snapshot_taken"),
    )
}

/// The ledger after services were rolled back to a snapshot.
pub open spec fn services_rolled_back(
    before: Ledger,
    after: Ledger,
    caller: Address,
    snapshot_id: u64,
    out: bool,
) -> bool {
    let found = before.services.snapshots@.contains_key(snapshot_id);
    let snapshot = before.services.snapshots@[snapshot_id];
    let entry = AdminAction {
        actor: caller,
        action: "rollback_services",
        target: AdminTarget::Label("service_snapshot"),
        before: "",
        after: AdminOutcome::Label(
            if found {
                "rolled_back"
            } else {
                "rollback_failed"
            },
        ),
    };
    &&& out == found
    &&& after.admin_log@ == before.admin_log@.push(entry)
    &&& !found ==> after == (Ledger {
        admin_log: after.admin_log,
        ..before
    })
    &&& found ==> {
        &&& toggles_replaced(
            before.services,
            after.services,
            snapshot.anchor,
            (ToggleView { enabled: snapshot.services@, disabled: Seq::empty() }),
        )
        &&& cleared(
            before,
            (Ledger {
                services: before.services,
                admin_log: before.admin_log,
                ..after
            }),
            snapshot.anchor,
        )
    }
}

/// The configured services of an anchor that are not retired.
pub open spec fn active_services(env: Ledger, anchor: Address) -> Seq<u32> {
    let record = env.services.configured@[anchor];
    record.services@.filter(
        |c: u32| !is_retired(record.service_retirements@, c),
    )
}

/// Whether an anchor offers a service.
pub open spec fn offers_service(env: Ledger, anchor: Address, service: u32) -> bool {
    (env.services.configured@.contains_key(anchor)
        && env.services.configured@[anchor].services@.contains(service) && !is_retired(
        env.services.configured@[anchor].service_retirements@,
        service,
    ))
}

impl AnchorKitContract {
    /// Configures the services of an anchor under the current version.
    pub fn configure_services(env: &mut Ledger, anchor: Address, services: Vec<u32>) -> (r: Result<
        (),
        ContractError,
    >)
        ensures
            follows(
                r,
                configure_refusal(
                    *old(env),
                    anchor,
                    services@,
                    Seq::empty(),
                    SERVICE_CAPABILITY_VERSION,
                ),
            ),
            r is Err ==> *final(env) == *old(env),
            r is Ok ==> exists|none: Vec<ServiceRetirementInfo>|
                none@.len() == 0 && #[trigger] configured(
                    *old(env),
                    *final(env),
                    anchor,
                    services@,
                    none,
                    SERVICE_CAPABILITY_VERSION,
                ),
    {
        let retirements: Vec<ServiceRetirementInfo> = Vec::new();
        assert(retirements@ =~= Seq::<ServiceRetirementInfo>::empty());
        Self::configure_services_versioned(
            env,
            anchor,
            services,
            retirements,
            SERVICE_CAPABILITY_VERSION,
        )
    }

    /// Configures the services of an anchor and their retirements under the
    /// current version.
    pub fn configure_services_with_retire(
        env: &mut Ledger,
        anchor: Address,
        services: Vec<u32>,
        service_retirements: Vec<ServiceRetirementInfo>,
    ) -> (r: Result<(), ContractError>)
        ensures
            follows(
                r,
                configure_refusal(
                    *old(env),
                    anchor,
                    services@,
                    service_retirements@,
                    SERVICE_CAPABILITY_VERSION,
                ),
            ),
            r is Err ==> *final(env) == *old(env),
            r is Ok ==> configured(
                *old(env),
                *final(env),
                anchor,
                services@,
                service_retirements,
                SERVICE_CAPABILITY_VERSION,
            ),
    {
        Self::configure_services_versioned(
            env,
            anchor,
            services,
            service_retirements,
            SERVICE_CAPABILITY_VERSION,
        )
    }

    /// Configures the services of an anchor and their retirements. They replace
    /// what was configured before and are stored in ascending order.
    pub fn configure_services_versioned(
        env: &mut Ledger,
        anchor: Address,
        services: Vec<u32>,
        service_retirements: Vec<ServiceRetirementInfo>,
        version: u32,
    ) -> (r: Result<(), ContractError>)
        ensures
            follows(
                r,
                configure_refusal(*old(env), anchor, services@, service_retirements@, version),
            ),
            r is Err ==> *final(env) == *old(env),
            r is Ok ==> configured(
                *old(env),
                *final(env),
                anchor,
                services@,
                service_retirements,
                version,
            ),
    {
        if let Err(e) = env.require_auth(&anchor) {
            return Err(e);
        }
        if !env.attestors.registered.has(&anchor) {
            return Err(ContractError::Code(ErrorCode::AttestorNotRegistered));
        }
        if version == 0 || version > SERVICE_CAPABILITY_VERSION {
            return Err(ContractError::Code(ErrorCode::UnsupportedCapabilityVersion));
        }
        if services.len() == 0 {
            return Err(ContractError::Code(ErrorCode::InvalidServiceType));
        }
        if !codes_are_sound(&services) {
            return Err(ContractError::Code(ErrorCode::InvalidServiceType));
        }
        let codes = codes_of(&service_retirements);
        if !codes_are_sound(&codes) {
            return Err(ContractError::Code(ErrorCode::InvalidServiceType));
        }
        let normalized = sort_services(&services);
        let count: u32 = Self::count_of(&normalized);
        let copy = copy_codes(&normalized);
        let record = AnchorServices {
            anchor,
            services: normalized,
            service_capability_version: version,
            service_retirements,
        };
        env.services.configured.set(anchor, record);
        let mut profile = Self::load_or_init_profile(env, &anchor);
        profile.services = copy;
        profile.updated_at = env.clock.timestamp;
        env.attestors.profiles.set(anchor, profile);
        let timestamp: u64 = env.clock.timestamp;
        env.publish(
            Event::ServicesConfigured(
                ServicesConfiguredEvent {
                    anchor,
                    service_count: count,
                    capability_version: version,
                    timestamp,
                },
            ),
        );
        Ok(())
    }

    fn count_of(codes: &Vec<u32>) -> (n: u32)
        requires
            forall|i: int, j: int| 0 <= i < j < codes@.len() ==> codes@[i] < codes@[j],
        ensures
            n == codes@.len() as u32,
    {
        proof {
            ascending_is_bounded(codes@, codes@.len() as int);
        }
        codes.len() as u32
    }

    /// The version under which services are configured.
    pub fn current_capability_version() -> (v: u32)
        ensures
            v == SERVICE_CAPABILITY_VERSION,
    {
        SERVICE_CAPABILITY_VERSION
    }

    /// The version under which an anchor has configured its services.
    pub fn get_service_capability_version(env: &Ledger, anchor: Address) -> (r: Result<
        u32,
        ContractError,
    >)
        ensures
            follows(r, services_refusal(*env, anchor)),
            r is Ok ==> r->Ok_0 == env.services.configured@[anchor].service_capability_version,
    {
        match env.services.configured.get(&anchor) {
            Some(s) => Ok(s.service_capability_version),
            None => Err(ContractError::Code(ErrorCode::ServicesNotConfigured)),
        }
    }

    /// What an anchor has configured.
    pub fn get_supported_services(env: &Ledger, anchor: Address) -> (r: Result<
        &AnchorServices,
        ContractError,
    >)
        ensures
            follows(r, services_refusal(*env, anchor)),
            r is Ok ==> *r->Ok_0 == env.services.configured@[anchor],
    {
        match env.services.configured.get(&anchor) {
            Some(s) => Ok(s),
            None => Err(ContractError::Code(ErrorCode::ServicesNotConfigured)),
        }
    }

    /// The configured services of an anchor that are not retired.
    pub fn get_active_services(env: &Ledger, anchor: Address) -> (r: Result<
        Vec<u32>,
        ContractError,
    >)
        ensures
            follows(r, services_refusal(*env, anchor)),
            r is Ok ==> r->Ok_0@ == active_services(*env, anchor),
    {
        let record = match env.services.configured.get(&anchor) {
            Some(s) => s,
            None => {
                return Err(ContractError::Code(ErrorCode::ServicesNotConfigured));
            },
        };
        let mut active: Vec<u32> = Vec::new();
        let mut i: usize = 0;
        let ghost keep = |c: u32| !is_retired(record.service_retirements@, c);
        let ghost codes = record.services@;
        proof {
            reveal(Seq::filter);
            assert(active@ =~= codes.take(0).filter(keep));
        }
        while i < record.services.len()
            invariant
                0 <= i <= codes.len(),
                codes == record.services@,
                keep == (|c: u32| !is_retired(record.service_retirements@, c)),
                active@ == codes.take(i as int).filter(keep),
            decreases codes.len() - i,
        {
            let service: u32 = record.services[i];
            if !retired_in(&record.service_retirements, service) {
                active.push(service);
            }
            proof {
                reveal(Seq::filter);
                assert(codes.take(i + 1).drop_last() =~= codes.take(i as int));
                assert(codes.take(i + 1).last() == service);
            }
            i = i + 1;
        }
        assert(codes.take(i as int) =~= codes);
        Ok(active)
    }

    /// Whether an anchor offers a service: it is configured and not retired.
    pub fn supports_service(env: &Ledger, anchor: Address, service: u32) -> (r: bool)
        ensures
            r == offers_service(*env, anchor, service),
    {
        match env.services.configured.get(&anchor) {
            Some(record) => lists_code(&record.services, service) && !retired_in(
                &record.service_retirements,
                service,
            ),
            None => false,
        }
    }

    /// What is recorded of the retirement of a service.
    pub fn get_service_retirement_info(env: &Ledger, anchor: Address, service: u32) -> (r: Result<
        Option<ServiceRetirementInfo>,
        ContractError,
    >)
        ensures
            follows(r, services_refusal(*env, anchor)),
            r is Ok ==> {
                let all = env.services.configured@[anchor].service_retirements@;
                match r->Ok_0 {
                    Some(info) => exists|i: int|
                        {
                            &&& 0 <= i < all.len()
                            &&& info == #[trigger] all[i]
                            &&& info.service_code == service
                            &&& forall|j: int|
                                0 <= j < i ==> (#[trigger] all[j]).service_code != service
                        },
                    None => !has_retirement(all, service),
                }
            },
    {
        let record = match env.services.configured.get(&anchor) {
            Some(s) => s,
            None => {
                return Err(ContractError::Code(ErrorCode::ServicesNotConfigured));
            },
        };
        let ghost all = record.service_retirements@;
        let mut i: usize = 0;
        while i < record.service_retirements.len()
            invariant
                0 <= i <= all.len(),
                *record == env.services.configured@[anchor],
                env.services.configured@.contains_key(anchor),
                all == record.service_retirements@,
                forall|j: int| 0 <= j < i ==> (#[trigger] all[j]).service_code != service,
            decreases all.len() - i,
        {
            if record.service_retirements[i].service_code == service {
                let info = record.service_retirements[i].clone();
                assert(info == all[i as int]);
                return Ok(Some(info));
            }
            i = i + 1;
        }
        Ok(None)
    }

    /// Marks a service of an anchor as retired.
    pub fn retire_service(
        env: &mut Ledger,
        anchor: Address,
        service: u32,
        retirement_timestamp: Option<u64>,
        deprecation_notice: Option<String>,
    ) -> (r: Result<(), ContractError>)
        ensures
            follows(r, retire_refusal(*old(env), anchor)),
            r is Err ==> *final(env) == *old(env),
            r is Ok ==> service_retired(
                *old(env),
                *final(env),
                anchor,
                service,
                retirement_timestamp,
                deprecation_notice,
            ),
    {
        if let Err(e) = env.require_auth(&anchor) {
            return Err(e);
        }
        let mut fresh: Vec<ServiceRetirementInfo> = Vec::new();
        let mut found = false;
        {
            let record = match env.services.configured.get(&anchor) {
                Some(s) => s,
                None => {
                    return Err(ContractError::Code(ErrorCode::ServicesNotConfigured));
                },
            };
            let ghost all = record.service_retirements@;
            let ghost update = |r: ServiceRetirementInfo|
                if r.service_code == service {
                    retired_entry(r, retirement_timestamp, deprecation_notice)
                } else {
                    r
                };
            let mut i: usize = 0;
            while i < record.service_retirements.len()
                invariant
                    0 <= i <= all.len(),
                    all == record.service_retirements@,
                    *record == env.services.configured@[anchor],
                    *env == *old(env),
                    update == (|r: ServiceRetirementInfo|
                        if r.service_code == service {
                            retired_entry(r, retirement_timestamp, deprecation_notice)
                        } else {
                            r
                        }),
                    fresh@ == all.map_values(update).take(i as int),
                    found == has_retirement(all.take(i as int), service),
                decreases all.len() - i,
            {
                let entry = &record.service_retirements[i];
                if entry.service_code == service {
                    let timestamp = match retirement_timestamp {
                        Some(t) => Some(t),
                        None => entry.retirement_timestamp,
                    };
                    let notice = match &deprecation_notice {
                        Some(n) => Some(n.clone()),
                        None => copy_text(&entry.deprecation_notice),
                    };
                    fresh.push(
                        ServiceRetirementInfo {
                            service_code: service,
                            retired: true,
                            retirement_timestamp: timestamp,
                            deprecation_notice: notice,
                        },
                    );
                    found = true;
                    assert(all.take(i + 1)[i as int].service_code == service);
                } else {
                    fresh.push(entry.clone());
                }
                proof {
                    assert(fresh@ =~= all.map_values(update).take(i + 1));
                    assert(has_retirement(all.take(i + 1), service) == (has_retirement(
                        all.take(i as int),
                        service,
                    ) || all[i as int].service_code == service)) by {
                        let p = all.take(i as int);
                        let q = all.take(i + 1);
                        if has_retirement(p, service) {
                            let w = choose|w: int|
                                0 <= w < p.len() && (#[trigger] p[w]).service_code == service;
                            assert(q[w] == p[w]);
                        }
                        if has_retirement(q, service) {
                            let w = choose|w: int|
                                0 <= w < q.len() && (#[trigger] q[w]).service_code == service;
                            if w < i {
                                assert(p[w] == q[w]);
                            }
                        }
                        assert(q[i as int] == all[i as int]);
                    }
                }
                i = i + 1;
            }
            assert(all.take(i as int) =~= all);
            assert(all.map_values(update).take(i as int) =~= all.map_values(update));
        }
        if !found {
            fresh.push(
                ServiceRetirementInfo {
                    service_code: service,
                    retired: true,
                    retirement_timestamp,
                    deprecation_notice,
                },
            );
        }
        if let Some(record) = env.services.configured.get_mut(&anchor) {
            record.service_retirements = fresh;
        }
        env.publish(Event::ServiceRetired(anchor, service));
        Ok(())
    }

    /// Takes a retired service of an anchor back; the notice is kept.
    pub fn unretire_service(env: &mut Ledger, anchor: Address, service: u32) -> (r: Result<
        (),
        ContractError,
    >)
        ensures
            follows(r, unretire_refusal(*old(env), anchor)),
            r is Err ==> *final(env) == *old(env),
            r is Ok ==> service_unretired(*old(env), *final(env), anchor, service),
    {
        if let Err(e) = env.require_auth(&anchor) {
            return Err(e);
        }
        let mut fresh: Vec<ServiceRetirementInfo> = Vec::new();
        {
            let record = match env.services.configured.get(&anchor) {
                Some(s) => s,
                None => {
                    return Err(ContractError::Code(ErrorCode::ServicesNotConfigured));
                },
            };
            let ghost all = record.service_retirements@;
            let ghost target = with_unretired(all, service);
            let mut i: usize = 0;
            while i < record.service_retirements.len()
                invariant
                    0 <= i <= all.len(),
                    all == record.service_retirements@,
                    *record == env.services.configured@[anchor],
                    *env == *old(env),
                    target == with_unretired(all, service),
                    fresh@ == target.take(i as int),
                decreases all.len() - i,
            {
                let entry = &record.service_retirements[i];
                if entry.service_code == service {
                    fresh.push(
                        ServiceRetirementInfo {
                            service_code: service,
                            retired: false,
                            retirement_timestamp: None,
                            deprecation_notice: copy_text(&entry.deprecation_notice),
                        },
                    );
                } else {
                    fresh.push(entry.clone());
                }
                assert(fresh@ =~= target.take(i + 1));
                i = i + 1;
            }
            assert(target.take(i as int) =~= target);
        }
        if let Some(record) = env.services.configured.get_mut(&anchor) {
            record.service_retirements = fresh;
        }
        env.publish(Event::ServiceUnretired(anchor, service));
        Ok(())
    }

    fn toggles(env: &Ledger, anchor: &Address) -> (s: ServiceToggleState)
        ensures
            s@ == toggles_of(*env, *anchor),
    {
        match env.services.toggled.get(anchor) {
            Some(s) => s.copy(),
            None => ServiceToggleState::new(),
        }
    }

    /// Switches a service of an anchor on, and tells whether it was not on
    /// already.
    pub fn enable_service(
        env: &mut Ledger,
        caller: Address,
        anchor: Address,
        service_code: u32,
    ) -> (r: Result<bool, ContractError>)
        ensures
            follows(r, toggle_refusal(*old(env), caller)),
            r is Err ==> *final(env) == *old(env),
            r is Ok ==> service_enabled(
                *old(env),
                *final(env),
                caller,
                anchor,
                service_code,
                r->Ok_0,
            ),
    {
        if let Err(e) = env.require_admin_or_capability(&caller, AdminCapability::ToggleServices) {
            return Err(e);
        }
        let mut state = Self::toggles(env, &anchor);
        let changed = state.enable(service_code);
        env.services.toggled.set(anchor, state);
        env.log_action(
            caller,
            "enable_service",
            AdminTarget::Account(anchor),
            "disabled",
            "enabled",
        );
        if changed {
            Self::invalidate_cache_internal(env, &anchor);
        }
        Ok(changed)
    }

    /// Switches a service of an anchor off, and tells whether it was not off
    /// already.
    pub fn disable_service(
        env: &mut Ledger,
        caller: Address,
        anchor: Address,
        service_code: u32,
    ) -> (r: Result<bool, ContractError>)
        ensures
            follows(r, toggle_refusal(*old(env), caller)),
            r is Err ==> *final(env) == *old(env),
            r is Ok ==> service_disabled(
                *old(env),
                *final(env),
                caller,
                anchor,
                service_code,
                r->Ok_0,
            ),
    {
        if let Err(e) = env.require_admin_or_capability(&caller, AdminCapability::ToggleServices) {
            return Err(e);
        }
        let mut state = Self::toggles(env, &anchor);
        let changed = state.disable(service_code);
        env.services.toggled.set(anchor, state);
        env.log_action(
            caller,
            "disable_service",
            AdminTarget::Account(anchor),
            "enabled",
            "disabled",
        );
        if changed {
            Self::invalidate_cache_internal(env, &anchor);
        }
        Ok(changed)
    }

    /// Whether a service of an anchor is switched on.
    pub fn is_service_enabled(env: &Ledger, anchor: Address, service_code: u32) -> (r: bool)
        ensures
            r == toggles_of(*env, anchor).enabled.contains(service_code),
    {
        match env.services.toggled.get(&anchor) {
            Some(s) => lists_code(&s.enabled_services, service_code),
            None => false,
        }
    }

    /// What is switched on and off for an anchor.
    pub fn get_service_toggle_state(env: &Ledger, anchor: Address) -> (s: ServiceToggleState)
        ensures
            s@ == toggles_of(*env, anchor),
    {
        Self::toggles(env, &anchor)
    }

    /// Keeps a set of services of an anchor, so that it can be restored. Ids
    /// count up from one.
    pub fn snapshot_services(
        env: &mut Ledger,
        caller: Address,
        anchor: Address,
        services: Vec<u32>,
        description: String,
    ) -> (r: Result<u64, ContractError>)
        requires
            old(env).services.snapshot_count < u64::MAX,
        ensures
            follows(r, snapshot_refusal(*old(env), caller, description)),
            r is Err ==> *final(env) == *old(env),
            r is Ok ==> snapshot_taken(
                *old(env),
                *final(env),
                caller,
                anchor,
                services,
                description,
                r->Ok_0,
            ),
    {
        if let Err(e) = env.require_admin_or_capability(&caller, AdminCapability::ToggleServices) {
            return Err(e);
        }
        if description.as_str().unicode_len() == 0 {
            return Err(ContractError::Code(ErrorCode::ValidationError));
        }
        let id: u64 = env.services.snapshot_count + 1;
        let snapshot = ServiceConfigSnapshot {
            snapshot_id: id,
            anchor,
            services,
            description,
            created_at: env.clock.timestamp,
        };
        env.services.snapshots.set(id, snapshot);
        env.services.snapshot_count = id;
        env.log_action(
            caller,
            "snapshot_services",
            AdminTarget::Account(anchor),
            "",
            "snapshot_taken",
        );
        Ok(id)
    }

    /// Switches exactly the services of a snapshot on, and tells whether there
    /// is such a snapshot.
    pub fn rollback_services(env: &mut Ledger, caller: Address, snapshot_id: u64) -> (r: Result<
        bool,
        ContractError,
    >)
        ensures
            follows(r, toggle_refusal(*old(env), caller)),
            r is Err ==> *final(env) == *old(env),
            r is Ok ==> services_rolled_back(
                *old(env),
                *final(env),
                caller,
                snapshot_id,
                r->Ok_0,
            ),
    {
        if let Err(e) = env.require_admin_or_capability(&caller, AdminCapability::ToggleServices) {
            return Err(e);
        }
        let found = match env.services.snapshots.get(&snapshot_id) {
            Some(s) => Some((s.anchor, copy_codes(&s.services))),
            None => None,
        };
        match found {
            Some((anchor, services)) => {
                let state = ServiceToggleState {
                    enabled_services: services,
                    disabled_services: Vec::new(),
                };
                assert(state.disabled_services@ =~= Seq::<u32>::empty());
                env.services.toggled.set(anchor, state);
                Self::invalidate_cache_internal(env, &anchor);
                env.log_action(
                    caller,
                    "rollback_services",
                    AdminTarget::Label("service_snapshot"),
                    "",
                    "rolled_back",
                );
                Ok(true)
            },
            None => {
                env.log_action(
                    caller,
                    "rollback_services",
                    AdminTarget::Label("service_snapshot"),
                    "",
                    "rollback_failed",
                );
                Ok(false)
            },
        }
    }

    /// How many snapshots were ever taken.
    pub fn get_service_snapshot_count(env: &Ledger) -> (n: u64)
        ensures
            n == env.services.snapshot_count,
    {
        env.services.snapshot_count
    }

    /// The snapshot with a given id.
    pub fn get_service_snapshot(env: &Ledger, snapshot_id: u64) -> (r: Option<
        &ServiceConfigSnapshot,
    >)
        ensures
            match r {
                Some(s) => env.services.snapshots@.contains_key(snapshot_id) && *s
                    == env.services.snapshots@[snapshot_id],
                None => !env.services.snapshots@.contains_key(snapshot_id),
            },
    {
        env.services.snapshots.get(&snapshot_id)
    }
}

proof fn ascending_is_bounded(s: Seq<u32>, n: int)
    requires
        0 <= n <= s.len(),
        forall|i: int, j: int| 0 <= i < j < s.len() ==> s[i] < s[j],
    ensures
        n > 0 ==> s[n - 1] >= n - 1,
        n <= u32::MAX + 1,
    decreases n,
{
    if n > 0 {
        ascending_is_bounded(s, n - 1);
        if n > 1 {
            assert(s[n - 2] < s[n - 1]);
        }
    }
}

/// The stored form of a list of services does not depend on the order in which
/// they were given.
pub proof fn stored_services_are_canonical(a: Seq<u32>, b: Seq<u32>, x: Seq<u32>, y: Seq<u32>)
    requires
        is_ascending_form(a, x),
        is_ascending_form(b, y),
        forall|c: u32| #[trigger] a.contains(c) == b.contains(c),
    ensures
        x == y,
{
    assert forall|c: u32| x.contains(c) == #[trigger] y.contains(c) by {
        assert(a.contains(c) == b.contains(c));
    }
    ascending_forms_agree(x, y);
}

proof fn ascending_forms_agree(x: Seq<u32>, y: Seq<u32>)
    requires
        forall|i: int, j: int| 0 <= i < j < x.len() ==> x[i] < x[j],
        forall|i: int, j: int| 0 <= i < j < y.len() ==> y[i] < y[j],
        forall|c: u32| x.contains(c) == #[trigger] y.contains(c),
    ensures
        x == y,
    decreases x.len() + y.len(),
{
    if x.len() == 0 {
        if y.len() > 0 {
            assert(y.contains(y[0]));
        }
        assert(x =~= y);
    } else if y.len() == 0 {
        assert(x.contains(x[0]));
        assert(y.contains(x[0]));
    } else {
        let xl = x.last();
        let yl = y.last();
        assert(x.contains(xl));
        assert(y.contains(yl));
        assert(y.contains(xl));
        assert(x.contains(yl));
        let i = choose|i: int| 0 <= i < y.len() && y[i] == xl;
        let j = choose|j: int| 0 <= j < x.len() && x[j] == yl;
        assert(xl == yl);
        let x1 = x.drop_last();
        let y1 = y.drop_last();
        assert forall|c: u32| x1.contains(c) == #[trigger] y1.contains(c) by {
            if x1.contains(c) {
                let k = choose|k: int| 0 <= k < x1.len() && x1[k] == c;
                assert(x[k] == c);
                assert(x.contains(c));
                assert(y.contains(c));
                let m = choose|m: int| 0 <= m < y.len() && y[m] == c;
                assert(c < xl);
                assert(y1[m] == c);
            }
            if y1.contains(c) {
                let k = choose|k: int| 0 <= k < y1.len() && y1[k] == c;
                assert(y[k] == c);
                assert(y.contains(c));
                assert(x.contains(c));
                let m = choose|m: int| 0 <= m < x.len() && x[m] == c;
                assert(c < yl);
                assert(x1[m] == c);
            }
        }
        ascending_forms_agree(x1, y1);
        assert(x =~= x1.push(xl));
        assert(y =~= y1.push(yl));
    }
}

/// Retiring a service makes it retired, and taking it back undoes that.
pub proof fn retiring_takes_effect(
    retirements: Seq<ServiceRetirementInfo>,
    service: u32,
    timestamp: Option<u64>,
    notice: Option<String>,
)
    ensures
        is_retired(with_retired(retirements, service, timestamp, notice), service),
        !is_retired(with_unretired(retirements, service), service),
{
    let after = with_retired(retirements, service, timestamp, notice);
    if has_retirement(retirements, service) {
        let w = choose|w: int|
            0 <= w < retirements.len() && (#[trigger] retirements[w]).service_code == service;
        assert(after[w].service_code == service && after[w].retired);
    } else {
        let n = retirements.len() as int;
        assert(after[n].service_code == service && after[n].retired);
    }
    let back = with_unretired(retirements, service);
    assert forall|i: int| 0 <= i < back.len() implies !((#[trigger] back[i]).service_code == service
        && back[i].retired) by {
        assert(retirements[i].service_code == service || retirements[i].service_code != service);
    }
}

} // verus!
