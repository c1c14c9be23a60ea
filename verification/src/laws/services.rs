//! Laws of the services of anchors.
use crate::address::Address;
use crate::contract::ledger::{ContractError, Ledger};
use crate::contract::services::{
    are_retirements, are_services, configure_refusal, configured, is_ascending_form, is_retired,
    services_refusal, toggle_refusal, toggles_of, with_retired, with_unretired,
};
use crate::contract::types::{AdminCapability, ServiceRetirementInfo};
use crate::errors::ErrorCode;
use crate::service_management::{other_than, ToggleView};
use vstd::prelude::*;

verus! {

/// A list of services is taken exactly where it is not empty, holds codes from one
/// to five and repeats none; retirements likewise, but there may be none.
pub proof fn services_are_known(codes: Seq<u32>, retirements: Seq<ServiceRetirementInfo>)
    ensures
        are_services(codes) <==> codes.len() > 0 && (forall|i: int|
            0 <= i < codes.len() ==> 1 <= #[trigger] codes[i] <= 5) && (forall|i: int, j: int|
            0 <= i < j < codes.len() ==> codes[i] != codes[j]),
        are_retirements(retirements) ==> forall|i: int|
            0 <= i < retirements.len() ==> 1 <= (#[trigger] retirements[i]).service_code <= 5,
        are_retirements(retirements) ==> forall|i: int, j: int|
            0 <= i < j < retirements.len() ==> (#[trigger] retirements[i]).service_code != (
            #[trigger] retirements[j]).service_code,
        retirements.len() == 0 ==> are_retirements(retirements),
{
    let all = crate::contract::services::retired_codes(retirements);
    if are_retirements(retirements) {
        assert forall|i: int| 0 <= i < retirements.len() implies 1 <= (
        #[trigger] retirements[i]).service_code <= 5 by {
            assert(all[i] == retirements[i].service_code);
        }
        assert forall|i: int, j: int| 0 <= i < j < retirements.len() implies (
        #[trigger] retirements[i]).service_code != (#[trigger] retirements[j]).service_code by {
            assert(all[i] == retirements[i].service_code);
            assert(all[j] == retirements[j].service_code);
        }
    }
}

/// Services are configured exactly by a registered anchor that has signed the call,
/// under the version that is known, where the lists can be taken. The first fault
/// is what a configuration is refused for.
pub proof fn configurations_are_checked(
    env: Ledger,
    anchor: Address,
    services: Seq<u32>,
    retirements: Seq<ServiceRetirementInfo>,
    version: u32,
)
    ensures
        ({
            let r = configure_refusal(env, anchor, services, retirements, version);
            let signed = env.auth.all || env.auth.signers@.contains(anchor);
            let known = env.attestors.registered@.contains_key(anchor);
            let sound = are_services(services) && are_retirements(retirements);
            &&& r is None <==> signed && known && version == 1 && sound
            &&& !signed ==> r == Some(ContractError::AuthRequired(anchor))
            &&& signed && !known ==> r == Some(
                ContractError::Code(ErrorCode::AttestorNotRegistered),
            )
            &&& signed && known && version != 1 ==> r == Some(
                ContractError::Code(ErrorCode::UnsupportedCapabilityVersion),
            )
            &&& signed && known && version == 1 && !sound ==> r == Some(
                ContractError::Code(ErrorCode::InvalidServiceType),
            )
        }),
{
}

/// What was configured is on record: the same services in ascending order, the
/// version and the retirements, and the services stand in the profile too. Nobody
/// else's services change.
pub proof fn configurations_are_on_record(
    before: Ledger,
    after: Ledger,
    anchor: Address,
    services: Seq<u32>,
    retirements: Vec<ServiceRetirementInfo>,
    version: u32,
    code: u32,
    other: Address,
)
    requires
        configured(before, after, anchor, services, retirements, version),
    ensures
        after.services.configured@.contains_key(anchor),
        after.services.configured@[anchor].anchor == anchor,
        after.services.configured@[anchor].services@.contains(code) == services.contains(code),
        after.services.configured@[anchor].services@.len() == services.len(),
        forall|i: int, j: int|
            0 <= i < j < services.len() ==> after.services.configured@[anchor].services@[i]
                < after.services.configured@[anchor].services@[j],
        after.services.configured@[anchor].service_capability_version == version,
        after.services.configured@[anchor].service_retirements == retirements,
        after.attestors.profiles@[anchor]@.services
            == after.services.configured@[anchor].services@,
        other != anchor ==> after.services.configured@.contains_key(other)
            == before.services.configured@.contains_key(other) && after.services.configured@[other]
            == before.services.configured@[other],
        services_refusal(after, anchor) is None,
{
}

/// The services of an anchor can be asked for exactly where it has configured any.
pub proof fn configured_services_are_found(env: Ledger, anchor: Address)
    ensures
        services_refusal(env, anchor) is None <==> env.services.configured@.contains_key(anchor),
        services_refusal(env, anchor) is Some ==> services_refusal(env, anchor) == Some(
            ContractError::Code(ErrorCode::ServicesNotConfigured),
        ),
{
}

/// Retiring a service touches no other one, keeps the time and the notice that
/// were on record where no new ones are given, and taking it back keeps the
/// notice.
pub proof fn retirements_touch_one_service(
    retirements: Seq<ServiceRetirementInfo>,
    service: u32,
    timestamp: Option<u64>,
    notice: Option<String>,
    other: u32,
    i: int,
)
    requires
        other != service,
    ensures
        is_retired(with_retired(retirements, service, timestamp, notice), service),
        !is_retired(with_unretired(retirements, service), service),
        is_retired(with_unretired(retirements, service), other) ==> is_retired(retirements, other),
        is_retired(retirements, other) ==> is_retired(with_unretired(retirements, service), other),
        is_retired(retirements, other) ==> is_retired(
            with_retired(retirements, service, timestamp, notice),
            other,
        ),
        is_retired(with_retired(retirements, service, timestamp, notice), other) ==> is_retired(
            retirements,
            other,
        ),
        0 <= i < retirements.len() && retirements[i].service_code == service ==> {
            let now = with_retired(retirements, service, timestamp, notice)[i];
            let back = with_unretired(retirements, service)[i];
            &&& now.service_code == service
            &&& now.retired
            &&& now.retirement_timestamp == (if timestamp is Some {
                timestamp
            } else {
                retirements[i].retirement_timestamp
            })
            &&& now.deprecation_notice == (if notice is Some {
                notice
            } else {
                retirements[i].deprecation_notice
            })
            &&& back.service_code == service
            &&& !back.retired
            &&& back.retirement_timestamp is None
            &&& back.deprecation_notice == retirements[i].deprecation_notice
        },
        0 <= i < retirements.len() && retirements[i].service_code != service ==> with_retired(
            retirements,
            service,
            timestamp,
            notice,
        )[i] == retirements[i] && with_unretired(retirements, service)[i] == retirements[i],
{
    crate::contract::services::retiring_takes_effect(retirements, service, timestamp, notice);
    let on = with_retired(retirements, service, timestamp, notice);
    let off = with_unretired(retirements, service);
    if is_retired(off, other) {
        let k = choose|k: int|
            0 <= k < off.len() && (#[trigger] off[k]).service_code == other && off[k].retired;
        assert(retirements[k] == off[k]);
    }
    if is_retired(on, other) {
        let k = choose|k: int|
            0 <= k < on.len() && (#[trigger] on[k]).service_code == other && on[k].retired;
        assert(k < retirements.len());
        assert(retirements[k] == on[k]);
    }
    if is_retired(retirements, other) {
        let k = choose|k: int|
            0 <= k < retirements.len() && (#[trigger] retirements[k]).service_code == other
                && retirements[k].retired;
        assert(off[k] == retirements[k]);
        assert(on[k] == retirements[k]);
    }
}

/// A service counts as retired exactly where a record of it says so.
pub proof fn retirement_is_on_record(retirements: Seq<ServiceRetirementInfo>, service: u32)
    ensures
        is_retired(retirements, service) <==> exists|i: int|
            0 <= i < retirements.len() && (#[trigger] retirements[i]).service_code == service
                && retirements[i].retired,
{
}

/// Services are switched exactly by the admin, or by one who was granted the
/// capability for it, who has signed the call.
pub proof fn services_are_switched_by_the_capable(env: Ledger, caller: Address)
    ensures
        ({
            let capable = env.access.admin == Some(caller) || (env.access.capabilities@.contains_key(
                (AdminCapability::ToggleServices, caller),
            ) && env.access.capabilities@[(AdminCapability::ToggleServices, caller)]);
            let signed = env.auth.all || env.auth.signers@.contains(caller);
            &&& toggle_refusal(env, caller) is None <==> capable && signed
            &&& !capable ==> toggle_refusal(env, caller) == Some(
                ContractError::Code(ErrorCode::Unauthorized),
            )
        }),
{
}

/// Switching one service on or off leaves every other one as it was. What is on
/// already stays on without a trace, and so does what is off.
pub proof fn switching_touches_one_service(s: ToggleView, code: u32, other: u32)
    requires
        other != code,
    ensures
        s.on(code).enabled.contains(other) == s.enabled.contains(other),
        s.on(code).disabled.contains(other) == s.disabled.contains(other),
        s.off(code).enabled.contains(other) == s.enabled.contains(other),
        s.off(code).disabled.contains(other) == s.disabled.contains(other),
        s.enabled.contains(code) ==> s.on(code) == s,
        s.disabled.contains(code) ==> s.off(code) == s,
        s.on(code).enabled.contains(code),
        s.off(code).disabled.contains(code),
{
    others_stay(s.enabled, code, other);
    others_stay(s.disabled, code, other);
    pushed_stays(s.enabled, code, other);
    pushed_stays(s.disabled, code, other);
    pushed_stays(s.enabled, code, code);
    pushed_stays(s.disabled, code, code);
}

proof fn pushed_stays(s: Seq<u32>, code: u32, other: u32)
    ensures
        s.push(code).contains(other) == (s.contains(other) || other == code),
{
    if s.contains(other) {
        let i = choose|i: int| 0 <= i < s.len() && s[i] == other;
        assert(s.push(code)[i] == other);
    }
    assert(s.push(code)[s.len() as int] == code);
    if s.push(code).contains(other) && other != code {
        let i = choose|i: int| 0 <= i < s.push(code).len() && s.push(code)[i] == other;
        assert(s[i] == other);
    }
}

proof fn others_stay(s: Seq<u32>, code: u32, other: u32)
    requires
        other != code,
    ensures
        s.filter(other_than(code)).contains(other) == s.contains(other),
    decreases s.len(),
{
    reveal(Seq::filter);
    let keep = other_than(code);
    if s.len() > 0 {
        let rest = s.drop_last();
        others_stay(rest, code, other);
        assert(s =~= rest.push(s.last()));
        pushed_stays(rest, s.last(), other);
        if keep(s.last()) {
            pushed_stays(rest.filter(keep), s.last(), other);
        }
    }
}

/// An anchor of which nothing was switched has no service on and none off.
pub proof fn switches_start_untouched(env: Ledger, anchor: Address)
    ensures
        !env.services.toggled@.contains_key(anchor) ==> toggles_of(env, anchor).enabled.len() == 0
            && toggles_of(env, anchor).disabled.len() == 0,
        env.services.toggled@.contains_key(anchor) ==> toggles_of(env, anchor).enabled
            == env.services.toggled@[anchor].enabled_services@ && toggles_of(env, anchor).disabled
            == env.services.toggled@[anchor].disabled_services@,
{
}

/// The stored form of a list ascends and holds the same codes.
pub proof fn stored_forms_ascend(codes: Seq<u32>, sorted: Seq<u32>, i: int, j: int)
    requires
        is_ascending_form(codes, sorted),
        0 <= i < j < sorted.len(),
    ensures
        sorted[i] < sorted[j],
        codes.contains(sorted[i]),
        sorted.len() == codes.len(),
{
    assert(sorted.contains(sorted[i]));
}

} // verus!
