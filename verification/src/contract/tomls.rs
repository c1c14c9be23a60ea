//! What anchors publish of themselves, as cached.
use crate::address::Address;
use crate::contract::cache::{capabilities_ttl, ledger_ttl, refresh_noted, temporary_ttl};
use crate::contract::ledger::{
    auth_refusal, either, follows, refuse_when, AnchorKitContract, CacheState, ContractError,
    Ledger, Temporary,
};
use crate::contract::quotes::{asset_refusal, validate_asset_info};
use crate::contract::types::{AnchorTomlProvenance, AssetInfo, CachedToml, StellarToml};
use crate::errors::ErrorCode;
use crate::text::same_text;
use vstd::prelude::*;
use vstd::string::*;

verus! {

/// The first fault among asset records.
pub open spec fn assets_refusal(assets: Seq<AssetInfo>) -> Option<ContractError>
    decreases assets.len(),
{
    if assets.len() == 0 {
        None
    } else {
        either(assets_refusal(assets.drop_last()), asset_refusal(assets.last()))
    }
}

proof fn first_fault_stays(assets: Seq<AssetInfo>, n: int)
    requires
        0 <= n <= assets.len(),
        assets_refusal(assets.take(n)) is Some,
    ensures
        assets_refusal(assets) == assets_refusal(assets.take(n)),
    decreases assets.len(),
{
    if n == assets.len() {
        assert(assets.take(n) =~= assets);
    } else {
        assert(assets.drop_last().take(n) =~= assets.take(n));
        first_fault_stays(assets.drop_last(), n);
    }
}

/// Why caching what an anchor publishes is refused.
pub open spec fn fetch_refusal(env: Ledger, anchor: Address, toml: StellarToml) -> Option<
    ContractError,
> {
    either(auth_refusal(env, anchor), assets_refusal(toml.currencies@))
}

/// The entry as it is written.
pub open spec fn toml_entry(
    env: Ledger,
    toml: StellarToml,
    ttl_seconds: u64,
    source_uri: String,
) -> Temporary<CachedToml> {
    let ttl = capabilities_ttl(env, ttl_seconds) as u64;
    Temporary {
        value: CachedToml {
            toml,
            cached_at: env.clock.timestamp,
            ttl_seconds: ttl,
            source_uri,
            last_refreshed_at: env.clock.timestamp,
        },
        ledger_ttl: temporary_ttl(ttl),
    }
}

/// Whether reading an entry stays in range.
pub open spec fn toml_in_range(env: Ledger, anchor: Address) -> bool {
    env.cache.tomls@.contains_key(anchor) ==> env.cache.tomls@[anchor].value.cached_at
        + env.cache.tomls@[anchor].value.ttl_seconds <= u64::MAX
}

/// Whether the lifetime of an entry is over.
pub open spec fn toml_over(env: Ledger, anchor: Address) -> bool {
    env.cache.tomls@[anchor].value.cached_at + env.cache.tomls@[anchor].value.ttl_seconds
        <= env.clock.timestamp
}

/// Why what an anchor publishes cannot be read.
pub open spec fn toml_refusal(env: Ledger, anchor: Address) -> Option<ContractError> {
    either(
        refuse_when(!env.cache.tomls@.contains_key(anchor), ErrorCode::CacheNotFound),
        refuse_when(toml_over(env, anchor), ErrorCode::CacheExpired),
    )
}

/// Whether the `i`th asset is the first with a code.
pub open spec fn is_first_asset(assets: Seq<AssetInfo>, code: Seq<char>, i: int) -> bool {
    &&& 0 <= i < assets.len()
    &&& assets[i].code@ == code
    &&& forall|j: int| 0 <= j < i ==> (#[trigger] assets[j]).code@ != code
}

/// Whether an asset with a code is among the assets.
pub open spec fn has_asset(assets: Seq<AssetInfo>, code: Seq<char>) -> bool {
    exists|i: int| 0 <= i < assets.len() && (#[trigger] assets[i]).code@ == code
}

/// The assets that an anchor publishes.
pub open spec fn assets_of(env: Ledger, anchor: Address) -> Seq<AssetInfo> {
    env.cache.tomls@[anchor].value.toml.currencies@
}

/// Why an asset of an anchor cannot be read.
pub open spec fn asset_lookup_refusal(env: Ledger, anchor: Address, code: Seq<char>) -> Option<
    ContractError,
> {
    either(
        toml_refusal(env, anchor),
        refuse_when(!has_asset(assets_of(env, anchor), code), ErrorCode::ValidationError),
    )
}

/// Whether an asset is the first of an anchor with a code.
pub open spec fn finds_asset(env: Ledger, anchor: Address, code: Seq<char>, asset: AssetInfo) -> bool {
    exists|i: int|
        #[trigger] is_first_asset(assets_of(env, anchor), code, i) && asset == assets_of(
            env,
            anchor,
        )[i]
}

/// The ledger after what an anchor publishes was cached.
pub open spec fn toml_cached(
    before: Ledger,
    after: Ledger,
    anchor: Address,
    toml_data: StellarToml,
    ttl_seconds: u64,
    source_uri: String,
) -> bool {
    &&& after == (Ledger {
        cache: CacheState { tomls: after.cache.tomls, ..before.cache },
        ..before
    })
    &&& after.cache.tomls@ == before.cache.tomls@.insert(
        anchor,
        toml_entry(before, toml_data, ttl_seconds, source_uri),
    )
}

/// The ledger after what an anchor publishes was cached anew.
pub open spec fn toml_refreshed(
    before: Ledger,
    after: Ledger,
    anchor: Address,
    toml_data: StellarToml,
    ttl_seconds: u64,
    source_uri: String,
) -> bool {
    let key = (anchor, "anchor_info"@);
    let noted = after.cache.refreshes@[key];
    &&& after == (Ledger {
        cache: CacheState {
            tomls: after.cache.tomls,
            refreshes: after.cache.refreshes,
            ..before.cache
        },
        ..before
    })
    &&& after.cache.tomls@ == before.cache.tomls@.insert(
        anchor,
        toml_entry(before, toml_data, ttl_seconds, source_uri),
    )
    &&& after.cache.refreshes@ == before.cache.refreshes@.insert(key, noted)
    &&& refresh_noted(
        noted,
        "anchor_info"@,
        "anchor info cache refreshed successfully"@,
        before.cache.tomls@.contains_key(anchor),
        before.clock.timestamp,
    )
}

/// Where and when what an anchor publishes was read.
pub open spec fn provenance_of(env: Ledger, anchor: Address) -> AnchorTomlProvenance {
    let cached = env.cache.tomls@[anchor].value;
    AnchorTomlProvenance {
        anchor,
        source_uri: cached.source_uri,
        cached_at: cached.cached_at,
        last_refreshed_at: cached.last_refreshed_at,
        ttl_seconds: cached.ttl_seconds,
        age_seconds: crate::arith::floored_difference(
            env.clock.timestamp,
            cached.cached_at,
        ),
    }
}

/// Whether an anchor publishes a server for direct payments.
pub open spec fn takes_direct_payments(env: Ledger, anchor: Address) -> bool {
    toml_refusal(env, anchor) is None
        && env.cache.tomls@[anchor].value.toml.direct_payment_server@.len() > 0
}

/// Whether these are the limits of deposits of an asset.
pub open spec fn deposit_limits_are(
    env: Ledger,
    anchor: Address,
    asset_code: String,
    out: (u64, u64),
) -> bool {
    exists|a: AssetInfo|
        #[trigger] finds_asset(env, anchor, asset_code@, a) && out == (
            a.deposit_min_amount,
            a.deposit_max_amount,
        )
}

/// Whether these are the limits of withdrawals of an asset.
pub open spec fn withdrawal_limits_are(
    env: Ledger,
    anchor: Address,
    asset_code: String,
    out: (u64, u64),
) -> bool {
    exists|a: AssetInfo|
        #[trigger] finds_asset(env, anchor, asset_code@, a) && out == (
            a.withdrawal_min_amount,
            a.withdrawal_max_amount,
        )
}

/// Whether these are the fees of deposits of an asset.
pub open spec fn deposit_fees_are(
    env: Ledger,
    anchor: Address,
    asset_code: String,
    out: (u64, u32),
) -> bool {
    exists|a: AssetInfo|
        #[trigger] finds_asset(env, anchor, asset_code@, a) && out == (
            a.deposit_fee_fixed,
            a.deposit_fee_percent,
        )
}

/// Whether these are the fees of withdrawals of an asset.
pub open spec fn withdrawal_fees_are(
    env: Ledger,
    anchor: Address,
    asset_code: String,
    out: (u64, u32),
) -> bool {
    exists|a: AssetInfo|
        #[trigger] finds_asset(env, anchor, asset_code@, a) && out == (
            a.withdrawal_fee_fixed,
            a.withdrawal_fee_percent,
        )
}

/// Whether this tells if deposits of an asset are taken.
pub open spec fn deposits_are_taken(
    env: Ledger,
    anchor: Address,
    asset_code: String,
    out: bool,
) -> bool {
    exists|a: AssetInfo|
        #[trigger] finds_asset(env, anchor, asset_code@, a) && out
            == a.deposit_enabled
}

/// Whether this tells if an asset is paid out.
pub open spec fn withdrawals_are_paid(
    env: Ledger,
    anchor: Address,
    asset_code: String,
    out: bool,
) -> bool {
    exists|a: AssetInfo|
        #[trigger] finds_asset(env, anchor, asset_code@, a) && out
            == a.withdrawal_enabled
}

impl AnchorKitContract {
    fn require_assets(assets: &Vec<AssetInfo>) -> (r: Result<(), ContractError>)
        ensures
            follows(r, assets_refusal(assets@)),
    {
        let mut i: usize = 0;
        assert(assets@.take(0).len() == 0);
        while i < assets.len()
            invariant
                0 <= i <= assets@.len(),
                assets_refusal(assets@.take(i as int)) is None,
            decreases assets@.len() - i,
        {
            proof {
                assert(assets@.take(i + 1).drop_last() =~= assets@.take(i as int));
                assert(assets@.take(i + 1).last() == assets@[i as int]);
            }
            if let Err(e) = validate_asset_info(&assets[i]) {
                proof {
                    first_fault_stays(assets@, i + 1);
                }
                return Err(e);
            }
            i = i + 1;
        }
        assert(assets@.take(i as int) =~= assets@);
        Ok(())
    }

    /// Caches what an anchor publishes and where it came from. The lifetime
    /// asked for, or the configured one where none is, is moved into the range
    /// of the policy.
    pub fn fetch_anchor_info(
        env: &mut Ledger,
        anchor: Address,
        toml_data: StellarToml,
        ttl_seconds: u64,
        source_uri: String,
    ) -> (r: Result<(), ContractError>)
        ensures
            follows(r, fetch_refusal(*old(env), anchor, toml_data)),
            r is Err ==> *final(env) == *old(env),
            r is Ok ==> toml_cached(
                *old(env),
                *final(env),
                anchor,
                toml_data,
                ttl_seconds,
                source_uri,
            ),
    {
        if let Err(e) = env.require_auth(&anchor) {
            return Err(e);
        }
        if let Err(e) = Self::require_assets(&toml_data.currencies) {
            return Err(e);
        }
        let now: u64 = env.clock.timestamp;
        let cfg = Self::get_cache_config(env);
        let base_ttl: u64 = Self::effective_ttl(ttl_seconds, cfg.capabilities_ttl_seconds);
        let (ttl, _) = crate::cache_governance::enforce_write_policy(
            env,
            crate::cache_governance::CacheEntryType::Capabilities,
            base_ttl,
            0,
        );
        let cached = CachedToml {
            toml: toml_data,
            cached_at: now,
            ttl_seconds: ttl,
            source_uri,
            last_refreshed_at: now,
        };
        env.cache.tomls.set(anchor, Temporary { value: cached, ledger_ttl: ledger_ttl(ttl) });
        Ok(())
    }

    fn toml_of<'a>(env: &'a Ledger, anchor: &Address) -> (r: Result<&'a CachedToml, ContractError>)
        requires
            toml_in_range(*env, *anchor),
        ensures
            follows(r, toml_refusal(*env, *anchor)),
            r is Ok ==> *r->Ok_0 == env.cache.tomls@[*anchor].value,
    {
        match env.cache.tomls.get(anchor) {
            None => Err(ContractError::Code(ErrorCode::CacheNotFound)),
            Some(entry) => {
                if entry.value.cached_at + entry.value.ttl_seconds <= env.clock.timestamp {
                    return Err(ContractError::Code(ErrorCode::CacheExpired));
                }
                Ok(&entry.value)
            },
        }
    }

    /// What an anchor publishes.
    pub fn get_anchor_toml(env: &Ledger, anchor: Address) -> (r: Result<
        &StellarToml,
        ContractError,
    >)
        requires
            toml_in_range(*env, anchor),
        ensures
            follows(r, toml_refusal(*env, anchor)),
            r is Ok ==> *r->Ok_0 == env.cache.tomls@[anchor].value.toml,
    {
        match Self::toml_of(env, &anchor) {
            Ok(cached) => Ok(&cached.toml),
            Err(e) => Err(e),
        }
    }

    /// Where and when what an anchor publishes was read.
    pub fn get_anchor_toml_provenance(env: &Ledger, anchor: Address) -> (r: Result<
        AnchorTomlProvenance,
        ContractError,
    >)
        requires
            toml_in_range(*env, anchor),
        ensures
            follows(r, toml_refusal(*env, anchor)),
            r is Ok ==> r->Ok_0 == provenance_of(*env, anchor),
    {
        match Self::toml_of(env, &anchor) {
            Ok(cached) => Ok(
                AnchorTomlProvenance {
                    anchor,
                    source_uri: cached.source_uri.clone(),
                    cached_at: cached.cached_at,
                    last_refreshed_at: cached.last_refreshed_at,
                    ttl_seconds: cached.ttl_seconds,
                    age_seconds: env.clock.timestamp.saturating_sub(cached.cached_at),
                },
            ),
            Err(e) => Err(e),
        }
    }

    /// Caches what an anchor publishes anew and notes the refresh.
    pub fn refresh_anchor_info(
        env: &mut Ledger,
        anchor: Address,
        toml_data: StellarToml,
        ttl_seconds: u64,
        source_uri: String,
    ) -> (r: Result<(), ContractError>)
        ensures
            follows(r, fetch_refusal(*old(env), anchor, toml_data)),
            r is Err ==> *final(env) == *old(env),
            r is Ok ==> toml_refreshed(
                *old(env),
                *final(env),
                anchor,
                toml_data,
                ttl_seconds,
                source_uri,
            ),
    {
        let had_cached_entry = env.cache.tomls.has(&anchor);
        if let Err(e) = Self::fetch_anchor_info(env, anchor, toml_data, ttl_seconds, source_uri) {
            return Err(e);
        }
        Self::record_refresh_diagnostic(
            env,
            anchor,
            "anchor_info",
            had_cached_entry,
            "anchor info cache refreshed successfully",
        );
        Ok(())
    }

    /// The codes of the assets that an anchor publishes.
    pub fn get_anchor_assets(env: &Ledger, anchor: Address) -> (r: Result<
        Vec<String>,
        ContractError,
    >)
        requires
            toml_in_range(*env, anchor),
        ensures
            follows(r, toml_refusal(*env, anchor)),
            r is Ok ==> r->Ok_0@ == assets_of(*env, anchor).map_values(|a: AssetInfo| a.code),
    {
        let cached = match Self::toml_of(env, &anchor) {
            Ok(c) => c,
            Err(e) => {
                return Err(e);
            },
        };
        let mut codes: Vec<String> = Vec::new();
        let ghost all = cached.toml.currencies@.map_values(|a: AssetInfo| a.code);
        let mut i: usize = 0;
        while i < cached.toml.currencies.len()
            invariant
                0 <= i <= cached.toml.currencies@.len(),
                all == cached.toml.currencies@.map_values(|a: AssetInfo| a.code),
                codes@ == all.take(i as int),
            decreases cached.toml.currencies@.len() - i,
        {
            codes.push(cached.toml.currencies[i].code.clone());
            assert(all.take(i + 1) =~= all.take(i as int).push(all[i as int]));
            i = i + 1;
        }
        assert(all.take(i as int) =~= all);
        Ok(codes)
    }

    /// The first asset of an anchor with a code.
    pub fn get_anchor_asset_info(env: &Ledger, anchor: Address, asset_code: String) -> (r: Result<
        &AssetInfo,
        ContractError,
    >)
        requires
            toml_in_range(*env, anchor),
        ensures
            follows(r, asset_lookup_refusal(*env, anchor, asset_code@)),
            r is Ok ==> finds_asset(*env, anchor, asset_code@, *r->Ok_0),
    {
        let cached = match Self::toml_of(env, &anchor) {
            Ok(c) => c,
            Err(e) => {
                return Err(e);
            },
        };
        let ghost all = assets_of(*env, anchor);
        let mut i: usize = 0;
        while i < cached.toml.currencies.len()
            invariant
                0 <= i <= all.len(),
                all == assets_of(*env, anchor),
                all == cached.toml.currencies@,
                toml_refusal(*env, anchor) is None,
                forall|j: int| 0 <= j < i ==> (#[trigger] all[j]).code@ != asset_code@,
            decreases all.len() - i,
        {
            if same_text(cached.toml.currencies[i].code.as_str(), asset_code.as_str()) {
                assert(is_first_asset(all, asset_code@, i as int));
                assert(has_asset(all, asset_code@));
                return Ok(&cached.toml.currencies[i]);
            }
            i = i + 1;
        }
        Err(ContractError::Code(ErrorCode::ValidationError))
    }

    /// The smallest and the largest deposit of an asset.
    pub fn get_anchor_deposit_limits(env: &Ledger, anchor: Address, asset_code: String) -> (r:
        Result<(u64, u64), ContractError>)
        requires
            toml_in_range(*env, anchor),
        ensures
            follows(r, asset_lookup_refusal(*env, anchor, asset_code@)),
            r is Ok ==> deposit_limits_are(*env, anchor, asset_code, r->Ok_0),
    {
        match Self::get_anchor_asset_info(env, anchor, asset_code) {
            Ok(a) => Ok((a.deposit_min_amount, a.deposit_max_amount)),
            Err(e) => Err(e),
        }
    }

    /// The smallest and the largest withdrawal of an asset.
    pub fn get_anchor_withdrawal_limits(env: &Ledger, anchor: Address, asset_code: String) -> (r:
        Result<(u64, u64), ContractError>)
        requires
            toml_in_range(*env, anchor),
        ensures
            follows(r, asset_lookup_refusal(*env, anchor, asset_code@)),
            r is Ok ==> withdrawal_limits_are(*env, anchor, asset_code, r->Ok_0),
    {
        match Self::get_anchor_asset_info(env, anchor, asset_code) {
            Ok(a) => Ok((a.withdrawal_min_amount, a.withdrawal_max_amount)),
            Err(e) => Err(e),
        }
    }

    /// The fixed fee and the percentage of a deposit of an asset.
    pub fn get_anchor_deposit_fees(env: &Ledger, anchor: Address, asset_code: String) -> (r: Result<
        (u64, u32),
        ContractError,
    >)
        requires
            toml_in_range(*env, anchor),
        ensures
            follows(r, asset_lookup_refusal(*env, anchor, asset_code@)),
            r is Ok ==> deposit_fees_are(*env, anchor, asset_code, r->Ok_0),
    {
        match Self::get_anchor_asset_info(env, anchor, asset_code) {
            Ok(a) => Ok((a.deposit_fee_fixed, a.deposit_fee_percent)),
            Err(e) => Err(e),
        }
    }

    /// The fixed fee and the percentage of a withdrawal of an asset.
    pub fn get_anchor_withdrawal_fees(env: &Ledger, anchor: Address, asset_code: String) -> (r:
        Result<(u64, u32), ContractError>)
        requires
            toml_in_range(*env, anchor),
        ensures
            follows(r, asset_lookup_refusal(*env, anchor, asset_code@)),
            r is Ok ==> withdrawal_fees_are(*env, anchor, asset_code, r->Ok_0),
    {
        match Self::get_anchor_asset_info(env, anchor, asset_code) {
            Ok(a) => Ok((a.withdrawal_fee_fixed, a.withdrawal_fee_percent)),
            Err(e) => Err(e),
        }
    }

    /// Whether an anchor takes deposits of an asset.
    pub fn anchor_supports_deposits(env: &Ledger, anchor: Address, asset_code: String) -> (r: Result<
        bool,
        ContractError,
    >)
        requires
            toml_in_range(*env, anchor),
        ensures
            follows(r, asset_lookup_refusal(*env, anchor, asset_code@)),
            r is Ok ==> deposits_are_taken(*env, anchor, asset_code, r->Ok_0),
    {
        match Self::get_anchor_asset_info(env, anchor, asset_code) {
            Ok(a) => Ok(a.deposit_enabled),
            Err(e) => Err(e),
        }
    }

    /// Whether an anchor pays out an asset.
    pub fn anchor_supports_withdrawals(env: &Ledger, anchor: Address, asset_code: String) -> (r:
        Result<bool, ContractError>)
        requires
            toml_in_range(*env, anchor),
        ensures
            follows(r, asset_lookup_refusal(*env, anchor, asset_code@)),
            r is Ok ==> withdrawals_are_paid(*env, anchor, asset_code, r->Ok_0),
    {
        match Self::get_anchor_asset_info(env, anchor, asset_code) {
            Ok(a) => Ok(a.withdrawal_enabled),
            Err(e) => Err(e),
        }
    }

    /// Whether an anchor publishes a server for direct payments.
    pub fn supports_sep31(env: &Ledger, anchor: Address) -> (r: bool)
        requires
            toml_in_range(*env, anchor),
        ensures
            r == takes_direct_payments(*env, anchor),
    {
        match Self::toml_of(env, &anchor) {
            Ok(cached) => cached.toml.direct_payment_server.as_str().unicode_len() > 0,
            Err(_) => false,
        }
    }
}

} // verus!
