//! Laws of what anchors publish.
use crate::address::Address;
use crate::contract::ledger::{ContractError, Ledger};
use crate::contract::quotes::asset_refusal;
use crate::contract::tomls::{
    asset_lookup_refusal, assets_of, assets_refusal, fetch_refusal, finds_asset, toml_entry,
    toml_refusal,
};
use crate::contract::types::{AssetInfo, StellarToml};
use crate::errors::ErrorCode;
use vstd::prelude::*;

verus! {

/// Assets are taken exactly where each of them is; the first bad one is what they
/// are refused for.
pub proof fn assets_are_all_sound(assets: Seq<AssetInfo>)
    ensures
        assets_refusal(assets) is None <==> forall|i: int|
            0 <= i < assets.len() ==> asset_refusal(#[trigger] assets[i]) is None,
        assets_refusal(assets) is Some ==> exists|i: int|
            0 <= i < assets.len() && assets_refusal(assets) == asset_refusal(
                #[trigger] assets[i],
            ) && forall|j: int|
                0 <= j < i ==> asset_refusal(#[trigger] assets[j]) is None,
    decreases assets.len(),
{
    if assets.len() > 0 {
        let rest = assets.drop_last();
        assets_are_all_sound(rest);
        let last = assets.len() - 1;
        if assets_refusal(rest) is Some {
            let i = choose|i: int|
                0 <= i < rest.len() && assets_refusal(rest) == asset_refusal(#[trigger] rest[i])
                    && forall|j: int| 0 <= j < i ==> asset_refusal(#[trigger] rest[j]) is None;
            assert(assets[i] == rest[i]);
            assert forall|j: int| 0 <= j < i implies asset_refusal(#[trigger] assets[j]) is None by {
                assert(rest[j] == assets[j]);
            }
        } else {
            assert forall|j: int| 0 <= j < last implies asset_refusal(
                #[trigger] assets[j],
            ) is None by {
                assert(rest[j] == assets[j]);
            }
            assert(assets[last] == assets.last());
        }
    }
}

/// What an anchor publishes is cached exactly where the anchor has signed the call
/// and every asset is sound.
pub proof fn publications_are_signed(env: Ledger, anchor: Address, toml: StellarToml)
    ensures
        ({
            let signed = env.auth.all || env.auth.signers@.contains(anchor);
            let r = fetch_refusal(env, anchor, toml);
            &&& r is None <==> signed && forall|i: int|
                0 <= i < toml.currencies@.len() ==> asset_refusal(
                    #[trigger] toml.currencies@[i],
                ) is None
            &&& !signed ==> r == Some(ContractError::AuthRequired(anchor))
        }),
{
    assets_are_all_sound(toml.currencies@);
}

/// What was cached reads back until its lifetime is over, with its source and the
/// time at which it was read.
pub proof fn publications_read_back(
    before: Ledger,
    after: Ledger,
    anchor: Address,
    toml: StellarToml,
    ttl: u64,
    source: String,
)
    requires
        after.cache.tomls@ == before.cache.tomls@.insert(
            anchor,
            toml_entry(before, toml, ttl, source),
        ),
    ensures
        ({
            let e = after.cache.tomls@[anchor].value;
            &&& e.toml == toml
            &&& e.source_uri == source
            &&& e.cached_at == before.clock.timestamp
            &&& e.last_refreshed_at == before.clock.timestamp
            &&& assets_of(after, anchor) == toml.currencies@
            &&& toml_refusal(after, anchor) is None <==> after.clock.timestamp < e.cached_at
                + e.ttl_seconds
        }),
        before.cache.policies is None && 300 <= ttl <= 604_800
            ==> after.cache.tomls@[anchor].value.ttl_seconds == ttl,
{
}

/// What an anchor publishes can be read exactly where it is cached and its lifetime
/// is not over; a missing entry is told apart from an old one.
pub proof fn publications_run_out(env: Ledger, anchor: Address)
    ensures
        ({
            let stored = env.cache.tomls@.contains_key(anchor);
            let e = env.cache.tomls@[anchor].value;
            let over = env.clock.timestamp >= e.cached_at + e.ttl_seconds;
            let r = toml_refusal(env, anchor);
            &&& r is None <==> stored && !over
            &&& !stored ==> r == Some(ContractError::Code(ErrorCode::CacheNotFound))
            &&& stored && over ==> r == Some(ContractError::Code(ErrorCode::CacheExpired))
        }),
{
}

/// An asset is found exactly where what the anchor publishes can be read and names
/// the code; what is found has that code, and none before it has.
pub proof fn assets_are_found_by_code(env: Ledger, anchor: Address, code: Seq<char>, a: AssetInfo)
    ensures
        ({
            let all = env.cache.tomls@[anchor].value.toml.currencies@;
            let readable = toml_refusal(env, anchor) is None;
            let named = exists|i: int| 0 <= i < all.len() && (#[trigger] all[i]).code@ == code;
            let r = asset_lookup_refusal(env, anchor, code);
            &&& r is None <==> readable && named
            &&& !readable ==> r == toml_refusal(env, anchor)
            &&& readable && !named ==> r == Some(ContractError::Code(ErrorCode::ValidationError))
            &&& finds_asset(env, anchor, code, a) ==> a.code@ == code && all.contains(a)
            &&& finds_asset(env, anchor, code, a) && all.len() > 0 && all[0].code@ == code ==> a
                == all[0]
        }),
{
    let all = assets_of(env, anchor);
    if finds_asset(env, anchor, code, a) {
        let i = choose|i: int|
            #[trigger] crate::contract::tomls::is_first_asset(all, code, i) && a == all[i];
        assert(all.contains(all[i]));
        if all[0].code@ == code {
            assert(i == 0);
        }
    }
}

/// A code finds one asset only.
pub proof fn codes_find_one_asset(
    env: Ledger,
    anchor: Address,
    code: Seq<char>,
    a: AssetInfo,
    b: AssetInfo,
)
    requires
        finds_asset(env, anchor, code, a),
        finds_asset(env, anchor, code, b),
    ensures
        a == b,
{
    let all = assets_of(env, anchor);
    let i = choose|i: int|
        #[trigger] crate::contract::tomls::is_first_asset(all, code, i) && a == all[i];
    let j = choose|j: int|
        #[trigger] crate::contract::tomls::is_first_asset(all, code, j) && b == all[j];
    assert(i == j);
}

} // verus!
