//! Services that are switched on and off, and snapshots of them.
use crate::address::Address;
use vstd::prelude::*;

verus! {

/// The services of an anchor that are switched on and those switched off.
#[derive(Debug, PartialEq, Eq)]
pub struct ServiceToggleState {
    pub enabled_services: Vec<u32>,
    pub disabled_services: Vec<u32>,
}

/// A set of services, kept so that it can be restored.
#[derive(Debug, PartialEq, Eq)]
pub struct ServiceConfigSnapshot {
    pub snapshot_id: u64,
    pub anchor: Address,
    pub services: Vec<u32>,
    pub description: String,
    pub created_at: u64,
}

/// What is switched on and off, as sequences.
pub struct ToggleView {
    pub enabled: Seq<u32>,
    pub disabled: Seq<u32>,
}

impl View for ServiceToggleState {
    type V = ToggleView;

    open spec fn view(&self) -> ToggleView {
        ToggleView { enabled: self.enabled_services@, disabled: self.disabled_services@ }
    }
}

/// The codes without one.
pub open spec fn without(codes: Seq<u32>, code: u32) -> Seq<u32> {
    codes.filter(other_than(code))
}

/// Holds of every code but one.
pub open spec fn other_than(code: u32) -> spec_fn(u32) -> bool {
    |c: u32| c != code
}

impl ToggleView {
    /// Nothing is switched.
    pub open spec fn none() -> Self {
        ToggleView { enabled: Seq::empty(), disabled: Seq::empty() }
    }

    /// After switching a service on.
    pub open spec fn on(self, code: u32) -> Self {
        if self.enabled.contains(code) {
            self
        } else {
            ToggleView {
                enabled: self.enabled.push(code),
                disabled: without(self.disabled, code),
            }
        }
    }

    /// After switching a service off.
    pub open spec fn off(self, code: u32) -> Self {
        if self.disabled.contains(code) {
            self
        } else {
            ToggleView {
                enabled: without(self.enabled, code),
                disabled: self.disabled.push(code),
            }
        }
    }
}

/// Whether a code is in a list.
pub fn lists_code(codes: &Vec<u32>, code: u32) -> (r: bool)
    ensures
        r == codes@.contains(code),
{
    let mut i: usize = 0;
    while i < codes.len()
        invariant
            0 <= i <= codes@.len(),
            forall|j: int| 0 <= j < i ==> codes@[j] != code,
        decreases codes@.len() - i,
    {
        if codes[i] == code {
            return true;
        }
        i = i + 1;
    }
    false
}

/// The list without a code.
pub fn without_code(codes: &Vec<u32>, code: u32) -> (r: Vec<u32>)
    ensures
        r@ == without(codes@, code),
{
    let mut kept: Vec<u32> = Vec::new();
    let mut i: usize = 0;
    let ghost keep = other_than(code);
    proof {
        reveal(Seq::filter);
        assert(kept@ =~= codes@.take(0).filter(keep));
    }
    while i < codes.len()
        invariant
            0 <= i <= codes@.len(),
            keep == other_than(code),
            kept@ == codes@.take(i as int).filter(keep),
        decreases codes@.len() - i,
    {
        if codes[i] != code {
            kept.push(codes[i]);
        }
        proof {
            reveal(Seq::filter);
            assert(codes@.take(i + 1).drop_last() =~= codes@.take(i as int));
        }
        i = i + 1;
    }
    assert(codes@.take(i as int) =~= codes@);
    kept
}

/// A copy of a list of codes.
pub fn copy_codes(codes: &Vec<u32>) -> (r: Vec<u32>)
    ensures
        r@ == codes@,
{
    let mut r: Vec<u32> = Vec::new();
    let mut i: usize = 0;
    while i < codes.len()
        invariant
            0 <= i <= codes@.len(),
            r@ == codes@.take(i as int),
        decreases codes@.len() - i,
    {
        r.push(codes[i]);
        assert(codes@.take(i + 1) =~= codes@.take(i as int).push(codes@[i as int]));
        i = i + 1;
    }
    assert(codes@.take(i as int) =~= codes@);
    r
}

impl ServiceToggleState {
    /// Nothing is switched.
    pub fn new() -> (s: Self)
        ensures
            s@ == ToggleView::none(),
    {
        let s = ServiceToggleState { enabled_services: Vec::new(), disabled_services: Vec::new() };
        assert(s.enabled_services@ =~= Seq::<u32>::empty());
        assert(s.disabled_services@ =~= Seq::<u32>::empty());
        s
    }

    /// A copy.
    pub fn copy(&self) -> (s: Self)
        ensures
            s@ == self@,
    {
        ServiceToggleState {
            enabled_services: copy_codes(&self.enabled_services),
            disabled_services: copy_codes(&self.disabled_services),
        }
    }

    /// Switches a service on, and tells whether that changed anything.
    pub fn enable(&mut self, code: u32) -> (changed: bool)
        ensures
            final(self)@ == old(self)@.on(code),
            changed == !old(self)@.enabled.contains(code),
    {
        if lists_code(&self.enabled_services, code) {
            return false;
        }
        let rest = without_code(&self.disabled_services, code);
        self.enabled_services.push(code);
        self.disabled_services = rest;
        true
    }

    /// Switches a service off, and tells whether that changed anything.
    pub fn disable(&mut self, code: u32) -> (changed: bool)
        ensures
            final(self)@ == old(self)@.off(code),
            changed == !old(self)@.disabled.contains(code),
    {
        if lists_code(&self.disabled_services, code) {
            return false;
        }
        let rest = without_code(&self.enabled_services, code);
        self.disabled_services.push(code);
        self.enabled_services = rest;
        true
    }
}

proof fn filtered_out(s: Seq<u32>, code: u32)
    ensures
        !without(s, code).contains(code),
    decreases s.len(),
{
    reveal(Seq::filter);
    let keep = other_than(code);
    if s.len() > 0 {
        filtered_out(s.drop_last(), code);
        let rest = s.drop_last().filter(keep);
        let all = s.filter(keep);
        if all.contains(code) {
            let w = choose|w: int| 0 <= w < all.len() && all[w] == code;
            if w < rest.len() {
                assert(rest[w] == code);
                assert(rest.contains(code));
            }
        }
    }
}

/// A service that was switched on is on and not off, and the other way round,
/// provided it was not on both lists before.
pub proof fn switching_takes_effect(s: ToggleView, code: u32)
    requires
        !(s.enabled.contains(code) && s.disabled.contains(code)),
    ensures
        s.on(code).enabled.contains(code),
        !s.on(code).disabled.contains(code),
        s.off(code).disabled.contains(code),
        !s.off(code).enabled.contains(code),
{
    filtered_out(s.disabled, code);
    filtered_out(s.enabled, code);
    if !s.enabled.contains(code) {
        assert(s.on(code).enabled.last() == code);
    }
    if !s.disabled.contains(code) {
        assert(s.off(code).disabled.last() == code);
    }
}

} // verus!
