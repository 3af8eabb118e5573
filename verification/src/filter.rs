use vstd::prelude::*;

use crate::addr::{IpAddress, MacAddress};

verus! {

/// How a family's configured address set is applied. At most one of the two
/// active modes exists per family, so "both lists set" is unrepresentable.
#[derive(PartialEq, Eq, Structural, Clone, Copy, Debug)]
pub enum Mode {
    /// No filtering: every frame passes.
    Inactive,
    /// A matching frame is suppressed; everything else passes.
    BlockList,
    /// A matching frame passes; everything else is suppressed.
    AllowList,
}

/// The decision table shared by both address families: `Inactive` always
/// passes, a block-list passes exactly the non-matching frames, and an
/// allow-list exactly the matching ones.
pub open spec fn mode_decision(mode: Mode, matched: bool) -> bool {
    match mode {
        Mode::Inactive => true,
        Mode::BlockList => !matched,
        Mode::AllowList => matched,
    }
}

/// Applies the decision table.
pub fn decide(mode: Mode, matched: bool) -> (r: bool)
    ensures
        r == mode_decision(mode, matched),
{
    match mode {
        Mode::Inactive => true,
        Mode::BlockList => !matched,
        Mode::AllowList => matched,
    }
}

/// The configured link-layer filter: a set of MAC addresses (order and
/// repetition are irrelevant) and the mode that applies it.
pub struct MacFilterSet {
    pub mode: Mode,
    pub addrs: Vec<MacAddress>,
}

/// The configured network-layer filter: a set of IP addresses (order and
/// repetition are irrelevant) and the mode that applies it.
pub struct IpFilterSet {
    pub mode: Mode,
    pub addrs: Vec<IpAddress>,
}

impl MacFilterSet {
    /// Whether `a` is one of the configured addresses.
    pub open spec fn spec_match(self, a: MacAddress) -> bool {
        self.addrs@.contains(a)
    }

    /// Whether a frame whose link-layer addresses are `(src, dst)` passes
    /// this filter: the decision table applied to "source or destination is
    /// configured".
    pub open spec fn spec_passes(self, src: MacAddress, dst: MacAddress) -> bool {
        mode_decision(self.mode, self.spec_match(src) || self.spec_match(dst))
    }

    /// A filter that passes everything.
    pub fn inactive() -> (r: Self)
        ensures
            r.mode == Mode::Inactive,
            r.addrs@ =~= Seq::<MacAddress>::empty(),
    {
        MacFilterSet { mode: Mode::Inactive, addrs: Vec::new() }
    }

    /// A filter with the given mode and configured set.
    pub fn new(mode: Mode, addrs: Vec<MacAddress>) -> (r: Self)
        ensures
            r.mode == mode,
            r.addrs@ == addrs@,
    {
        MacFilterSet { mode, addrs }
    }

    /// Checks whether the provided MAC is one we were configured with.
    pub fn mac_match(&self, a: &MacAddress) -> (r: bool)
        ensures
            r == self.spec_match(*a),
    {
        let mut i: usize = 0;
        while i < self.addrs.len()
            invariant
                i <= self.addrs@.len(),
                forall|j: int| 0 <= j < i ==> self.addrs@[j] != *a,
            decreases self.addrs@.len() - i,
        {
            if self.addrs[i] == *a {
                assert(self.addrs@.contains(*a)) by {
                    assert(self.addrs@[i as int] == *a);
                }
                return true;
            }
            i += 1;
        }
        false
    }

    /// Decides whether a frame with link-layer addresses `(src, dst)` passes.
    pub fn passes(&self, src: &MacAddress, dst: &MacAddress) -> (r: bool)
        ensures
            r == self.spec_passes(*src, *dst),
    {
        let matched = self.mac_match(dst) || self.mac_match(src);
        decide(self.mode, matched)
    }
}

impl IpFilterSet {
    /// Whether `a` is one of the configured addresses.
    pub open spec fn spec_match(self, a: IpAddress) -> bool {
        self.addrs@.contains(a)
    }

    /// Whether a frame whose network-layer addresses are `(src, dst)` passes
    /// this filter: the decision table applied to "source or destination is
    /// configured".
    pub open spec fn spec_passes(self, src: IpAddress, dst: IpAddress) -> bool {
        mode_decision(self.mode, self.spec_match(src) || self.spec_match(dst))
    }

    /// A filter that passes everything.
    pub fn inactive() -> (r: Self)
        ensures
            r.mode == Mode::Inactive,
            r.addrs@ =~= Seq::<IpAddress>::empty(),
    {
        IpFilterSet { mode: Mode::Inactive, addrs: Vec::new() }
    }

    /// A filter with the given mode and configured set.
    pub fn new(mode: Mode, addrs: Vec<IpAddress>) -> (r: Self)
        ensures
            r.mode == mode,
            r.addrs@ == addrs@,
    {
        IpFilterSet { mode, addrs }
    }

    /// Checks whether the provided IP is one we were configured with.
    pub fn ip_match(&self, a: &IpAddress) -> (r: bool)
        ensures
            r == self.spec_match(*a),
    {
        let mut i: usize = 0;
        while i < self.addrs.len()
            invariant
                i <= self.addrs@.len(),
                forall|j: int| 0 <= j < i ==> self.addrs@[j] != *a,
            decreases self.addrs@.len() - i,
        {
            if self.addrs[i] == *a {
                assert(self.addrs@.contains(*a)) by {
                    assert(self.addrs@[i as int] == *a);
                }
                return true;
            }
            i += 1;
        }
        false
    }

    /// Decides whether a frame with network-layer addresses `(src, dst)`
    /// passes.
    pub fn passes(&self, src: &IpAddress, dst: &IpAddress) -> (r: bool)
        ensures
            r == self.spec_passes(*src, *dst),
    {
        let matched = self.ip_match(src) || self.ip_match(dst);
        decide(self.mode, matched)
    }
}

/// The decision table holds of each family's filter, for every mode and every
/// candidate pair, with no dependence on the other family: `Inactive` passes
/// everything, a block-list passes exactly the pairs with no configured
/// address, and an allow-list exactly the pairs with one.
pub proof fn lemma_filter_decision_table(
    mf: MacFilterSet,
    ipf: IpFilterSet,
    msrc: MacAddress,
    mdst: MacAddress,
    isrc: IpAddress,
    idst: IpAddress,
)
    ensures
        mf.mode == Mode::Inactive ==> mf.spec_passes(msrc, mdst),
        mf.mode == Mode::BlockList ==> mf.spec_passes(msrc, mdst) == !(mf.spec_match(msrc)
            || mf.spec_match(mdst)),
        mf.mode == Mode::AllowList ==> mf.spec_passes(msrc, mdst) == (mf.spec_match(msrc)
            || mf.spec_match(mdst)),
        ipf.mode == Mode::Inactive ==> ipf.spec_passes(isrc, idst),
        ipf.mode == Mode::BlockList ==> ipf.spec_passes(isrc, idst) == !(ipf.spec_match(isrc)
            || ipf.spec_match(idst)),
        ipf.mode == Mode::AllowList ==> ipf.spec_passes(isrc, idst) == (ipf.spec_match(isrc)
            || ipf.spec_match(idst)),
{
}

/// Filtering is a pure function of the mode, the configured set and the
/// candidate pair: any two filters that agree on mode and set decide every
/// pair alike, so repeated evaluations cannot differ.
pub proof fn lemma_filter_deterministic(
    f1: MacFilterSet,
    f2: MacFilterSet,
    g1: IpFilterSet,
    g2: IpFilterSet,
    msrc: MacAddress,
    mdst: MacAddress,
    isrc: IpAddress,
    idst: IpAddress,
)
    requires
        f1.mode == f2.mode,
        f1.addrs@ == f2.addrs@,
        g1.mode == g2.mode,
        g1.addrs@ == g2.addrs@,
    ensures
        f1.spec_passes(msrc, mdst) == f2.spec_passes(msrc, mdst),
        g1.spec_passes(isrc, idst) == g2.spec_passes(isrc, idst),
{
}

/// The logical consequence of the table on an empty configured set: an active
/// block-list blocks nothing, an active allow-list blocks everything.
pub proof fn lemma_empty_set(
    mf: MacFilterSet,
    ipf: IpFilterSet,
    msrc: MacAddress,
    mdst: MacAddress,
    isrc: IpAddress,
    idst: IpAddress,
)
    requires
        mf.addrs@.len() == 0,
        ipf.addrs@.len() == 0,
    ensures
        mf.mode == Mode::BlockList ==> mf.spec_passes(msrc, mdst),
        mf.mode == Mode::AllowList ==> !mf.spec_passes(msrc, mdst),
        ipf.mode == Mode::BlockList ==> ipf.spec_passes(isrc, idst),
        ipf.mode == Mode::AllowList ==> !ipf.spec_passes(isrc, idst),
{
}

} // verus!
