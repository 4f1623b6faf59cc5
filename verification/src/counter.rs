//! The counter of one context class.
use vstd::prelude::*;
use crate::site::{Call, Reading, Site};

verus! {

/// The raw tallies of a counter as natural numbers: what a counter stands
/// for, free of machine limits.
pub struct Tally {
    pub total_sites: nat,
    pub sites_covered: nat,
    pub total_c: nat,
    pub total_t: nat,
    pub max_depth: nat,
    pub mutations: nat,
    pub called_meth: nat,
    pub called_unmeth: nat,
}

impl Tally {
    /// The tally of no sites at all.
    pub open spec fn empty() -> Tally {
        Tally {
            total_sites: 0,
            sites_covered: 0,
            total_c: 0,
            total_t: 0,
            max_depth: 0,
            mutations: 0,
            called_meth: 0,
            called_unmeth: 0,
        }
    }

    /// Reads seen at covered sites, methylated or not.
    pub open spec fn coverage(self) -> nat {
        self.total_c + self.total_t
    }

    /// Covered sites that the interval test called one way or the other.
    pub open spec fn total_called(self) -> nat {
        self.called_meth + self.called_unmeth
    }

    /// Sites that were neither mutated nor covered.
    pub open spec fn uncovered(self) -> int {
        self.total_sites - self.sites_covered - self.mutations
    }

    /// The tally after one more site.
    ///
    /// A mutated site counts as a mutation and nothing else. A covered site
    /// adds its reads and, where its call is not inconclusive, one call. A
    /// site without reads only counts as a site.
    pub open spec fn record(self, s: Reading) -> Tally {
        if s.mutated {
            Tally { total_sites: self.total_sites + 1, mutations: self.mutations + 1, ..self }
        } else if s.n_reads > 0 {
            Tally {
                total_sites: self.total_sites + 1,
                sites_covered: self.sites_covered + 1,
                total_c: self.total_c + s.n_meth,
                total_t: (self.total_t + s.n_reads - s.n_meth) as nat,
                max_depth: if s.n_reads > self.max_depth {
                    s.n_reads
                } else {
                    self.max_depth
                },
                mutations: self.mutations,
                called_meth: if s.call == Call::Methylated {
                    self.called_meth + 1
                } else {
                    self.called_meth
                },
                called_unmeth: if s.call == Call::Unmethylated {
                    self.called_unmeth + 1
                } else {
                    self.called_unmeth
                },
            }
        } else {
            Tally { total_sites: self.total_sites + 1, ..self }
        }
    }

    /// The tally after a run of sites, first to last.
    pub open spec fn record_all(self, sites: Seq<Reading>) -> Tally
        decreases sites.len(),
    {
        if sites.len() == 0 {
            self
        } else {
            self.record_all(sites.drop_last()).record(sites.last())
        }
    }

    /// What holds of every tally that was counted up from nothing: covered
    /// and mutated sites are sites, called sites are covered, every covered
    /// site has at least one read, and the deepest site is no deeper than
    /// all reads together.
    pub open spec fn consistent(self) -> bool {
        &&& self.sites_covered + self.mutations <= self.total_sites
        &&& self.called_meth + self.called_unmeth <= self.sites_covered
        &&& self.sites_covered <= self.total_c + self.total_t
        &&& self.max_depth <= self.total_c + self.total_t
        &&& self.sites_covered == 0 ==> self.total_c + self.total_t == 0
        &&& self.sites_covered > 0 ==> self.max_depth > 0
    }
}

/// A quotient of two counts, left undivided.
///
/// It stands for `num / den`. Where `den` is zero the quotient is not a
/// number, and it is for the reader of a report to say so.
#[derive(Clone, Copy, Debug, PartialEq, Eq, Structural)]
pub struct Fraction {
    pub num: u64,
    pub den: u64,
}

impl Fraction {
    /// Zero, as `0 / 1`.
    pub open spec fn zero() -> Fraction {
        Fraction { num: 0, den: 1 }
    }

    /// `num / den` where `den` is not zero, else zero.
    pub open spec fn guarded(num: nat, den: nat) -> Fraction {
        if den == 0 {
            Fraction::zero()
        } else {
            Fraction { num: num as u64, den: den as u64 }
        }
    }

    /// `num / den` whatever `den` is.
    pub open spec fn plain(num: nat, den: nat) -> Fraction {
        Fraction { num: num as u64, den: den as u64 }
    }
}

/// The counter of one context class: raw tallies, filled site by site, and
/// the values derived from them once the last site is in.
///
/// The derived fields are stale until `set_derived_values` has run, and
/// again after any later `update`.
#[derive(Clone, Copy, Debug, PartialEq, Eq, Structural)]
pub struct LevelsCounter {
    pub total_sites: u64,
    pub sites_covered: u64,
    pub total_c: u64,
    pub total_t: u64,
    pub max_depth: u64,
    pub mutations: u64,
    pub called_meth: u64,
    pub called_unmeth: u64,
    // derived values
    pub coverage: u64,
    pub sites_covered_fraction: Fraction,
    pub mean_depth: Fraction,
    pub mean_depth_covered: Fraction,
    pub mean_meth_weighted: Fraction,
    pub fractional_meth: Fraction,
}

impl View for LevelsCounter {
    type V = Tally;

    open spec fn view(&self) -> Tally {
        Tally {
            total_sites: self.total_sites as nat,
            sites_covered: self.sites_covered as nat,
            total_c: self.total_c as nat,
            total_t: self.total_t as nat,
            max_depth: self.max_depth as nat,
            mutations: self.mutations as nat,
            called_meth: self.called_meth as nat,
            called_unmeth: self.called_unmeth as nat,
        }
    }
}

impl LevelsCounter {
    /// The raw tallies are consistent and their coverage fits a `u64`.
    pub open spec fn wf(&self) -> bool {
        &&& self@.consistent()
        &&& self@.coverage() <= u64::MAX
    }

    /// One more site `s` overflows nothing.
    pub open spec fn has_room(&self, s: Reading) -> bool {
        &&& self.total_sites < u64::MAX
        &&& s.covered() ==> self@.coverage() + s.n_reads <= u64::MAX
    }

    /// The derived fields of `self` and `other` agree.
    pub open spec fn same_derived(&self, other: LevelsCounter) -> bool {
        &&& self.coverage == other.coverage
        &&& self.sites_covered_fraction == other.sites_covered_fraction
        &&& self.mean_depth == other.mean_depth
        &&& self.mean_depth_covered == other.mean_depth_covered
        &&& self.mean_meth_weighted == other.mean_meth_weighted
        &&& self.fractional_meth == other.fractional_meth
    }

    /// The derived fields say what the raw tallies give now.
    pub open spec fn derived_current(&self) -> bool {
        &&& self.coverage == self@.coverage()
        &&& self.sites_covered_fraction == Fraction::plain(
            self@.sites_covered,
            self@.total_sites,
        )
        &&& self.mean_depth == Fraction::plain(self@.coverage(), self@.total_sites)
        &&& self.mean_depth_covered == Fraction::plain(self@.coverage(), self@.sites_covered)
        &&& self.mean_meth_weighted == Fraction::guarded(self@.total_c, self@.coverage())
        &&& self.fractional_meth == Fraction::guarded(self@.called_meth, self@.total_called())
    }

    /// The counter that has seen no site: every tally is zero and every
    /// derived quotient is `Fraction::zero()`.
    pub open spec fn empty() -> LevelsCounter {
        LevelsCounter {
            total_sites: 0,
            sites_covered: 0,
            total_c: 0,
            total_t: 0,
            max_depth: 0,
            mutations: 0,
            called_meth: 0,
            called_unmeth: 0,
            coverage: 0,
            sites_covered_fraction: Fraction::zero(),
            mean_depth: Fraction::zero(),
            mean_depth_covered: Fraction::zero(),
            mean_meth_weighted: Fraction::zero(),
            fractional_meth: Fraction::zero(),
        }
    }

    /// A counter that has seen no site.
    pub fn new() -> (c: LevelsCounter)
        ensures
            c == LevelsCounter::empty(),
            c@ == Tally::empty(),
            c.wf(),
    {
        let zero = Fraction { num: 0, den: 1 };
        LevelsCounter {
            total_sites: 0,
            sites_covered: 0,
            total_c: 0,
            total_t: 0,
            max_depth: 0,
            mutations: 0,
            called_meth: 0,
            called_unmeth: 0,
            coverage: 0,
            sites_covered_fraction: zero,
            mean_depth: zero,
            mean_depth_covered: zero,
            mean_meth_weighted: zero,
            fractional_meth: zero,
        }
    }

    /// Whether `update` may take `s`: the run-time form of `has_room`.
    pub fn can_update(&self, s: &Site) -> (r: bool)
        requires
            self.wf(),
        ensures
            r == self.has_room(s@),
    {
        if self.total_sites == u64::MAX {
            false
        } else if !s.mutated && s.n_reads > 0 {
            let coverage: u64 = self.total_c + self.total_t;
            s.n_reads <= u64::MAX - coverage
        } else {
            true
        }
    }

    /// Counts one site.
    ///
    /// The raw tallies become `record` of the old ones; the derived fields
    /// are left as they were.
    pub fn update(&mut self, s: &Site)
        requires
            old(self).wf(),
            s@.wf(),
            old(self).has_room(s@),
        ensures
            final(self)@ == old(self)@.record(s@),
            final(self).wf(),
            final(self).same_derived(*old(self)),
            final(self).total_sites == old(self).total_sites + 1,
            !s.mutated && s.n_reads == 0 ==> final(self)@ == (Tally {
                total_sites: old(self)@.total_sites + 1,
                ..old(self)@
            }),
            s.mutated ==> final(self)@.coverage() == old(self)@.coverage()
                && final(self).sites_covered == old(self).sites_covered
                && final(self).max_depth == old(self).max_depth
                && final(self)@.total_called() == old(self)@.total_called(),
            final(self)@.total_called() <= old(self)@.total_called() + 1,
            final(self).called_meth == old(self).called_meth
                || final(self).called_unmeth == old(self).called_unmeth,
            final(self)@.uncovered() == old(self)@.uncovered() + if s.mutated || s.n_reads > 0 {
                0int
            } else {
                1int
            },
    {
        if s.mutated {
            self.mutations = self.mutations + 1;
        } else if s.n_reads > 0 {
            self.sites_covered = self.sites_covered + 1;
            if s.n_reads > self.max_depth {
                self.max_depth = s.n_reads;
            }
            self.total_c = self.total_c + s.n_meth;
            self.total_t = self.total_t + (s.n_reads - s.n_meth);
            match s.call {
                Call::Methylated => {
                    self.called_meth = self.called_meth + 1;
                },
                Call::Unmethylated => {
                    self.called_unmeth = self.called_unmeth + 1;
                },
                Call::Inconclusive => {},
            }
        }
        self.total_sites = self.total_sites + 1;
    }

    /// Reads at covered sites.
    pub fn get_coverage(&self) -> (c: u64)
        requires
            self.total_c + self.total_t <= u64::MAX,
        ensures
            c == self@.coverage(),
    {
        self.total_c + self.total_t
    }

    /// Sites called methylated or unmethylated.
    pub fn get_total_called(&self) -> (c: u64)
        requires
            self.called_meth + self.called_unmeth <= u64::MAX,
        ensures
            c == self@.total_called(),
    {
        self.called_meth + self.called_unmeth
    }

    /// Methylated reads over all reads, with no guard against a counter
    /// without reads.
    pub fn get_mean_meth_weighted(&self) -> (f: Fraction)
        requires
            self.total_c + self.total_t <= u64::MAX,
        ensures
            f.num == self.total_c,
            f.den == self@.coverage(),
    {
        Fraction { num: self.total_c, den: self.get_coverage() }
    }

    /// Sites called methylated over all called sites, with no guard against
    /// a counter without calls.
    pub fn get_fractional_meth(&self) -> (f: Fraction)
        requires
            self.called_meth + self.called_unmeth <= u64::MAX,
        ensures
            f.num == self.called_meth,
            f.den == self@.total_called(),
    {
        Fraction { num: self.called_meth, den: self.get_total_called() }
    }

    /// Fills the derived fields from the raw tallies, which stay as they are.
    ///
    /// The weighted mean is zero for a counter without reads, which is a
    /// counter without covered sites, and the called fraction is zero for a
    /// counter without calls. The other three quotients are handed out with
    /// whatever denominator the tallies give.
    pub fn set_derived_values(&mut self)
        requires
            old(self).wf(),
        ensures
            final(self)@ == old(self)@,
            final(self).wf(),
            final(self).derived_current(),
            final(self).coverage == old(self).total_c + old(self).total_t,
            final(self).sites_covered_fraction == (Fraction {
                num: old(self).sites_covered,
                den: old(self).total_sites,
            }),
            final(self).mean_depth == (Fraction {
                num: final(self).coverage,
                den: old(self).total_sites,
            }),
            final(self).mean_depth_covered == (Fraction {
                num: final(self).coverage,
                den: old(self).sites_covered,
            }),
            (old(self).sites_covered == 0 <==> final(self).coverage == 0),
            old(self).sites_covered == 0 ==> final(self).mean_meth_weighted == Fraction::zero(),
            old(self).sites_covered != 0 ==> final(self).mean_meth_weighted == (Fraction {
                num: old(self).total_c,
                den: final(self).coverage,
            }),
            old(self).called_meth == 0 && old(self).called_unmeth == 0
                ==> final(self).fractional_meth == Fraction::zero(),
            old(self).called_meth != 0 || old(self).called_unmeth != 0
                ==> final(self).fractional_meth == (Fraction {
                num: old(self).called_meth,
                den: (old(self).called_meth + old(self).called_unmeth) as u64,
            }),
    {
        self.coverage = self.get_coverage();
        self.sites_covered_fraction = Fraction { num: self.sites_covered, den: self.total_sites };
        self.mean_depth = Fraction { num: self.coverage, den: self.total_sites };
        self.mean_depth_covered = Fraction { num: self.coverage, den: self.sites_covered };
        if self.coverage != 0 {
            self.mean_meth_weighted = self.get_mean_meth_weighted();
        } else {
            self.mean_meth_weighted = Fraction { num: 0, den: 1 };
        }
        if self.get_total_called() > 0 {
            self.fractional_meth = self.get_fractional_meth();
        } else {
            self.fractional_meth = Fraction { num: 0, den: 1 };
        }
    }
}

impl Default for LevelsCounter {
    fn default() -> (c: LevelsCounter)
        ensures
            c == LevelsCounter::empty(),
            c@ == Tally::empty(),
            c.wf(),
    {
        LevelsCounter::new()
    }
}

/// One more well-formed site keeps a consistent tally consistent, and is
/// called at most one way: never does one site raise both `called_meth` and
/// `called_unmeth`.
pub proof fn record_keeps_consistent(t: Tally, s: Reading)
    requires
        t.consistent(),
        s.wf(),
    ensures
        t.record(s).consistent(),
        t.record(s).total_sites == t.total_sites + 1,
        t.record(s).called_meth == t.called_meth || t.record(s).called_unmeth == t.called_unmeth,
        t.record(s).total_called() <= t.total_called() + 1,
        t.record(s).total_called() <= t.record(s).sites_covered,
{
}

/// A site that is neither mutated nor covered raises `total_sites` by one
/// and leaves every other tally as it was.
pub proof fn unread_site_only_counts_as_site(t: Tally, s: Reading)
    requires
        !s.mutated,
        s.n_reads == 0,
    ensures
        t.record(s) == (Tally { total_sites: t.total_sites + 1, ..t }),
{
}

/// Whatever run of well-formed sites a consistent tally takes in, it stays
/// consistent; in particular the called sites never outnumber the covered
/// ones. It has counted every site of the run.
pub proof fn record_all_keeps_consistent(t: Tally, sites: Seq<Reading>)
    requires
        t.consistent(),
        forall|i: int| 0 <= i < sites.len() ==> (#[trigger] sites[i]).wf(),
    ensures
        t.record_all(sites).consistent(),
        t.record_all(sites).total_called() <= t.record_all(sites).sites_covered,
        t.record_all(sites).total_sites == t.total_sites + sites.len(),
    decreases sites.len(),
{
    if sites.len() > 0 {
        record_all_keeps_consistent(t, sites.drop_last());
        record_keeps_consistent(t.record_all(sites.drop_last()), sites.last());
    }
}

/// Where every site of a run is mutated or covered, the run adds nothing to
/// the sites that are neither: a tally in which covered and mutated sites
/// made up all sites before the run is such a tally after it.
pub proof fn covered_and_mutated_make_up_all_sites(t: Tally, sites: Seq<Reading>)
    requires
        forall|i: int| 0 <= i < sites.len() ==> (#[trigger] sites[i]).mutated || sites[i].covered(),
    ensures
        t.record_all(sites).uncovered() == t.uncovered(),
        t.total_sites == t.sites_covered + t.mutations ==> t.record_all(sites).total_sites
            == t.record_all(sites).sites_covered + t.record_all(sites).mutations,
    decreases sites.len(),
{
    if sites.len() > 0 {
        covered_and_mutated_make_up_all_sites(t, sites.drop_last());
    }
}

} // verus!
