//! The six counters of a run, and the pairing of CpG sites into symmetric
//! observations.
use vstd::prelude::*;
use crate::counter::{record_keeps_consistent, LevelsCounter, Tally};
use crate::site::{Call, Class, Reading, Site};

verus! {

/// A site whose context is none of CpG, CHH, CCG and CXG. A run that meets
/// one cannot go on.
#[derive(Clone, Copy, Debug, PartialEq, Eq, Structural)]
pub struct Unclassified;

/// The six tallies of a run and the CpG site that still waits for its mate,
/// as the contracts see them.
pub struct Ledger {
    pub cytosine: Tally,
    pub cpg: Tally,
    pub cpg_symmetric: Tally,
    pub chh: Tally,
    pub ccg: Tally,
    pub cxg: Tally,
    pub pending: Option<Reading>,
}

/// The reads that a waiting site has added to the CpG coverage.
pub open spec fn pending_depth(pending: Option<Reading>) -> nat {
    match pending {
        Some(p) => p.depth(),
        None => 0,
    }
}

/// The larger of two depths.
pub open spec fn deeper(a: nat, b: nat) -> nat {
    if a >= b {
        a
    } else {
        b
    }
}

impl Ledger {
    /// The ledger of a run that has seen no site.
    pub open spec fn empty() -> Ledger {
        Ledger {
            cytosine: Tally::empty(),
            cpg: Tally::empty(),
            cpg_symmetric: Tally::empty(),
            chh: Tally::empty(),
            ccg: Tally::empty(),
            cxg: Tally::empty(),
            pending: None,
        }
    }

    /// The waiting site, where `site` is its mate and so completes the pair.
    pub open spec fn opens_pair(self, site: Reading) -> Option<Reading> {
        match self.pending {
            Some(first) => if first.mates(site) {
                Some(first)
            } else {
                None
            },
            None => None,
        }
    }

    /// The ledger after one more site.
    ///
    /// A site of no class changes nothing. Any other site goes to the
    /// all-cytosine tally and to the tally of its class. A CpG site whose
    /// mate is waiting is merged into it, with `pair_call` as the verdict on
    /// the pair; the merged observation goes to the symmetric tally and
    /// nothing waits any more. Any other CpG site becomes the waiting one,
    /// and a site that waited before is forgotten. A site of another class
    /// leaves the waiting site alone.
    pub open spec fn step(self, site: Reading, pair_call: Call) -> Ledger {
        match site.class() {
            None => self,
            Some(Class::CpG) => match self.opens_pair(site) {
                Some(first) => Ledger {
                    cytosine: self.cytosine.record(site),
                    cpg: self.cpg.record(site),
                    cpg_symmetric: self.cpg_symmetric.record(first.merged(site, pair_call)),
                    pending: None,
                    ..self
                },
                None => Ledger {
                    cytosine: self.cytosine.record(site),
                    cpg: self.cpg.record(site),
                    pending: Some(site),
                    ..self
                },
            },
            Some(Class::CHH) => Ledger {
                cytosine: self.cytosine.record(site),
                chh: self.chh.record(site),
                ..self
            },
            Some(Class::CCG) => Ledger {
                cytosine: self.cytosine.record(site),
                ccg: self.ccg.record(site),
                ..self
            },
            Some(Class::CXG) => Ledger {
                cytosine: self.cytosine.record(site),
                cxg: self.cxg.record(site),
                ..self
            },
        }
    }

    /// The ledger after a run of sites, first to last, each with the verdict
    /// on the pair that it may complete.
    pub open spec fn run(self, sites: Seq<(Reading, Call)>) -> Ledger
        decreases sites.len(),
    {
        if sites.len() == 0 {
            self
        } else {
            self.run(sites.drop_last()).step(sites.last().0, sites.last().1)
        }
    }

    /// The four class tallies add up to the all-cytosine tally, whose depth
    /// is the deepest of theirs.
    pub open spec fn classes_make_up_cytosine(self) -> bool {
        make_up(self.cytosine, self.cpg, self.chh, self.ccg, self.cxg)
    }

    /// Every symmetric observation took two CpG sites, a waiting site took
    /// one more, and none of their reads is counted that the CpG tally has
    /// not counted too.
    pub open spec fn pairs_come_from_cpg(self) -> bool {
        &&& 2 * self.cpg_symmetric.total_sites + (if self.pending is Some {
            1nat
        } else {
            0nat
        }) <= self.cpg.total_sites
        &&& self.cpg_symmetric.coverage() + pending_depth(self.pending) <= self.cpg.coverage()
    }

    /// What holds of every ledger that was counted up from nothing.
    pub open spec fn consistent(self) -> bool {
        &&& self.cytosine.consistent()
        &&& self.cpg.consistent()
        &&& self.cpg_symmetric.consistent()
        &&& self.chh.consistent()
        &&& self.ccg.consistent()
        &&& self.cxg.consistent()
        &&& self.classes_make_up_cytosine()
        &&& self.pairs_come_from_cpg()
        &&& self.pending matches Some(p) ==> p.wf() && p.cpg
    }
}

/// Four tallies add up to a fifth, whose depth is the deepest of theirs.
pub open spec fn make_up(whole: Tally, a: Tally, b: Tally, c: Tally, d: Tally) -> bool {
    &&& whole.total_sites == a.total_sites + b.total_sites + c.total_sites + d.total_sites
    &&& whole.sites_covered == a.sites_covered + b.sites_covered + c.sites_covered
        + d.sites_covered
    &&& whole.total_c == a.total_c + b.total_c + c.total_c + d.total_c
    &&& whole.total_t == a.total_t + b.total_t + c.total_t + d.total_t
    &&& whole.mutations == a.mutations + b.mutations + c.mutations + d.mutations
    &&& whole.called_meth == a.called_meth + b.called_meth + c.called_meth + d.called_meth
    &&& whole.called_unmeth == a.called_unmeth + b.called_unmeth + c.called_unmeth
        + d.called_unmeth
    &&& whole.max_depth == deeper(
        deeper(a.max_depth, b.max_depth),
        deeper(c.max_depth, d.max_depth),
    )
}

/// A site that goes to the whole and to one of its parts leaves the parts
/// adding up to the whole, whichever part it is.
proof fn part_and_whole_take_site(whole: Tally, a: Tally, b: Tally, c: Tally, d: Tally, s: Reading)
    requires
        make_up(whole, a, b, c, d),
        s.wf(),
    ensures
        make_up(whole.record(s), a.record(s), b, c, d),
        make_up(whole.record(s), a, b.record(s), c, d),
        make_up(whole.record(s), a, b, c.record(s), d),
        make_up(whole.record(s), a, b, c, d.record(s)),
{
}

/// A CpG site, paired or left waiting, leaves the symmetric tally within
/// what the CpG tally has counted.
proof fn pairs_still_come_from_cpg(l: Ledger, site: Reading, pair_call: Call)
    requires
        l.pairs_come_from_cpg(),
        site.class() == Some(Class::CpG),
        site.wf(),
        l.pending matches Some(p) ==> p.wf(),
    ensures
        l.step(site, pair_call).pairs_come_from_cpg(),
{
}

/// One more well-formed site keeps a consistent ledger consistent.
pub proof fn step_keeps_consistent(l: Ledger, site: Reading, pair_call: Call)
    requires
        l.consistent(),
        site.wf(),
    ensures
        l.step(site, pair_call).consistent(),
{
    record_keeps_consistent(l.cytosine, site);
    part_and_whole_take_site(l.cytosine, l.cpg, l.chh, l.ccg, l.cxg, site);
    match site.class() {
        None => {},
        Some(Class::CpG) => {
            record_keeps_consistent(l.cpg, site);
            pairs_still_come_from_cpg(l, site, pair_call);
            match l.opens_pair(site) {
                Some(first) => {
                    record_keeps_consistent(l.cpg_symmetric, first.merged(site, pair_call));
                },
                None => {},
            }
        },
        Some(Class::CHH) => {
            record_keeps_consistent(l.chh, site);
        },
        Some(Class::CCG) => {
            record_keeps_consistent(l.ccg, site);
        },
        Some(Class::CXG) => {
            record_keeps_consistent(l.cxg, site);
        },
    }
}

/// Whatever run of well-formed sites a consistent ledger takes in, it stays
/// consistent: the class tallies go on adding up to the all-cytosine tally,
/// and the symmetric tally goes on holding no more than half the CpG sites.
pub proof fn run_keeps_consistent(l: Ledger, sites: Seq<(Reading, Call)>)
    requires
        l.consistent(),
        forall|i: int| 0 <= i < sites.len() ==> (#[trigger] sites[i]).0.wf(),
    ensures
        l.run(sites).consistent(),
    decreases sites.len(),
{
    if sites.len() > 0 {
        run_keeps_consistent(l, sites.drop_last());
        step_keeps_consistent(l.run(sites.drop_last()), sites.last().0, sites.last().1);
    }
}

/// Two mates in a row make one symmetric observation.
///
/// Let `a` find no mate waiting, and let `b` be the mate of `a`. After the
/// two, the symmetric tally has taken in exactly one observation more, the
/// merged pair with the reads of both, and nothing waits. A CpG site `c`
/// that comes next finds no mate: it adds nothing to the symmetric tally and
/// is the one that waits.
pub proof fn mates_make_one_pair(
    l: Ledger,
    a: Reading,
    b: Reading,
    c: Reading,
    call_a: Call,
    call_ab: Call,
    call_c: Call,
)
    requires
        l.opens_pair(a) is None,
        a.mates(b),
    ensures
        ({
            let waiting = l.step(a, call_a);
            let paired = waiting.step(b, call_ab);
            let after = paired.step(c, call_c);
            &&& waiting.pending == Some(a)
            &&& waiting.cpg_symmetric == l.cpg_symmetric
            &&& paired.cpg_symmetric == l.cpg_symmetric.record(a.merged(b, call_ab))
            &&& paired.cpg_symmetric.total_sites == l.cpg_symmetric.total_sites + 1
            &&& paired.pending is None
            &&& c.cpg ==> after.cpg_symmetric == paired.cpg_symmetric && after.pending == Some(c)
        }),
        a.merged(b, call_ab).n_reads == a.n_reads + b.n_reads,
        a.merged(b, call_ab).n_meth == a.n_meth + b.n_meth,
{
}

/// A CpG site that is no mate of the waiting one takes its place, and the
/// symmetric tally does not hear of either.
pub proof fn unmatched_cpg_waits(l: Ledger, site: Reading, pair_call: Call)
    requires
        site.cpg,
        l.opens_pair(site) is None,
    ensures
        l.step(site, pair_call).pending == Some(site),
        l.step(site, pair_call).cpg_symmetric == l.cpg_symmetric,
        l.step(site, pair_call).cpg == l.cpg.record(site),
{
}

/// A site of another class than CpG, or of none, touches neither the
/// waiting site nor the two CpG tallies.
pub proof fn other_classes_leave_pairing_alone(l: Ledger, site: Reading, pair_call: Call)
    requires
        !site.cpg,
    ensures
        l.step(site, pair_call).pending == l.pending,
        l.step(site, pair_call).cpg == l.cpg,
        l.step(site, pair_call).cpg_symmetric == l.cpg_symmetric,
{
}

/// The state of a run: six counters and the CpG site, if any, that still
/// waits for its mate.
#[derive(Clone, Copy, Debug, PartialEq, Eq, Structural)]
pub struct Levels {
    pub cytosine: LevelsCounter,
    pub cpg: LevelsCounter,
    pub cpg_symmetric: LevelsCounter,
    pub chh: LevelsCounter,
    pub ccg: LevelsCounter,
    pub cxg: LevelsCounter,
    pub pending: Option<Site>,
}

impl View for Levels {
    type V = Ledger;

    open spec fn view(&self) -> Ledger {
        Ledger {
            cytosine: self.cytosine@,
            cpg: self.cpg@,
            cpg_symmetric: self.cpg_symmetric@,
            chh: self.chh@,
            ccg: self.ccg@,
            cxg: self.cxg@,
            pending: match self.pending {
                Some(p) => Some(p@),
                None => None,
            },
        }
    }
}

impl Levels {
    /// The ledger is consistent and the all-cytosine coverage fits a `u64`;
    /// then so does every other.
    pub open spec fn wf(&self) -> bool {
        &&& self@.consistent()
        &&& self.cytosine@.coverage() <= u64::MAX
    }

    /// One more site `site` overflows nothing: the all-cytosine counter has
    /// room for it, and the reads of a pair that it completes fit a `u64`.
    pub open spec fn accepts(&self, site: Reading) -> bool {
        &&& self.cytosine.has_room(site)
        &&& self@.opens_pair(site) matches Some(first) ==> first.n_reads + site.n_reads
            <= u64::MAX
    }

    /// The derived fields of all six counters agree with those of `other`.
    pub open spec fn same_derived(&self, other: Levels) -> bool {
        &&& self.cytosine.same_derived(other.cytosine)
        &&& self.cpg.same_derived(other.cpg)
        &&& self.cpg_symmetric.same_derived(other.cpg_symmetric)
        &&& self.chh.same_derived(other.chh)
        &&& self.ccg.same_derived(other.ccg)
        &&& self.cxg.same_derived(other.cxg)
    }

    /// The derived fields of all six counters say what their tallies give.
    pub open spec fn derived_current(&self) -> bool {
        &&& self.cytosine.derived_current()
        &&& self.cpg.derived_current()
        &&& self.cpg_symmetric.derived_current()
        &&& self.chh.derived_current()
        &&& self.ccg.derived_current()
        &&& self.cxg.derived_current()
    }

    /// The state before the first site: six empty counters, nothing waiting.
    pub open spec fn empty() -> Levels {
        Levels {
            cytosine: LevelsCounter::empty(),
            cpg: LevelsCounter::empty(),
            cpg_symmetric: LevelsCounter::empty(),
            chh: LevelsCounter::empty(),
            ccg: LevelsCounter::empty(),
            cxg: LevelsCounter::empty(),
            pending: None,
        }
    }

    /// The state before the first site.
    pub fn new() -> (l: Levels)
        ensures
            l == Levels::empty(),
            l@ == Ledger::empty(),
            l.wf(),
    {
        Levels {
            cytosine: LevelsCounter::new(),
            cpg: LevelsCounter::new(),
            cpg_symmetric: LevelsCounter::new(),
            chh: LevelsCounter::new(),
            ccg: LevelsCounter::new(),
            cxg: LevelsCounter::new(),
            pending: None,
        }
    }

    /// The waiting site, where `site` is its mate: the pair that `step`
    /// would merge. The verdict on the merged pair is owed to `step` exactly
    /// when this is `Some`.
    pub fn mate(&self, site: &Site) -> (first: Option<Site>)
        ensures
            first == (if self@.opens_pair(site@) is Some {
                self.pending
            } else {
                None
            }),
            first matches Some(p) ==> self@.opens_pair(site@) == Some(p@),
    {
        match self.pending {
            Some(p) => {
                if p.is_mate_of(site) {
                    Some(p)
                } else {
                    None
                }
            },
            None => None,
        }
    }

    /// Whether `step` may take `site`: the run-time form of `accepts`.
    pub fn can_step(&self, site: &Site) -> (r: bool)
        requires
            self.wf(),
        ensures
            r == self.accepts(site@),
    {
        if !self.cytosine.can_update(site) {
            false
        } else {
            match self.mate(site) {
                Some(first) => site.n_reads <= u64::MAX - first.n_reads,
                None => true,
            }
        }
    }

    /// Where the all-cytosine counter has room for a site, so has every
    /// other counter, the symmetric one for the pair that the site
    /// completes.
    proof fn room_for_all(&self, site: Reading, pair_call: Call)
        requires
            self.wf(),
            site.wf(),
            self.accepts(site),
        ensures
            self.cytosine.wf(),
            self.cpg.wf(),
            self.cpg_symmetric.wf(),
            self.chh.wf(),
            self.ccg.wf(),
            self.cxg.wf(),
            self.cpg.has_room(site),
            self.chh.has_room(site),
            self.ccg.has_room(site),
            self.cxg.has_room(site),
            self@.opens_pair(site) matches Some(first) ==> first.wf()
                && self.cpg_symmetric.has_room(first.merged(site, pair_call)),
    {
    }

    /// Takes in one site.
    ///
    /// A site of no class is refused and nothing changes. Any other site is
    /// counted as `Ledger::step` says, and its class is returned. The
    /// derived fields of the counters are left as they were.
    pub fn step(&mut self, site: &Site, pair_call: Call) -> (r: Result<Class, Unclassified>)
        requires
            old(self).wf(),
            site@.wf(),
            old(self).accepts(site@),
        ensures
            final(self).wf(),
            final(self)@ == old(self)@.step(site@, pair_call),
            final(self).same_derived(*old(self)),
            match r {
                Ok(class) => site@.class() == Some(class),
                Err(_) => site@.class() is None && *final(self) == *old(self),
            },
    {
        proof {
            old(self).room_for_all(site@, pair_call);
            step_keeps_consistent(old(self)@, site@, pair_call);
        }
        match site.classify() {
            None => Err(Unclassified),
            Some(class) => {
                self.cytosine.update(site);
                match class {
                    Class::CpG => {
                        match self.mate(site) {
                            Some(first) => {
                                let pair = first.merge(site, pair_call);
                                self.cpg.update(site);
                                self.cpg_symmetric.update(&pair);
                                self.pending = None;
                            },
                            None => {
                                self.cpg.update(site);
                                self.pending = Some(*site);
                            },
                        }
                    },
                    Class::CHH => {
                        self.chh.update(site);
                    },
                    Class::CCG => {
                        self.ccg.update(site);
                    },
                    Class::CXG => {
                        self.cxg.update(site);
                    },
                }
                Ok(class)
            },
        }
    }

    /// Ends the run: a site that still waits is dropped, and the derived
    /// fields of all six counters are filled. The tallies stay as they are.
    pub fn finish(&mut self)
        requires
            old(self).wf(),
        ensures
            final(self).wf(),
            final(self).pending is None,
            final(self)@ == (Ledger { pending: None, ..old(self)@ }),
            final(self).derived_current(),
    {
        self.pending = None;
        self.cytosine.set_derived_values();
        self.cpg.set_derived_values();
        self.cpg_symmetric.set_derived_values();
        self.chh.set_derived_values();
        self.ccg.set_derived_values();
        self.cxg.set_derived_values();
    }
}

impl Default for Levels {
    fn default() -> (l: Levels)
        ensures
            l == Levels::empty(),
            l@ == Ledger::empty(),
            l.wf(),
    {
        Levels::new()
    }
}

} // verus!
