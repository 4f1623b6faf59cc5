//! One observed cytosine, as the counters read it.
use vstd::prelude::*;

verus! {

/// The strand of the reference on which a cytosine lies.
#[derive(Clone, Copy, Debug, PartialEq, Eq, Structural)]
pub enum Strand {
    Forward,
    Reverse,
}

/// The sequence context that decides which counter a site goes to.
#[derive(Clone, Copy, Debug, PartialEq, Eq, Structural)]
pub enum Class {
    CpG,
    CHH,
    CCG,
    CXG,
}

/// What the interval test at one half says of a site's methylation level.
///
/// `Methylated` stands for an interval that lies wholly above one half,
/// `Unmethylated` for one wholly below it, `Inconclusive` for one that
/// reaches one half. The three exclude each other, so no site is ever called
/// both ways.
#[derive(Clone, Copy, Debug, PartialEq, Eq, Structural)]
pub enum Call {
    Methylated,
    Unmethylated,
    Inconclusive,
}

/// One genomic position with its read counts.
///
/// The four context flags say which context tests the record passed; more
/// than one may be set, and `classify` settles the order among them. `call`
/// is the verdict of the interval test on the site's methylation level; it
/// is read only where the site is covered.
#[derive(Clone, Copy, Debug, PartialEq, Eq, Structural)]
pub struct Site {
    pub pos: u64,
    pub strand: Strand,
    pub cpg: bool,
    pub chh: bool,
    pub ccg: bool,
    pub cxg: bool,
    pub mutated: bool,
    pub n_reads: u64,
    pub n_meth: u64,
    pub call: Call,
}

/// A site as the contracts see it: the same record with its position and
/// counts as natural numbers, so that merging two of them knows no limit.
pub struct Reading {
    pub pos: nat,
    pub strand: Strand,
    pub cpg: bool,
    pub chh: bool,
    pub ccg: bool,
    pub cxg: bool,
    pub mutated: bool,
    pub n_reads: nat,
    pub n_meth: nat,
    pub call: Call,
}

impl Reading {
    /// No more methylated reads than reads.
    pub open spec fn wf(self) -> bool {
        self.n_meth <= self.n_reads
    }

    /// A site counts towards coverage when it is not mutated and has reads.
    pub open spec fn covered(self) -> bool {
        !self.mutated && self.n_reads > 0
    }

    /// The reads that the site adds to coverage.
    pub open spec fn depth(self) -> nat {
        if self.mutated {
            0
        } else {
            self.n_reads
        }
    }

    /// The first context, in the order CpG, CHH, CCG, CXG, whose flag is set.
    pub open spec fn class(self) -> Option<Class> {
        if self.cpg {
            Some(Class::CpG)
        } else if self.chh {
            Some(Class::CHH)
        } else if self.ccg {
            Some(Class::CCG)
        } else if self.cxg {
            Some(Class::CXG)
        } else {
            None
        }
    }

    /// `self` and `second` are the two strands of one CpG dinucleotide:
    /// both are CpG sites, `self` on the forward strand, `second` on the
    /// reverse strand one position further on.
    pub open spec fn mates(self, second: Reading) -> bool {
        &&& self.cpg
        &&& second.cpg
        &&& self.strand == Strand::Forward
        &&& second.strand == Strand::Reverse
        &&& self.pos + 1 == second.pos
    }

    /// The two strands of a pair read as one observation: the counts are
    /// summed, the pair is mutated when either strand is, its verdict is
    /// `call`, and position, strand and context are those of `self`.
    pub open spec fn merged(self, second: Reading, call: Call) -> Reading {
        Reading {
            mutated: self.mutated || second.mutated,
            n_reads: self.n_reads + second.n_reads,
            n_meth: self.n_meth + second.n_meth,
            call,
            ..self
        }
    }
}

impl View for Site {
    type V = Reading;

    open spec fn view(&self) -> Reading {
        Reading {
            pos: self.pos as nat,
            strand: self.strand,
            cpg: self.cpg,
            chh: self.chh,
            ccg: self.ccg,
            cxg: self.cxg,
            mutated: self.mutated,
            n_reads: self.n_reads as nat,
            n_meth: self.n_meth as nat,
            call: self.call,
        }
    }
}

impl Site {
    /// Whether the site counts towards coverage.
    pub fn is_covered(&self) -> (r: bool)
        ensures
            r == self@.covered(),
    {
        !self.mutated && self.n_reads > 0
    }

    /// The context class of the site, `None` where no context flag is set.
    pub fn classify(&self) -> (c: Option<Class>)
        ensures
            c == self@.class(),
            c is None <==> !(self.cpg || self.chh || self.ccg || self.cxg),
            c == Some(Class::CpG) <==> self.cpg,
    {
        if self.cpg {
            Some(Class::CpG)
        } else if self.chh {
            Some(Class::CHH)
        } else if self.ccg {
            Some(Class::CCG)
        } else if self.cxg {
            Some(Class::CXG)
        } else {
            None
        }
    }

    /// Whether `second` completes a symmetric pair that `self` began.
    pub fn is_mate_of(&self, second: &Site) -> (r: bool)
        ensures
            r == self@.mates(second@),
    {
        let forward: bool = match self.strand {
            Strand::Forward => true,
            Strand::Reverse => false,
        };
        let reverse: bool = match second.strand {
            Strand::Forward => false,
            Strand::Reverse => true,
        };
        self.cpg && second.cpg && forward && reverse && self.pos < u64::MAX && self.pos + 1
            == second.pos
    }

    /// Merges `second` into `self`, with `call` as the verdict on the pair.
    pub fn merge(&self, second: &Site, call: Call) -> (m: Site)
        requires
            self@.wf(),
            second@.wf(),
            self.n_reads + second.n_reads <= u64::MAX,
        ensures
            m@ == self@.merged(second@, call),
            m@.wf(),
    {
        Site {
            pos: self.pos,
            strand: self.strand,
            cpg: self.cpg,
            chh: self.chh,
            ccg: self.ccg,
            cxg: self.cxg,
            mutated: self.mutated || second.mutated,
            n_reads: self.n_reads + second.n_reads,
            n_meth: self.n_meth + second.n_meth,
            call,
        }
    }
}

} // verus!
