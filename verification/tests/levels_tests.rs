use mlevels::{Call, Class, Fraction, Levels, LevelsCounter, Site, Strand, Unclassified};

fn cpg(pos: u64, strand: Strand, n_reads: u64, n_meth: u64, call: Call) -> Site {
    Site {
        pos,
        strand,
        cpg: true,
        chh: false,
        ccg: false,
        cxg: false,
        mutated: false,
        n_reads,
        n_meth,
        call,
    }
}

fn other(class: Class, pos: u64, n_reads: u64, n_meth: u64, call: Call) -> Site {
    Site {
        pos,
        strand: Strand::Forward,
        cpg: false,
        chh: matches!(class, Class::CHH),
        ccg: matches!(class, Class::CCG),
        cxg: matches!(class, Class::CXG),
        mutated: false,
        n_reads,
        n_meth,
        call,
    }
}

fn sums_hold(l: &Levels) {
    let parts = [&l.cpg, &l.chh, &l.ccg, &l.cxg];
    assert_eq!(l.cytosine.total_sites, parts.iter().map(|c| c.total_sites).sum::<u64>());
    assert_eq!(l.cytosine.sites_covered, parts.iter().map(|c| c.sites_covered).sum::<u64>());
    assert_eq!(l.cytosine.total_c, parts.iter().map(|c| c.total_c).sum::<u64>());
    assert_eq!(l.cytosine.total_t, parts.iter().map(|c| c.total_t).sum::<u64>());
    assert_eq!(l.cytosine.mutations, parts.iter().map(|c| c.mutations).sum::<u64>());
    assert_eq!(l.cytosine.called_meth, parts.iter().map(|c| c.called_meth).sum::<u64>());
    assert_eq!(l.cytosine.called_unmeth, parts.iter().map(|c| c.called_unmeth).sum::<u64>());
    assert_eq!(l.cytosine.max_depth, parts.iter().map(|c| c.max_depth).max().unwrap());
    let waiting: u64 = if l.pending.is_some() { 1 } else { 0 };
    assert!(2 * l.cpg_symmetric.total_sites + waiting <= l.cpg.total_sites);
}

#[test]
fn new_levels_are_empty() {
    let l = Levels::new();
    let empty = LevelsCounter::new();
    assert_eq!(l.cytosine, empty);
    assert_eq!(l.cpg, empty);
    assert_eq!(l.cpg_symmetric, empty);
    assert_eq!(l.chh, empty);
    assert_eq!(l.ccg, empty);
    assert_eq!(l.cxg, empty);
    assert_eq!(l.pending, None);
}

#[test]
fn each_class_goes_to_its_counter() {
    let mut l = Levels::new();
    assert_eq!(
        l.step(&other(Class::CHH, 1, 3, 1, Call::Inconclusive), Call::Inconclusive),
        Ok(Class::CHH)
    );
    assert_eq!(
        l.step(&other(Class::CCG, 2, 5, 1, Call::Unmethylated), Call::Inconclusive),
        Ok(Class::CCG)
    );
    assert_eq!(
        l.step(&other(Class::CCG, 3, 6, 6, Call::Methylated), Call::Inconclusive),
        Ok(Class::CCG)
    );
    assert_eq!(
        l.step(&other(Class::CXG, 4, 7, 0, Call::Unmethylated), Call::Inconclusive),
        Ok(Class::CXG)
    );
    assert_eq!(
        l.step(&cpg(5, Strand::Reverse, 2, 2, Call::Inconclusive), Call::Inconclusive),
        Ok(Class::CpG)
    );
    assert_eq!(l.cytosine.total_sites, 5);
    assert_eq!(l.chh.total_sites, 1);
    assert_eq!(l.ccg.total_sites, 2);
    assert_eq!(l.cxg.total_sites, 1);
    assert_eq!(l.cpg.total_sites, 1);
    assert_eq!(l.cpg_symmetric.total_sites, 0);
    assert_eq!(l.cytosine.total_c, 10);
    assert_eq!(l.cytosine.total_t, 13);
    assert_eq!(l.ccg.total_c, 7);
    assert_eq!(l.ccg.total_t, 4);
    assert_eq!(l.cytosine.max_depth, 7);
    assert_eq!(l.cytosine.called_meth, 1);
    assert_eq!(l.cytosine.called_unmeth, 2);
    sums_hold(&l);
}

#[test]
fn site_of_no_class_is_refused() {
    let mut l = Levels::new();
    l.step(&cpg(5, Strand::Forward, 2, 2, Call::Inconclusive), Call::Inconclusive).unwrap();
    let before = l;
    let mut bad = cpg(6, Strand::Reverse, 4, 1, Call::Unmethylated);
    bad.cpg = false;
    assert_eq!(l.step(&bad, Call::Methylated), Err(Unclassified));
    assert_eq!(l, before);
}

#[test]
fn two_mates_make_one_symmetric_observation() {
    let a = cpg(100, Strand::Forward, 5, 4, Call::Inconclusive);
    let b = cpg(101, Strand::Reverse, 7, 6, Call::Methylated);
    let mut l = Levels::new();
    assert_eq!(l.mate(&a), None);
    assert_eq!(l.step(&a, Call::Unmethylated), Ok(Class::CpG));
    assert_eq!(l.pending, Some(a));
    assert_eq!(l.cpg_symmetric.total_sites, 0);
    assert_eq!(l.mate(&b), Some(a));
    assert_eq!(l.step(&b, Call::Methylated), Ok(Class::CpG));
    assert_eq!(l.pending, None);
    let mut pair = LevelsCounter::new();
    pair.update(&a.merge(&b, Call::Methylated));
    assert_eq!(l.cpg_symmetric, pair);
    assert_eq!(l.cpg_symmetric.total_sites, 1);
    assert_eq!(l.cpg_symmetric.sites_covered, 1);
    assert_eq!(l.cpg_symmetric.total_c, 10);
    assert_eq!(l.cpg_symmetric.total_t, 2);
    assert_eq!(l.cpg_symmetric.max_depth, 12);
    assert_eq!(l.cpg_symmetric.called_meth, 1);
    assert_eq!(l.cpg.total_sites, 2);
    assert_eq!(l.cpg.called_meth, 1);
    assert_eq!(l.cpg.max_depth, 7);
    assert_eq!(l.cytosine.total_sites, 2);
    sums_hold(&l);
}

#[test]
fn third_cpg_waits_and_is_dropped_at_the_end() {
    let a = cpg(100, Strand::Forward, 5, 4, Call::Inconclusive);
    let b = cpg(101, Strand::Reverse, 7, 6, Call::Methylated);
    let c = cpg(200, Strand::Forward, 9, 0, Call::Unmethylated);
    let mut l = Levels::new();
    l.step(&a, Call::Inconclusive).unwrap();
    l.step(&b, Call::Methylated).unwrap();
    let symmetric = l.cpg_symmetric;
    assert_eq!(l.mate(&c), None);
    l.step(&c, Call::Unmethylated).unwrap();
    assert_eq!(l.cpg_symmetric, symmetric);
    assert_eq!(l.pending, Some(c));
    assert_eq!(l.cpg.total_sites, 3);
    sums_hold(&l);
    l.finish();
    assert_eq!(l.pending, None);
    assert_eq!(l.cpg_symmetric.total_sites, 1);
    assert_eq!(l.cpg_symmetric.coverage, 12);
    assert_eq!(l.cpg.coverage, 21);
}

#[test]
fn reverse_mate_of_the_pair_does_not_pair_again() {
    let a = cpg(100, Strand::Forward, 5, 4, Call::Inconclusive);
    let b = cpg(101, Strand::Reverse, 7, 6, Call::Methylated);
    let c = cpg(102, Strand::Reverse, 1, 0, Call::Inconclusive);
    let mut l = Levels::new();
    l.step(&a, Call::Inconclusive).unwrap();
    l.step(&b, Call::Methylated).unwrap();
    l.step(&c, Call::Methylated).unwrap();
    assert_eq!(l.cpg_symmetric.total_sites, 1);
    assert_eq!(l.pending, Some(c));
}

#[test]
fn cpg_that_is_no_mate_takes_the_place_of_the_waiting_one() {
    let a = cpg(100, Strand::Forward, 5, 4, Call::Inconclusive);
    let far = cpg(150, Strand::Forward, 3, 0, Call::Inconclusive);
    let mate_of_far = cpg(151, Strand::Reverse, 2, 1, Call::Inconclusive);
    let mut l = Levels::new();
    l.step(&a, Call::Inconclusive).unwrap();
    l.step(&far, Call::Methylated).unwrap();
    assert_eq!(l.pending, Some(far));
    assert_eq!(l.cpg_symmetric, LevelsCounter::new());
    l.step(&mate_of_far, Call::Unmethylated).unwrap();
    assert_eq!(l.pending, None);
    assert_eq!(l.cpg_symmetric.total_sites, 1);
    assert_eq!(l.cpg_symmetric.total_c, 1);
    assert_eq!(l.cpg_symmetric.total_t, 4);
    assert_eq!(l.cpg_symmetric.called_unmeth, 1);
    assert_eq!(l.cpg.total_sites, 3);
    sums_hold(&l);
}

#[test]
fn other_classes_do_not_touch_the_waiting_site() {
    let a = cpg(100, Strand::Forward, 5, 4, Call::Inconclusive);
    let b = cpg(101, Strand::Reverse, 7, 6, Call::Methylated);
    let mut l = Levels::new();
    l.step(&a, Call::Inconclusive).unwrap();
    l.step(&other(Class::CHH, 100, 3, 0, Call::Inconclusive), Call::Methylated).unwrap();
    assert_eq!(l.pending, Some(a));
    assert_eq!(l.cpg_symmetric.total_sites, 0);
    l.step(&other(Class::CXG, 101, 3, 3, Call::Inconclusive), Call::Methylated).unwrap();
    assert_eq!(l.pending, Some(a));
    l.step(&b, Call::Methylated).unwrap();
    assert_eq!(l.pending, None);
    assert_eq!(l.cpg_symmetric.total_sites, 1);
    assert_eq!(l.cpg_symmetric.total_c, 10);
    assert_eq!(l.cytosine.total_sites, 4);
    sums_hold(&l);
}

#[test]
fn pair_with_a_mutated_strand_counts_as_mutation() {
    let a = cpg(100, Strand::Forward, 5, 4, Call::Inconclusive);
    let mut b = cpg(101, Strand::Reverse, 7, 6, Call::Methylated);
    b.mutated = true;
    let mut l = Levels::new();
    l.step(&a, Call::Inconclusive).unwrap();
    l.step(&b, Call::Methylated).unwrap();
    assert_eq!(l.cpg_symmetric.total_sites, 1);
    assert_eq!(l.cpg_symmetric.mutations, 1);
    assert_eq!(l.cpg_symmetric.sites_covered, 0);
    assert_eq!(l.cpg_symmetric.total_c, 0);
    assert_eq!(l.cpg_symmetric.called_meth, 0);
    assert_eq!(l.cpg.mutations, 1);
    assert_eq!(l.cpg.sites_covered, 1);
    sums_hold(&l);
}

#[test]
fn four_lines_end_to_end() {
    let mut first = other(Class::CHH, 10, 4, 2, Call::Inconclusive);
    first.mutated = true;
    let mut second = cpg(20, Strand::Reverse, 6, 6, Call::Methylated);
    second.mutated = true;
    let third = other(Class::CHH, 30, 10, 8, Call::Methylated);
    let fourth = cpg(40, Strand::Forward, 10, 1, Call::Unmethylated);
    let mut l = Levels::new();
    for s in [first, second, third, fourth] {
        assert!(l.can_step(&s));
        assert_eq!(l.mate(&s), None);
        l.step(&s, Call::Inconclusive).unwrap();
    }
    l.finish();
    assert_eq!(l.cytosine.total_sites, 4);
    assert_eq!(l.cytosine.mutations, 2);
    assert_eq!(l.cytosine.sites_covered, 2);
    assert_eq!(l.chh.sites_covered, 1);
    assert_eq!(l.chh.called_meth, 1);
    assert_eq!(l.chh.called_unmeth, 0);
    assert_eq!(l.cpg.sites_covered, 1);
    assert_eq!(l.cpg.called_unmeth, 1);
    assert_eq!(l.cpg.called_meth, 0);
    assert_eq!(l.cpg_symmetric.total_sites, 0);
    assert_eq!(l.cytosine.coverage, 20);
    assert_eq!(l.cytosine.max_depth, 10);
    assert_eq!(l.cytosine.sites_covered_fraction, Fraction { num: 2, den: 4 });
    assert_eq!(l.cytosine.mean_depth, Fraction { num: 20, den: 4 });
    assert_eq!(l.cytosine.mean_depth_covered, Fraction { num: 20, den: 2 });
    assert_eq!(l.cytosine.mean_meth_weighted, Fraction { num: 9, den: 20 });
    assert_eq!(l.cytosine.fractional_meth, Fraction { num: 1, den: 2 });
    assert_eq!(l.chh.mean_meth_weighted, Fraction { num: 8, den: 10 });
    assert_eq!(l.cpg.fractional_meth, Fraction { num: 0, den: 1 });
    assert_eq!(l.cpg_symmetric.mean_meth_weighted, Fraction { num: 0, den: 1 });
    assert_eq!(l.cpg_symmetric.fractional_meth, Fraction { num: 0, den: 1 });
    assert_eq!(l.cpg_symmetric.mean_depth, Fraction { num: 0, den: 0 });
    assert_eq!(l.ccg, {
        let mut c = LevelsCounter::new();
        c.set_derived_values();
        c
    });
    assert_eq!(l.pending, None);
}

#[test]
fn finish_keeps_the_tallies() {
    let mut l = Levels::new();
    l.step(&cpg(1, Strand::Forward, 5, 4, Call::Methylated), Call::Inconclusive).unwrap();
    l.step(&other(Class::CCG, 3, 8, 1, Call::Unmethylated), Call::Inconclusive).unwrap();
    let before = l;
    l.finish();
    assert_eq!(l.cytosine.total_sites, before.cytosine.total_sites);
    assert_eq!(l.cytosine.total_c, before.cytosine.total_c);
    assert_eq!(l.cytosine.total_t, before.cytosine.total_t);
    assert_eq!(l.cpg.total_sites, 1);
    assert_eq!(l.ccg.total_sites, 1);
    assert_eq!(l.cytosine.coverage, 13);
    assert_eq!(l.ccg.coverage, 8);
    assert_eq!(l.cpg.coverage, 5);
    assert_eq!(l.cpg_symmetric.coverage, 0);
}

#[test]
fn can_step_refuses_what_would_overflow() {
    let mut l = Levels::new();
    let big = cpg(100, Strand::Forward, u64::MAX - 3, 0, Call::Unmethylated);
    assert!(l.can_step(&big));
    l.step(&big, Call::Inconclusive).unwrap();
    assert!(l.can_step(&cpg(101, Strand::Reverse, 3, 3, Call::Methylated)));
    assert!(!l.can_step(&cpg(101, Strand::Reverse, 4, 3, Call::Methylated)));
    assert!(!l.can_step(&other(Class::CHH, 101, 4, 3, Call::Methylated)));
    assert!(l.can_step(&other(Class::CHH, 101, 0, 0, Call::Inconclusive)));
    let mut mutated_mate = cpg(101, Strand::Reverse, 4, 3, Call::Methylated);
    mutated_mate.mutated = true;
    assert!(!l.can_step(&mutated_mate));
    mutated_mate.n_reads = 3;
    assert!(l.can_step(&mutated_mate));
    l.step(&mutated_mate, Call::Inconclusive).unwrap();
    assert_eq!(l.cpg_symmetric.mutations, 1);
    assert_eq!(l.cpg_symmetric.total_sites, 1);
}
