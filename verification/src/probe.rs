//! The runtime probe: which of the Java runtimes found on the host can run
//! the server, and which one is used.

use vstd::prelude::*;

verus! {

/// The oldest Java version the server runs on.
pub const MINIMUM_JAVA_VERSION: u32 = 17;

/// A Java binary found on the host. Candidates are listed from the most
/// specific install location to the least specific one.
#[derive(Clone, Debug, PartialEq, Eq)]
pub struct Candidate {
    pub path: String,
    /// The major version the binary reported, if it could be asked.
    pub version: Option<u32>,
}

/// The runtime a candidate offers: none if its version could not be read or
/// is too old.
pub open spec fn usable(candidate: Candidate) -> Option<(String, u32)> {
    match candidate.version {
        Some(version) => if version >= MINIMUM_JAVA_VERSION {
            Some((candidate.path, version))
        } else {
            None
        },
        None => None,
    }
}

/// The usable runtimes among the candidates, in the candidates' order.
pub open spec fn usable_runtimes(candidates: Seq<Candidate>) -> Seq<(String, u32)> {
    candidates.filter_map(|candidate: Candidate| usable(candidate))
}

/// The test for a runtime of the given version.
pub open spec fn has_version(version: u32) -> spec_fn((String, u32)) -> bool {
    |runtime: (String, u32)| runtime.1 == version
}

/// The runtimes of one version, in their order.
pub open spec fn of_version(runtimes: Seq<(String, u32)>, version: u32) -> Seq<(String, u32)> {
    runtimes.filter(has_version(version))
}

/// No runtime comes before a newer one.
pub open spec fn newest_first(runtimes: Seq<(String, u32)>) -> bool {
    forall|i: int, j: int| 0 <= i < j < runtimes.len() ==> runtimes[i].1 >= runtimes[j].1
}

/// `ranked` lists the usable runtimes among `candidates` by preference:
/// newer versions first and, within one version, in the candidates' own
/// order, so the more specific location first.
pub open spec fn is_ranking_of(ranked: Seq<(String, u32)>, candidates: Seq<Candidate>) -> bool {
    &&& newest_first(ranked)
    &&& forall|version: u32| #[trigger]
        of_version(ranked, version) == of_version(usable_runtimes(candidates), version)
}

/// The ranking of the usable runtimes among `candidates`. There is exactly
/// one, see [`lemma_ranking_is_determined`].
pub open spec fn ranking(candidates: Seq<Candidate>) -> Seq<(String, u32)> {
    choose|ranked: Seq<(String, u32)>| is_ranking_of(ranked, candidates)
}

/// The Java binary to use: the bundled one if there is one, else the most
/// preferred of the installed ones.
pub open spec fn selected(bundled: Option<String>, installed: Seq<(String, u32)>) -> Option<
    String,
> {
    match bundled {
        Some(path) => Some(path),
        None => if installed.len() > 0 {
            Some(installed[0].0)
        } else {
            None
        },
    }
}

proof fn lemma_of_version_push(runtimes: Seq<(String, u32)>, runtime: (String, u32), version: u32)
    ensures
        of_version(runtimes.push(runtime), version) == if runtime.1 == version {
            of_version(runtimes, version).push(runtime)
        } else {
            of_version(runtimes, version)
        },
{
    runtimes.lemma_filter_push(runtime, has_version(version));
}

proof fn lemma_of_version_none(runtimes: Seq<(String, u32)>, version: u32)
    requires
        forall|i: int| 0 <= i < runtimes.len() ==> runtimes[i].1 != version,
    ensures
        of_version(runtimes, version) == Seq::<(String, u32)>::empty(),
    decreases runtimes.len(),
{
    if runtimes.len() == 0 {
        reveal(Seq::filter);
    } else {
        lemma_of_version_none(runtimes.drop_last(), version);
        lemma_of_version_push(runtimes.drop_last(), runtimes.last(), version);
        assert(runtimes.drop_last().push(runtimes.last()) =~= runtimes);
    }
}

/// Putting a runtime behind all that are at least as new and before all
/// older ones keeps the order, and appends it to the runtimes of its version.
proof fn lemma_insert_ranked(ranked: Seq<(String, u32)>, at: int, runtime: (String, u32))
    requires
        newest_first(ranked),
        0 <= at <= ranked.len(),
        forall|i: int| 0 <= i < at ==> ranked[i].1 >= runtime.1,
        forall|i: int| at <= i < ranked.len() ==> ranked[i].1 < runtime.1,
    ensures
        newest_first(ranked.insert(at, runtime)),
        forall|version: u32| #[trigger]
            of_version(ranked.insert(at, runtime), version) == if version == runtime.1 {
                of_version(ranked, version).push(runtime)
            } else {
                of_version(ranked, version)
            },
{
    let head = ranked.take(at);
    let tail = ranked.skip(at);
    assert(ranked =~= head + tail);
    assert(ranked.insert(at, runtime) =~= head.push(runtime) + tail);
    assert forall|version: u32| #[trigger]
        of_version(ranked.insert(at, runtime), version) == if version == runtime.1 {
            of_version(ranked, version).push(runtime)
        } else {
            of_version(ranked, version)
        } by {
        let pred = has_version(version);
        Seq::filter_distributes_over_add(head, tail, pred);
        Seq::filter_distributes_over_add(head.push(runtime), tail, pred);
        lemma_of_version_push(head, runtime, version);
        if version == runtime.1 {
            lemma_of_version_none(tail, version);
            assert(of_version(head, version).push(runtime) + Seq::<(String, u32)>::empty()
                =~= of_version(head, version).push(runtime));
            assert(of_version(head, version) + Seq::<(String, u32)>::empty() =~= of_version(
                head,
                version,
            ));
        }
    }
}

proof fn lemma_usable_runtimes_next(candidates: Seq<Candidate>, k: int)
    requires
        0 <= k < candidates.len(),
    ensures
        usable_runtimes(candidates.take(k + 1)) == match usable(candidates[k]) {
            Some(runtime) => usable_runtimes(candidates.take(k)).push(runtime),
            None => usable_runtimes(candidates.take(k)),
        },
{
    candidates.lemma_filter_map_take_succ(|candidate: Candidate| usable(candidate), k);
    match usable(candidates[k]) {
        Some(runtime) => {
            assert(usable_runtimes(candidates.take(k)) + seq![runtime] =~= usable_runtimes(
                candidates.take(k),
            ).push(runtime));
        },
        None => {
            assert(usable_runtimes(candidates.take(k)) + Seq::<(String, u32)>::empty()
                =~= usable_runtimes(candidates.take(k)));
        },
    }
}

/// Two lists in which newer versions come first, and which agree on the
/// runtimes of every version and on their order, are the same list.
pub proof fn lemma_same_runtimes_same_order(a: Seq<(String, u32)>, b: Seq<(String, u32)>)
    requires
        newest_first(a),
        newest_first(b),
        forall|version: u32| #[trigger] of_version(a, version) == of_version(b, version),
    ensures
        a == b,
    decreases a.len(),
{
    if a.len() == 0 {
        if b.len() > 0 {
            let version = b[0].1;
            b.lemma_filter_contains(has_version(version), 0);
            lemma_of_version_none(a, version);
            assert(of_version(a, version) == of_version(b, version));
            assert(false);
        }
        assert(a =~= b);
    } else {
        let x = a.last();
        let front = a.drop_last();
        assert(front.push(x) =~= a);
        lemma_of_version_push(front, x, x.1);
        assert(of_version(b, x.1) == of_version(a, x.1));
        if b.len() == 0 {
            lemma_of_version_none(b, x.1);
            assert(false);
        }
        let y = b.last();
        let back = b.drop_last();
        assert(back.push(y) =~= b);
        lemma_of_version_push(back, y, y.1);
        assert(of_version(a, y.1) == of_version(b, y.1));
        let ys = of_version(b, y.1);
        assert(ys[ys.len() - 1] == y);
        assert(of_version(a, y.1).contains(y));
        a.lemma_filter_contains_rev(has_version(y.1), y);
        let i = choose|i: int| 0 <= i < a.len() && a[i] == y;
        assert(y.1 >= x.1);
        let xs = of_version(a, x.1);
        assert(xs[xs.len() - 1] == x);
        assert(of_version(b, x.1).contains(x));
        b.lemma_filter_contains_rev(has_version(x.1), x);
        let j = choose|j: int| 0 <= j < b.len() && b[j] == x;
        assert(x.1 >= y.1);
        assert(x == y);
        assert forall|version: u32| #[trigger]
            of_version(front, version) == of_version(back, version) by {
            lemma_of_version_push(front, x, version);
            lemma_of_version_push(back, y, version);
            assert(of_version(a, version) == of_version(b, version));
            if version == x.1 {
                assert(of_version(front, version) =~= of_version(a, version).drop_last());
                assert(of_version(back, version) =~= of_version(b, version).drop_last());
            }
        }
        lemma_same_runtimes_same_order(front, back);
    }
}

/// The candidates have one ranking only: whatever list meets
/// [`is_ranking_of`] is [`ranking`].
pub proof fn lemma_ranking_is_determined(ranked: Seq<(String, u32)>, candidates: Seq<Candidate>)
    requires
        is_ranking_of(ranked, candidates),
    ensures
        ranked == ranking(candidates),
{
    lemma_same_runtimes_same_order(ranked, ranking(candidates));
}

/// Candidates none of which is usable offer no runtime.
pub proof fn lemma_nothing_usable(candidates: Seq<Candidate>)
    requires
        forall|i: int| 0 <= i < candidates.len() ==> usable(#[trigger] candidates[i]) is None,
    ensures
        usable_runtimes(candidates).len() == 0,
    decreases candidates.len(),
{
    if candidates.len() > 0 {
        lemma_nothing_usable(candidates.drop_last());
    }
}

/// Every ranked runtime is usable: its version is at least
/// [`MINIMUM_JAVA_VERSION`], and one of the candidates offers it.
pub proof fn lemma_ranked_is_usable(
    ranked: Seq<(String, u32)>,
    candidates: Seq<Candidate>,
    i: int,
)
    requires
        is_ranking_of(ranked, candidates),
        0 <= i < ranked.len(),
    ensures
        ranked[i].1 >= MINIMUM_JAVA_VERSION,
        exists|k: int| 0 <= k < candidates.len() && usable(#[trigger] candidates[k]) == Some(ranked[i]),
{
    let runtime = ranked[i];
    let offered = usable_runtimes(candidates);
    ranked.lemma_filter_contains(has_version(runtime.1), i);
    assert(of_version(offered, runtime.1) == of_version(ranked, runtime.1));
    offered.lemma_filter_contains_rev(has_version(runtime.1), runtime);
    candidates.lemma_filter_map_contains(|candidate: Candidate| usable(candidate), runtime);
    let candidate = choose|candidate: Candidate| #[trigger]
        candidates.contains(candidate) && usable(candidate) == Some(runtime);
    let k = choose|k: int| 0 <= k < candidates.len() && candidates[k] == candidate;
    assert(usable(candidates[k]) == Some(runtime));
}

/// Where every installed runtime is older than [`MINIMUM_JAVA_VERSION`], or
/// of unknown version, and none is bundled, no Java binary is selected: the
/// best of the too old ones is not good enough.
pub proof fn lemma_too_old_is_never_selected(candidates: Seq<Candidate>)
    requires
        forall|i: int|
            0 <= i < candidates.len() ==> match (#[trigger] candidates[i]).version {
                Some(version) => version < MINIMUM_JAVA_VERSION,
                None => true,
            },
    ensures
        ranking(candidates).len() == 0,
        selected(None, ranking(candidates)) is None,
{
    lemma_nothing_usable(candidates);
    let offered = usable_runtimes(candidates);
    assert(offered =~= Seq::<(String, u32)>::empty());
    assert(is_ranking_of(offered, candidates));
    lemma_ranking_is_determined(offered, candidates);
}

/// Ranks the installed runtimes: drops every candidate whose version is
/// unknown or below [`MINIMUM_JAVA_VERSION`], and orders the rest by
/// preference. The result may be empty.
pub fn valid_java_paths(candidates: &Vec<Candidate>) -> (ranked: Vec<(String, u32)>)
    ensures
        ranked@ == ranking(candidates@),
        is_ranking_of(ranked@, candidates@),
        ranked@.len() == usable_runtimes(candidates@).len(),
{
    let mut ranked: Vec<(String, u32)> = Vec::new();
    let mut k: usize = 0;
    proof {
        assert(candidates@.take(0) =~= Seq::<Candidate>::empty());
        assert forall|version: u32| #[trigger]
            of_version(ranked@, version) == of_version(
                usable_runtimes(candidates@.take(0)),
                version,
            ) by {
            lemma_of_version_none(ranked@, version);
        }
    }
    while k < candidates.len()
        invariant
            k <= candidates.len(),
            is_ranking_of(ranked@, candidates@.take(k as int)),
            ranked@.len() == usable_runtimes(candidates@.take(k as int)).len(),
        decreases candidates.len() - k,
    {
        proof {
            lemma_usable_runtimes_next(candidates@, k as int);
        }
        let candidate = &candidates[k];
        let ghost before = usable_runtimes(candidates@.take(k as int));
        match candidate.version {
            Some(version) => {
                if version >= MINIMUM_JAVA_VERSION {
                    let mut at: usize = 0;
                    while at < ranked.len() && ranked[at].1 >= version
                        invariant
                            at <= ranked.len(),
                            forall|i: int| 0 <= i < at ==> ranked@[i].1 >= version,
                        decreases ranked.len() - at,
                    {
                        at += 1;
                    }
                    let runtime = (candidate.path.clone(), version);
                    proof {
                        assert(usable(candidates@[k as int]) == Some(runtime));
                        lemma_insert_ranked(ranked@, at as int, runtime);
                        assert forall|wanted: u32| #[trigger]
                            of_version(ranked@.insert(at as int, runtime), wanted) == of_version(
                                before.push(runtime),
                                wanted,
                            ) by {
                            lemma_of_version_push(before, runtime, wanted);
                        }
                    }
                    ranked.insert(at, runtime);
                }
            },
            None => {},
        }
        k += 1;
    }
    proof {
        assert(candidates@.take(k as int) =~= candidates@);
        lemma_ranking_is_determined(ranked@, candidates@);
    }
    ranked
}

/// Chooses the Java binary: a bundled runtime wins over every installed
/// one; without it the first of `installed` is taken, or none if there is
/// none.
pub fn select_java(bundled: Option<String>, installed: &Vec<(String, u32)>) -> (java: Option<
    String,
>)
    ensures
        java == selected(bundled, installed@),
        java is None <==> bundled is None && installed@.len() == 0,
{
    match bundled {
        Some(path) => Some(path),
        None => {
            if installed.len() > 0 {
                Some(installed[0].0.clone())
            } else {
                None
            }
        },
    }
}

} // verus!
