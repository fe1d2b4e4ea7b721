//! The content that fingerprints code-owner configuration: the workspace's
//! configuration and each project's, keyed by project name. Projects are kept
//! in the byte order of their names, so the content does not depend on the
//! order in which they were added.
use vstd::prelude::*;
use vstd::utf8::{encode_utf8, encode_utf8_decode_utf8};

verus! {

/// Byte-wise lexicographic order: `a` comes before `b`.
pub open spec fn bytes_lt(a: Seq<u8>, b: Seq<u8>) -> bool
    decreases a.len(),
{
    if a.len() == 0 {
        b.len() > 0
    } else if b.len() == 0 {
        false
    } else if a[0] != b[0] {
        a[0] < b[0]
    } else {
        bytes_lt(a.drop_first(), b.drop_first())
    }
}

/// The bytes by which a name is ordered: its UTF-8 encoding.
pub open spec fn name_key(name: Seq<char>) -> Seq<u8> {
    encode_utf8(name)
}

/// Names strictly increase along the sequence.
pub open spec fn names_sorted<P>(ps: Seq<(String, P)>) -> bool {
    forall|i: int, j: int|
        0 <= i < j < ps.len() ==> bytes_lt(name_key(#[trigger] ps[i].0@), name_key(#[trigger] ps[j].0@))
}

/// The name-to-configuration mapping that a sorted sequence holds.
pub open spec fn mapping_of<P>(ps: Seq<(String, P)>) -> Map<Seq<char>, P> {
    Map::new(
        |k: Seq<char>| exists|i: int| 0 <= i < ps.len() && #[trigger] ps[i].0@ == k,
        |k: Seq<char>| ps[position_of(ps, k)].1,
    )
}

/// A position at which the name stands, if it stands anywhere.
pub open spec fn position_of<P>(ps: Seq<(String, P)>, k: Seq<char>) -> int {
    choose|i: int| 0 <= i < ps.len() && #[trigger] ps[i].0@ == k
}

/// The entries in their canonical order, by name.
pub open spec fn entries_of<P>(ps: Seq<(String, P)>) -> Seq<(Seq<char>, P)> {
    ps.map_values(|e: (String, P)| (e.0@, e.1))
}

pub proof fn lemma_bytes_lt_irreflexive(a: Seq<u8>)
    ensures
        !bytes_lt(a, a),
    decreases a.len(),
{
    if a.len() > 0 {
        lemma_bytes_lt_irreflexive(a.drop_first());
    }
}

pub proof fn lemma_bytes_lt_transitive(a: Seq<u8>, b: Seq<u8>, c: Seq<u8>)
    requires
        bytes_lt(a, b),
        bytes_lt(b, c),
    ensures
        bytes_lt(a, c),
    decreases a.len(),
{
    if a.len() > 0 && b.len() > 0 && c.len() > 0 && a[0] == b[0] && b[0] == c[0] {
        lemma_bytes_lt_transitive(a.drop_first(), b.drop_first(), c.drop_first());
    }
}

pub proof fn lemma_bytes_lt_total(a: Seq<u8>, b: Seq<u8>)
    requires
        a != b,
    ensures
        bytes_lt(a, b) || bytes_lt(b, a),
    decreases a.len(),
{
    if a.len() == 0 && b.len() == 0 {
        assert(a =~= b);
    } else if a.len() > 0 && b.len() > 0 && a[0] == b[0] {
        assert(a =~= seq![a[0]] + a.drop_first());
        assert(b =~= seq![b[0]] + b.drop_first());
        lemma_bytes_lt_total(a.drop_first(), b.drop_first());
    }
}

/// In a sorted sequence each name stands once, so the mapping gives the
/// configuration stored beside it.
proof fn lemma_mapping_at<P>(ps: Seq<(String, P)>, idx: int)
    requires
        names_sorted(ps),
        0 <= idx < ps.len(),
    ensures
        mapping_of(ps).contains_key(ps[idx].0@),
        mapping_of(ps)[ps[idx].0@] == ps[idx].1,
{
    let k = ps[idx].0@;
    assert(exists|i: int| 0 <= i < ps.len() && #[trigger] ps[i].0@ == k);
    let j = position_of(ps, k);
    if j != idx {
        lemma_bytes_lt_irreflexive(name_key(k));
        if j < idx {
            assert(bytes_lt(name_key(ps[j].0@), name_key(ps[idx].0@)));
        } else {
            assert(bytes_lt(name_key(ps[idx].0@), name_key(ps[j].0@)));
        }
    }
}

/// Two sorted sequences that hold the same name-to-configuration mapping
/// hold the same entries in the same order.
proof fn lemma_sorted_canonical<P>(s1: Seq<(String, P)>, s2: Seq<(String, P)>)
    requires
        names_sorted(s1),
        names_sorted(s2),
        mapping_of(s1) == mapping_of(s2),
    ensures
        entries_of(s1) == entries_of(s2),
    decreases s1.len(),
{
    if s1.len() == 0 {
        if s2.len() > 0 {
            lemma_mapping_at(s2, 0);
        }
        assert(entries_of(s1) =~= entries_of(s2));
    } else if s2.len() == 0 {
        lemma_mapping_at(s1, 0);
    } else {
        lemma_mapping_at(s1, 0);
        lemma_mapping_at(s2, 0);
        let k1 = s1[0].0@;
        let k2 = s2[0].0@;
        let i = choose|i: int| 0 <= i < s1.len() && #[trigger] s1[i].0@ == k2;
        let j = choose|j: int| 0 <= j < s2.len() && #[trigger] s2[j].0@ == k1;
        if k1 != k2 {
            assert(i != 0 && j != 0);
            assert(bytes_lt(name_key(s1[0].0@), name_key(s1[i].0@)));
            assert(bytes_lt(name_key(s2[0].0@), name_key(s2[j].0@)));
            lemma_bytes_lt_transitive(name_key(k1), name_key(k2), name_key(k1));
            lemma_bytes_lt_irreflexive(name_key(k1));
        }
        let t1 = s1.drop_first();
        let t2 = s2.drop_first();
        assert forall|k: Seq<char>| #[trigger] mapping_of(t1).contains_key(k) <==> mapping_of(t2).contains_key(k) by {
            if mapping_of(t1).contains_key(k) {
                let a = choose|a: int| 0 <= a < t1.len() && #[trigger] t1[a].0@ == k;
                lemma_mapping_at(s1, a + 1);
                let b = choose|b: int| 0 <= b < s2.len() && #[trigger] s2[b].0@ == k;
                assert(bytes_lt(name_key(s1[0].0@), name_key(s1[a + 1].0@)));
                lemma_bytes_lt_irreflexive(name_key(k));
                assert(b != 0);
                assert(t2[b - 1].0@ == k);
            }
            if mapping_of(t2).contains_key(k) {
                let a = choose|a: int| 0 <= a < t2.len() && #[trigger] t2[a].0@ == k;
                lemma_mapping_at(s2, a + 1);
                let b = choose|b: int| 0 <= b < s1.len() && #[trigger] s1[b].0@ == k;
                assert(bytes_lt(name_key(s2[0].0@), name_key(s2[a + 1].0@)));
                lemma_bytes_lt_irreflexive(name_key(k));
                assert(b != 0);
                assert(t1[b - 1].0@ == k);
            }
        }
        assert forall|k: Seq<char>| #[trigger] mapping_of(t1).contains_key(k) implies mapping_of(t1)[k] == mapping_of(t2)[k] by {
            let a = choose|a: int| 0 <= a < t1.len() && #[trigger] t1[a].0@ == k;
            let b = choose|b: int| 0 <= b < t2.len() && #[trigger] t2[b].0@ == k;
            lemma_mapping_at(s1, a + 1);
            lemma_mapping_at(s2, b + 1);
            lemma_mapping_at(t1, a);
            lemma_mapping_at(t2, b);
        }
        assert(mapping_of(t1) =~= mapping_of(t2));
        lemma_sorted_canonical(t1, t2);
        assert(entries_of(s1) =~= seq![entries_of(s1)[0]] + entries_of(t1));
        assert(entries_of(s2) =~= seq![entries_of(s2)[0]] + entries_of(t2));
    }
}


pub open spec fn occurs_in<T>(s: Seq<T>, e: T) -> bool {
    exists|i: int| 0 <= i < s.len() && s[i] == e
}

/// An insertion, or a replacement, of one entry into a sorted sequence maps
/// the name to its new configuration and leaves every other name as it was.
proof fn lemma_mapping_insert<P>(ps: Seq<(String, P)>, q: Seq<(String, P)>, k: int, name: Seq<char>, cfg: P)
    requires
        names_sorted(ps),
        names_sorted(q),
        0 <= k < q.len(),
        q[k].0@ == name,
        q[k].1 == cfg,
        forall|i: int| 0 <= i < q.len() && i != k ==> occurs_in(ps, #[trigger] q[i]),
        forall|j: int| 0 <= j < ps.len() && ps[j].0@ != name ==> occurs_in(q, #[trigger] ps[j]),
    ensures
        mapping_of(q) == mapping_of(ps).insert(name, cfg),
{
    let m = mapping_of(ps).insert(name, cfg);
    lemma_mapping_at(q, k);
    assert forall|x: Seq<char>| #[trigger] mapping_of(q).contains_key(x) <==> m.contains_key(x) by {
        if x != name {
            if mapping_of(q).contains_key(x) {
                let i = position_of(q, x);
                let j = choose|j: int| 0 <= j < ps.len() && #[trigger] ps[j] == q[i];
                lemma_mapping_at(ps, j);
            }
            if mapping_of(ps).contains_key(x) {
                let j = position_of(ps, x);
                let i = choose|i: int| 0 <= i < q.len() && #[trigger] q[i] == ps[j];
                lemma_mapping_at(q, i);
            }
        }
    }
    assert forall|x: Seq<char>| #[trigger] mapping_of(q).contains_key(x) implies mapping_of(q)[x] == m[x] by {
        if x != name {
            let i = position_of(q, x);
            lemma_mapping_at(q, i);
            let j = choose|j: int| 0 <= j < ps.len() && #[trigger] ps[j] == q[i];
            lemma_mapping_at(ps, j);
        }
    }
    assert(mapping_of(q) =~= m);
}

/// Whether `a` comes before `b` in the byte order of their UTF-8 encodings.
pub fn name_less(a: &str, b: &str) -> (r: bool)
    ensures
        r == bytes_lt(name_key(a@), name_key(b@)),
{
    let x = a.as_bytes();
    let y = b.as_bytes();
    let ghost xs = x@;
    let ghost ys = y@;
    let mut i: usize = 0;
    assert(xs.skip(0) =~= xs);
    assert(ys.skip(0) =~= ys);
    while i < x.len() && i < y.len()
        invariant
            xs == x@,
            ys == y@,
            xs == name_key(a@),
            ys == name_key(b@),
            0 <= i <= xs.len(),
            i <= ys.len(),
            bytes_lt(xs, ys) == bytes_lt(xs.skip(i as int), ys.skip(i as int)),
        decreases xs.len() - i,
    {
        if x[i] != y[i] {
            return x[i] < y[i];
        }
        assert(xs.skip(i as int).drop_first() =~= xs.skip(i + 1));
        assert(ys.skip(i as int).drop_first() =~= ys.skip(i + 1));
        i = i + 1;
    }
    i == x.len() && i < y.len()
}

/// The inputs to the code-owner fingerprint: the workspace's configuration
/// and each project's, in the byte order of the project names.
pub struct CodeownersHash<W, P> {
    workspace: W,
    projects: Vec<(String, P)>,
}

impl<W, P> CodeownersHash<W, P> {
    /// The names stand in strictly increasing order.
    pub closed spec fn well_formed(&self) -> bool {
        names_sorted(self.projects@)
    }

    /// The projects added, by name.
    pub closed spec fn projects(&self) -> Map<Seq<char>, P> {
        mapping_of(self.projects@)
    }

    /// What is hashed beside the workspace configuration: each project's
    /// name and configuration, in canonical order.
    pub closed spec fn content(&self) -> Seq<(Seq<char>, P)> {
        entries_of(self.projects@)
    }

    pub closed spec fn workspace_config(&self) -> W {
        self.workspace
    }

    /// A fingerprint of the workspace configuration with no projects yet.
    pub fn new(workspace: W) -> (r: Self)
        ensures
            r.well_formed(),
            r.workspace_config() == workspace,
            r.projects() == Map::<Seq<char>, P>::empty(),
            r.content() == Seq::<(Seq<char>, P)>::empty(),
    {
        let r = CodeownersHash { workspace, projects: Vec::new() };
        assert(r.projects() =~= Map::<Seq<char>, P>::empty());
        assert(r.content() =~= Seq::<(Seq<char>, P)>::empty());
        r
    }

    /// Adds a project's configuration under its name, replacing the one that
    /// the name had.
    pub fn add_project(&mut self, name: &str, config: P)
        requires
            old(self).well_formed(),
        ensures
            final(self).well_formed(),
            final(self).projects() == old(self).projects().insert(name@, config),
            final(self).workspace_config() == old(self).workspace_config(),
    {
        let ghost ps = self.projects@;
        let mut k: usize = 0;
        while k < self.projects.len() && name_less(self.projects[k].0.as_str(), name)
            invariant
                ps == self.projects@,
                names_sorted(ps),
                0 <= k <= ps.len(),
                forall|i: int| 0 <= i < k ==> bytes_lt(name_key(#[trigger] ps[i].0@), name_key(name@)),
            decreases ps.len() - k,
        {
            k = k + 1;
        }
        let owned = name.to_owned();
        if k < self.projects.len() && !name_less(name, self.projects[k].0.as_str()) {
            proof {
                if name_key(ps[k as int].0@) != name_key(name@) {
                    lemma_bytes_lt_total(name_key(ps[k as int].0@), name_key(name@));
                }
                encode_utf8_decode_utf8(ps[k as int].0@);
                encode_utf8_decode_utf8(name@);
            }
            self.projects.set(k, (owned, config));
            proof {
                let q = self.projects@;
                assert forall|i: int, j: int| 0 <= i < j < q.len() implies bytes_lt(name_key(#[trigger] q[i].0@), name_key(#[trigger] q[j].0@)) by {
                    assert(bytes_lt(name_key(ps[i].0@), name_key(ps[j].0@)));
                }
                assert forall|i: int| 0 <= i < q.len() && i != k implies occurs_in(ps, #[trigger] q[i]) by {
                    assert(ps[i] == q[i]);
                }
                assert forall|j: int| 0 <= j < ps.len() && ps[j].0@ != name@ implies occurs_in(q, #[trigger] ps[j]) by {
                    assert(q[j] == ps[j]);
                }
                lemma_mapping_insert(ps, q, k as int, name@, config);
            }
        } else {
            proof {
                if k < ps.len() {
                    lemma_bytes_lt_total(name_key(ps[k as int].0@), name_key(name@));
                }
            }
            self.projects.insert(k, (owned, config));
            proof {
                let q = self.projects@;
                assert forall|i: int, j: int| 0 <= i < j < q.len() implies bytes_lt(name_key(#[trigger] q[i].0@), name_key(#[trigger] q[j].0@)) by {
                    if j < k {
                        assert(bytes_lt(name_key(ps[i].0@), name_key(ps[j].0@)));
                    } else if j == k {
                    } else if i < k {
                        if j - 1 > k {
                            assert(bytes_lt(name_key(ps[k as int].0@), name_key(ps[j - 1].0@)));
                            lemma_bytes_lt_transitive(name_key(name@), name_key(ps[k as int].0@), name_key(ps[j - 1].0@));
                        }
                        lemma_bytes_lt_transitive(name_key(ps[i].0@), name_key(name@), name_key(ps[j - 1].0@));
                    } else if i == k {
                        if j - 1 > k {
                            assert(bytes_lt(name_key(ps[k as int].0@), name_key(ps[j - 1].0@)));
                            lemma_bytes_lt_transitive(name_key(name@), name_key(ps[k as int].0@), name_key(ps[j - 1].0@));
                        }
                    } else {
                        assert(bytes_lt(name_key(ps[i - 1].0@), name_key(ps[j - 1].0@)));
                    }
                }
                assert forall|i: int| 0 <= i < q.len() && i != k implies occurs_in(ps, #[trigger] q[i]) by {
                    if i < k {
                        assert(ps[i] == q[i]);
                    } else {
                        assert(ps[i - 1] == q[i]);
                    }
                }
                assert forall|j: int| 0 <= j < ps.len() && ps[j].0@ != name@ implies occurs_in(q, #[trigger] ps[j]) by {
                    if j < k {
                        assert(q[j] == ps[j]);
                    } else {
                        assert(q[j + 1] == ps[j]);
                    }
                }
                lemma_mapping_insert(ps, q, k as int, name@, config);
            }
        }
    }

    /// The workspace configuration.
    pub fn workspace(&self) -> (r: &W)
        ensures
            *r == self.workspace_config(),
    {
        &self.workspace
    }

    /// The projects' names and configurations, in strictly increasing byte
    /// order of name.
    pub fn entries(&self) -> (r: &Vec<(String, P)>)
        ensures
            entries_of(r@) == self.content(),
            mapping_of(r@) == self.projects(),
            self.well_formed() ==> names_sorted(r@),
    {
        &self.projects
    }
}

/// The fingerprint's content depends on the workspace configuration and on
/// the name-to-configuration mapping alone: projects added in any order give
/// the same content.
pub proof fn lemma_content_order_independent<W, P>(h1: CodeownersHash<W, P>, h2: CodeownersHash<W, P>)
    requires
        h1.well_formed(),
        h2.well_formed(),
        h1.projects() == h2.projects(),
    ensures
        h1.content() == h2.content(),
{
    lemma_sorted_canonical(h1.projects@, h2.projects@);
}

} // verus!
