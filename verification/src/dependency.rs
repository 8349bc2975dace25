//! Per-source dependency accumulation.
//!
//! A [`DataDependencyGraph`] records, for every named external source, which
//! representations the generated shader must materialize (RGB vector, HSV
//! vector, normalized half-spherical point). Requirements for one source
//! merge additively (boolean OR over the three flags) and entries keep their
//! first-insertion order, so generated parameter lists are reproducible.

use vstd::prelude::*;

use crate::color::{is_hsv_property, ColorProperties};
use crate::data::{DataSource, DataSourceKind};

verus! {

/// The representations one external source must be materialized in.
#[derive(Clone, Copy, PartialEq, Eq, Structural, Debug)]
pub struct DataDependency {
    pub require_rgb: bool,
    pub require_hsv: bool,
    pub require_point: bool,
}

/// No representation required (a plain float needs no color-space
/// materialization).
pub open spec fn dep_none() -> DataDependency {
    DataDependency { require_rgb: false, require_hsv: false, require_point: false }
}

/// Only the HSV vector required.
pub open spec fn dep_hsv() -> DataDependency {
    DataDependency { require_rgb: false, require_hsv: true, require_point: false }
}

/// Only the RGB vector required.
pub open spec fn dep_rgb() -> DataDependency {
    DataDependency { require_rgb: true, require_hsv: false, require_point: false }
}

/// Only the half-spherical point required.
pub open spec fn dep_point() -> DataDependency {
    DataDependency { require_rgb: false, require_hsv: false, require_point: true }
}

/// Additive merge of two requirement sets: boolean OR on each flag. A
/// requirement, once set, is never reset.
pub open spec fn merge_deps(a: DataDependency, b: DataDependency) -> DataDependency {
    DataDependency {
        require_rgb: a.require_rgb || b.require_rgb,
        require_hsv: a.require_hsv || b.require_hsv,
        require_point: a.require_point || b.require_point,
    }
}

/// Two binding points are the same source when their names spell the same
/// text and their kinds agree.
pub open spec fn same_source(a: DataSource, b: DataSource) -> bool {
    a.name@ == b.name@ && a.kind == b.kind
}

/// The representation a single channel requires of a named source: the RGB
/// vector for the primaries, the HSV vector for hue, saturation and value.
pub open spec fn channel_dep(channel: ColorProperties) -> DataDependency {
    if is_hsv_property(channel) {
        dep_hsv()
    } else {
        dep_rgb()
    }
}

/// The graph entries after one requirement is registered: the first entry
/// for the same source absorbs the new flags by OR; a new source is appended,
/// preserving first-insertion order.
pub open spec fn require_entry(
    s: Seq<(DataSource, DataDependency)>,
    source: DataSource,
    dep: DataDependency,
) -> Seq<(DataSource, DataDependency)>
    decreases s.len(),
{
    if s.len() == 0 {
        seq![(source, dep)]
    } else if same_source(s[0].0, source) {
        seq![(source, merge_deps(s[0].1, dep))] + s.subrange(1, s.len() as int)
    } else {
        seq![s[0]] + require_entry(s.subrange(1, s.len() as int), source, dep)
    }
}

/// Whether `b` requires every representation `a` requires.
pub open spec fn dep_implies(a: DataDependency, b: DataDependency) -> bool {
    &&& (a.require_rgb ==> b.require_rgb)
    &&& (a.require_hsv ==> b.require_hsv)
    &&& (a.require_point ==> b.require_point)
}

impl DataDependency {
    /// The requirement set of a source consumed as an HSV vector.
    pub fn hsv() -> (r: Self)
        ensures
            r == dep_hsv(),
    {
        DataDependency { require_hsv: true, require_rgb: false, require_point: false }
    }

    /// The requirement set of a source consumed as an RGB vector.
    pub fn rgb() -> (r: Self)
        ensures
            r == dep_rgb(),
    {
        DataDependency { require_hsv: false, require_rgb: true, require_point: false }
    }

    /// The requirement set of a source consumed as a half-spherical point.
    pub fn point() -> (r: Self)
        ensures
            r == dep_point(),
    {
        DataDependency { require_hsv: false, require_rgb: false, require_point: true }
    }
}

impl Default for DataDependency {
    /// No representation required.
    fn default() -> (r: Self)
        ensures
            r == dep_none(),
    {
        DataDependency { require_rgb: false, require_hsv: false, require_point: false }
    }
}

/// Accumulates, per named external source, the representations required of
/// it. Entries stand in first-insertion order.
pub struct DataDependencyGraph {
    entries: Vec<(DataSource, DataDependency)>,
}

impl View for DataDependencyGraph {
    type V = Seq<(DataSource, DataDependency)>;

    closed spec fn view(&self) -> Seq<(DataSource, DataDependency)> {
        self.entries@
    }
}

impl DataDependencyGraph {
    /// An empty graph.
    pub fn new() -> (r: Self)
        ensures
            r@ == Seq::<(DataSource, DataDependency)>::empty(),
    {
        DataDependencyGraph { entries: Vec::new() }
    }

    /// Registers one requirement: merges into the first entry for the same
    /// source, or appends a new entry.
    fn insert_merge(&mut self, source: DataSource, dep: DataDependency)
        ensures
            final(self)@ == require_entry(old(self)@, source, dep),
    {
        let n = self.entries.len();
        let mut i: usize = 0;
        while i < n
            invariant
                i <= n,
                n == self.entries.len(),
                self.entries@ == old(self).entries@,
                forall|j: int| 0 <= j < i ==> !same_source(self.entries@[j].0, source),
            decreases n - i,
        {
            let hit = self.entries[i].0.name == source.name && self.entries[i].0.kind
                == source.kind;
            if hit {
                let merged = DataDependency {
                    require_rgb: self.entries[i].1.require_rgb || dep.require_rgb,
                    require_hsv: self.entries[i].1.require_hsv || dep.require_hsv,
                    require_point: self.entries[i].1.require_point || dep.require_point,
                };
                self.entries[i] = (source, merged);
                proof {
                    lemma_require_entry_found(old(self)@, source, dep, i as int);
                }
                return ;
            }
            i = i + 1;
        }
        self.entries.push((source, dep));
        proof {
            lemma_require_entry_absent(old(self)@, source, dep);
        }
    }

    /// Registers that a color source is consumed whole: the full point
    /// representation is required.
    pub fn require_color(&mut self, name: String)
        ensures
            final(self)@ == require_entry(
                old(self)@,
                (DataSource { name: name, kind: DataSourceKind::Color }),
                dep_point(),
            ),
    {
        self.insert_merge(DataSource { name, kind: DataSourceKind::Color }, DataDependency::point())
    }

    /// Registers that one channel of a color source is consumed: the RGB
    /// vector for a primary channel, the HSV vector otherwise.
    pub fn require_color_channel(&mut self, name: String, property: ColorProperties)
        ensures
            final(self)@ == require_entry(
                old(self)@,
                (DataSource { name: name, kind: DataSourceKind::Color }),
                channel_dep(property),
            ),
    {
        let dep = match property {
            ColorProperties::Red => DataDependency::rgb(),
            ColorProperties::Blue => DataDependency::rgb(),
            ColorProperties::Green => DataDependency::rgb(),
            ColorProperties::Hue => DataDependency::hsv(),
            ColorProperties::Saturation => DataDependency::hsv(),
            ColorProperties::Value => DataDependency::hsv(),
        };
        self.insert_merge(DataSource { name, kind: DataSourceKind::Color }, dep)
    }

    /// Registers that an image source is consumed whole: the full point
    /// representation is required.
    pub fn require_image(&mut self, name: String)
        ensures
            final(self)@ == require_entry(
                old(self)@,
                (DataSource { name: name, kind: DataSourceKind::Image }),
                dep_point(),
            ),
    {
        self.insert_merge(DataSource { name, kind: DataSourceKind::Image }, DataDependency::point())
    }

    /// Registers that one channel of an image source is consumed.
    pub fn require_image_channel(&mut self, name: String, property: ColorProperties)
        ensures
            final(self)@ == require_entry(
                old(self)@,
                (DataSource { name: name, kind: DataSourceKind::Image }),
                channel_dep(property),
            ),
    {
        let dep = match property {
            ColorProperties::Red => DataDependency::rgb(),
            ColorProperties::Blue => DataDependency::rgb(),
            ColorProperties::Green => DataDependency::rgb(),
            ColorProperties::Hue => DataDependency::hsv(),
            ColorProperties::Saturation => DataDependency::hsv(),
            ColorProperties::Value => DataDependency::hsv(),
        };
        self.insert_merge(DataSource { name, kind: DataSourceKind::Image }, dep)
    }

    /// Registers a float source; floats need no color-space materialization,
    /// so no flag is set.
    pub fn require_float(&mut self, name: String)
        ensures
            final(self)@ == require_entry(
                old(self)@,
                (DataSource { name: name, kind: DataSourceKind::Float }),
                dep_none(),
            ),
    {
        self.insert_merge(
            DataSource { name, kind: DataSourceKind::Float },
            DataDependency { require_rgb: false, require_hsv: false, require_point: false },
        )
    }

    /// The entries, in first-insertion order.
    pub fn iter(&self) -> (r: &Vec<(DataSource, DataDependency)>)
        ensures
            r@ == self@,
    {
        &self.entries
    }

    /// The number of distinct sources registered.
    pub fn len(&self) -> (r: usize)
        ensures
            r == self@.len(),
    {
        self.entries.len()
    }

    /// The registered sources, in first-insertion order.
    pub fn keys(&self) -> (r: Vec<DataSource>)
        ensures
            r@.len() == self@.len(),
            forall|j: int| 0 <= j < self@.len() ==> r@[j] == self@[j].0,
    {
        let mut out: Vec<DataSource> = Vec::new();
        let n = self.entries.len();
        let mut i: usize = 0;
        while i < n
            invariant
                i <= n,
                n == self.entries.len(),
                out@.len() == i,
                forall|j: int| 0 <= j < i ==> out@[j] == self.entries@[j].0,
            decreases n - i,
        {
            out.push(self.entries[i].0.clone());
            i = i + 1;
        }
        out
    }

    /// The accumulated requirement sets, in first-insertion order.
    pub fn values(&self) -> (r: Vec<DataDependency>)
        ensures
            r@.len() == self@.len(),
            forall|j: int| 0 <= j < self@.len() ==> r@[j] == self@[j].1,
    {
        let mut out: Vec<DataDependency> = Vec::new();
        let n = self.entries.len();
        let mut i: usize = 0;
        while i < n
            invariant
                i <= n,
                n == self.entries.len(),
                out@.len() == i,
                forall|j: int| 0 <= j < i ==> out@[j] == self.entries@[j].1,
            decreases n - i,
        {
            out.push(self.entries[i].1);
            i = i + 1;
        }
        out
    }
}

/// When the first entry for `source` stands at index `i`, registering merges
/// there and leaves everything else unchanged.
proof fn lemma_require_entry_found(
    s: Seq<(DataSource, DataDependency)>,
    source: DataSource,
    dep: DataDependency,
    i: int,
)
    requires
        0 <= i < s.len(),
        same_source(s[i].0, source),
        forall|j: int| 0 <= j < i ==> !same_source(s[j].0, source),
    ensures
        require_entry(s, source, dep) == s.update(i, (source, merge_deps(s[i].1, dep))),
    decreases i,
{
    if i == 0 {
        assert(require_entry(s, source, dep) =~= s.update(
            0,
            (source, merge_deps(s[0].1, dep)),
        ));
    } else {
        let rest = s.subrange(1, s.len() as int);
        lemma_require_entry_found(rest, source, dep, i - 1);
        assert(require_entry(s, source, dep) =~= s.update(i, (source, merge_deps(s[i].1, dep))));
    }
}

/// When no entry is for `source`, registering appends a new entry.
proof fn lemma_require_entry_absent(
    s: Seq<(DataSource, DataDependency)>,
    source: DataSource,
    dep: DataDependency,
)
    requires
        forall|j: int| 0 <= j < s.len() ==> !same_source(s[j].0, source),
    ensures
        require_entry(s, source, dep) == s.push((source, dep)),
    decreases s.len(),
{
    if s.len() == 0 {
        assert(require_entry(s, source, dep) =~= s.push((source, dep)));
    } else {
        let rest = s.subrange(1, s.len() as int);
        lemma_require_entry_absent(rest, source, dep);
        assert(require_entry(s, source, dep) =~= s.push((source, dep)));
    }
}

/// No two entries are for the same source.
pub open spec fn distinct_sources(s: Seq<(DataSource, DataDependency)>) -> bool {
    forall|i: int, j: int|
        0 <= i < j < s.len() ==> !same_source(#[trigger] s[i].0, #[trigger] s[j].0)
}

/// The position of the first entry for `k`, when one exists.
proof fn lemma_first_match(s: Seq<(DataSource, DataDependency)>, k: DataSource) -> (i: int)
    requires
        exists|j: int| 0 <= j < s.len() && same_source((#[trigger] s[j]).0, k),
    ensures
        0 <= i < s.len(),
        same_source(s[i].0, k),
        forall|j: int| 0 <= j < i ==> !same_source((#[trigger] s[j]).0, k),
    decreases s.len(),
{
    if same_source(s[0].0, k) {
        0
    } else {
        let rest = s.subrange(1, s.len() as int);
        let j0 = choose|j: int| 0 <= j < s.len() && same_source((#[trigger] s[j]).0, k);
        assert(rest[j0 - 1] == s[j0]);
        let i0 = lemma_first_match(rest, k);
        assert(s[i0 + 1] == rest[i0]);
        assert forall|j: int| 0 <= j < i0 + 1 implies !same_source((#[trigger] s[j]).0, k) by {
            if j > 0 {
                assert(s[j] == rest[j - 1]);
            }
        }
        i0 + 1
    }
}

/// Repeated requirements merge without duplication: when no two entries are
/// for the same source, registering one more requirement keeps it that way.
pub proof fn lemma_require_keeps_sources_distinct(
    s: Seq<(DataSource, DataDependency)>,
    source: DataSource,
    dep: DataDependency,
)
    requires
        distinct_sources(s),
    ensures
        distinct_sources(require_entry(s, source, dep)),
{
    if exists|j: int| 0 <= j < s.len() && same_source((#[trigger] s[j]).0, source) {
        let p = lemma_first_match(s, source);
        lemma_require_entry_found(s, source, dep, p);
        let out = s.update(p, (source, merge_deps(s[p].1, dep)));
        assert forall|i: int, j: int|
            0 <= i < j < out.len() implies !same_source((#[trigger] out[i]).0, (#[trigger] out[j]).0) by {
            if i != p && j != p {
                assert(out[i] == s[i]);
                assert(out[j] == s[j]);
            } else if i == p {
                assert(out[j] == s[j]);
                assert(same_source(s[p].0, source));
            } else {
                assert(out[i] == s[i]);
                assert(same_source(s[p].0, source));
            }
        }
    } else {
        lemma_require_entry_absent(s, source, dep);
        let out = s.push((source, dep));
        assert forall|i: int, j: int|
            0 <= i < j < out.len() implies !same_source((#[trigger] out[i]).0, (#[trigger] out[j]).0) by {
            if j < s.len() {
                assert(out[i] == s[i]);
                assert(out[j] == s[j]);
            } else {
                assert(out[i] == s[i]);
                assert(out[j] == (source, dep));
            }
        }
    }
}

/// Requirements are monotonic: a flag once set for a source is never reset,
/// and registering more requirements never moves, drops or renames an
/// existing entry.
pub proof fn lemma_require_monotonic(
    s: Seq<(DataSource, DataDependency)>,
    source: DataSource,
    dep: DataDependency,
)
    ensures
        s.len() <= require_entry(s, source, dep).len(),
        forall|j: int|
            0 <= j < s.len() ==> same_source(
                (#[trigger] require_entry(s, source, dep)[j]).0,
                s[j].0,
            ) && dep_implies(s[j].1, require_entry(s, source, dep)[j].1),
    decreases s.len(),
{
    if s.len() == 0 {
    } else if same_source(s[0].0, source) {
        let out = require_entry(s, source, dep);
        assert forall|j: int|
            0 <= j < s.len() implies same_source((#[trigger] out[j]).0, s[j].0) && dep_implies(
            s[j].1,
            out[j].1,
        ) by {
            if j > 0 {
                assert(out[j] == s[j]);
            }
        }
    } else {
        let rest = s.subrange(1, s.len() as int);
        lemma_require_monotonic(rest, source, dep);
        let out = require_entry(s, source, dep);
        assert forall|j: int|
            0 <= j < s.len() implies same_source((#[trigger] out[j]).0, s[j].0) && dep_implies(
            s[j].1,
            out[j].1,
        ) by {
            if j > 0 {
                assert(out[j] == require_entry(rest, source, dep)[j - 1]);
                assert(rest[j - 1] == s[j]);
            }
        }
    }
}

/// A graph entry reduced to what generated text can observe: the name's
/// text, the kind, and the accumulated flags.
pub open spec fn entry_model(e: (DataSource, DataDependency)) -> (
    (Seq<char>, DataSourceKind),
    DataDependency,
) {
    ((e.0.name@, e.0.kind), e.1)
}

/// A graph reduced to what generated text can observe, entry for entry.
pub open spec fn graph_model(s: Seq<(DataSource, DataDependency)>) -> Seq<
    ((Seq<char>, DataSourceKind), DataDependency),
> {
    s.map_values(|e: (DataSource, DataDependency)| entry_model(e))
}

/// Prepending entries with equal observable parts to graphs with equal
/// observable parts yields graphs with equal observable parts.
proof fn lemma_graph_model_cons(
    x: (DataSource, DataDependency),
    y: (DataSource, DataDependency),
    a: Seq<(DataSource, DataDependency)>,
    b: Seq<(DataSource, DataDependency)>,
)
    requires
        entry_model(x) == entry_model(y),
        graph_model(a) == graph_model(b),
    ensures
        graph_model(seq![x] + a) == graph_model(seq![y] + b),
{
    assert(graph_model(a).len() == a.len());
    assert(graph_model(b).len() == b.len());
    assert forall|i: int|
        1 <= i < (seq![x] + a).len() implies graph_model(seq![x] + a)[i] == graph_model(
        seq![y] + b,
    )[i] by {
        assert((seq![x] + a)[i] == a[i - 1]);
        assert((seq![y] + b)[i] == b[i - 1]);
        assert(graph_model(a)[i - 1] == entry_model(a[i - 1]));
        assert(graph_model(b)[i - 1] == entry_model(b[i - 1]));
    }
    assert(graph_model(seq![x] + a) =~= graph_model(seq![y] + b));
}

/// Registering the same (source, representation) requirement twice yields
/// the same graph as registering it once, whichever value spells the source
/// the second time.
pub proof fn lemma_require_idempotent_observable(
    s: Seq<(DataSource, DataDependency)>,
    k1: DataSource,
    k2: DataSource,
    dep: DataDependency,
)
    requires
        same_source(k1, k2),
    ensures
        graph_model(require_entry(require_entry(s, k1, dep), k2, dep)) == graph_model(
            require_entry(s, k1, dep),
        ),
    decreases s.len(),
{
    if s.len() == 0 {
        assert(graph_model(require_entry(require_entry(s, k1, dep), k2, dep)) =~= graph_model(
            require_entry(s, k1, dep),
        ));
    } else if same_source(s[0].0, k1) {
        let rest = s.subrange(1, s.len() as int);
        let inner = require_entry(s, k1, dep);
        assert(inner == seq![(k1, merge_deps(s[0].1, dep))] + rest);
        assert(inner.subrange(1, inner.len() as int) =~= rest);
        assert(require_entry(inner, k2, dep) == seq![(k2, merge_deps(inner[0].1, dep))] + rest);
        lemma_graph_model_cons(
            (k2, merge_deps(inner[0].1, dep)),
            (k1, merge_deps(s[0].1, dep)),
            rest,
            rest,
        );
    } else {
        let rest = s.subrange(1, s.len() as int);
        lemma_require_idempotent_observable(rest, k1, k2, dep);
        let inner = require_entry(s, k1, dep);
        assert(inner == seq![s[0]] + require_entry(rest, k1, dep));
        assert(inner.subrange(1, inner.len() as int) =~= require_entry(rest, k1, dep));
        assert(!same_source(inner[0].0, k2));
        assert(require_entry(inner, k2, dep) == seq![s[0]] + require_entry(
            require_entry(rest, k1, dep),
            k2,
            dep,
        ));
        lemma_graph_model_cons(
            s[0],
            s[0],
            require_entry(require_entry(rest, k1, dep), k2, dep),
            require_entry(rest, k1, dep),
        );
    }
}

/// Registering two requirements for one source yields the same observable
/// graph in either order: the entry ends up with the OR of both flag sets,
/// wherever the source first appeared, whichever values spell the source.
pub proof fn lemma_require_order_independent_observable(
    s: Seq<(DataSource, DataDependency)>,
    k1: DataSource,
    k2: DataSource,
    dep1: DataDependency,
    dep2: DataDependency,
)
    requires
        same_source(k1, k2),
    ensures
        graph_model(require_entry(require_entry(s, k1, dep1), k2, dep2)) == graph_model(
            require_entry(require_entry(s, k2, dep2), k1, dep1),
        ),
    decreases s.len(),
{
    if s.len() == 0 {
        assert(require_entry(s, k1, dep1) == seq![(k1, dep1)]);
        assert(require_entry(require_entry(s, k1, dep1), k2, dep2) == seq![
            (k2, merge_deps(dep1, dep2)),
        ] + seq![(k1, dep1)].subrange(1, 1));
        assert(require_entry(require_entry(s, k2, dep2), k1, dep1) == seq![
            (k1, merge_deps(dep2, dep1)),
        ] + seq![(k2, dep2)].subrange(1, 1));
        assert(seq![(k1, dep1)].subrange(1, 1) =~= seq![(k2, dep2)].subrange(1, 1));
        lemma_graph_model_cons(
            (k2, merge_deps(dep1, dep2)),
            (k1, merge_deps(dep2, dep1)),
            seq![(k1, dep1)].subrange(1, 1),
            seq![(k2, dep2)].subrange(1, 1),
        );
    } else if same_source(s[0].0, k1) {
        let rest = s.subrange(1, s.len() as int);
        let inner1 = require_entry(s, k1, dep1);
        let inner2 = require_entry(s, k2, dep2);
        assert(inner1 == seq![(k1, merge_deps(s[0].1, dep1))] + rest);
        assert(inner2 == seq![(k2, merge_deps(s[0].1, dep2))] + rest);
        assert(inner1.subrange(1, inner1.len() as int) =~= rest);
        assert(inner2.subrange(1, inner2.len() as int) =~= rest);
        assert(require_entry(inner1, k2, dep2) == seq![(k2, merge_deps(inner1[0].1, dep2))]
            + rest);
        assert(require_entry(inner2, k1, dep1) == seq![(k1, merge_deps(inner2[0].1, dep1))]
            + rest);
        lemma_graph_model_cons(
            (k2, merge_deps(inner1[0].1, dep2)),
            (k1, merge_deps(inner2[0].1, dep1)),
            rest,
            rest,
        );
    } else {
        let rest = s.subrange(1, s.len() as int);
        lemma_require_order_independent_observable(rest, k1, k2, dep1, dep2);
        let inner1 = require_entry(s, k1, dep1);
        let inner2 = require_entry(s, k2, dep2);
        assert(inner1 == seq![s[0]] + require_entry(rest, k1, dep1));
        assert(inner2 == seq![s[0]] + require_entry(rest, k2, dep2));
        assert(inner1.subrange(1, inner1.len() as int) =~= require_entry(rest, k1, dep1));
        assert(inner2.subrange(1, inner2.len() as int) =~= require_entry(rest, k2, dep2));
        assert(!same_source(inner1[0].0, k2));
        assert(!same_source(inner2[0].0, k1));
        assert(require_entry(inner1, k2, dep2) == seq![s[0]] + require_entry(
            require_entry(rest, k1, dep1),
            k2,
            dep2,
        ));
        assert(require_entry(inner2, k1, dep1) == seq![s[0]] + require_entry(
            require_entry(rest, k2, dep2),
            k1,
            dep1,
        ));
        lemma_graph_model_cons(
            s[0],
            s[0],
            require_entry(require_entry(rest, k1, dep1), k2, dep2),
            require_entry(require_entry(rest, k2, dep2), k1, dep1),
        );
    }
}

/// Registering the same (source, representation) requirement twice yields
/// the same graph as registering it once.
pub proof fn lemma_require_idempotent(
    s: Seq<(DataSource, DataDependency)>,
    source: DataSource,
    dep: DataDependency,
)
    ensures
        require_entry(require_entry(s, source, dep), source, dep) == require_entry(s, source, dep),
    decreases s.len(),
{
    if s.len() == 0 {
        assert(require_entry(require_entry(s, source, dep), source, dep) =~= require_entry(
            s,
            source,
            dep,
        ));
    } else if same_source(s[0].0, source) {
        let once = require_entry(s, source, dep);
        assert(once[0] == (source, merge_deps(s[0].1, dep)));
        assert(require_entry(require_entry(s, source, dep), source, dep) =~= require_entry(
            s,
            source,
            dep,
        ));
    } else {
        let rest = s.subrange(1, s.len() as int);
        lemma_require_idempotent(rest, source, dep);
        let once = require_entry(s, source, dep);
        assert(once.subrange(1, once.len() as int) =~= require_entry(rest, source, dep));
        assert(require_entry(require_entry(s, source, dep), source, dep) =~= require_entry(
            s,
            source,
            dep,
        ));
    }
}

/// Registering two requirements for the same source yields the same graph in
/// either order: the entry ends up with the OR of both flag sets, wherever
/// the source first appeared.
pub proof fn lemma_require_order_independent(
    s: Seq<(DataSource, DataDependency)>,
    source: DataSource,
    dep1: DataDependency,
    dep2: DataDependency,
)
    ensures
        require_entry(require_entry(s, source, dep1), source, dep2) == require_entry(
            require_entry(s, source, dep2),
            source,
            dep1,
        ),
    decreases s.len(),
{
    if s.len() == 0 {
        assert(require_entry(require_entry(s, source, dep1), source, dep2) =~= require_entry(
            require_entry(s, source, dep2),
            source,
            dep1,
        ));
    } else if same_source(s[0].0, source) {
        assert(require_entry(require_entry(s, source, dep1), source, dep2) =~= require_entry(
            require_entry(s, source, dep2),
            source,
            dep1,
        ));
    } else {
        let rest = s.subrange(1, s.len() as int);
        lemma_require_order_independent(rest, source, dep1, dep2);
        let once1 = require_entry(s, source, dep1);
        let once2 = require_entry(s, source, dep2);
        assert(once1.subrange(1, once1.len() as int) =~= require_entry(rest, source, dep1));
        assert(once2.subrange(1, once2.len() as int) =~= require_entry(rest, source, dep2));
        assert(require_entry(require_entry(s, source, dep1), source, dep2) =~= require_entry(
            require_entry(s, source, dep2),
            source,
            dep1,
        ));
    }
}

} // verus!
