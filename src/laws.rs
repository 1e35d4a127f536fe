//! Laws that relate the import's results across calls and entries.
use vstd::prelude::*;
use crate::dataset::{DancerRowV, DatasetV, ImportErrorV, PartRowV, PositionDataRow, PositionFrameRow};
use crate::document::{Dancer, Document, PartDecl, PositionFrame};
use crate::import::import_spec;
use crate::lookup::{find_model, find_part, model_below, part_below};
use crate::plan::{
    DancerStage, dancer_stage, dancer_step, dancers_from, model_slot, models_with, part_row,
    parts_from,
};
use crate::timeline::{pos_rows, positions_from};

verus! {

/// Importing the same document twice: once it has been accepted, it is
/// accepted again under any other revision identifier, every table gets
/// the same number of rows, and exactly one revision row remains.
pub proof fn lemma_idempotent_replace(doc: Document, u1: Seq<char>, u2: Seq<char>)
    requires
        import_spec(doc, u1) is Ok,
    ensures
        match (import_spec(doc, u1), import_spec(doc, u2)) {
            (Ok(d1), Ok(d2)) => d1.row_counts() == d2.row_counts() && d2.revisions.len() == 1,
            _ => false,
        },
{
}

// ---- position order ----

/// The position rows built so far hold, for every row, the coordinates at
/// index `dancer` of frame `frame` of the document.
pub open spec fn rows_follow_frames(fs: Seq<PositionFrame>, n: nat, data: Seq<PositionDataRow>) -> bool {
    forall|x: int|
        0 <= x < data.len() ==> {
            let r = #[trigger] data[x];
            &&& (r.frame as int) < fs.len()
            &&& (r.dancer as int) < n
            &&& fs[r.frame as int].pos@.len() == n
            &&& r.x == fs[r.frame as int].pos@[r.dancer as int]@[0]
            &&& r.y == fs[r.frame as int].pos@[r.dancer as int]@[1]
            &&& r.z == fs[r.frame as int].pos@[r.dancer as int]@[2]
        }
}

proof fn lemma_positions_follow(
    n: nat,
    fs: Seq<PositionFrame>,
    k: nat,
    frames: Seq<PositionFrameRow>,
    data: Seq<PositionDataRow>,
)
    requires
        k <= fs.len(),
        fs.len() <= usize::MAX,
        frames.len() == k,
        forall|f: int| 0 <= f < fs.len() ==> #[trigger] fs[f].pos@.len() == fs[f].pos.len(),
        rows_follow_frames(fs, n, data),
    ensures
        positions_from(n, fs, k, frames, data) matches Ok((_, d)) ==> rows_follow_frames(fs, n, d),
    decreases fs.len() - k,
{
    if k < fs.len() && fs[k as int].pos@.len() == n {
        let pos = fs[k as int].pos@;
        let rows = pos_rows(frames.len(), pos);
        let data2 = data + rows;
        assert(fs[k as int].pos@.len() == fs[k as int].pos.len());
        assert forall|x: int| 0 <= x < data2.len() implies {
            let r = #[trigger] data2[x];
            &&& (r.frame as int) < fs.len()
            &&& (r.dancer as int) < n
            &&& fs[r.frame as int].pos@.len() == n
            &&& r.x == fs[r.frame as int].pos@[r.dancer as int]@[0]
            &&& r.y == fs[r.frame as int].pos@[r.dancer as int]@[1]
            &&& r.z == fs[r.frame as int].pos@[r.dancer as int]@[2]
        } by {
            if x >= data.len() {
                let i = x - data.len();
                assert(data2[x] == rows[i]);
                assert((i as usize) as int == i);
                assert((k as usize) as int == k);
            } else {
                assert(data2[x] == data[x]);
            }
        }
        lemma_positions_follow(
            n,
            fs,
            k + 1,
            frames.push(PositionFrameRow { start: fs[k as int].start }),
            data2,
        );
    }
}

/// Order sensitivity of position frames: in an accepted document, every
/// stored position row carries the coordinates at index `i` of its frame's
/// array, and refers to the dancer row `i`, which is the dancer at index `i`
/// of the document's dancer list; names play no part in the match.
pub proof fn lemma_position_order(doc: Document, u: Seq<char>)
    requires
        import_spec(doc, u) is Ok,
    ensures
        match import_spec(doc, u) {
            Ok(d) => rows_follow_frames(doc.position@, doc.dancers@.len(), d.position_data)
                && d.dancers.len() == doc.dancers@.len() && forall|i: int|
                0 <= i < doc.dancers@.len() ==> #[trigger] d.dancers[i].name
                    == doc.dancers@[i].name@,
            _ => false,
        },
{
    let fs = doc.position@;
    assert(doc.position.len() == fs.len());
    assert forall|f: int| 0 <= f < fs.len() implies #[trigger] fs[f].pos@.len()
        == fs[f].pos.len() by {}
    lemma_positions_follow(doc.dancers@.len(), fs, 0, Seq::empty(), Seq::empty());
    lemma_dancers_inv(doc.dancers@, 0, DancerStage::empty());
}

// ---- shared parts ----

pub open spec fn unique_models(models: Seq<Seq<char>>) -> bool {
    forall|x: int, y: int| 0 <= x < y < models.len() ==> models[x] != models[y]
}

pub open spec fn unique_parts(parts: Seq<PartRowV>) -> bool {
    forall|x: int, y: int|
        0 <= x < y < parts.len() ==> !(parts[x].model == parts[y].model && parts[x].name
            == parts[y].name)
}

pub open spec fn extends<T>(a: Seq<T>, b: Seq<T>) -> bool {
    b.len() <= a.len() && forall|x: int| 0 <= x < b.len() ==> a[x] == b[x]
}

/// Part row `ids[t]` is keyed by model `m` and the name of part `t`.
pub open spec fn ids_match(ps: Seq<PartDecl>, m: nat, parts: Seq<PartRowV>, ids: Seq<nat>, n: int) -> bool {
    &&& ids.len() == n
    &&& forall|t: int|
        0 <= t < n ==> {
            &&& (#[trigger] ids[t]) < parts.len()
            &&& parts[ids[t] as int].model == m
            &&& parts[ids[t] as int].name == ps[t].name@
        }
}

/// What holds of the tables after the first `i` dancers.
pub open spec fn dancer_inv(ds: Seq<Dancer>, i: nat, st: DancerStage) -> bool {
    &&& unique_models(st.models)
    &&& unique_parts(st.parts)
    &&& st.dancers.len() == i
    &&& st.dancer_parts.len() == i
    &&& forall|x: int|
        0 <= x < i ==> {
            &&& (#[trigger] st.dancers[x]).model < st.models.len()
            &&& st.models[st.dancers[x].model as int] == ds[x].model@
            &&& st.dancers[x].name == ds[x].name@
            &&& ids_match(ds[x].parts@, st.dancers[x].model, st.parts, st.dancer_parts[x], ds[x].parts@.len() as int)
        }
}

proof fn lemma_model_below(s: Seq<Seq<char>>, name: Seq<char>, k: nat)
    requires
        k <= s.len(),
    ensures
        match model_below(s, name, k) {
            Some(i) => i < k && s[i as int] == name,
            None => forall|x: int| 0 <= x < k ==> s[x] != name,
        },
    decreases k,
{
    if k > 0 {
        lemma_model_below(s, name, (k - 1) as nat);
    }
}

proof fn lemma_part_below(s: Seq<PartRowV>, m: nat, name: Seq<char>, k: nat)
    requires
        k <= s.len(),
    ensures
        match part_below(s, m, name, k) {
            Some(i) => i < k && s[i as int].model == m && s[i as int].name == name,
            None => forall|x: int| 0 <= x < k ==> !(s[x].model == m && s[x].name == name),
        },
    decreases k,
{
    if k > 0 {
        lemma_part_below(s, m, name, (k - 1) as nat);
    }
}

proof fn lemma_parts_inv(ps: Seq<PartDecl>, j: nat, m: nat, parts: Seq<PartRowV>, ids: Seq<nat>)
    requires
        j <= ps.len(),
        unique_parts(parts),
        ids_match(ps, m, parts, ids, j as int),
    ensures
        ({
            let r = parts_from(ps, j, m, parts, ids);
            unique_parts(r.0) && extends(r.0, parts) && ids_match(ps, m, r.0, r.1, ps.len() as int)
        }),
    decreases ps.len() - j,
{
    if j < ps.len() {
        let name = ps[j as int].name@;
        lemma_part_below(parts, m, name, parts.len());
        match find_part(parts, m, name) {
            Some(p) => {
                let ids2 = ids.push(p);
                assert(ids_match(ps, m, parts, ids2, (j + 1) as int)) by {
                    assert forall|t: int| 0 <= t < j + 1 implies {
                        &&& (#[trigger] ids2[t]) < parts.len()
                        &&& parts[ids2[t] as int].model == m
                        &&& parts[ids2[t] as int].name == ps[t].name@
                    } by {
                        if t < j {
                            assert(ids2[t] == ids[t]);
                        }
                    }
                }
                lemma_parts_inv(ps, j + 1, m, parts, ids2);
            },
            None => {
                let parts2 = parts.push(part_row(m, ps[j as int]));
                let ids2 = ids.push(parts.len());
                assert(unique_parts(parts2));
                assert(ids_match(ps, m, parts2, ids2, (j + 1) as int)) by {
                    assert forall|t: int| 0 <= t < j + 1 implies {
                        &&& (#[trigger] ids2[t]) < parts2.len()
                        &&& parts2[ids2[t] as int].model == m
                        &&& parts2[ids2[t] as int].name == ps[t].name@
                    } by {
                        if t < j {
                            assert(ids2[t] == ids[t]);
                        }
                    }
                }
                lemma_parts_inv(ps, j + 1, m, parts2, ids2);
            },
        }
    }
}

proof fn lemma_dancers_inv(ds: Seq<Dancer>, i: nat, st: DancerStage)
    requires
        i <= ds.len(),
        dancer_inv(ds, i, st),
    ensures
        dancer_inv(ds, ds.len(), dancers_from(ds, i, st)),
    decreases ds.len() - i,
{
    if i < ds.len() {
        let d = ds[i as int];
        let m = model_slot(st.models, d.model@);
        lemma_model_below(st.models, d.model@, st.models.len());
        let models2 = models_with(st.models, d.model@);
        assert(models2[m as int] == d.model@);
        assert(extends(models2, st.models));
        assert(unique_models(models2));
        assert(ids_match(d.parts@, m, st.parts, Seq::empty(), 0));
        lemma_parts_inv(d.parts@, 0, m, st.parts, Seq::empty());
        let resolved = parts_from(d.parts@, 0, m, st.parts, Seq::empty());
        let st2 = dancer_step(st, d);
        assert(st2.models == models2);
        assert(st2.parts == resolved.0);
        assert forall|x: int| 0 <= x < i + 1 implies {
            &&& (#[trigger] st2.dancers[x]).model < st2.models.len()
            &&& st2.models[st2.dancers[x].model as int] == ds[x].model@
            &&& st2.dancers[x].name == ds[x].name@
            &&& ids_match(ds[x].parts@, st2.dancers[x].model, st2.parts, st2.dancer_parts[x], ds[x].parts@.len() as int)
        } by {
            if x < i {
                assert(st2.dancers[x] == st.dancers[x]);
                assert(st2.dancer_parts[x] == st.dancer_parts[x]);
                let ids = st.dancer_parts[x];
                assert forall|t: int| 0 <= t < ds[x].parts@.len() implies {
                    &&& (#[trigger] ids[t]) < st2.parts.len()
                    &&& st2.parts[ids[t] as int].model == st.dancers[x].model
                    &&& st2.parts[ids[t] as int].name == ds[x].parts@[t].name@
                } by {
                    assert(ids_match(ds[x].parts@, st.dancers[x].model, st.parts, ids, ds[x].parts@.len() as int));
                    assert(ids[t] < st.parts.len());
                }
            } else {
                assert(st2.dancers[x] == DancerRowV { name: d.name@, model: m });
                assert(st2.dancer_parts[x] == resolved.1);
            }
        }
        lemma_dancers_inv(ds, i + 1, st2);
    }
}

/// Dancers of one model share their parts: when two dancers name the same
/// model and declare a part of the same name, both declarations resolve to
/// one and the same part row; and no two part rows share a (model, name)
/// key.
pub proof fn lemma_shared_model_parts(ds: Seq<Dancer>, a: int, ja: int, b: int, jb: int)
    requires
        0 <= a < ds.len(),
        0 <= b < ds.len(),
        0 <= ja < ds[a].parts@.len(),
        0 <= jb < ds[b].parts@.len(),
        ds[a].model@ == ds[b].model@,
        ds[a].parts@[ja].name@ == ds[b].parts@[jb].name@,
    ensures
        dancer_stage(ds).dancer_parts[a][ja] == dancer_stage(ds).dancer_parts[b][jb],
        unique_parts(dancer_stage(ds).parts),
{
    lemma_dancers_inv(ds, 0, DancerStage::empty());
    let st = dancer_stage(ds);
    let ma = st.dancers[a].model;
    let mb = st.dancers[b].model;
    assert(ma == mb) by {
        if ma != mb {
            if ma < mb {
                assert(st.models[ma as int] != st.models[mb as int]);
            } else {
                assert(st.models[mb as int] != st.models[ma as int]);
            }
        }
    }
    let pa = st.dancer_parts[a][ja];
    let pb = st.dancer_parts[b][jb];
    assert(ids_match(ds[a].parts@, ma, st.parts, st.dancer_parts[a], ds[a].parts@.len() as int));
    assert(ids_match(ds[b].parts@, mb, st.parts, st.dancer_parts[b], ds[b].parts@.len() as int));
    assert(pa < st.parts.len() && pb < st.parts.len());
    assert(pa == pb) by {
        if pa < pb {
            assert(!(st.parts[pa as int].model == st.parts[pb as int].model && st.parts[pa as int].name
                == st.parts[pb as int].name));
        } else if pb < pa {
            assert(!(st.parts[pb as int].model == st.parts[pa as int].model && st.parts[pb as int].name
                == st.parts[pa as int].name));
        }
    }
}

} // verus!
