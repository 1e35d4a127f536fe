//! The import pipeline: from a document to the complete set of rows that
//! replaces the stored dataset, or to the first error met on the way.
//!
//! Sections are taken in this order: palette, dancers (with their models and
//! parts), LED effects, position frames, control frames, revision marker.
//! Each section's meaning is stated as a fold over its entries (`*_from`),
//! with the entry index as the fold's position.
use vstd::prelude::*;
use crate::dataset::{
    ColorRow, ColorRowV, DancerRow, DancerRowV, PartRow, PartRowV, colors_view, dancers_view,
    names_view, parts_view,
};
use crate::document::{ColorEntry, Dancer, PartDecl};
use crate::lookup::{find_model, find_part, lookup_model, lookup_part};

verus! {

// ---- palette ----

pub open spec fn color_rows(cs: Seq<ColorEntry>) -> Seq<ColorRowV> {
    Seq::new(
        cs.len(),
        |i: int| ColorRowV { name: cs[i].name@, r: cs[i].rgb@[0], g: cs[i].rgb@[1], b: cs[i].rgb@[2] },
    )
}

/// One color row per palette entry, in the palette's order.
pub fn color_table(cs: &Vec<ColorEntry>) -> (r: Vec<ColorRow>)
    ensures
        colors_view(r@) == color_rows(cs@),
{
    let mut r: Vec<ColorRow> = Vec::new();
    let mut i: usize = 0;
    while i < cs.len()
        invariant
            i <= cs.len(),
            colors_view(r@) == color_rows(cs@).take(i as int),
        decreases cs.len() - i,
    {
        let c = &cs[i];
        let ghost before = r@;
        let row = ColorRow { name: c.name.clone(), r: c.rgb[0], g: c.rgb[1], b: c.rgb[2] };
        assert(row.r == c.rgb@[0] && row.g == c.rgb@[1] && row.b == c.rgb@[2]);
        r.push(row);
        proof {
            assert(colors_view(r@) =~= colors_view(before).push(color_rows(cs@)[i as int]));
            assert(color_rows(cs@).take(i + 1) =~= color_rows(cs@).take(i as int).push(
                color_rows(cs@)[i as int],
            ));
        }
        i += 1;
    }
    assert(color_rows(cs@).take(i as int) =~= color_rows(cs@));
    r
}

// ---- dancers, models and parts ----

/// The tables built from the dancer list, and for each dancer the part row
/// of each part it declares.
pub struct DancerStage {
    pub models: Seq<Seq<char>>,
    pub dancers: Seq<DancerRowV>,
    pub parts: Seq<PartRowV>,
    pub dancer_parts: Seq<Seq<nat>>,
}

impl DancerStage {
    pub open spec fn empty() -> DancerStage {
        DancerStage {
            models: Seq::empty(),
            dancers: Seq::empty(),
            parts: Seq::empty(),
            dancer_parts: Seq::empty(),
        }
    }
}

pub open spec fn part_row(m: nat, p: PartDecl) -> PartRowV {
    PartRowV { model: m, name: p.name@, part_type: p.part_type, length: p.length }
}

/// Resolves a dancer's parts from index `j` on under model `m`: a part
/// already keyed by (model, name) is reused, any other is created.
pub open spec fn parts_from(ps: Seq<PartDecl>, j: nat, m: nat, parts: Seq<PartRowV>, ids: Seq<nat>) -> (
    Seq<PartRowV>,
    Seq<nat>,
)
    decreases ps.len() - j,
{
    if j >= ps.len() {
        (parts, ids)
    } else {
        match find_part(parts, m, ps[j as int].name@) {
            Some(p) => parts_from(ps, j + 1, m, parts, ids.push(p)),
            None => parts_from(
                ps,
                j + 1,
                m,
                parts.push(part_row(m, ps[j as int])),
                ids.push(parts.len()),
            ),
        }
    }
}

/// The model row a dancer's model name resolves to, existing or new.
pub open spec fn model_slot(models: Seq<Seq<char>>, name: Seq<char>) -> nat {
    match find_model(models, name) {
        Some(m) => m,
        None => models.len(),
    }
}

pub open spec fn models_with(models: Seq<Seq<char>>, name: Seq<char>) -> Seq<Seq<char>> {
    match find_model(models, name) {
        Some(_) => models,
        None => models.push(name),
    }
}

pub open spec fn dancer_step(st: DancerStage, d: Dancer) -> DancerStage {
    let m = model_slot(st.models, d.model@);
    let resolved = parts_from(d.parts@, 0, m, st.parts, Seq::empty());
    DancerStage {
        models: models_with(st.models, d.model@),
        dancers: st.dancers.push(DancerRowV { name: d.name@, model: m }),
        parts: resolved.0,
        dancer_parts: st.dancer_parts.push(resolved.1),
    }
}

pub open spec fn dancers_from(ds: Seq<Dancer>, i: nat, st: DancerStage) -> DancerStage
    decreases ds.len() - i,
{
    if i >= ds.len() {
        st
    } else {
        dancers_from(ds, i + 1, dancer_step(st, ds[i as int]))
    }
}

pub open spec fn dancer_stage(ds: Seq<Dancer>) -> DancerStage {
    dancers_from(ds, 0, DancerStage::empty())
}

pub open spec fn nat_seq(v: Seq<usize>) -> Seq<nat> {
    Seq::new(v.len(), |j: int| v[j] as nat)
}

pub open spec fn part_ids_view(v: Seq<Vec<usize>>) -> Seq<Seq<nat>> {
    Seq::new(v.len(), |i: int| nat_seq(v[i]@))
}

/// The dancer-derived tables as built by `dancer_tables`.
pub struct DancerTables {
    pub models: Vec<String>,
    pub dancers: Vec<DancerRow>,
    pub parts: Vec<PartRow>,
    pub dancer_parts: Vec<Vec<usize>>,
}

impl DancerTables {
    pub open spec fn stage(&self) -> DancerStage {
        DancerStage {
            models: names_view(self.models@),
            dancers: dancers_view(self.dancers@),
            parts: parts_view(self.parts@),
            dancer_parts: part_ids_view(self.dancer_parts@),
        }
    }
}

fn resolve_parts(ps: &Vec<PartDecl>, m: usize, parts: &mut Vec<PartRow>) -> (ids: Vec<usize>)
    ensures
        (parts_view(final(parts)@), nat_seq(ids@)) == parts_from(
            ps@,
            0,
            m as nat,
            parts_view(old(parts)@),
            Seq::empty(),
        ),
        ids@.len() == ps@.len(),
{
    let mut ids: Vec<usize> = Vec::new();
    let mut j: usize = 0;
    proof {
        assert(nat_seq(ids@) =~= Seq::<nat>::empty());
    }
    while j < ps.len()
        invariant
            j <= ps.len(),
            ids@.len() == j,
            parts_from(ps@, j as nat, m as nat, parts_view(parts@), nat_seq(ids@)) == parts_from(
                ps@,
                0,
                m as nat,
                parts_view(old(parts)@),
                Seq::empty(),
            ),
        decreases ps.len() - j,
    {
        let p = &ps[j];
        let found = lookup_part(parts, m, &p.name);
        match found {
            Some(id) => {
                proof {
                    assert(nat_seq(ids@.push(id)) =~= nat_seq(ids@).push(id as nat));
                }
                ids.push(id);
            },
            None => {
                let id = parts.len();
                let ghost before = parts_view(parts@);
                parts.push(
                    PartRow { model: m, name: p.name.clone(), part_type: p.part_type, length: p.length },
                );
                proof {
                    assert(nat_seq(ids@.push(id)) =~= nat_seq(ids@).push(id as nat));
                    assert(parts_view(parts@) =~= before.push(part_row(m as nat, ps@[j as int])));
                }
                ids.push(id);
            },
        }
        j += 1;
    }
    ids
}

/// Builds the model, dancer and part tables from the dancer list: one
/// dancer row per dancer, in order; models and parts created on first use.
pub fn dancer_tables(ds: &Vec<Dancer>) -> (r: DancerTables)
    ensures
        r.stage() == dancer_stage(ds@),
        r.dancers@.len() == ds@.len(),
        r.dancer_parts@.len() == ds@.len(),
        forall|i: int| 0 <= i < ds@.len() ==> r.dancer_parts@[i]@.len() == ds@[i].parts@.len(),
{
    let mut r = DancerTables {
        models: Vec::new(),
        dancers: Vec::new(),
        parts: Vec::new(),
        dancer_parts: Vec::new(),
    };
    proof {
        assert(r.stage().models =~= Seq::<Seq<char>>::empty());
        assert(r.stage().dancers =~= Seq::<DancerRowV>::empty());
        assert(r.stage().parts =~= Seq::<PartRowV>::empty());
        assert(r.stage().dancer_parts =~= Seq::<Seq<nat>>::empty());
    }
    let mut i: usize = 0;
    while i < ds.len()
        invariant
            i <= ds.len(),
            r.dancers@.len() == i,
            r.dancer_parts@.len() == i,
            forall|k: int| 0 <= k < i ==> r.dancer_parts@[k]@.len() == ds@[k].parts@.len(),
            dancers_from(ds@, i as nat, r.stage()) == dancer_stage(ds@),
        decreases ds.len() - i,
    {
        let d = &ds[i];
        let ghost st = r.stage();
        let m = match lookup_model(&r.models, &d.model) {
            Some(m) => m,
            None => {
                let m = r.models.len();
                r.models.push(d.model.clone());
                proof {
                    assert(names_view(r.models@) =~= st.models.push(d.model@));
                }
                m
            },
        };
        r.dancers.push(DancerRow { name: d.name.clone(), model: m });
        let ids = resolve_parts(&d.parts, m, &mut r.parts);
        r.dancer_parts.push(ids);
        proof {
            assert(dancers_view(r.dancers@) =~= st.dancers.push(
                DancerRowV { name: d.name@, model: m as nat },
            ));
            assert(part_ids_view(r.dancer_parts@) =~= st.dancer_parts.push(nat_seq(ids@)));
            assert(r.stage() == dancer_step(st, ds@[i as int]));
        }
        i += 1;
    }
    r
}

} // verus!
