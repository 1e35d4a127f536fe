//! The position and control timelines: each frame is checked against the
//! dancer list and stored with one row per dancer (position) or per
//! dancer part (control), matched by index, never by name.
use vstd::prelude::*;
use crate::dataset::{
    ColorRow, ColorRowV, ControlDataRow, ControlFrameRow, ControlKind, EffectRow, EffectRowV,
    ImportError, ImportErrorV, PositionDataRow, PositionFrameRow, Section, colors_view, effects_view,
    opt_nat,
};
use crate::document::{ControlFrame, Dancer, PartType, PositionFrame};
use crate::lookup::{find_color, find_effect, lookup_color, lookup_effect};
use crate::plan::{DancerStage, DancerTables};

verus! {

// ---- position ----

/// The rows of one position frame stored as frame row `f`: coordinate `i`
/// belongs to the dancer at index `i` of the dancer list.
pub open spec fn pos_rows(f: nat, pos: Seq<[u32; 3]>) -> Seq<PositionDataRow> {
    Seq::new(
        pos.len(),
        |i: int|
            PositionDataRow {
                dancer: i as usize,
                frame: f as usize,
                x: pos[i]@[0],
                y: pos[i]@[1],
                z: pos[i]@[2],
            },
    )
}

/// The position frames from `k` on, for a document of `n` dancers.
pub open spec fn positions_from(
    n: nat,
    fs: Seq<PositionFrame>,
    k: nat,
    frames: Seq<PositionFrameRow>,
    data: Seq<PositionDataRow>,
) -> Result<(Seq<PositionFrameRow>, Seq<PositionDataRow>), ImportErrorV>
    decreases fs.len() - k,
{
    if k >= fs.len() {
        Ok((frames, data))
    } else {
        let fr = fs[k as int];
        if fr.pos@.len() != n {
            Err(
                ImportErrorV::CardinalityMismatch {
                    section: Section::Position,
                    frame_start: fr.start,
                    dancer_index: None,
                    found: fr.pos@.len(),
                    expected: n,
                },
            )
        } else {
            positions_from(
                n,
                fs,
                k + 1,
                frames.push(PositionFrameRow { start: fr.start }),
                data + pos_rows(frames.len(), fr.pos@),
            )
        }
    }
}

/// Stores the position frames of a document of `n` dancers.
pub fn position_tables(n: usize, fs: &Vec<PositionFrame>) -> (r: Result<
    (Vec<PositionFrameRow>, Vec<PositionDataRow>),
    ImportError,
>)
    ensures
        match r {
            Ok((frames, data)) => positions_from(n as nat, fs@, 0, Seq::empty(), Seq::empty())
                == Ok::<_, ImportErrorV>((frames@, data@)),
            Err(e) => positions_from(n as nat, fs@, 0, Seq::empty(), Seq::empty()) == Err::<
                (Seq<PositionFrameRow>, Seq<PositionDataRow>),
                ImportErrorV,
            >(e@),
        },
{
    let mut frames: Vec<PositionFrameRow> = Vec::new();
    let mut data: Vec<PositionDataRow> = Vec::new();
    let mut k: usize = 0;
    while k < fs.len()
        invariant
            k <= fs.len(),
            positions_from(n as nat, fs@, k as nat, frames@, data@) == positions_from(
                n as nat,
                fs@,
                0,
                Seq::empty(),
                Seq::empty(),
            ),
        decreases fs.len() - k,
    {
        let fr = &fs[k];
        if fr.pos.len() != n {
            return Err(
                ImportError::CardinalityMismatch {
                    section: Section::Position,
                    frame_start: fr.start,
                    dancer_index: None,
                    found: fr.pos.len(),
                    expected: n,
                },
            );
        }
        let f = frames.len();
        let ghost data0 = data@;
        let ghost rows = pos_rows(f as nat, fr.pos@);
        let mut i: usize = 0;
        while i < fr.pos.len()
            invariant
                i <= fr.pos@.len(),
                rows == pos_rows(f as nat, fr.pos@),
                data@ == data0 + rows.take(i as int),
            decreases fr.pos@.len() - i,
        {
            let c = &fr.pos[i];
            let row = PositionDataRow { dancer: i, frame: f, x: c[0], y: c[1], z: c[2] };
            assert(row == rows[i as int]);
            data.push(row);
            proof {
                assert(rows.take(i + 1) =~= rows.take(i as int).push(rows[i as int]));
            }
            i += 1;
        }
        proof {
            assert(rows.take(i as int) =~= rows);
        }
        frames.push(PositionFrameRow { start: fr.start });
        k += 1;
    }
    Ok((frames, data))
}

// ---- control ----

/// The column type label stored for a part of the given type.
pub open spec fn kind_of(t: PartType) -> ControlKind {
    match t {
        PartType::Led => ControlKind::Effect,
        PartType::Fiber => ControlKind::Color,
    }
}

pub open spec fn opt_usize(o: Option<nat>) -> Option<usize> {
    match o {
        Some(x) => Some(x as usize),
        None => None,
    }
}

/// What control rows are resolved against: the palette, the effect rows,
/// the dancer-derived tables and the document's dancer list.
pub struct ControlCtx {
    pub colors: Seq<ColorRowV>,
    pub effects: Seq<EffectRowV>,
    pub st: DancerStage,
    pub ds: Seq<Dancer>,
}

/// The row of part `j` of dancer `i` in control frame row `f`. Its name is
/// looked up both as a color and as an effect of the dancer's (model, part).
pub open spec fn control_row(c: ControlCtx, i: nat, j: nat, f: nat, entry: (String, i32)) -> ControlDataRow {
    let p = c.st.dancer_parts[i as int][j as int];
    ControlDataRow {
        dancer: i as usize,
        part: p as usize,
        frame: f as usize,
        kind: kind_of(c.ds[i as int].parts@[j as int].part_type),
        color: opt_usize(find_color(c.colors, entry.0@)),
        effect: opt_usize(find_effect(c.effects, c.st.dancers[i as int].model, p, entry.0@)),
        alpha: entry.1,
    }
}

pub open spec fn dancer_control_rows(c: ControlCtx, i: nat, f: nat, entries: Seq<(String, i32)>) -> Seq<
    ControlDataRow,
> {
    Seq::new(entries.len(), |j: int| control_row(c, i, j as nat, f, entries[j]))
}

/// The dancers of one control frame from index `i` on; each must list as
/// many entries as it declares parts.
pub open spec fn control_dancers_from(
    c: ControlCtx,
    status: Seq<Vec<(String, i32)>>,
    start: i32,
    f: nat,
    i: nat,
    data: Seq<ControlDataRow>,
) -> Result<Seq<ControlDataRow>, ImportErrorV>
    decreases status.len() - i,
{
    if i >= status.len() {
        Ok(data)
    } else if status[i as int]@.len() != c.ds[i as int].parts@.len() {
        Err(
            ImportErrorV::CardinalityMismatch {
                section: Section::Control,
                frame_start: start,
                dancer_index: Some(i),
                found: status[i as int]@.len(),
                expected: c.ds[i as int].parts@.len(),
            },
        )
    } else {
        control_dancers_from(
            c,
            status,
            start,
            f,
            i + 1,
            data + dancer_control_rows(c, i, f, status[i as int]@),
        )
    }
}

/// The control frames from `k` on.
pub open spec fn controls_from(
    c: ControlCtx,
    fs: Seq<ControlFrame>,
    k: nat,
    frames: Seq<ControlFrameRow>,
    data: Seq<ControlDataRow>,
) -> Result<(Seq<ControlFrameRow>, Seq<ControlDataRow>), ImportErrorV>
    decreases fs.len() - k,
{
    if k >= fs.len() {
        Ok((frames, data))
    } else {
        let fr = fs[k as int];
        if fr.status@.len() != c.ds.len() {
            Err(
                ImportErrorV::CardinalityMismatch {
                    section: Section::Control,
                    frame_start: fr.start,
                    dancer_index: None,
                    found: fr.status@.len(),
                    expected: c.ds.len(),
                },
            )
        } else {
            match control_dancers_from(c, fr.status@, fr.start, frames.len(), 0, data) {
                Err(e) => Err(e),
                Ok(d) => controls_from(
                    c,
                    fs,
                    k + 1,
                    frames.push(ControlFrameRow { start: fr.start, fade: fr.fade }),
                    d,
                ),
            }
        }
    }
}

fn kind_for(t: PartType) -> (r: ControlKind)
    ensures
        r == kind_of(t),
{
    match t {
        PartType::Led => ControlKind::Effect,
        PartType::Fiber => ControlKind::Color,
    }
}

/// Stores the control frames, checking each against the dancer list.
pub fn control_tables(
    colors: &Vec<ColorRow>,
    effects: &Vec<EffectRow>,
    tables: &DancerTables,
    ds: &Vec<Dancer>,
    fs: &Vec<ControlFrame>,
) -> (r: Result<(Vec<ControlFrameRow>, Vec<ControlDataRow>), ImportError>)
    requires
        tables.dancers@.len() == ds@.len(),
        tables.dancer_parts@.len() == ds@.len(),
        forall|i: int| 0 <= i < ds@.len() ==> tables.dancer_parts@[i]@.len() == ds@[i].parts@.len(),
    ensures
        ({
            let c = ControlCtx {
                colors: colors_view(colors@),
                effects: effects_view(effects@),
                st: tables.stage(),
                ds: ds@,
            };
            match r {
                Ok((frames, data)) => controls_from(c, fs@, 0, Seq::empty(), Seq::empty()) == Ok::<
                    _,
                    ImportErrorV,
                >((frames@, data@)),
                Err(e) => controls_from(c, fs@, 0, Seq::empty(), Seq::empty()) == Err::<
                    (Seq<ControlFrameRow>, Seq<ControlDataRow>),
                    ImportErrorV,
                >(e@),
            }
        }),
{
    let ghost c = ControlCtx {
        colors: colors_view(colors@),
        effects: effects_view(effects@),
        st: tables.stage(),
        ds: ds@,
    };
    let mut frames: Vec<ControlFrameRow> = Vec::new();
    let mut data: Vec<ControlDataRow> = Vec::new();
    let mut k: usize = 0;
    while k < fs.len()
        invariant
            k <= fs.len(),
            c == (ControlCtx {
                colors: colors_view(colors@),
                effects: effects_view(effects@),
                st: tables.stage(),
                ds: ds@,
            }),
            tables.dancers@.len() == ds@.len(),
            tables.dancer_parts@.len() == ds@.len(),
            forall|i: int|
                0 <= i < ds@.len() ==> tables.dancer_parts@[i]@.len() == ds@[i].parts@.len(),
            controls_from(c, fs@, k as nat, frames@, data@) == controls_from(
                c,
                fs@,
                0,
                Seq::empty(),
                Seq::empty(),
            ),
        decreases fs.len() - k,
    {
        let fr = &fs[k];
        if fr.status.len() != ds.len() {
            return Err(
                ImportError::CardinalityMismatch {
                    section: Section::Control,
                    frame_start: fr.start,
                    dancer_index: None,
                    found: fr.status.len(),
                    expected: ds.len(),
                },
            );
        }
        let f = frames.len();
        let ghost data_f = data@;
        let mut i: usize = 0;
        while i < fr.status.len()
            invariant
                i <= fr.status@.len(),
                fr.status@.len() == ds@.len(),
                k < fs@.len(),
                fr == fs@[k as int],
                f == frames@.len(),
                c == (ControlCtx {
                    colors: colors_view(colors@),
                    effects: effects_view(effects@),
                    st: tables.stage(),
                    ds: ds@,
                }),
                tables.dancers@.len() == ds@.len(),
                tables.dancer_parts@.len() == ds@.len(),
                forall|i: int|
                    0 <= i < ds@.len() ==> tables.dancer_parts@[i]@.len() == ds@[i].parts@.len(),
                control_dancers_from(c, fr.status@, fr.start, f as nat, i as nat, data@)
                    == control_dancers_from(c, fr.status@, fr.start, f as nat, 0, data_f),
                controls_from(c, fs@, k as nat, frames@, data_f) == controls_from(
                    c,
                    fs@,
                    0,
                    Seq::empty(),
                    Seq::empty(),
                ),
            decreases fr.status@.len() - i,
        {
            let entries = &fr.status[i];
            let d = &ds[i];
            if entries.len() != d.parts.len() {
                return Err(
                    ImportError::CardinalityMismatch {
                        section: Section::Control,
                        frame_start: fr.start,
                        dancer_index: Some(i),
                        found: entries.len(),
                        expected: d.parts.len(),
                    },
                );
            }
            let m = tables.dancers[i].model;
            let ghost data_i = data@;
            let ghost rows = dancer_control_rows(c, i as nat, f as nat, entries@);
            let mut j: usize = 0;
            while j < entries.len()
                invariant
                    j <= entries@.len(),
                    entries@.len() == d.parts@.len(),
                    d == ds@[i as int],
                    i < ds@.len(),
                    m == tables.dancers@[i as int].model,
                    c == (ControlCtx {
                        colors: colors_view(colors@),
                        effects: effects_view(effects@),
                        st: tables.stage(),
                        ds: ds@,
                    }),
                    tables.dancers@.len() == ds@.len(),
                    tables.dancer_parts@.len() == ds@.len(),
                    tables.dancer_parts@[i as int]@.len() == d.parts@.len(),
                    rows == dancer_control_rows(c, i as nat, f as nat, entries@),
                    data@ == data_i + rows.take(j as int),
                decreases entries@.len() - j,
            {
                let entry = &entries[j];
                let p = tables.dancer_parts[i][j];
                let kind = kind_for(d.parts[j].part_type);
                let color = lookup_color(colors, &entry.0);
                let effect = lookup_effect(effects, m, p, &entry.0);
                let row = ControlDataRow {
                    dancer: i,
                    part: p,
                    frame: f,
                    kind,
                    color,
                    effect,
                    alpha: entry.1,
                };
                proof {
                    assert(opt_usize(opt_nat(color)) == color);
                    assert(opt_usize(opt_nat(effect)) == effect);
                    assert(c.st.dancer_parts[i as int][j as int] == p as nat);
                    assert(c.st.dancers[i as int].model == m as nat);
                    assert(row == rows[j as int]);
                }
                data.push(row);
                proof {
                    assert(rows.take(j + 1) =~= rows.take(j as int).push(rows[j as int]));
                }
                j += 1;
            }
            proof {
                assert(rows.take(j as int) =~= rows);
            }
            i += 1;
        }
        frames.push(ControlFrameRow { start: fr.start, fade: fr.fade });
        k += 1;
    }
    Ok((frames, data))
}

} // verus!
