//! The import as a whole: every section in order, then the revision marker.
use vstd::prelude::*;
use crate::dataset::{Dataset, DatasetV, ImportError, ImportErrorV, names_view};
use crate::document::Document;
use crate::effects::{EffectStage, effect_tables, model_effects_from};
use crate::plan::{color_rows, color_table, dancer_stage, dancer_tables};
use crate::timeline::{ControlCtx, control_tables, controls_from, position_tables, positions_from};

verus! {

/// The dataset that importing `doc` stores, stamped with `revision`, or the
/// first error met. Sections are checked in the order palette, dancers, LED
/// effects, position frames, control frames.
pub open spec fn import_spec(doc: Document, revision: Seq<char>) -> Result<DatasetV, ImportErrorV> {
    let colors = color_rows(doc.colors@);
    let st = dancer_stage(doc.dancers@);
    match model_effects_from(colors, st.models, st.parts, doc.led_effects@, 0, EffectStage::empty()) {
        Err(e) => Err(e),
        Ok(es) => match positions_from(
            doc.dancers@.len(),
            doc.position@,
            0,
            Seq::empty(),
            Seq::empty(),
        ) {
            Err(e) => Err(e),
            Ok(ps) => match controls_from(
                ControlCtx { colors, effects: es.effects, st, ds: doc.dancers@ },
                doc.control@,
                0,
                Seq::empty(),
                Seq::empty(),
            ) {
                Err(e) => Err(e),
                Ok(cs) => Ok(
                    DatasetV {
                        colors,
                        models: st.models,
                        dancers: st.dancers,
                        parts: st.parts,
                        effects: es.effects,
                        effect_states: es.states,
                        position_frames: ps.0,
                        position_data: ps.1,
                        control_frames: cs.0,
                        control_data: cs.1,
                        revisions: seq![revision],
                    },
                ),
            },
        },
    }
}

/// The outcome of an import as a value of the model.
pub open spec fn outcome(r: Result<Dataset, ImportError>) -> Result<DatasetV, ImportErrorV> {
    match r {
        Ok(d) => Ok(d@),
        Err(e) => Err(e@),
    }
}

/// Validates `doc` and builds every row it stores, stamped with `revision`.
pub fn plan_import(doc: &Document, revision: String) -> (r: Result<Dataset, ImportError>)
    ensures
        outcome(r) == import_spec(*doc, revision@),
{
    let colors = color_table(&doc.colors);
    let tables = dancer_tables(&doc.dancers);
    let (effects, effect_states) = match effect_tables(
        &colors,
        &tables.models,
        &tables.parts,
        &doc.led_effects,
    ) {
        Ok(x) => x,
        Err(e) => {
            return Err(e);
        },
    };
    let (position_frames, position_data) = match position_tables(doc.dancers.len(), &doc.position) {
        Ok(x) => x,
        Err(e) => {
            return Err(e);
        },
    };
    let (control_frames, control_data) = match control_tables(
        &colors,
        &effects,
        &tables,
        &doc.dancers,
        &doc.control,
    ) {
        Ok(x) => x,
        Err(e) => {
            return Err(e);
        },
    };
    let mut revisions: Vec<String> = Vec::new();
    revisions.push(revision);
    let d = Dataset {
        colors,
        models: tables.models,
        dancers: tables.dancers,
        parts: tables.parts,
        effects,
        effect_states,
        position_frames,
        position_data,
        control_frames,
        control_data,
        revisions,
    };
    proof {
        assert(names_view(d.revisions@) =~= seq![revision@]);
    }
    Ok(d)
}

/// Relies on uuid's `Uuid::new_v4` and its `Display`: a fresh random
/// identifier in hyphenated form, 36 characters.
#[verifier::external_body]
fn new_revision_id() -> (r: String)
    ensures
        r@.len() == 36,
{
    uuid::Uuid::new_v4().to_string()
}

/// Validates `doc` and builds every row it stores, stamped with a freshly
/// generated revision identifier. Whether it fails, and how, does not
/// depend on the identifier.
pub fn import_dataset(doc: &Document) -> (r: Result<Dataset, ImportError>)
    ensures
        match r {
            Ok(d) => d@.revisions.len() == 1 && d@.revisions[0].len() == 36 && import_spec(
                *doc,
                d@.revisions[0],
            ) == Ok::<DatasetV, ImportErrorV>(d@),
            Err(e) => forall|u: Seq<char>| #[trigger]
                import_spec(*doc, u) == Err::<DatasetV, ImportErrorV>(e@),
        },
{
    let revision = new_revision_id();
    let r = plan_import(doc, revision);
    proof {
        if let Ok(d) = &r {
            assert(d@.revisions[0] == revision@);
        }
    }
    r
}

/// Replaces the dataset held in `store` by the one `doc` describes: the
/// store is wiped first, then filled only if the whole document is valid.
/// On failure the store is left exactly as the wipe left it.
pub fn import_into(store: &mut Dataset, doc: &Document) -> (r: Result<(), ImportError>)
    ensures
        match r {
            Ok(_) => final(store)@.revisions.len() == 1 && import_spec(
                *doc,
                final(store)@.revisions[0],
            ) == Ok::<DatasetV, ImportErrorV>(final(store)@),
            Err(e) => final(store)@ == DatasetV::empty() && forall|u: Seq<char>| #[trigger]
                import_spec(*doc, u) == Err::<DatasetV, ImportErrorV>(e@),
        },
{
    store.wipe();
    match import_dataset(doc) {
        Ok(d) => {
            *store = d;
            Ok(())
        },
        Err(e) => Err(e),
    }
}

} // verus!
