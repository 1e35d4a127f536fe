//! The LED effects section: effect rows and the LED states of frame 0.
use vstd::prelude::*;
use crate::dataset::{
    ColorRow, ColorRowV, EffectRow, EffectRowV, EffectStateRow, ImportError, ImportErrorV, PartRow,
    PartRowV, RefKind, colors_view, effects_view, names_view, parts_view,
};
use crate::document::{LedEffect, ModelEffects, PartEffects};
use crate::lookup::{find_color, find_model, find_part, lookup_color, lookup_model, lookup_part};

verus! {

/// The effect and LED-state tables as built so far.
pub struct EffectStage {
    pub effects: Seq<EffectRowV>,
    pub states: Seq<EffectStateRow>,
}

impl EffectStage {
    pub open spec fn empty() -> EffectStage {
        EffectStage { effects: Seq::empty(), states: Seq::empty() }
    }
}

/// The LED states of effect row `eid` from LED `j` on, each LED's color
/// resolved through the palette; the first unknown color is an error.
pub open spec fn led_states(
    colors: Seq<ColorRowV>,
    model: Seq<char>,
    effect: Seq<char>,
    eid: nat,
    leds: Seq<(String, i32)>,
    j: nat,
    states: Seq<EffectStateRow>,
) -> Result<Seq<EffectStateRow>, ImportErrorV>
    decreases leds.len() - j,
{
    if j >= leds.len() {
        Ok(states)
    } else {
        match find_color(colors, leds[j as int].0@) {
            None => Err(
                ImportErrorV::UnknownReference {
                    kind: RefKind::Color,
                    name: leds[j as int].0@,
                    model: model,
                    effect: Some(effect),
                    led_index: Some(j),
                },
            ),
            Some(c) => led_states(
                colors,
                model,
                effect,
                eid,
                leds,
                j + 1,
                states.push(
                    EffectStateRow {
                        effect: eid as usize,
                        position: j as usize,
                        color: c as usize,
                        alpha: leds[j as int].1,
                    },
                ),
            ),
        }
    }
}

/// The effects of part row `p` of model row `m`, from effect `k` on.
pub open spec fn effects_from(
    colors: Seq<ColorRowV>,
    model: Seq<char>,
    part: Seq<char>,
    m: nat,
    p: nat,
    es: Seq<LedEffect>,
    k: nat,
    acc: EffectStage,
) -> Result<EffectStage, ImportErrorV>
    decreases es.len() - k,
{
    if k >= es.len() {
        Ok(acc)
    } else {
        let e = es[k as int];
        if e.frames@.len() == 0 {
            Err(ImportErrorV::MissingFrame { model: model, part: part, effect: e.name@ })
        } else {
            match led_states(
                colors,
                model,
                e.name@,
                acc.effects.len(),
                e.frames@[0].leds@,
                0,
                acc.states,
            ) {
                Err(x) => Err(x),
                Ok(states) => effects_from(
                    colors,
                    model,
                    part,
                    m,
                    p,
                    es,
                    k + 1,
                    EffectStage {
                        effects: acc.effects.push(EffectRowV { name: e.name@, model: m, part: p }),
                        states,
                    },
                ),
            }
        }
    }
}

/// The parts of model row `m` that carry effects, from entry `k` on; each
/// part must already be keyed by (model, part name).
pub open spec fn part_effects_from(
    colors: Seq<ColorRowV>,
    parts: Seq<PartRowV>,
    model: Seq<char>,
    m: nat,
    pes: Seq<PartEffects>,
    k: nat,
    acc: EffectStage,
) -> Result<EffectStage, ImportErrorV>
    decreases pes.len() - k,
{
    if k >= pes.len() {
        Ok(acc)
    } else {
        let pe = pes[k as int];
        match find_part(parts, m, pe.part@) {
            None => Err(
                ImportErrorV::UnknownReference {
                    kind: RefKind::Part,
                    name: pe.part@,
                    model: model,
                    effect: None,
                    led_index: None,
                },
            ),
            Some(p) => match effects_from(colors, model, pe.part@, m, p, pe.effects@, 0, acc) {
                Err(x) => Err(x),
                Ok(a) => part_effects_from(colors, parts, model, m, pes, k + 1, a),
            },
        }
    }
}

/// The models that carry effects, from entry `k` on; each model must
/// already have been created by some dancer.
pub open spec fn model_effects_from(
    colors: Seq<ColorRowV>,
    models: Seq<Seq<char>>,
    parts: Seq<PartRowV>,
    mes: Seq<ModelEffects>,
    k: nat,
    acc: EffectStage,
) -> Result<EffectStage, ImportErrorV>
    decreases mes.len() - k,
{
    if k >= mes.len() {
        Ok(acc)
    } else {
        let me = mes[k as int];
        match find_model(models, me.model@) {
            None => Err(
                ImportErrorV::UnknownReference {
                    kind: RefKind::Model,
                    name: me.model@,
                    model: me.model@,
                    effect: None,
                    led_index: None,
                },
            ),
            Some(m) => match part_effects_from(colors, parts, me.model@, m, me.parts@, 0, acc) {
                Err(x) => Err(x),
                Ok(a) => model_effects_from(colors, models, parts, mes, k + 1, a),
            },
        }
    }
}

pub open spec fn effect_stage_of(effects: Seq<EffectRow>, states: Seq<EffectStateRow>) -> EffectStage {
    EffectStage { effects: effects_view(effects), states }
}

/// The outcome of a fold step that writes into the two tables: the fold's
/// value on success, its error otherwise.
pub open spec fn stage_outcome(
    r: Result<(), ImportError>,
    effects: Seq<EffectRow>,
    states: Seq<EffectStateRow>,
) -> Result<EffectStage, ImportErrorV> {
    match r {
        Ok(_) => Ok(effect_stage_of(effects, states)),
        Err(e) => Err(e@),
    }
}

fn add_led_states(
    colors: &Vec<ColorRow>,
    model: &String,
    effect: &String,
    eid: usize,
    leds: &Vec<(String, i32)>,
    states: &mut Vec<EffectStateRow>,
) -> (r: Result<(), ImportError>)
    ensures
        match r {
            Ok(_) => led_states(colors_view(colors@), model@, effect@, eid as nat, leds@, 0, old(states)@)
                == Ok::<Seq<EffectStateRow>, ImportErrorV>(final(states)@),
            Err(e) => led_states(colors_view(colors@), model@, effect@, eid as nat, leds@, 0, old(states)@)
                == Err::<Seq<EffectStateRow>, ImportErrorV>(e@),
        },
{
    let ghost cv = colors_view(colors@);
    let mut j: usize = 0;
    while j < leds.len()
        invariant
            j <= leds.len(),
            cv == colors_view(colors@),
            led_states(cv, model@, effect@, eid as nat, leds@, j as nat, states@) == led_states(
                cv,
                model@,
                effect@,
                eid as nat,
                leds@,
                0,
                old(states)@,
            ),
        decreases leds.len() - j,
    {
        let led = &leds[j];
        match lookup_color(colors, &led.0) {
            None => {
                return Err(
                    ImportError::UnknownReference {
                        kind: RefKind::Color,
                        name: led.0.clone(),
                        model: model.clone(),
                        effect: Some(effect.clone()),
                        led_index: Some(j),
                    },
                );
            },
            Some(c) => {
                states.push(EffectStateRow { effect: eid, position: j, color: c, alpha: led.1 });
            },
        }
        j += 1;
    }
    Ok(())
}

fn add_effects(
    colors: &Vec<ColorRow>,
    model: &String,
    part: &String,
    m: usize,
    p: usize,
    es: &Vec<LedEffect>,
    effects: &mut Vec<EffectRow>,
    states: &mut Vec<EffectStateRow>,
) -> (r: Result<(), ImportError>)
    ensures
        stage_outcome(r, final(effects)@, final(states)@) == effects_from(
            colors_view(colors@),
            model@,
            part@,
            m as nat,
            p as nat,
            es@,
            0,
            effect_stage_of(old(effects)@, old(states)@),
        ),
{
    let ghost cv = colors_view(colors@);
    let mut k: usize = 0;
    while k < es.len()
        invariant
            k <= es.len(),
            cv == colors_view(colors@),
            effects_from(cv, model@, part@, m as nat, p as nat, es@, k as nat, effect_stage_of(effects@, states@))
                == effects_from(
                cv,
                model@,
                part@,
                m as nat,
                p as nat,
                es@,
                0,
                effect_stage_of(old(effects)@, old(states)@),
            ),
        decreases es.len() - k,
    {
        let e = &es[k];
        if e.frames.len() == 0 {
            return Err(
                ImportError::MissingFrame {
                    model: model.clone(),
                    part: part.clone(),
                    effect: e.name.clone(),
                },
            );
        }
        let eid = effects.len();
        let ghost ev = effects_view(effects@);
        match add_led_states(colors, model, &e.name, eid, &e.frames[0].leds, states) {
            Err(x) => {
                return Err(x);
            },
            Ok(_) => {},
        }
        effects.push(EffectRow { name: e.name.clone(), model: m, part: p });
        proof {
            assert(effects_view(effects@) =~= ev.push(
                EffectRowV { name: e.name@, model: m as nat, part: p as nat },
            ));
        }
        k += 1;
    }
    Ok(())
}

fn add_part_effects(
    colors: &Vec<ColorRow>,
    parts: &Vec<PartRow>,
    model: &String,
    m: usize,
    pes: &Vec<PartEffects>,
    effects: &mut Vec<EffectRow>,
    states: &mut Vec<EffectStateRow>,
) -> (r: Result<(), ImportError>)
    ensures
        stage_outcome(r, final(effects)@, final(states)@) == part_effects_from(
            colors_view(colors@),
            parts_view(parts@),
            model@,
            m as nat,
            pes@,
            0,
            effect_stage_of(old(effects)@, old(states)@),
        ),
{
    let ghost cv = colors_view(colors@);
    let ghost pv = parts_view(parts@);
    let mut k: usize = 0;
    while k < pes.len()
        invariant
            k <= pes.len(),
            cv == colors_view(colors@),
            pv == parts_view(parts@),
            part_effects_from(cv, pv, model@, m as nat, pes@, k as nat, effect_stage_of(effects@, states@))
                == part_effects_from(
                cv,
                pv,
                model@,
                m as nat,
                pes@,
                0,
                effect_stage_of(old(effects)@, old(states)@),
            ),
        decreases pes.len() - k,
    {
        let pe = &pes[k];
        let p = match lookup_part(parts, m, &pe.part) {
            None => {
                return Err(
                    ImportError::UnknownReference {
                        kind: RefKind::Part,
                        name: pe.part.clone(),
                        model: model.clone(),
                        effect: None,
                        led_index: None,
                    },
                );
            },
            Some(p) => p,
        };
        let r = add_effects(colors, model, &pe.part, m, p, &pe.effects, effects, states);
        if r.is_err() {
            return r;
        }
        k += 1;
    }
    Ok(())
}

/// Creates the effect rows and the frame-0 LED states of every effect, in
/// document order, resolving models, parts and colors created before.
pub fn effect_tables(
    colors: &Vec<ColorRow>,
    models: &Vec<String>,
    parts: &Vec<PartRow>,
    mes: &Vec<ModelEffects>,
) -> (r: Result<(Vec<EffectRow>, Vec<EffectStateRow>), ImportError>)
    ensures
        match r {
            Ok((effects, states)) => model_effects_from(
                colors_view(colors@),
                names_view(models@),
                parts_view(parts@),
                mes@,
                0,
                EffectStage::empty(),
            ) == Ok::<EffectStage, ImportErrorV>(effect_stage_of(effects@, states@)),
            Err(e) => model_effects_from(
                colors_view(colors@),
                names_view(models@),
                parts_view(parts@),
                mes@,
                0,
                EffectStage::empty(),
            ) == Err::<EffectStage, ImportErrorV>(e@),
        },
{
    let ghost cv = colors_view(colors@);
    let ghost mv = names_view(models@);
    let ghost pv = parts_view(parts@);
    let mut effects: Vec<EffectRow> = Vec::new();
    let mut states: Vec<EffectStateRow> = Vec::new();
    proof {
        assert(effects_view(effects@) =~= Seq::<EffectRowV>::empty());
        assert(states@ =~= Seq::<EffectStateRow>::empty());
        assert(effect_stage_of(effects@, states@) == EffectStage::empty());
    }
    let mut k: usize = 0;
    while k < mes.len()
        invariant
            k <= mes.len(),
            cv == colors_view(colors@),
            mv == names_view(models@),
            pv == parts_view(parts@),
            model_effects_from(cv, mv, pv, mes@, k as nat, effect_stage_of(effects@, states@))
                == model_effects_from(cv, mv, pv, mes@, 0, EffectStage::empty()),
        decreases mes.len() - k,
    {
        let me = &mes[k];
        let m = match lookup_model(models, &me.model) {
            None => {
                return Err(
                    ImportError::UnknownReference {
                        kind: RefKind::Model,
                        name: me.model.clone(),
                        model: me.model.clone(),
                        effect: None,
                        led_index: None,
                    },
                );
            },
            Some(m) => m,
        };
        let r = add_part_effects(colors, parts, &me.model, m, &me.parts, &mut effects, &mut states);
        match r {
            Err(x) => {
                return Err(x);
            },
            Ok(_) => {},
        }
        k += 1;
    }
    Ok((effects, states))
}

} // verus!
