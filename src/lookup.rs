//! Lookups by natural key in the tables built so far. Each returns the last
//! matching row, so that a later palette entry of the same name wins.
use vstd::prelude::*;
use crate::dataset::{ColorRow, ColorRowV, EffectRow, EffectRowV, PartRow, PartRowV, colors_view, effects_view, names_view, opt_nat, parts_view};

verus! {

pub open spec fn color_below(s: Seq<ColorRowV>, name: Seq<char>, k: nat) -> Option<nat>
    decreases k,
{
    if k == 0 {
        None
    } else if s[k - 1].name == name {
        Some((k - 1) as nat)
    } else {
        color_below(s, name, (k - 1) as nat)
    }
}

/// The color row that `name` resolves to.
pub open spec fn find_color(s: Seq<ColorRowV>, name: Seq<char>) -> Option<nat> {
    color_below(s, name, s.len())
}

pub open spec fn model_below(s: Seq<Seq<char>>, name: Seq<char>, k: nat) -> Option<nat>
    decreases k,
{
    if k == 0 {
        None
    } else if s[k - 1] == name {
        Some((k - 1) as nat)
    } else {
        model_below(s, name, (k - 1) as nat)
    }
}

/// The model row named `name`.
pub open spec fn find_model(s: Seq<Seq<char>>, name: Seq<char>) -> Option<nat> {
    model_below(s, name, s.len())
}

pub open spec fn part_below(s: Seq<PartRowV>, model: nat, name: Seq<char>, k: nat) -> Option<nat>
    decreases k,
{
    if k == 0 {
        None
    } else if s[k - 1].model == model && s[k - 1].name == name {
        Some((k - 1) as nat)
    } else {
        part_below(s, model, name, (k - 1) as nat)
    }
}

/// The part row keyed by (`model`, `name`).
pub open spec fn find_part(s: Seq<PartRowV>, model: nat, name: Seq<char>) -> Option<nat> {
    part_below(s, model, name, s.len())
}

pub open spec fn effect_below(
    s: Seq<EffectRowV>,
    model: nat,
    part: nat,
    name: Seq<char>,
    k: nat,
) -> Option<nat>
    decreases k,
{
    if k == 0 {
        None
    } else if s[k - 1].model == model && s[k - 1].part == part && s[k - 1].name == name {
        Some((k - 1) as nat)
    } else {
        effect_below(s, model, part, name, (k - 1) as nat)
    }
}

/// The effect row keyed by (`model`, `part`, `name`).
pub open spec fn find_effect(s: Seq<EffectRowV>, model: nat, part: nat, name: Seq<char>) -> Option<nat> {
    effect_below(s, model, part, name, s.len())
}

pub fn lookup_color(colors: &Vec<ColorRow>, name: &String) -> (r: Option<usize>)
    ensures
        opt_nat(r) == find_color(colors_view(colors@), name@),
{
    let ghost s = colors_view(colors@);
    let mut k: usize = colors.len();
    while k > 0
        invariant
            k <= colors.len(),
            s == colors_view(colors@),
            color_below(s, name@, k as nat) == find_color(s, name@),
        decreases k,
    {
        if colors[k - 1].name == *name {
            return Some(k - 1);
        }
        k -= 1;
    }
    None
}

pub fn lookup_model(models: &Vec<String>, name: &String) -> (r: Option<usize>)
    ensures
        opt_nat(r) == find_model(names_view(models@), name@),
{
    let ghost s = names_view(models@);
    let mut k: usize = models.len();
    while k > 0
        invariant
            k <= models.len(),
            s == names_view(models@),
            model_below(s, name@, k as nat) == find_model(s, name@),
        decreases k,
    {
        if models[k - 1] == *name {
            return Some(k - 1);
        }
        k -= 1;
    }
    None
}

pub fn lookup_part(parts: &Vec<PartRow>, model: usize, name: &String) -> (r: Option<usize>)
    ensures
        opt_nat(r) == find_part(parts_view(parts@), model as nat, name@),
{
    let ghost s = parts_view(parts@);
    let mut k: usize = parts.len();
    while k > 0
        invariant
            k <= parts.len(),
            s == parts_view(parts@),
            part_below(s, model as nat, name@, k as nat) == find_part(s, model as nat, name@),
        decreases k,
    {
        if parts[k - 1].model == model && parts[k - 1].name == *name {
            return Some(k - 1);
        }
        k -= 1;
    }
    None
}

pub fn lookup_effect(effects: &Vec<EffectRow>, model: usize, part: usize, name: &String) -> (r:
    Option<usize>)
    ensures
        opt_nat(r) == find_effect(effects_view(effects@), model as nat, part as nat, name@),
{
    let ghost s = effects_view(effects@);
    let mut k: usize = effects.len();
    while k > 0
        invariant
            k <= effects.len(),
            s == effects_view(effects@),
            effect_below(s, model as nat, part as nat, name@, k as nat) == find_effect(
                s,
                model as nat,
                part as nat,
                name@,
            ),
        decreases k,
    {
        if effects[k - 1].model == model && effects[k - 1].part == part && effects[k - 1].name
            == *name {
            return Some(k - 1);
        }
        k -= 1;
    }
    None
}

} // verus!
