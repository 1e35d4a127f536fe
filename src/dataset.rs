//! The rows one import persists, table by table.
//!
//! A row refers to another row by its index in that row's table; the
//! datastore's own identifiers are assigned when the rows are written.
use vstd::prelude::*;
use crate::document::PartType;

verus! {

#[derive(Clone, Debug)]
pub struct ColorRow {
    pub name: String,
    pub r: i32,
    pub g: i32,
    pub b: i32,
}

pub struct ColorRowV {
    pub name: Seq<char>,
    pub r: i32,
    pub g: i32,
    pub b: i32,
}

#[derive(Clone, Debug)]
pub struct DancerRow {
    pub name: String,
    pub model: usize,
}

pub struct DancerRowV {
    pub name: Seq<char>,
    pub model: nat,
}

#[derive(Clone, Debug)]
pub struct PartRow {
    pub model: usize,
    pub name: String,
    pub part_type: PartType,
    pub length: Option<i32>,
}

pub struct PartRowV {
    pub model: nat,
    pub name: Seq<char>,
    pub part_type: PartType,
    pub length: Option<i32>,
}

#[derive(Clone, Debug)]
pub struct EffectRow {
    pub name: String,
    pub model: usize,
    pub part: usize,
}

pub struct EffectRowV {
    pub name: Seq<char>,
    pub model: nat,
    pub part: nat,
}

/// The state of one LED of an effect: `position` is the LED's index.
#[derive(Clone, Copy, Debug, PartialEq, Eq, Structural)]
pub struct EffectStateRow {
    pub effect: usize,
    pub position: usize,
    pub color: usize,
    pub alpha: i32,
}

#[derive(Clone, Copy, Debug, PartialEq, Eq, Structural)]
pub struct PositionFrameRow {
    pub start: i32,
}

/// One dancer's coordinates in one position frame (IEEE-754 bit patterns).
#[derive(Clone, Copy, Debug, PartialEq, Eq, Structural)]
pub struct PositionDataRow {
    pub dancer: usize,
    pub frame: usize,
    pub x: u32,
    pub y: u32,
    pub z: u32,
}

#[derive(Clone, Copy, Debug, PartialEq, Eq, Structural)]
pub struct ControlFrameRow {
    pub start: i32,
    pub fade: bool,
}

/// The column type label of a control row: an LED part is labelled
/// `Effect`, a fiber part `Color`.
#[derive(Clone, Copy, Debug, PartialEq, Eq, Structural)]
pub enum ControlKind {
    Effect,
    Color,
}

/// One part's state in one control frame. The reference name is looked up
/// both as a color and as an effect of the dancer's (model, part).
#[derive(Clone, Copy, Debug, PartialEq, Eq, Structural)]
pub struct ControlDataRow {
    pub dancer: usize,
    pub part: usize,
    pub frame: usize,
    pub kind: ControlKind,
    pub color: Option<usize>,
    pub effect: Option<usize>,
    pub alpha: i32,
}

/// Every table of one dataset.
#[derive(Clone, Debug)]
pub struct Dataset {
    pub colors: Vec<ColorRow>,
    pub models: Vec<String>,
    pub dancers: Vec<DancerRow>,
    pub parts: Vec<PartRow>,
    pub effects: Vec<EffectRow>,
    pub effect_states: Vec<EffectStateRow>,
    pub position_frames: Vec<PositionFrameRow>,
    pub position_data: Vec<PositionDataRow>,
    pub control_frames: Vec<ControlFrameRow>,
    pub control_data: Vec<ControlDataRow>,
    pub revisions: Vec<String>,
}

pub struct DatasetV {
    pub colors: Seq<ColorRowV>,
    pub models: Seq<Seq<char>>,
    pub dancers: Seq<DancerRowV>,
    pub parts: Seq<PartRowV>,
    pub effects: Seq<EffectRowV>,
    pub effect_states: Seq<EffectStateRow>,
    pub position_frames: Seq<PositionFrameRow>,
    pub position_data: Seq<PositionDataRow>,
    pub control_frames: Seq<ControlFrameRow>,
    pub control_data: Seq<ControlDataRow>,
    pub revisions: Seq<Seq<char>>,
}

pub open spec fn colors_view(v: Seq<ColorRow>) -> Seq<ColorRowV> {
    Seq::new(v.len(), |i: int| ColorRowV { name: v[i].name@, r: v[i].r, g: v[i].g, b: v[i].b })
}

pub open spec fn names_view(v: Seq<String>) -> Seq<Seq<char>> {
    Seq::new(v.len(), |i: int| v[i]@)
}

pub open spec fn dancers_view(v: Seq<DancerRow>) -> Seq<DancerRowV> {
    Seq::new(v.len(), |i: int| DancerRowV { name: v[i].name@, model: v[i].model as nat })
}

pub open spec fn parts_view(v: Seq<PartRow>) -> Seq<PartRowV> {
    Seq::new(
        v.len(),
        |i: int|
            PartRowV {
                model: v[i].model as nat,
                name: v[i].name@,
                part_type: v[i].part_type,
                length: v[i].length,
            },
    )
}

pub open spec fn effects_view(v: Seq<EffectRow>) -> Seq<EffectRowV> {
    Seq::new(
        v.len(),
        |i: int| EffectRowV { name: v[i].name@, model: v[i].model as nat, part: v[i].part as nat },
    )
}

impl DatasetV {
    /// The dataset with every table empty.
    pub open spec fn empty() -> DatasetV {
        DatasetV {
            colors: Seq::empty(),
            models: Seq::empty(),
            dancers: Seq::empty(),
            parts: Seq::empty(),
            effects: Seq::empty(),
            effect_states: Seq::empty(),
            position_frames: Seq::empty(),
            position_data: Seq::empty(),
            control_frames: Seq::empty(),
            control_data: Seq::empty(),
            revisions: Seq::empty(),
        }
    }

    /// The number of rows of each table, in the order of the fields.
    pub open spec fn row_counts(self) -> Seq<nat> {
        seq![
            self.colors.len(),
            self.models.len(),
            self.dancers.len(),
            self.parts.len(),
            self.effects.len(),
            self.effect_states.len(),
            self.position_frames.len(),
            self.position_data.len(),
            self.control_frames.len(),
            self.control_data.len(),
            self.revisions.len(),
        ]
    }
}

impl View for Dataset {
    type V = DatasetV;

    open spec fn view(&self) -> DatasetV {
        DatasetV {
            colors: colors_view(self.colors@),
            models: names_view(self.models@),
            dancers: dancers_view(self.dancers@),
            parts: parts_view(self.parts@),
            effects: effects_view(self.effects@),
            effect_states: self.effect_states@,
            position_frames: self.position_frames@,
            position_data: self.position_data@,
            control_frames: self.control_frames@,
            control_data: self.control_data@,
            revisions: names_view(self.revisions@),
        }
    }
}

impl Dataset {
    /// A dataset with every table empty.
    pub fn new() -> (r: Dataset)
        ensures
            r@ == DatasetV::empty(),
    {
        let r = Dataset {
            colors: Vec::new(),
            models: Vec::new(),
            dancers: Vec::new(),
            parts: Vec::new(),
            effects: Vec::new(),
            effect_states: Vec::new(),
            position_frames: Vec::new(),
            position_data: Vec::new(),
            control_frames: Vec::new(),
            control_data: Vec::new(),
            revisions: Vec::new(),
        };
        proof {
            assert(r@.colors =~= Seq::<ColorRowV>::empty());
            assert(r@.models =~= Seq::<Seq<char>>::empty());
            assert(r@.dancers =~= Seq::<DancerRowV>::empty());
            assert(r@.parts =~= Seq::<PartRowV>::empty());
            assert(r@.effects =~= Seq::<EffectRowV>::empty());
            assert(r@.revisions =~= Seq::<Seq<char>>::empty());
        }
        r
    }

    /// Deletes every row of every table.
    pub fn wipe(&mut self)
        ensures
            final(self)@ == DatasetV::empty(),
    {
        *self = Dataset::new();
    }
}

/// Which timeline a cardinality error was found in.
#[derive(Clone, Copy, Debug, PartialEq, Eq, Structural)]
pub enum Section {
    Position,
    Control,
}

/// What kind of entity a reference failed to name.
#[derive(Clone, Copy, Debug, PartialEq, Eq, Structural)]
pub enum RefKind {
    Model,
    Part,
    Color,
}

/// Why a document was rejected.
#[derive(Clone, Debug)]
pub enum ImportError {
    /// A timeline frame lists `found` entries where `expected` were
    /// declared; `dancer_index` is set when the count is a dancer's parts.
    CardinalityMismatch {
        section: Section,
        frame_start: i32,
        dancer_index: Option<usize>,
        found: usize,
        expected: usize,
    },
    /// `name` names no entity of kind `kind` created earlier in the import.
    /// For a color, `effect` and `led_index` locate the LED in frame 0.
    UnknownReference {
        kind: RefKind,
        name: String,
        model: String,
        effect: Option<String>,
        led_index: Option<usize>,
    },
    /// An LED effect has no frame 0 to take its LED states from.
    MissingFrame { model: String, part: String, effect: String },
}

pub enum ImportErrorV {
    CardinalityMismatch {
        section: Section,
        frame_start: i32,
        dancer_index: Option<nat>,
        found: nat,
        expected: nat,
    },
    UnknownReference {
        kind: RefKind,
        name: Seq<char>,
        model: Seq<char>,
        effect: Option<Seq<char>>,
        led_index: Option<nat>,
    },
    MissingFrame { model: Seq<char>, part: Seq<char>, effect: Seq<char> },
}

pub open spec fn opt_nat(o: Option<usize>) -> Option<nat> {
    match o {
        Some(x) => Some(x as nat),
        None => None,
    }
}

pub open spec fn opt_str(o: Option<String>) -> Option<Seq<char>> {
    match o {
        Some(x) => Some(x@),
        None => None,
    }
}

impl View for ImportError {
    type V = ImportErrorV;

    open spec fn view(&self) -> ImportErrorV {
        match self {
            ImportError::CardinalityMismatch { section, frame_start, dancer_index, found, expected } =>
                ImportErrorV::CardinalityMismatch {
                    section: *section,
                    frame_start: *frame_start,
                    dancer_index: opt_nat(*dancer_index),
                    found: *found as nat,
                    expected: *expected as nat,
                },
            ImportError::UnknownReference { kind, name, model, effect, led_index } =>
                ImportErrorV::UnknownReference {
                    kind: *kind,
                    name: name@,
                    model: model@,
                    effect: opt_str(*effect),
                    led_index: opt_nat(*led_index),
                },
            ImportError::MissingFrame { model, part, effect } => ImportErrorV::MissingFrame {
                model: model@,
                part: part@,
                effect: effect@,
            },
        }
    }
}

} // verus!
