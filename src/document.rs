//! The typed form of an uploaded show document.
//!
//! The document's maps (palette, LED effects, position and control
//! timelines) are held as vectors of entries: their keys carry no order, and
//! the import never depends on the order in which they are walked.
use vstd::prelude::*;

verus! {

/// The physical kind of a part on a dancer model.
#[derive(Clone, Copy, Debug, PartialEq, Eq, Structural)]
pub enum PartType {
    Led,
    Fiber,
}

/// One part as a dancer declares it.
#[derive(Clone, Debug)]
pub struct PartDecl {
    pub name: String,
    pub part_type: PartType,
    pub length: Option<i32>,
}

/// One dancer: its name, the model it is built on and its parts, in order.
#[derive(Clone, Debug)]
pub struct Dancer {
    pub name: String,
    pub model: String,
    pub parts: Vec<PartDecl>,
}

/// One palette entry: a color name and its three channels.
#[derive(Clone, Debug)]
pub struct ColorEntry {
    pub name: String,
    pub rgb: [i32; 3],
}

/// One frame of an LED effect: a (color name, alpha) pair per LED.
#[derive(Clone, Debug)]
pub struct LedFrame {
    pub leds: Vec<(String, i32)>,
    pub start: i32,
    pub fade: bool,
}

/// A named LED effect of one part.
#[derive(Clone, Debug)]
pub struct LedEffect {
    pub name: String,
    pub repeat: i32,
    pub frames: Vec<LedFrame>,
}

/// The effects declared for one part of a model.
#[derive(Clone, Debug)]
pub struct PartEffects {
    pub part: String,
    pub effects: Vec<LedEffect>,
}

/// The effects declared for the parts of one model.
#[derive(Clone, Debug)]
pub struct ModelEffects {
    pub model: String,
    pub parts: Vec<PartEffects>,
}

/// A position frame: one coordinate triple per dancer, in dancer-list
/// order. Each coordinate is the bit pattern of an IEEE-754 single.
#[derive(Clone, Debug)]
pub struct PositionFrame {
    pub start: i32,
    pub pos: Vec<[u32; 3]>,
}

/// A control frame: per dancer (in dancer-list order), per part (in that
/// dancer's part order), a (color or effect name, alpha) pair.
#[derive(Clone, Debug)]
pub struct ControlFrame {
    pub start: i32,
    pub fade: bool,
    pub status: Vec<Vec<(String, i32)>>,
}

/// The whole uploaded document.
#[derive(Clone, Debug)]
pub struct Document {
    pub colors: Vec<ColorEntry>,
    pub dancers: Vec<Dancer>,
    pub led_effects: Vec<ModelEffects>,
    pub position: Vec<PositionFrame>,
    pub control: Vec<ControlFrame>,
}

} // verus!
