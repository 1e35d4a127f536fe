use editor_server::dataset::{ControlKind, Dataset, ImportError, RefKind, Section};
use editor_server::document::{
    ColorEntry, ControlFrame, Dancer, Document, LedEffect, LedFrame, ModelEffects, PartDecl,
    PartEffects, PartType, PositionFrame,
};
use editor_server::import::{import_dataset, import_into, plan_import};
use editor_server::response::{UploadDataFailedResponse, UploadDataResponse};

fn s(x: &str) -> String {
    x.to_string()
}

fn xyz(x: f32, y: f32, z: f32) -> [u32; 3] {
    [x.to_bits(), y.to_bits(), z.to_bits()]
}

fn part(name: &str, t: PartType, length: Option<i32>) -> PartDecl {
    PartDecl { name: s(name), part_type: t, length }
}

fn dancer(name: &str, model: &str, parts: Vec<PartDecl>) -> Dancer {
    Dancer { name: s(name), model: s(model), parts }
}

fn effect(model: &str, part: &str, name: &str, leds: Vec<(&str, i32)>) -> ModelEffects {
    ModelEffects {
        model: s(model),
        parts: vec![PartEffects {
            part: s(part),
            effects: vec![LedEffect {
                name: s(name),
                repeat: 0,
                frames: vec![LedFrame {
                    leds: leds.into_iter().map(|(c, a)| (s(c), a)).collect(),
                    start: 0,
                    fade: false,
                }],
            }],
        }],
    }
}

fn empty_doc() -> Document {
    Document {
        colors: vec![],
        dancers: vec![],
        led_effects: vec![],
        position: vec![],
        control: vec![],
    }
}

fn basic_show() -> Document {
    Document {
        colors: vec![ColorEntry { name: s("red"), rgb: [255, 0, 0] }],
        dancers: vec![dancer("D1", "basic", vec![part("head", PartType::Led, Some(3))])],
        led_effects: vec![effect("basic", "head", "blink", vec![("red", 255)])],
        position: vec![PositionFrame { start: 0, pos: vec![xyz(0.0, 0.0, 0.0)] }],
        control: vec![ControlFrame {
            start: 0,
            fade: false,
            status: vec![vec![(s("blink"), 255)]],
        }],
    }
}

fn counts(d: &Dataset) -> Vec<usize> {
    vec![
        d.colors.len(),
        d.models.len(),
        d.dancers.len(),
        d.parts.len(),
        d.effects.len(),
        d.effect_states.len(),
        d.position_frames.len(),
        d.position_data.len(),
        d.control_frames.len(),
        d.control_data.len(),
        d.revisions.len(),
    ]
}

#[test]
fn happy_path_counts() {
    let d = plan_import(&basic_show(), s("rev")).unwrap();
    assert_eq!(counts(&d), vec![1; 11]);
    assert_eq!(d.colors[0].name, "red");
    assert_eq!((d.colors[0].r, d.colors[0].g, d.colors[0].b), (255, 0, 0));
    assert_eq!(d.models[0], "basic");
    assert_eq!(d.dancers[0].name, "D1");
    assert_eq!(d.parts[0].length, Some(3));
    assert_eq!(d.effects[0].name, "blink");
    assert_eq!(d.effect_states[0].color, 0);
    assert_eq!(d.effect_states[0].alpha, 255);
    assert_eq!(d.revisions[0], "rev");
}

#[test]
fn happy_path_control_resolves_effect() {
    let d = plan_import(&basic_show(), s("rev")).unwrap();
    let c = d.control_data[0];
    assert_eq!(c.kind, ControlKind::Effect);
    assert_eq!(c.effect, Some(0));
    assert_eq!(c.color, None);
    assert_eq!(c.alpha, 255);
    assert_eq!((c.dancer, c.part, c.frame), (0, 0, 0));
}

#[test]
fn fiber_part_control_resolves_color() {
    let mut doc = basic_show();
    doc.dancers[0].parts.push(part("arm", PartType::Fiber, None));
    doc.control[0].status[0].push((s("red"), 10));
    let d = plan_import(&doc, s("rev")).unwrap();
    let c = d.control_data[1];
    assert_eq!(c.kind, ControlKind::Color);
    assert_eq!(c.color, Some(0));
    assert_eq!(c.effect, None);
    assert_eq!(c.part, 1);
}

#[test]
fn position_count_mismatch() {
    let mut doc = basic_show();
    doc.position[0].pos.clear();
    match plan_import(&doc, s("rev")) {
        Err(ImportError::CardinalityMismatch { section, frame_start, dancer_index, found, expected }) => {
            assert_eq!(section, Section::Position);
            assert_eq!(frame_start, 0);
            assert_eq!(dancer_index, None);
            assert_eq!(found, 0);
            assert_eq!(expected, 1);
        }
        other => panic!("unexpected outcome: {:?}", other),
    }
}

#[test]
fn unknown_model_in_effects() {
    let mut doc = basic_show();
    doc.led_effects[0].model = s("unknown");
    match plan_import(&doc, s("rev")) {
        Err(ImportError::UnknownReference { kind, name, .. }) => {
            assert_eq!(kind, RefKind::Model);
            assert_eq!(name, "unknown");
        }
        other => panic!("unexpected outcome: {:?}", other),
    }
}

#[test]
fn unknown_color_in_effect_frame() {
    let mut doc = basic_show();
    doc.led_effects = vec![effect("basic", "head", "blink", vec![("red", 1), ("blue", 255)])];
    match plan_import(&doc, s("rev")) {
        Err(ImportError::UnknownReference { kind, name, model, effect, led_index }) => {
            assert_eq!(kind, RefKind::Color);
            assert_eq!(name, "blue");
            assert_eq!(model, "basic");
            assert_eq!(effect, Some(s("blink")));
            assert_eq!(led_index, Some(1));
        }
        other => panic!("unexpected outcome: {:?}", other),
    }
}

#[test]
fn unknown_part_in_effects() {
    let mut doc = basic_show();
    doc.led_effects[0].parts[0].part = s("tail");
    match plan_import(&doc, s("rev")) {
        Err(ImportError::UnknownReference { kind, name, model, .. }) => {
            assert_eq!(kind, RefKind::Part);
            assert_eq!(name, "tail");
            assert_eq!(model, "basic");
        }
        other => panic!("unexpected outcome: {:?}", other),
    }
}

#[test]
fn effect_without_frames() {
    let mut doc = basic_show();
    doc.led_effects[0].parts[0].effects[0].frames.clear();
    match plan_import(&doc, s("rev")) {
        Err(ImportError::MissingFrame { model, part, effect }) => {
            assert_eq!((model.as_str(), part.as_str(), effect.as_str()), ("basic", "head", "blink"));
        }
        other => panic!("unexpected outcome: {:?}", other),
    }
}

#[test]
fn control_dancer_count_mismatch() {
    let mut doc = basic_show();
    doc.control[0].start = 7;
    doc.control[0].status.push(vec![]);
    match plan_import(&doc, s("rev")) {
        Err(ImportError::CardinalityMismatch { section, frame_start, dancer_index, found, expected }) => {
            assert_eq!(section, Section::Control);
            assert_eq!(frame_start, 7);
            assert_eq!(dancer_index, None);
            assert_eq!((found, expected), (2, 1));
        }
        other => panic!("unexpected outcome: {:?}", other),
    }
}

#[test]
fn control_part_count_mismatch() {
    let mut doc = basic_show();
    doc.control[0].status[0].push((s("red"), 1));
    match plan_import(&doc, s("rev")) {
        Err(ImportError::CardinalityMismatch { section, dancer_index, found, expected, .. }) => {
            assert_eq!(section, Section::Control);
            assert_eq!(dancer_index, Some(0));
            assert_eq!((found, expected), (2, 1));
        }
        other => panic!("unexpected outcome: {:?}", other),
    }
}

#[test]
fn empty_document_stores_only_revision() {
    let d = plan_import(&empty_doc(), s("r1")).unwrap();
    assert_eq!(counts(&d), vec![0, 0, 0, 0, 0, 0, 0, 0, 0, 0, 1]);
}

#[test]
fn no_file_response() {
    assert_eq!(UploadDataFailedResponse::no_file().err, "No File!");
    assert_eq!(UploadDataResponse::success().0, "Data Uploaded Successfully!");
    assert_eq!(UploadDataFailedResponse::new(s("bad")).err, "bad");
}

#[test]
fn importing_twice_keeps_counts_and_one_revision() {
    let mut store = Dataset::new();
    import_into(&mut store, &basic_show()).unwrap();
    let first = counts(&store);
    let first_rev = store.revisions[0].clone();
    import_into(&mut store, &basic_show()).unwrap();
    assert_eq!(counts(&store), first);
    assert_eq!(store.revisions.len(), 1);
    assert_ne!(store.revisions[0], first_rev);
}

#[test]
fn failed_import_leaves_store_wiped() {
    let mut store = Dataset::new();
    import_into(&mut store, &basic_show()).unwrap();
    let mut bad = basic_show();
    bad.position[0].pos.clear();
    assert!(import_into(&mut store, &bad).is_err());
    assert_eq!(counts(&store), vec![0; 11]);
}

#[test]
fn shared_model_parts_are_deduplicated() {
    let mut doc = empty_doc();
    doc.dancers = vec![
        dancer("A", "m", vec![part("head", PartType::Led, Some(3))]),
        dancer("B", "m", vec![part("head", PartType::Led, Some(3))]),
        dancer("C", "other", vec![part("head", PartType::Led, Some(3))]),
    ];
    let d = plan_import(&doc, s("r")).unwrap();
    assert_eq!(d.models.len(), 2);
    assert_eq!(d.dancers.len(), 3);
    assert_eq!(d.parts.len(), 2);
    assert_eq!(d.dancers[0].model, d.dancers[1].model);
    assert_ne!(d.dancers[0].model, d.dancers[2].model);
}

#[test]
fn position_rows_follow_dancer_order() {
    let mut doc = empty_doc();
    doc.dancers = vec![dancer("Z", "m", vec![]), dancer("A", "m", vec![])];
    doc.position = vec![PositionFrame { start: 5, pos: vec![xyz(1.0, 2.0, 3.0), xyz(4.0, 5.0, 6.0)] }];
    let d = plan_import(&doc, s("r")).unwrap();
    assert_eq!(d.position_frames[0].start, 5);
    assert_eq!(d.position_data[0].dancer, 0);
    assert_eq!(d.dancers[0].name, "Z");
    assert_eq!(f32::from_bits(d.position_data[0].x), 1.0);
    assert_eq!(d.position_data[1].dancer, 1);
    assert_eq!(d.dancers[1].name, "A");
    assert_eq!(f32::from_bits(d.position_data[1].z), 6.0);
}

#[test]
fn later_palette_entry_wins() {
    let mut doc = basic_show();
    doc.colors.push(ColorEntry { name: s("red"), rgb: [200, 0, 0] });
    let d = plan_import(&doc, s("r")).unwrap();
    assert_eq!(d.colors.len(), 2);
    assert_eq!(d.effect_states[0].color, 1);
}

#[test]
fn fresh_revision_identifier() {
    let a = import_dataset(&empty_doc()).unwrap();
    let b = import_dataset(&empty_doc()).unwrap();
    assert_eq!(a.revisions[0].len(), 36);
    assert_ne!(a.revisions[0], b.revisions[0]);
}
