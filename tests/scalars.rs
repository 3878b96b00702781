use lumeo_pipeline::{Crop, FormatError, Resolution, SinkPad, TransformProperties, FlipDirection, Degrees};

#[test]
fn resolution_scenario_round_trip() {
    let r = Resolution::parse("1280x720").unwrap();
    assert_eq!(r, Resolution { width: 1280, height: 720 });
    assert_eq!(r.to_text(), "1280x720");
}

#[test]
fn crop_scenario_field_order() {
    let c = Crop::parse("10:20:30:40").unwrap();
    assert_eq!(c, Crop { left: 10, right: 20, top: 30, bottom: 40 });
    assert_eq!(c.to_text(), "10:20:30:40");
}

#[test]
fn resolution_round_trip_edges() {
    for r in [
        Resolution { width: 0, height: 0 },
        Resolution { width: 7, height: 10 },
        Resolution { width: u32::MAX, height: 1 },
        Resolution { width: 100000, height: 9 },
    ] {
        assert_eq!(Resolution::parse(&r.to_text()), Ok(r));
    }
    assert_eq!(Resolution { width: u32::MAX, height: 0 }.to_text(), "4294967295x0");
}

#[test]
fn crop_round_trip_edges() {
    for c in [
        Crop { top: 0, bottom: 0, left: 0, right: 0 },
        Crop { top: 51, bottom: 49, left: 9, right: 1 },
        Crop { top: usize::MAX, bottom: 12, left: 345, right: 6789 },
    ] {
        assert_eq!(Crop::parse(&c.to_text()), Ok(c));
    }
}

#[test]
fn resolution_errors() {
    assert_eq!(Resolution::parse("1280"), Err(FormatError::InvalidFormat));
    assert_eq!(Resolution::parse("1x2x3"), Err(FormatError::InvalidFormat));
    assert_eq!(Resolution::parse(""), Err(FormatError::InvalidFormat));
    assert_eq!(Resolution::parse("abcx720"), Err(FormatError::NotANumber));
    assert_eq!(Resolution::parse("1280x"), Err(FormatError::NotANumber));
    assert_eq!(Resolution::parse("-1x720"), Err(FormatError::NotANumber));
    assert_eq!(Resolution::parse("4294967296x1"), Err(FormatError::NotANumber));
    assert_eq!(Resolution::parse("+5x007"), Ok(Resolution { width: 5, height: 7 }));
    assert_eq!(Resolution::parse("4294967295x1"), Ok(Resolution { width: u32::MAX, height: 1 }));
}

#[test]
fn crop_errors() {
    assert_eq!(Crop::parse("1:2:3"), Err(FormatError::InvalidFormat));
    assert_eq!(Crop::parse("1:2:3:4:5"), Err(FormatError::InvalidFormat));
    assert_eq!(Crop::parse("1:2:x:4"), Err(FormatError::NotANumber));
    assert_eq!(Crop::parse("1::3:4"), Err(FormatError::NotANumber));
}

#[test]
fn from_str_uses_the_codecs() {
    let r: Resolution = "720x480".parse().unwrap();
    assert_eq!(r, Resolution { width: 720, height: 480 });
    let c: Crop = "30:40:10:20".parse().unwrap();
    assert_eq!(c, Crop { top: 10, bottom: 20, left: 30, right: 40 });
    let p: SinkPad = "encode1.input".parse().unwrap();
    assert_eq!(p, SinkPad { node: String::from("encode1"), name: String::from("input") });
}

#[test]
fn sink_pad_text() {
    let p = SinkPad::parse("B.in").unwrap();
    assert_eq!(p.node, "B");
    assert_eq!(p.name, "in");
    assert_eq!(p.to_text(), "B.in");
    assert_eq!(SinkPad::parse("a.b.c"), Err(FormatError::InvalidFormat));
    assert_eq!(SinkPad::parse("ab"), Err(FormatError::InvalidFormat));
    let empty = SinkPad::parse(".").unwrap();
    assert_eq!(empty, SinkPad { node: String::new(), name: String::new() });
    let wide = SinkPad::parse("kamera\u{e9}.ausgang").unwrap();
    assert_eq!(wide.node, "kamera\u{e9}");
    assert_eq!(wide.to_text(), "kamera\u{e9}.ausgang");
}

#[test]
fn transform() {
    let t = TransformProperties {
        framerate: Some(15),
        resolution: Some(Resolution { width: 640, height: 480 }),
        rotation: Some(Degrees { bits: 88_f64.to_bits() }),
        flip_direction: Some(FlipDirection::Vertical),
        crop_region: Some(Crop { top: 51, bottom: 49, left: 9, right: 1 }),
    };
    let resolution = t.resolution.unwrap();
    let crop = t.crop_region.unwrap();
    let back = TransformProperties {
        resolution: Some(Resolution::parse(&resolution.to_text()).unwrap()),
        crop_region: Some(Crop::parse(&crop.to_text()).unwrap()),
        ..t.clone()
    };
    assert_eq!(t, back);
    assert_eq!(crop.to_text(), "9:1:51:49");
    assert_eq!(f64::from_bits(t.rotation.unwrap().bits), 88.0);
}
