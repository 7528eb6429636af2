use pikchr::CallPlan;
use pikchr::ForeignOutcome;
use pikchr::Pikchr;
use pikchr::PikchrFlags;
use pikchr::PIKCHR_DARK_MODE;

#[test]
fn plan_appends_terminator() {
    let plan = CallPlan::new("arrow", None, PikchrFlags::default()).unwrap();
    assert_eq!(plan.source_bytes().as_slice(), b"arrow\0");
    assert!(plan.class_bytes().is_none());
}

#[test]
fn plan_empty_source_is_accepted() {
    let plan = CallPlan::new("", None, PikchrFlags::default()).unwrap();
    assert_eq!(plan.source_bytes().as_slice(), b"\0");
}

#[test]
fn plan_terminates_class_name() {
    let plan = CallPlan::new("arrow", Some("note"), PikchrFlags::default()).unwrap();
    assert_eq!(plan.class_bytes().as_ref().unwrap().as_slice(), b"note\0");
}

#[test]
fn plan_mask_encodes_flags() {
    let mut flags = PikchrFlags::default();
    flags.generate_html_errors().use_dark_mode();
    let plan = CallPlan::new("arrow", None, flags).unwrap();
    assert_eq!(plan.mask(), PIKCHR_DARK_MODE);
    assert_eq!(plan.mask(), flags.encode());
}

#[test]
fn plan_rejects_nul_in_source() {
    let err = CallPlan::new("arrow\0box", None, PikchrFlags::default()).unwrap_err();
    assert_eq!(err, "pikchr source text contains an embedded NUL byte");
}

#[test]
fn plan_rejects_nul_in_class() {
    let err = CallPlan::new("arrow", Some("no\0te"), PikchrFlags::default()).unwrap_err();
    assert_eq!(err, "pikchr class name contains an embedded NUL byte");
}

#[test]
fn interpret_negative_width_is_error() {
    let outcome = ForeignOutcome {
        text: String::from("line 1: unterminated string literal"),
        width: -1,
        height: 0,
    };
    let err = Pikchr::interpret(outcome).unwrap_err();
    assert_eq!(err, "line 1: unterminated string literal");
    assert!(!err.is_empty());
}

#[test]
fn interpret_success_keeps_reported_values() {
    let svg = "<svg xmlns='http://www.w3.org/2000/svg' viewBox=\"0 0 152 47\"></svg>";
    let outcome = ForeignOutcome {
        text: String::from(svg),
        width: 152,
        height: 47,
    };
    let image = Pikchr::interpret(outcome).unwrap();
    assert_eq!(image.width(), 152);
    assert_eq!(image.height(), 47);
    assert!(image.width() >= 0 && image.height() >= 0);
    assert_eq!(image.rendered(), svg);
    assert!(image.rendered().contains("<svg"));
}

#[test]
fn interpret_empty_success_is_not_an_error() {
    let outcome = ForeignOutcome {
        text: String::new(),
        width: 0,
        height: 0,
    };
    let image = Pikchr::interpret(outcome).unwrap();
    assert_eq!(image.rendered(), "");
    assert_eq!(image.width(), 0);
    assert_eq!(image.height(), 0);
}

#[test]
fn rendered_text_outlives_the_image() {
    let outcome = ForeignOutcome {
        text: String::from("<svg></svg>"),
        width: 3,
        height: 4,
    };
    let image = Pikchr::interpret(outcome).unwrap();
    let copy = image.rendered().to_string();
    drop(image);
    assert_eq!(copy, "<svg></svg>");
}
