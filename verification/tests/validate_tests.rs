use ok_face_mixer_api::request::{validate, MixRequest, ParamError};
use ok_face_mixer_api::smile::SmileKind;

const ALL_NAMES: [&str; 5] = ["happy", "sad", "angry", "wink", "neutral"];

#[test]
fn both_recognized_names_are_accepted() {
    let r = validate(Some("happy"), Some("sad"));
    assert_eq!(
        r,
        Ok(MixRequest {
            left: SmileKind::Happy,
            right: SmileKind::Sad,
        })
    );
}

#[test]
fn every_recognized_pair_is_accepted() {
    for left in ALL_NAMES {
        for right in ALL_NAMES {
            let r = validate(Some(left), Some(right));
            let req = r.expect("recognized pair must validate");
            assert_eq!(req.left.name(), left);
            assert_eq!(req.right.name(), right);
        }
    }
}

#[test]
fn unrecognized_left_is_rejected_and_named() {
    let r = validate(Some("grin"), Some("sad"));
    let f = r.expect_err("unrecognized left must be rejected");
    assert_eq!(f.left, Some(ParamError::Unrecognized));
    assert_eq!(f.right, None);
}

#[test]
fn unrecognized_right_is_rejected_and_named() {
    let r = validate(Some("happy"), Some("grin"));
    let f = r.expect_err("unrecognized right must be rejected");
    assert_eq!(f.left, None);
    assert_eq!(f.right, Some(ParamError::Unrecognized));
}

#[test]
fn missing_left_is_rejected_as_missing() {
    let r = validate(None, Some("sad"));
    let f = r.expect_err("missing left must be rejected");
    assert_eq!(f.left, Some(ParamError::Missing));
    assert_eq!(f.right, None);
}

#[test]
fn missing_right_is_rejected_as_missing() {
    let r = validate(Some("happy"), None);
    let f = r.expect_err("missing right must be rejected");
    assert_eq!(f.left, None);
    assert_eq!(f.right, Some(ParamError::Missing));
}

#[test]
fn both_failures_are_recorded_eagerly() {
    let f = validate(Some("grin"), None).expect_err("must be rejected");
    assert_eq!(f.left, Some(ParamError::Unrecognized));
    assert_eq!(f.right, Some(ParamError::Missing));

    let f = validate(None, None).expect_err("must be rejected");
    assert_eq!(f.left, Some(ParamError::Missing));
    assert_eq!(f.right, Some(ParamError::Missing));
}

#[test]
fn missing_is_distinguished_from_unrecognized() {
    let missing = validate(None, Some("sad")).expect_err("rejected");
    let unrecognized = validate(Some("grin"), Some("sad")).expect_err("rejected");
    assert_ne!(missing, unrecognized);
}

#[test]
fn swapped_parameters_swap_the_validated_pair() {
    let ab = validate(Some("happy"), Some("wink")).expect("accepted");
    let ba = validate(Some("wink"), Some("happy")).expect("accepted");
    assert_eq!(ab.left, ba.right);
    assert_eq!(ab.right, ba.left);
    assert_ne!(ab, ba);
}

#[test]
fn validation_is_deterministic() {
    assert_eq!(
        validate(Some("happy"), Some("sad")),
        validate(Some("happy"), Some("sad"))
    );
    assert_eq!(validate(Some("grin"), None), validate(Some("grin"), None));
}
