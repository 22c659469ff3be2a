use image::DynamicImage;
use ok_face_mixer_api::encode::{encode_gif_payload, EncodingFailure};
use ok_face_mixer_api::reply::{bad_request_reply, image_reply, reply_of_encoding, MixReply};

fn sample_image() -> DynamicImage {
    let buffer = image::RgbImage::from_fn(8, 8, |x, y| {
        image::Rgb([(x * 30) as u8, (y * 30) as u8, 128])
    });
    DynamicImage::ImageRgb8(buffer)
}

#[test]
fn bad_request_reply_is_400_with_fixed_body() {
    let r = bad_request_reply();
    assert_eq!(r.status_code(), 400);
    match r {
        MixReply::BadRequest { message } => assert_eq!(message, "invalid smile name"),
        other => panic!("expected a bad-request reply, got {other:?}"),
    }
}

#[test]
fn encoded_image_reply_is_200_gif() {
    let r = image_reply(&sample_image());
    assert_eq!(r.status_code(), 200);
    match r {
        MixReply::Success { payload } => {
            assert_eq!(payload.content_type, "image/gif");
            assert!(!payload.body.is_empty());
            assert_eq!(&payload.body[0..6], b"GIF89a");
        }
        other => panic!("expected a success reply, got {other:?}"),
    }
}

#[test]
fn encoding_is_byte_identical_across_calls() {
    let first = image_reply(&sample_image());
    let second = image_reply(&sample_image());
    assert_eq!(first, second);
    match (first, second) {
        (MixReply::Success { payload: a }, MixReply::Success { payload: b }) => {
            assert_eq!(a.body, b.body);
        }
        _ => panic!("expected two success replies"),
    }
}

#[test]
fn encoder_payload_carries_gif_bytes() {
    let payload = encode_gif_payload(&sample_image()).expect("small image must encode");
    assert_eq!(payload.content_type, "image/gif");
    assert!(payload.body.len() >= 6);
    assert_eq!(&payload.body[0..6], b"GIF89a");
}

#[test]
fn injected_encoding_failure_maps_to_500_generic() {
    let r = reply_of_encoding(Err(EncodingFailure));
    assert_eq!(r.status_code(), 500);
    match r {
        MixReply::ServerError { message } => {
            assert_eq!(message, "failed to convert result image to bytes");
        }
        other => panic!("expected a server-error reply, got {other:?}"),
    }
}

#[test]
fn unencodable_image_maps_to_500_generic() {
    // A GIF frame header holds 16-bit dimensions, so a wider image cannot be
    // encoded and must surface as the generic conversion failure.
    let too_wide = DynamicImage::new_rgba8(70_000, 1);
    let r = image_reply(&too_wide);
    assert_eq!(r.status_code(), 500);
    match r {
        MixReply::ServerError { message } => {
            assert_eq!(message, "failed to convert result image to bytes");
        }
        other => panic!("expected a server-error reply, got {other:?}"),
    }
}

#[test]
fn oversized_backing_buffer_is_still_answered() {
    // A 1x1 image over an 8-byte container: the encoder must read only the
    // one pixel of data and reply normally, never crash the request.
    let buffer = image::ImageBuffer::from_raw(1, 1, vec![0u8; 8]).expect("container large enough");
    let r = image_reply(&DynamicImage::ImageRgba8(buffer));
    assert_eq!(r.status_code(), 200);
    match r {
        MixReply::Success { payload } => assert_eq!(&payload.body[0..6], b"GIF89a"),
        other => panic!("expected a success reply, got {other:?}"),
    }
}

#[test]
fn success_never_carries_an_error_body() {
    let r = image_reply(&sample_image());
    match r {
        MixReply::Success { payload } => {
            let body = String::from_utf8_lossy(&payload.body);
            assert!(!body.contains("invalid smile name"));
            assert!(!body.contains("failed to convert"));
        }
        other => panic!("expected a success reply, got {other:?}"),
    }
}
