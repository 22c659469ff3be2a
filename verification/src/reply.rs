//! Mapping of every per-request outcome to its HTTP reply, and the laws the
//! three-outcome orchestration obeys.
use vstd::prelude::*;
use crate::encode::EncodedPayload;
use crate::encode::EncodingFailure;
use crate::encode::encode_gif_payload;
use crate::encode::gif_encoding;
use crate::encode::gif_magic;
use crate::encode::image_content;
use crate::request::spec_validate;

verus! {

/// The abstract value of a reply: one of the three terminal outcomes of a
/// request, with the text or bytes its body carries.
pub enum ReplyModel {
    BadRequest { message: Seq<char> },
    ServerError { message: Seq<char> },
    Success { content_type: Seq<char>, body: Seq<u8> },
}

impl ReplyModel {
    /// The HTTP status each outcome is served under.
    pub open spec fn status(self) -> int {
        match self {
            ReplyModel::BadRequest { .. } => 400,
            ReplyModel::ServerError { .. } => 500,
            ReplyModel::Success { .. } => 200,
        }
    }
}

/// One HTTP reply of the service, fully buffered: a plain-text rejection, a
/// plain-text conversion failure, or the encoded image. The bodies of the two
/// failure replies are fixed strings; no internal detail reaches the client.
#[derive(Clone, Debug, PartialEq, Eq)]
pub enum MixReply {
    BadRequest { message: String },
    ServerError { message: String },
    Success { payload: EncodedPayload },
}

impl View for MixReply {
    type V = ReplyModel;

    open spec fn view(&self) -> ReplyModel {
        match self {
            MixReply::BadRequest { message } => ReplyModel::BadRequest { message: message@ },
            MixReply::ServerError { message } => ReplyModel::ServerError { message: message@ },
            MixReply::Success { payload } => ReplyModel::Success {
                content_type: payload.content_type@,
                body: payload.body@,
            },
        }
    }
}

impl MixReply {
    /// The HTTP status code this reply is served under: 400 for a rejected
    /// request, 500 for a conversion failure, 200 for an encoded image.
    pub fn status_code(&self) -> (c: u16)
        ensures
            c as int == self@.status(),
    {
        match self {
            MixReply::BadRequest { .. } => 400,
            MixReply::ServerError { .. } => 500,
            MixReply::Success { .. } => 200,
        }
    }
}

/// The fixed body of every rejected request.
pub open spec fn invalid_name_message() -> Seq<char> {
    "invalid smile name"@
}

/// The fixed body of every reply to a request whose image could not be
/// serialized.
pub open spec fn conversion_failure_message() -> Seq<char> {
    "failed to convert result image to bytes"@
}

/// The reply owed to a request that failed validation: HTTP 400 with the
/// fixed plain-text body, before any image work is performed.
pub fn bad_request_reply() -> (r: MixReply)
    ensures
        r@ == (ReplyModel::BadRequest { message: invalid_name_message() }),
{
    MixReply::BadRequest { message: "invalid smile name".to_owned() }
}

/// What the service replies once the encoder has spoken: the payload under
/// HTTP 200 where serialization succeeded, and otherwise HTTP 500 with the
/// fixed generic body.
pub open spec fn spec_reply_of_encoding(enc: Option<Seq<u8>>) -> ReplyModel {
    match enc {
        Some(b) => ReplyModel::Success { content_type: "image/gif"@, body: b },
        None => ReplyModel::ServerError { message: conversion_failure_message() },
    }
}

/// Map the encoder's outcome to its reply. Every value of the outcome is
/// covered, so a failure injected at this boundary yields exactly the
/// generic 500 reply, never a crash or a leaked error text.
pub fn reply_of_encoding(enc: Result<EncodedPayload, EncodingFailure>) -> (r: MixReply)
    ensures
        enc matches Ok(p) ==> r@ == (ReplyModel::Success {
            content_type: p.content_type@,
            body: p.body@,
        }),
        enc is Err ==> r@ == (ReplyModel::ServerError { message: conversion_failure_message() }),
{
    match enc {
        Ok(payload) => MixReply::Success { payload },
        Err(_) => MixReply::ServerError {
            message: "failed to convert result image to bytes".to_owned(),
        },
    }
}

/// The reply owed to a validated request, as a function of the content of
/// the image the generator produced for it.
pub open spec fn spec_image_reply(content: Seq<u8>) -> ReplyModel {
    spec_reply_of_encoding(gif_encoding(content))
}

/// Serialize the generated image and reply: HTTP 200 with the `image/gif`
/// payload exactly when encoding succeeds, and otherwise HTTP 500 with the
/// fixed generic body. A successful body is a GIF stream: it opens with the
/// `GIF89a` signature, so it is never empty.
pub fn image_reply(img: &image::DynamicImage) -> (r: MixReply)
    ensures
        r@ == spec_image_reply(image_content(*img)),
        r@ matches ReplyModel::Success { body, .. } ==> body.len() >= 6 && body.subrange(0, 6)
            == gif_magic(),
{
    reply_of_encoding(encode_gif_payload(img))
}

/// The whole orchestration: the reply owed for two raw query parameters,
/// given the content of the image the generator produces for a validated
/// pair. Validation failure forecloses all image work.
pub open spec fn spec_mix_reply(
    left: Option<Seq<char>>,
    right: Option<Seq<char>>,
    content: Seq<u8>,
) -> ReplyModel {
    match spec_validate(left, right) {
        Err(_) => ReplyModel::BadRequest { message: invalid_name_message() },
        Ok(_) => spec_image_reply(content),
    }
}

/// The three terminal outcomes, each with its status and its body, and no
/// other reply: a validation failure is answered 400 with the fixed text; a
/// validated request whose image encodes is answered 200 with the encoder's
/// `image/gif` bytes, which open with the GIF signature; a validated request
/// whose image does not encode is answered 500 with the fixed generic text.
pub proof fn lemma_mix_reply_cases(
    left: Option<Seq<char>>,
    right: Option<Seq<char>>,
    content: Seq<u8>,
)
    ensures
        spec_validate(left, right) is Err ==> spec_mix_reply(left, right, content)
            == (ReplyModel::BadRequest { message: invalid_name_message() }),
        spec_validate(left, right) is Ok && gif_encoding(content) is Some ==> spec_mix_reply(
            left,
            right,
            content,
        ) == (ReplyModel::Success {
            content_type: "image/gif"@,
            body: gif_encoding(content)->Some_0,
        }),
        spec_validate(left, right) is Ok && gif_encoding(content) is None ==> spec_mix_reply(
            left,
            right,
            content,
        ) == (ReplyModel::ServerError { message: conversion_failure_message() }),
        spec_mix_reply(left, right, content).status() == 400 || spec_mix_reply(
            left,
            right,
            content,
        ).status() == 500 || spec_mix_reply(left, right, content).status() == 200,
{
}

/// Replies are a function of the request alone: two requests with the same
/// parameters, answered over the same generated image content, get the same
/// reply, byte for byte.
pub proof fn lemma_mix_reply_deterministic(
    left1: Option<Seq<char>>,
    right1: Option<Seq<char>>,
    content1: Seq<u8>,
    left2: Option<Seq<char>>,
    right2: Option<Seq<char>>,
    content2: Seq<u8>,
)
    requires
        left1 == left2,
        right1 == right2,
        content1 == content2,
    ensures
        spec_mix_reply(left1, right1, content1) == spec_mix_reply(left2, right2, content2),
{
}

} // verus!
