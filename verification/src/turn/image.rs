//! Images that a model generated.

use vstd::prelude::*;
use vstd::string::*;

use base64::Engine;

use crate::text::cat;
use crate::text::chars_of;
use crate::text::trim;
use crate::text::trimmed;

verus! {

/// The directory of generated images, below the home directory.
pub const GENERATED_IMAGE_ARTIFACTS_DIR: &'static str = "generated_images";

/// A character that a file name keeps.
pub open spec fn file_char(c: char) -> bool {
    ('a' <= c <= 'z') || ('A' <= c <= 'Z') || ('0' <= c <= '9') || c == '-' || c == '_'
}

/// A text as a part of a path: other characters than letters, digits, hyphens
/// and underscores are replaced, and an empty text gets a name.
pub open spec fn path_part(text: Seq<char>) -> Seq<char> {
    if text.len() == 0 {
        "generated_image"@
    } else {
        Seq::new(
            text.len(),
            |i: int|
                if file_char(text[i]) {
                    text[i]
                } else {
                    '_'
                },
        )
    }
}

/// The parts of the path of a generated image, below the home directory.
pub open spec fn artifact_parts(session_id: Seq<char>, call_id: Seq<char>) -> Seq<Seq<char>> {
    seq![
        GENERATED_IMAGE_ARTIFACTS_DIR@,
        path_part(session_id),
        path_part(call_id) + ".png"@,
    ]
}

fn make_path_part(text: &str) -> (r: String)
    ensures
        r@ == path_part(text@),
{
    let chars = chars_of(text);
    if chars.len() == 0 {
        return "generated_image".to_owned();
    }
    let mut out = String::new();
    let mut i: usize = 0;
    assert(out@ =~= path_part(text@).take(0));
    while i < chars.len()
        invariant
            i <= chars@.len(),
            chars@ == text@,
            chars@.len() > 0,
            out@ == path_part(text@).take(i as int),
        decreases chars@.len() - i,
    {
        let c = chars[i];
        let keep = ('a' <= c && c <= 'z') || ('A' <= c && c <= 'Z') || ('0' <= c && c <= '9') || c
            == '-' || c == '_';
        let ghost before = out@;
        out.push(
            if keep {
                c
            } else {
                '_'
            },
        );
        assert(out@ =~= path_part(text@).take(i + 1));
        i += 1;
    }
    assert(path_part(text@).take(i as int) =~= path_part(text@));
    out
}

/// The parts of the path of a generated image, below the home directory.
pub fn image_generation_artifact_path(session_id: &str, call_id: &str) -> (r: Vec<String>)
    ensures
        r.deep_view() == artifact_parts(session_id@, call_id@),
{
    let mut parts: Vec<String> = Vec::new();
    parts.push(GENERATED_IMAGE_ARTIFACTS_DIR.to_owned());
    parts.push(make_path_part(session_id));
    parts.push(cat(make_path_part(call_id).as_str(), ".png"));
    assert(parts.deep_view() =~= artifact_parts(session_id@, call_id@));
    parts
}

/// Where a model is told that images are saved: the directory, and the path of an
/// image with a placeholder for its id, both below the home directory.
pub fn image_instruction_paths(session_id: &str) -> (r: (Vec<String>, Vec<String>))
    ensures
        r.0.deep_view() == artifact_parts(session_id@, "<image_id>"@).drop_last(),
        r.1.deep_view() == artifact_parts(session_id@, "<image_id>"@),
{
    let mut directory = image_generation_artifact_path(session_id, "<image_id>");
    let path = image_generation_artifact_path(session_id, "<image_id>");
    let ghost whole = directory.deep_view();
    let _ = directory.pop();
    assert(directory.deep_view() =~= whole.drop_last());
    (directory, path)
}

/// Every image of a session is saved in the directory that a model is told of.
pub proof fn law_images_are_where_they_are_said_to_be(session_id: Seq<char>, call_id: Seq<char>)
    ensures
        artifact_parts(session_id, call_id).drop_last() == artifact_parts(
            session_id,
            "<image_id>"@,
        ).drop_last(),
{
    assert(artifact_parts(session_id, call_id).drop_last() =~= artifact_parts(
        session_id,
        "<image_id>"@,
    ).drop_last());
}

/// No part that is made of a given text separates paths or leads upward: it is
/// not empty and holds nothing but letters, digits, hyphens and underscores.
pub proof fn law_path_part_stays_inside(text: Seq<char>)
    ensures
        path_part(text).len() > 0,
        forall|i: int| 0 <= i < path_part(text).len() ==> file_char(#[trigger] path_part(text)[i]),
{
    reveal_strlit("generated_image");
}

/// What a text is in base64: its bytes, or what is wrong with it.
pub uninterp spec fn base64_decoded(text: Seq<char>) -> Result<Seq<u8>, Seq<char>>;

/// `base64::Engine::decode` of the standard engine, with padding. The bytes, or
/// the error as it describes itself, depend on the text alone.
#[verifier::external_body]
fn decode_base64(text: &str) -> (r: Result<Vec<u8>, String>)
    ensures
        match r {
            Ok(bytes) => base64_decoded(text@) == Ok::<Seq<u8>, Seq<char>>(bytes@),
            Err(reason) => base64_decoded(text@) == Err::<Seq<u8>, Seq<char>>(reason@),
        },
{
    base64::engine::general_purpose::STANDARD.decode(text).map_err(|err| err.to_string())
}

/// The bytes of an image, or why there are none, given what its text was decoded
/// to.
pub open spec fn image_of(decoded: Result<Seq<u8>, Seq<char>>) -> Result<Seq<u8>, Seq<char>> {
    match decoded {
        Ok(bytes) => Ok(bytes),
        Err(reason) => Err("invalid image generation payload: "@ + reason),
    }
}

/// Makes an image of what its text was decoded to.
pub fn image_from_decoded(decoded: Result<Vec<u8>, String>) -> (r: Result<Vec<u8>, String>)
    ensures
        match decoded {
            Ok(bytes) => r == Ok::<Vec<u8>, String>(bytes),
            Err(reason) => r matches Err(text) && text@ == "invalid image generation payload: "@
                + reason@,
        },
{
    match decoded {
        Ok(bytes) => Ok(bytes),
        Err(reason) => Err(cat("invalid image generation payload: ", reason.as_str())),
    }
}

/// The bytes of a generated image. White space around its text is ignored.
pub fn image_bytes(result: &str) -> (r: Result<Vec<u8>, String>)
    ensures
        match r {
            Ok(bytes) => image_of(base64_decoded(trimmed(result@))) == Ok::<Seq<u8>, Seq<char>>(
                bytes@,
            ),
            Err(reason) => image_of(base64_decoded(trimmed(result@))) == Err::<Seq<u8>, Seq<char>>(
                reason@,
            ),
        },
{
    let text = trim(result);
    image_from_decoded(decode_base64(text.as_str()))
}

/// In the name of a file letters, digits, hyphens and underscores stay, every other
/// character becomes an underscore, and a name of nothing becomes one of its own.
pub proof fn law_plain_characters_stay(text: Seq<char>, i: int)
    requires
        0 <= i < text.len(),
    ensures
        path_part(text).len() == text.len(),
        'a' <= text[i] <= 'z' || 'A' <= text[i] <= 'Z' || '0' <= text[i] <= '9' || text[i] == '-'
            ==> path_part(text)[i] == text[i],
        !('a' <= text[i] <= 'z' || 'A' <= text[i] <= 'Z' || '0' <= text[i] <= '9' || text[i] == '-')
            ==> path_part(text)[i] == '_',
        path_part(Seq::empty()) == "generated_image"@,
{
}

/// An image lies below the session that made it, in a file with the name of its call.
pub proof fn law_images_lie_below_their_session(session_id: Seq<char>, call_id: Seq<char>)
    ensures
        ({
            let parts = artifact_parts(session_id, call_id);
            &&& parts.len() == 3
            &&& parts[1] == path_part(session_id)
            &&& parts[2] == path_part(call_id) + ".png"@
        }),
{
}

/// What was decoded is the image, and what could not be is refused with the reason.
pub proof fn law_images_are_what_was_decoded(bytes: Seq<u8>, reason: Seq<char>)
    ensures
        image_of(Ok(bytes)) == Ok::<Seq<u8>, Seq<char>>(bytes),
        image_of(Err(reason)) == Err::<Seq<u8>, Seq<char>>(
            "invalid image generation payload: "@ + reason,
        ),
{
}

} // verus!
