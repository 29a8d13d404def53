//! What the translations of several protocols share.

use vstd::prelude::*;
use vstd::string::*;

use crate::codec::parse_json;
use crate::codec::parsed_json;
use crate::json::Json;
use crate::json::JsonView;
use crate::models::ReasoningItemContent;
use crate::models::ReasoningItemContentView;
use crate::text::begins_with;
use crate::text::chars_of;
use crate::text::find_char;
use crate::text::position_of;
use crate::text::strip_prefix;
use crate::text::text_of;

verus! {

/// The object without fields.
pub open spec fn empty_object() -> JsonView {
    JsonView::Fields(Map::empty())
}

/// A document, when it is an object.
pub open spec fn only_object(doc: Option<JsonView>) -> Option<JsonView> {
    match doc {
        Some(JsonView::Fields(fields)) => Some(JsonView::Fields(fields)),
        _ => None,
    }
}

/// A document when it is an object, and otherwise the object without fields.
pub open spec fn object_or_empty(doc: Option<JsonView>) -> JsonView {
    match only_object(doc) {
        Some(object) => object,
        None => empty_object(),
    }
}

/// Makes the object without fields.
pub fn make_empty_object() -> (r: Json)
    ensures
        r@ == empty_object(),
{
    Json::Fields(Vec::new())
}

/// Keeps a document when it is an object.
pub fn keep_object(doc: Option<Json>) -> (r: Option<Json>)
    ensures
        r.deep_view() == only_object(doc.deep_view()),
{
    match doc {
        Some(object) => if object.is_object() {
            Some(object)
        } else {
            None
        },
        None => None,
    }
}

/// The arguments of a call: the document that was read when it is an object, and
/// otherwise the object without fields.
pub fn arguments_or_empty(doc: Option<Json>) -> (r: Json)
    ensures
        r@ == object_or_empty(doc.deep_view()),
{
    match keep_object(doc) {
        Some(object) => object,
        None => make_empty_object(),
    }
}

/// Reads the arguments of a call. What is no object becomes the object without
/// fields.
pub fn parse_arguments(arguments: &str) -> (r: Json)
    ensures
        r@ == object_or_empty(parsed_json(arguments@)),
{
    arguments_or_empty(parse_json(arguments))
}

/// What a data URL holds: its media type and its data. None for any other
/// address, and for a data URL without a comma.
pub open spec fn data_url(url: Seq<char>) -> Option<(Seq<char>, Seq<char>)> {
    let rest = url.skip("data:"@.len() as int);
    let comma = find_char(rest, ',', 0);
    if begins_with(url, "data:"@) && comma < rest.len() {
        let meta = rest.take(comma);
        Some((meta.take(find_char(meta, ';', 0)), rest.skip(comma + 1)))
    } else {
        None
    }
}

/// Takes a data URL apart.
pub fn split_data_url(url: &str) -> (r: Option<(String, String)>)
    ensures
        match r {
            Some((media_type, data)) => data_url(url@) == Some((media_type@, data@)),
            None => data_url(url@) is None,
        },
{
    let rest = match strip_prefix(url, "data:") {
        Some(rest) => chars_of(rest.as_str()),
        None => {
            return None;
        },
    };
    let comma: usize = position_of(&rest, ',', 0);
    if comma >= rest.len() {
        return None;
    }
    let meta_text = text_of(&rest, 0, comma);
    let meta = chars_of(meta_text.as_str());
    let semicolon: usize = position_of(&meta, ';', 0);
    let media_type = text_of(&meta, 0, semicolon);
    let n: usize = rest.len();
    let data = text_of(&rest, comma + 1, n);
    assert(meta@ =~= rest@.take(comma as int));
    assert(media_type@ =~= meta@.take(semicolon as int));
    assert(data@ =~= rest@.skip(comma + 1));
    Some((media_type, data))
}

/// The text of reasoning, piece after piece.
pub open spec fn pieces_text(pieces: Seq<ReasoningItemContentView>) -> Seq<char>
    decreases pieces.len(),
{
    if pieces.len() == 0 {
        Seq::empty()
    } else {
        pieces_text(pieces.drop_last()) + match pieces.last() {
            ReasoningItemContentView::ReasoningText { text } => text,
            ReasoningItemContentView::Text { text } => text,
        }
    }
}

/// The text of reasoning; empty when it has no content.
pub open spec fn reasoning_text(content: Option<Seq<ReasoningItemContentView>>) -> Seq<char> {
    match content {
        Some(pieces) => pieces_text(pieces),
        None => Seq::empty(),
    }
}

/// Puts the text of reasoning together.
pub fn join_reasoning(content: &Option<Vec<ReasoningItemContent>>) -> (r: String)
    ensures
        r@ == reasoning_text(content.deep_view()),
{
    let mut text = String::new();
    assert(text@ =~= Seq::<char>::empty());
    if let Some(pieces) = content {
        let ghost all = pieces.deep_view();
        let mut i: usize = 0;
        assert(all.take(0) =~= Seq::<ReasoningItemContentView>::empty());
        while i < pieces.len()
            invariant
                i <= pieces@.len(),
                all == pieces.deep_view(),
                text@ == pieces_text(all.take(i as int)),
            decreases pieces@.len() - i,
        {
            proof {
                assert(all.take(i + 1).drop_last() =~= all.take(i as int));
                assert(all.take(i + 1).last() == pieces@[i as int]@);
            }
            match &pieces[i] {
                ReasoningItemContent::ReasoningText { text: t } | ReasoningItemContent::Text {
                    text: t,
                } => {
                    text.append(t.as_str());
                },
            }
            i += 1;
        }
        assert(all.take(i as int) =~= all);
    }
    text
}

} // verus!
