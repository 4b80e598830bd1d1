//! From a document to JSON text.
//!
//! Seven fields are always written: `tilejson`, `version`, `scheme`, `tiles`,
//! `minzoom`, `maxzoom` and `bounds`. The optional texts and `center` are
//! written only where they are present, `grids` and `data` only where they are
//! not empty. The members stand in the order of the fields of the document.

use vstd::prelude::*;
use crate::decimal::{decimal, format_unsigned};
use crate::decoding::{document_of, DecodeError};
use crate::document::{
    all_fractional, numbers_view, optional_text_view, texts_view, TileJson, TileJsonView,
};
use crate::json::{
    items_view, lemma_list_view, lemma_object_view, members_view, render, render_spec, Json,
    JsonView, Member, MemberView,
};
use crate::laws::lemma_round_trip;
use crate::number::{is_fractional_literal, Number};

verus! {

/// The member with the given key and value, as a list of one.
pub open spec fn one_member(key: Seq<char>, value: JsonView) -> Seq<MemberView> {
    seq![MemberView { key, value }]
}

/// The member for an optional text: none where the text is absent.
pub open spec fn optional_text_member(key: Seq<char>, text: Option<Seq<char>>) -> Seq<MemberView> {
    match text {
        Some(text) => one_member(key, JsonView::Text(text)),
        None => Seq::empty(),
    }
}

/// A list of texts as a JSON array of strings.
pub open spec fn texts_json(texts: Seq<Seq<char>>) -> JsonView {
    JsonView::List(Seq::new(texts.len(), |i: int| JsonView::Text(texts[i])))
}

/// The member for a list of texts that is left out where it is empty.
pub open spec fn optional_texts_member(key: Seq<char>, texts: Seq<Seq<char>>) -> Seq<MemberView> {
    if texts.len() == 0 {
        Seq::empty()
    } else {
        one_member(key, texts_json(texts))
    }
}

/// A list of coordinates as a JSON array of numbers.
pub open spec fn numbers_json(literals: Seq<Seq<char>>) -> JsonView {
    JsonView::List(Seq::new(literals.len(), |i: int| JsonView::Number(literals[i])))
}

/// The member for an optional list of coordinates: none where the list is absent.
pub open spec fn optional_numbers_member(
    key: Seq<char>,
    literals: Option<Seq<Seq<char>>>,
) -> Seq<MemberView> {
    match literals {
        Some(literals) => one_member(key, numbers_json(literals)),
        None => Seq::empty(),
    }
}

/// The members of the JSON object that stands for a document, in order.
pub open spec fn members_of(document: TileJsonView) -> Seq<MemberView> {
    one_member("tilejson"@, JsonView::Text(document.tilejson))
        + optional_text_member("name"@, document.name)
        + optional_text_member("description"@, document.description)
        + one_member("version"@, JsonView::Text(document.version))
        + optional_text_member("attribution"@, document.attribution)
        + optional_text_member("template"@, document.template)
        + optional_text_member("legend"@, document.legend)
        + one_member("scheme"@, JsonView::Text(document.scheme.label_spec()))
        + one_member("tiles"@, texts_json(document.tiles))
        + optional_texts_member("grids"@, document.grids)
        + optional_texts_member("data"@, document.data)
        + one_member("minzoom"@, JsonView::Number(decimal(document.minzoom as nat)))
        + one_member("maxzoom"@, JsonView::Number(decimal(document.maxzoom as nat)))
        + one_member("bounds"@, numbers_json(document.bounds))
        + optional_numbers_member("center"@, document.center)
}

/// The JSON object that stands for a document.
pub open spec fn to_json_spec(document: TileJsonView) -> JsonView {
    JsonView::Object(members_of(document))
}

/// The JSON text of a document.
pub open spec fn encode_spec(document: TileJsonView) -> Seq<char> {
    render_spec(to_json_spec(document))
}

/// Adds a member to the members of an object.
fn push_member(members: &mut Vec<Member>, key: &str, value: Json)
    ensures
        members_view(final(members)@) == members_view(old(members)@) + one_member(key@, value@),
{
    members.push(Member { key: key.to_owned(), value });
    assert(members_view(members@) =~= members_view(old(members)@) + one_member(key@, value@));
}

/// Adds the member for an optional text, if the text is present.
fn push_optional_text(members: &mut Vec<Member>, key: &str, text: &Option<String>)
    ensures
        members_view(final(members)@) == members_view(old(members)@) + optional_text_member(
            key@,
            optional_text_view(*text),
        ),
{
    match text {
        Some(text) => push_member(members, key, Json::Text(text.clone())),
        None => {
            assert(members_view(members@) =~= members_view(members@) + Seq::<MemberView>::empty());
        },
    }
}

/// A list of texts as a JSON array of strings.
fn texts_to_json(texts: &Vec<String>) -> (tree: Json)
    ensures
        tree@ == texts_json(texts_view(texts@)),
{
    let mut items: Vec<Json> = Vec::new();
    let mut i: usize = 0;
    while i < texts.len()
        invariant
            i <= texts.len(),
            items.len() == i,
            forall|j: int| 0 <= j < i ==> (#[trigger] items[j])@ == JsonView::Text(texts[j]@),
        decreases texts.len() - i,
    {
        items.push(Json::Text(texts[i].clone()));
        i += 1;
    }
    proof {
        lemma_list_view(items);
        assert(items_view(items@) =~= texts_json(texts_view(texts@))->List_0);
    }
    Json::List(items)
}

/// Adds the member for a list of texts, unless the list is empty.
fn push_optional_texts(members: &mut Vec<Member>, key: &str, texts: &Vec<String>)
    ensures
        members_view(final(members)@) == members_view(old(members)@) + optional_texts_member(
            key@,
            texts_view(texts@),
        ),
{
    if texts.len() > 0 {
        push_member(members, key, texts_to_json(texts));
    } else {
        assert(members_view(members@) =~= members_view(members@) + Seq::<MemberView>::empty());
    }
}

/// A list of coordinates as a JSON array of numbers. The literals are number
/// literals with a fraction or an exponent, as those of coordinates are.
fn numbers_to_json(numbers: &Vec<Number>) -> (tree: Json)
    ensures
        tree@ == numbers_json(numbers_view(numbers@)),
        all_fractional(numbers_view(numbers@)),
{
    let mut items: Vec<Json> = Vec::new();
    let mut i: usize = 0;
    while i < numbers.len()
        invariant
            i <= numbers.len(),
            items.len() == i,
            forall|j: int| 0 <= j < i ==> (#[trigger] items[j])@ == JsonView::Number(numbers[j]@),
            forall|j: int|
                0 <= j < i ==> is_fractional_literal((#[trigger] numbers[j])@),
        decreases numbers.len() - i,
    {
        items.push(Json::Number(numbers[i].as_str().to_owned()));
        i += 1;
    }
    proof {
        lemma_list_view(items);
        assert(items_view(items@) =~= numbers_json(numbers_view(numbers@))->List_0);
    }
    Json::List(items)
}

/// Builds the JSON object that stands for a document.
///
/// The object holds the members that `members_of` lists, in that order, and
/// it reads back as the document.
pub fn to_json(document: &TileJson) -> (tree: Json)
    ensures
        tree@ == to_json_spec(document@),
        document_of(tree@) == Ok::<TileJsonView, DecodeError>(document@),
{
    let mut members: Vec<Member> = Vec::new();
    assert(members_view(members@) =~= Seq::<MemberView>::empty());
    push_member(&mut members, "tilejson", Json::Text(document.tilejson.clone()));
    push_optional_text(&mut members, "name", &document.name);
    push_optional_text(&mut members, "description", &document.description);
    push_member(&mut members, "version", Json::Text(document.version.clone()));
    push_optional_text(&mut members, "attribution", &document.attribution);
    push_optional_text(&mut members, "template", &document.template);
    push_optional_text(&mut members, "legend", &document.legend);
    push_member(&mut members, "scheme", Json::Text(document.scheme.label().to_owned()));
    push_member(&mut members, "tiles", texts_to_json(&document.tiles));
    push_optional_texts(&mut members, "grids", &document.grids);
    push_optional_texts(&mut members, "data", &document.data);
    push_member(&mut members, "minzoom", Json::Number(format_unsigned(document.minzoom as u64)));
    push_member(&mut members, "maxzoom", Json::Number(format_unsigned(document.maxzoom as u64)));
    push_member(&mut members, "bounds", numbers_to_json(&document.bounds));
    match &document.center {
        Some(center) => push_member(&mut members, "center", numbers_to_json(center)),
        None => {
            assert(members_view(members@) =~= members_view(members@) + Seq::<MemberView>::empty());
        },
    }
    proof {
        lemma_object_view(members);
        assert(members_view(members@) =~= members_of(document@));
        lemma_round_trip(document@);
    }
    Json::Object(members)
}

/// Writes a document as JSON text.
///
/// The text is one JSON object with no space in it. It holds the members
/// that `members_of` lists, in that order.
pub fn encode(document: &TileJson) -> (text: String)
    ensures
        text@ == encode_spec(document@),
{
    let tree = to_json(document);
    render(&tree)
}

} // verus!
