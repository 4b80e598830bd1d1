//! From JSON text to a document.
//!
//! A document is read from a JSON object, field by field. A field that the
//! object does not hold gets its default value; a member under any other key
//! is passed over. The text fails to decode where it is no JSON, or where a
//! member under the key of a field has a value of another type than the
//! field's.

use vstd::prelude::*;
use crate::backend::{parse_value, parsed, tree_of_value};
use crate::decimal::{parse_u8, small_decimal};
use crate::document::{
    default_bounds, default_bounds_spec, default_maxzoom, default_minzoom, default_tilejson,
    default_version, numbers_view, optional_numbers_view, optional_text_view, texts_view,
    TileJson, TileJsonView,
};
use crate::json::{
    items_view, lemma_list_view, lemma_object_view, lookup, lookup_spec, members_view, Json,
    JsonView, Member, MemberView,
};
use crate::number::{number_of, Number};
use crate::scheme::Scheme;

verus! {

/// Why a text could not be decoded.
#[derive(Clone, Copy, Debug, PartialEq, Eq, Structural)]
pub enum DecodeError {
    /// The text is not JSON.
    Syntax,
    /// The text is JSON, but not an object, or one of its members does not
    /// have the type of the field that it is named after.
    Mismatch,
}

/// A text field with a default: the default where the key is absent, the
/// string where the value is one, and `None` for any other value.
pub open spec fn text_or(members: Seq<MemberView>, key: Seq<char>, default: Seq<char>) -> Option<
    Seq<char>,
> {
    match lookup_spec(members, key) {
        None => Some(default),
        Some(JsonView::Text(text)) => Some(text),
        Some(_) => None,
    }
}

/// An optional text field: absent where the key is absent or the value is
/// `null`, the string where the value is one, and `None` for any other value.
pub open spec fn optional_text(members: Seq<MemberView>, key: Seq<char>) -> Option<
    Option<Seq<char>>,
> {
    match lookup_spec(members, key) {
        None => Some(None),
        Some(JsonView::Null) => Some(None),
        Some(JsonView::Text(text)) => Some(Some(text)),
        Some(_) => None,
    }
}

/// The scheme field: XYZ where the key is absent, the scheme that the string
/// names where the value is `"xyz"` or `"tms"`, and `None` for any other value.
pub open spec fn scheme_or_default(members: Seq<MemberView>, key: Seq<char>) -> Option<Scheme> {
    match lookup_spec(members, key) {
        None => Some(Scheme::XYZ),
        Some(JsonView::Text(text)) => Scheme::from_label_spec(text),
        Some(_) => None,
    }
}

/// The texts of a list of strings, or `None` where an item is no string.
pub open spec fn texts_of(items: Seq<JsonView>) -> Option<Seq<Seq<char>>> {
    if forall|i: int| 0 <= i < items.len() ==> #[trigger] items[i] is Text {
        Some(Seq::new(items.len(), |i: int| items[i]->Text_0))
    } else {
        None
    }
}

/// A field that lists texts: empty where the key is absent, the texts where
/// the value is an array of strings, and `None` for any other value.
pub open spec fn texts_or_empty(members: Seq<MemberView>, key: Seq<char>) -> Option<
    Seq<Seq<char>>,
> {
    match lookup_spec(members, key) {
        None => Some(Seq::empty()),
        Some(JsonView::List(items)) => texts_of(items),
        Some(_) => None,
    }
}

/// A zoom level: the default where the key is absent, the number where the
/// value is a whole number from 0 to 255 in plain notation, and `None` for any
/// other value.
pub open spec fn zoom_or(members: Seq<MemberView>, key: Seq<char>, default: u8) -> Option<u8> {
    match lookup_spec(members, key) {
        None => Some(default),
        Some(JsonView::Number(literal)) => small_decimal(literal),
        Some(_) => None,
    }
}

/// Whether a JSON value is a number whose literal is sound.
pub open spec fn is_coordinate(item: JsonView) -> bool {
    item matches JsonView::Number(literal) && number_of(literal) is Some
}

/// The coordinates of a list of numbers, or `None` where an item is no number.
pub open spec fn numbers_of(items: Seq<JsonView>) -> Option<Seq<Seq<char>>> {
    if forall|i: int| 0 <= i < items.len() ==> is_coordinate(#[trigger] items[i]) {
        Some(Seq::new(items.len(), |i: int| number_of(items[i]->Number_0)->0))
    } else {
        None
    }
}

/// A field that lists coordinates, with a default: the default where the
/// key is absent, the coordinates where the value is an array of numbers, and
/// `None` for any other value.
pub open spec fn numbers_or(
    members: Seq<MemberView>,
    key: Seq<char>,
    default: Seq<Seq<char>>,
) -> Option<Seq<Seq<char>>> {
    match lookup_spec(members, key) {
        None => Some(default),
        Some(JsonView::List(items)) => numbers_of(items),
        Some(_) => None,
    }
}

/// An optional field that lists coordinates: absent where the key is absent
/// or the value is `null`, the coordinates where the value is an array of
/// numbers, and `None` for any other value.
pub open spec fn optional_numbers(members: Seq<MemberView>, key: Seq<char>) -> Option<
    Option<Seq<Seq<char>>>,
> {
    match lookup_spec(members, key) {
        None => Some(None),
        Some(JsonView::Null) => Some(None),
        Some(JsonView::List(items)) => match numbers_of(items) {
            Some(literals) => Some(Some(literals)),
            None => None,
        },
        Some(_) => None,
    }
}

/// Whether `key` is the key of one of the fifteen fields of a document.
pub open spec fn is_field_key(key: Seq<char>) -> bool {
    ||| key == "tilejson"@
    ||| key == "name"@
    ||| key == "description"@
    ||| key == "version"@
    ||| key == "attribution"@
    ||| key == "template"@
    ||| key == "legend"@
    ||| key == "scheme"@
    ||| key == "tiles"@
    ||| key == "grids"@
    ||| key == "data"@
    ||| key == "minzoom"@
    ||| key == "maxzoom"@
    ||| key == "bounds"@
    ||| key == "center"@
}

/// Whether every member that is named after a field has the type of that field.
pub open spec fn fields_fit(members: Seq<MemberView>) -> bool {
    &&& text_or(members, "tilejson"@, "2.2.0"@) is Some
    &&& optional_text(members, "name"@) is Some
    &&& optional_text(members, "description"@) is Some
    &&& text_or(members, "version"@, "1.0.0"@) is Some
    &&& optional_text(members, "attribution"@) is Some
    &&& optional_text(members, "template"@) is Some
    &&& optional_text(members, "legend"@) is Some
    &&& scheme_or_default(members, "scheme"@) is Some
    &&& texts_or_empty(members, "tiles"@) is Some
    &&& texts_or_empty(members, "grids"@) is Some
    &&& texts_or_empty(members, "data"@) is Some
    &&& zoom_or(members, "minzoom"@, 0) is Some
    &&& zoom_or(members, "maxzoom"@, 30) is Some
    &&& numbers_or(members, "bounds"@, default_bounds_spec()) is Some
    &&& optional_numbers(members, "center"@) is Some
}

/// The document that the members of an object state, where they fit: the
/// table of the fields, each with its key and its default.
pub open spec fn fields_of(members: Seq<MemberView>) -> TileJsonView {
    TileJsonView {
        tilejson: text_or(members, "tilejson"@, "2.2.0"@)->0,
        name: optional_text(members, "name"@)->0,
        description: optional_text(members, "description"@)->0,
        version: text_or(members, "version"@, "1.0.0"@)->0,
        attribution: optional_text(members, "attribution"@)->0,
        template: optional_text(members, "template"@)->0,
        legend: optional_text(members, "legend"@)->0,
        scheme: scheme_or_default(members, "scheme"@)->0,
        tiles: texts_or_empty(members, "tiles"@)->0,
        grids: texts_or_empty(members, "grids"@)->0,
        data: texts_or_empty(members, "data"@)->0,
        minzoom: zoom_or(members, "minzoom"@, 0)->0,
        maxzoom: zoom_or(members, "maxzoom"@, 30)->0,
        bounds: numbers_or(members, "bounds"@, default_bounds_spec())->0,
        center: optional_numbers(members, "center"@)->0,
    }
}

/// The document that a JSON value stands for: that of its members where it
/// is an object whose members fit, and a mismatch otherwise.
pub open spec fn document_of(tree: JsonView) -> Result<TileJsonView, DecodeError> {
    match tree {
        JsonView::Object(members) => if fields_fit(members) {
            Ok(fields_of(members))
        } else {
            Err(DecodeError::Mismatch)
        },
        _ => Err(DecodeError::Mismatch),
    }
}

/// The document that a text stands for: that of the JSON value it holds, and
/// a syntax error where it holds none.
pub open spec fn decode_spec(text: Seq<char>) -> Result<TileJsonView, DecodeError> {
    match parsed(text) {
        Some(tree) => document_of(tree),
        None => Err(DecodeError::Syntax),
    }
}

/// Reads a text field with a default.
fn read_text(members: &Vec<Member>, key: &str, default: String) -> (result: Result<
    String,
    DecodeError,
>)
    ensures
        match result {
            Ok(text) => text_or(members_view(members@), key@, default@) == Some(text@),
            Err(error) => text_or(members_view(members@), key@, default@) is None && error
                == DecodeError::Mismatch,
        },
{
    match lookup(members, key) {
        None => Ok(default),
        Some(Json::Text(text)) => Ok(text.clone()),
        Some(_) => Err(DecodeError::Mismatch),
    }
}

/// Reads an optional text field.
fn read_optional_text(members: &Vec<Member>, key: &str) -> (result: Result<
    Option<String>,
    DecodeError,
>)
    ensures
        match result {
            Ok(text) => optional_text(members_view(members@), key@) == Some(
                optional_text_view(text),
            ),
            Err(error) => optional_text(members_view(members@), key@) is None && error
                == DecodeError::Mismatch,
        },
{
    match lookup(members, key) {
        None => Ok(None),
        Some(Json::Null) => Ok(None),
        Some(Json::Text(text)) => Ok(Some(text.clone())),
        Some(_) => Err(DecodeError::Mismatch),
    }
}

/// Reads the scheme field.
fn read_scheme(members: &Vec<Member>, key: &str) -> (result: Result<Scheme, DecodeError>)
    ensures
        match result {
            Ok(scheme) => scheme_or_default(members_view(members@), key@) == Some(scheme),
            Err(error) => scheme_or_default(members_view(members@), key@) is None && error
                == DecodeError::Mismatch,
        },
{
    match lookup(members, key) {
        None => Ok(Scheme::XYZ),
        Some(Json::Text(text)) => match Scheme::from_label(text.as_str()) {
            Some(scheme) => Ok(scheme),
            None => Err(DecodeError::Mismatch),
        },
        Some(_) => Err(DecodeError::Mismatch),
    }
}

/// Reads the texts of a list of strings.
fn read_text_items(items: &Vec<Json>) -> (result: Result<Vec<String>, DecodeError>)
    ensures
        match result {
            Ok(texts) => texts_of(items_view(items@)) == Some(texts_view(texts@)),
            Err(error) => texts_of(items_view(items@)) is None && error == DecodeError::Mismatch,
        },
{
    let ghost all = items_view(items@);
    let mut texts: Vec<String> = Vec::new();
    let mut i: usize = 0;
    while i < items.len()
        invariant
            i <= items.len(),
            texts.len() == i,
            all == items_view(items@),
            forall|j: int| 0 <= j < i ==> #[trigger] all[j] is Text,
            forall|j: int| 0 <= j < i ==> (#[trigger] texts[j])@ == all[j]->Text_0,
        decreases items.len() - i,
    {
        match &items[i] {
            Json::Text(text) => {
                texts.push(text.clone());
            },
            _ => {
                assert(!(all[i as int] is Text));
                return Err(DecodeError::Mismatch);
            },
        }
        i += 1;
    }
    assert(texts_view(texts@) =~= texts_of(all)->0);
    Ok(texts)
}

/// Reads a field that lists texts.
fn read_texts(members: &Vec<Member>, key: &str) -> (result: Result<Vec<String>, DecodeError>)
    ensures
        match result {
            Ok(texts) => texts_or_empty(members_view(members@), key@) == Some(
                texts_view(texts@),
            ),
            Err(error) => texts_or_empty(members_view(members@), key@) is None && error
                == DecodeError::Mismatch,
        },
{
    match lookup(members, key) {
        None => {
            let texts: Vec<String> = Vec::new();
            assert(texts_view(texts@) =~= Seq::<Seq<char>>::empty());
            Ok(texts)
        },
        Some(Json::List(items)) => {
            proof {
                lemma_list_view(*items);
            }
            read_text_items(items)
        },
        Some(_) => Err(DecodeError::Mismatch),
    }
}

/// Reads a zoom level.
fn read_zoom(members: &Vec<Member>, key: &str, default: u8) -> (result: Result<u8, DecodeError>)
    ensures
        match result {
            Ok(zoom) => zoom_or(members_view(members@), key@, default) == Some(zoom),
            Err(error) => zoom_or(members_view(members@), key@, default) is None && error
                == DecodeError::Mismatch,
        },
{
    match lookup(members, key) {
        None => Ok(default),
        Some(Json::Number(literal)) => match parse_u8(literal.as_str()) {
            Some(zoom) => Ok(zoom),
            None => Err(DecodeError::Mismatch),
        },
        Some(_) => Err(DecodeError::Mismatch),
    }
}

/// Reads the coordinates of a list of numbers.
fn read_number_items(items: &Vec<Json>) -> (result: Result<Vec<Number>, DecodeError>)
    ensures
        match result {
            Ok(numbers) => numbers_of(items_view(items@)) == Some(numbers_view(numbers@)),
            Err(error) => numbers_of(items_view(items@)) is None && error
                == DecodeError::Mismatch,
        },
{
    let ghost all = items_view(items@);
    let mut numbers: Vec<Number> = Vec::new();
    let mut i: usize = 0;
    while i < items.len()
        invariant
            i <= items.len(),
            numbers.len() == i,
            all == items_view(items@),
            forall|j: int| 0 <= j < i ==> is_coordinate(#[trigger] all[j]),
            forall|j: int|
                0 <= j < i ==> Some((#[trigger] numbers[j])@) == number_of(all[j]->Number_0),
        decreases items.len() - i,
    {
        match &items[i] {
            Json::Number(literal) => match Number::parse(literal.as_str()) {
                Some(number) => {
                    numbers.push(number);
                },
                None => {
                    assert(!is_coordinate(all[i as int]));
                    return Err(DecodeError::Mismatch);
                },
            },
            _ => {
                assert(!is_coordinate(all[i as int]));
                return Err(DecodeError::Mismatch);
            },
        }
        i += 1;
    }
    assert(numbers_view(numbers@) =~= numbers_of(all)->0);
    Ok(numbers)
}

/// Reads a field that lists coordinates, with a default.
fn read_numbers(members: &Vec<Member>, key: &str, default: Vec<Number>) -> (result: Result<
    Vec<Number>,
    DecodeError,
>)
    ensures
        match result {
            Ok(numbers) => numbers_or(members_view(members@), key@, numbers_view(default@))
                == Some(numbers_view(numbers@)),
            Err(error) => numbers_or(members_view(members@), key@, numbers_view(default@))
                is None && error == DecodeError::Mismatch,
        },
{
    match lookup(members, key) {
        None => Ok(default),
        Some(Json::List(items)) => {
            proof {
                lemma_list_view(*items);
            }
            read_number_items(items)
        },
        Some(_) => Err(DecodeError::Mismatch),
    }
}

/// Reads an optional field that lists coordinates.
fn read_optional_numbers(members: &Vec<Member>, key: &str) -> (result: Result<
    Option<Vec<Number>>,
    DecodeError,
>)
    ensures
        match result {
            Ok(numbers) => optional_numbers(members_view(members@), key@) == Some(
                optional_numbers_view(numbers),
            ),
            Err(error) => optional_numbers(members_view(members@), key@) is None && error
                == DecodeError::Mismatch,
        },
{
    match lookup(members, key) {
        None => Ok(None),
        Some(Json::Null) => Ok(None),
        Some(Json::List(items)) => {
            proof {
                lemma_list_view(*items);
            }
            match read_number_items(items) {
                Ok(numbers) => Ok(Some(numbers)),
                Err(error) => Err(error),
            }
        },
        Some(_) => Err(DecodeError::Mismatch),
    }
}

/// Reads a document from a JSON value.
///
/// The value has to be an object. Each field is read from the member under
/// its key, the last one where there are several; a field without a member
/// gets its default. A member under any other key is passed over. The result
/// is a mismatch where the value is no object, or where a member under the
/// key of a field does not have the type of the field.
pub fn from_json(tree: &Json) -> (result: Result<TileJson, DecodeError>)
    ensures
        match result {
            Ok(document) => document_of(tree@) == Ok::<TileJsonView, DecodeError>(document@),
            Err(error) => document_of(tree@) == Err::<TileJsonView, DecodeError>(error),
        },
{
    match tree {
        Json::Object(members) => {
            proof {
                lemma_object_view(*members);
            }
            let tilejson = read_text(members, "tilejson", default_tilejson())?;
            let name = read_optional_text(members, "name")?;
            let description = read_optional_text(members, "description")?;
            let version = read_text(members, "version", default_version())?;
            let attribution = read_optional_text(members, "attribution")?;
            let template = read_optional_text(members, "template")?;
            let legend = read_optional_text(members, "legend")?;
            let scheme = read_scheme(members, "scheme")?;
            let tiles = read_texts(members, "tiles")?;
            let grids = read_texts(members, "grids")?;
            let data = read_texts(members, "data")?;
            let minzoom = read_zoom(members, "minzoom", default_minzoom())?;
            let maxzoom = read_zoom(members, "maxzoom", default_maxzoom())?;
            let bounds = read_numbers(members, "bounds", default_bounds())?;
            let center = read_optional_numbers(members, "center")?;
            Ok(
                TileJson {
                    tilejson,
                    name,
                    description,
                    version,
                    attribution,
                    template,
                    legend,
                    scheme,
                    tiles,
                    grids,
                    data,
                    minzoom,
                    maxzoom,
                    bounds,
                    center,
                },
            )
        },
        _ => Err(DecodeError::Mismatch),
    }
}

/// Decodes a document from JSON text.
///
/// The text is handed to the JSON parser. Where the parser refuses it, the
/// result is a syntax error; otherwise it is what `from_json` reads from the
/// value that the parser found.
pub fn decode(text: &str) -> (result: Result<TileJson, DecodeError>)
    ensures
        match result {
            Ok(document) => decode_spec(text@) == Ok::<TileJsonView, DecodeError>(document@),
            Err(error) => decode_spec(text@) == Err::<TileJsonView, DecodeError>(error),
        },
{
    match parse_value(text) {
        Ok(value) => {
            let tree = tree_of_value(value);
            from_json(&tree)
        },
        Err(_) => Err(DecodeError::Syntax),
    }
}

} // verus!
