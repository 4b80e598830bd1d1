//! What holds of encoding and decoding together.
//!
//! The laws are stated over the models of documents and of JSON values. The
//! step between a text and the JSON value that it holds is the parser's: no
//! law here speaks of it.

use vstd::prelude::*;
use crate::decimal::{decimal, lemma_small_decimal_is_exact};
use crate::decoding::{
    document_of, fields_fit, fields_of, is_coordinate, is_field_key, numbers_of, texts_of,
    texts_or_empty, DecodeError,
};
use crate::document::{all_fractional, default_bounds_spec, default_document, TileJsonView};
use crate::encoding::{
    encode_spec, members_of, numbers_json, one_member, optional_numbers_member,
    optional_text_member, optional_texts_member, texts_json, to_json_spec,
};
use crate::json::{
    is_plain_char, lemma_lookup_in_two, lemma_lookup_of_absent_key, lemma_lookup_past_other_key,
    lemma_plain_text_is_not_escaped, lemma_render_one_more_item, lemma_render_one_more_member,
    lookup_spec, render_items, render_member, render_members, render_spec, JsonView, MemberView,
};
use crate::number::{is_whole_literal, lemma_whole_and_fractional_agree, number_of};

verus! {

/// The place of a key among the fields, or -1 where it is the key of none.
spec fn field_index(key: Seq<char>) -> int {
    if key == "tilejson"@ {
        0
    } else if key == "name"@ {
        1
    } else if key == "description"@ {
        2
    } else if key == "version"@ {
        3
    } else if key == "attribution"@ {
        4
    } else if key == "template"@ {
        5
    } else if key == "legend"@ {
        6
    } else if key == "scheme"@ {
        7
    } else if key == "tiles"@ {
        8
    } else if key == "grids"@ {
        9
    } else if key == "data"@ {
        10
    } else if key == "minzoom"@ {
        11
    } else if key == "maxzoom"@ {
        12
    } else if key == "bounds"@ {
        13
    } else if key == "center"@ {
        14
    } else {
        -1
    }
}

/// The key of the field at a place.
spec fn field_key(place: int) -> Seq<char> {
    if place == 0 {
        "tilejson"@
    } else if place == 1 {
        "name"@
    } else if place == 2 {
        "description"@
    } else if place == 3 {
        "version"@
    } else if place == 4 {
        "attribution"@
    } else if place == 5 {
        "template"@
    } else if place == 6 {
        "legend"@
    } else if place == 7 {
        "scheme"@
    } else if place == 8 {
        "tiles"@
    } else if place == 9 {
        "grids"@
    } else if place == 10 {
        "data"@
    } else if place == 11 {
        "minzoom"@
    } else if place == 12 {
        "maxzoom"@
    } else if place == 13 {
        "bounds"@
    } else {
        "center"@
    }
}

/// What a document writes for the field at a place: one member, or none.
spec fn piece(document: TileJsonView, place: int) -> Seq<MemberView> {
    if place == 0 {
        one_member("tilejson"@, JsonView::Text(document.tilejson))
    } else if place == 1 {
        optional_text_member("name"@, document.name)
    } else if place == 2 {
        optional_text_member("description"@, document.description)
    } else if place == 3 {
        one_member("version"@, JsonView::Text(document.version))
    } else if place == 4 {
        optional_text_member("attribution"@, document.attribution)
    } else if place == 5 {
        optional_text_member("template"@, document.template)
    } else if place == 6 {
        optional_text_member("legend"@, document.legend)
    } else if place == 7 {
        one_member("scheme"@, JsonView::Text(document.scheme.label_spec()))
    } else if place == 8 {
        one_member("tiles"@, texts_json(document.tiles))
    } else if place == 9 {
        optional_texts_member("grids"@, document.grids)
    } else if place == 10 {
        optional_texts_member("data"@, document.data)
    } else if place == 11 {
        one_member("minzoom"@, JsonView::Number(decimal(document.minzoom as nat)))
    } else if place == 12 {
        one_member("maxzoom"@, JsonView::Number(decimal(document.maxzoom as nat)))
    } else if place == 13 {
        one_member("bounds"@, numbers_json(document.bounds))
    } else {
        optional_numbers_member("center"@, document.center)
    }
}

/// What a document writes for its first `count` fields.
spec fn pieces(document: TileJsonView, count: nat) -> Seq<MemberView>
    decreases count,
{
    if count == 0 {
        Seq::empty()
    } else {
        pieces(document, (count - 1) as nat) + piece(document, count - 1)
    }
}

/// The keys of the fields differ from each other: each has its own length
/// and first two characters.
proof fn lemma_keys_differ()
    ensures
        field_index("tilejson"@) == 0,
        field_index("name"@) == 1,
        field_index("description"@) == 2,
        field_index("version"@) == 3,
        field_index("attribution"@) == 4,
        field_index("template"@) == 5,
        field_index("legend"@) == 6,
        field_index("scheme"@) == 7,
        field_index("tiles"@) == 8,
        field_index("grids"@) == 9,
        field_index("data"@) == 10,
        field_index("minzoom"@) == 11,
        field_index("maxzoom"@) == 12,
        field_index("bounds"@) == 13,
        field_index("center"@) == 14,
        forall|place: int| 0 <= place < 15 ==> field_index(#[trigger] field_key(place)) == place,
        forall|key: Seq<char>| is_field_key(key) <==> 0 <= #[trigger] field_index(key) < 15,
        forall|key: Seq<char>|
            0 <= #[trigger] field_index(key) < 15 ==> field_key(field_index(key)) == key,
{
    reveal_strlit("tilejson");
    reveal_strlit("name");
    reveal_strlit("description");
    reveal_strlit("version");
    reveal_strlit("attribution");
    reveal_strlit("template");
    reveal_strlit("legend");
    reveal_strlit("scheme");
    reveal_strlit("tiles");
    reveal_strlit("grids");
    reveal_strlit("data");
    reveal_strlit("minzoom");
    reveal_strlit("maxzoom");
    reveal_strlit("bounds");
    reveal_strlit("center");
    assert("tilejson"@.len() == 8 && "tilejson"@[0] == 't' && "tilejson"@[1] == 'i');
    assert("name"@.len() == 4 && "name"@[0] == 'n' && "name"@[1] == 'a');
    assert("description"@.len() == 11 && "description"@[0] == 'd' && "description"@[1] == 'e');
    assert("version"@.len() == 7 && "version"@[0] == 'v' && "version"@[1] == 'e');
    assert("attribution"@.len() == 11 && "attribution"@[0] == 'a' && "attribution"@[1] == 't');
    assert("template"@.len() == 8 && "template"@[0] == 't' && "template"@[1] == 'e');
    assert("legend"@.len() == 6 && "legend"@[0] == 'l' && "legend"@[1] == 'e');
    assert("scheme"@.len() == 6 && "scheme"@[0] == 's' && "scheme"@[1] == 'c');
    assert("tiles"@.len() == 5 && "tiles"@[0] == 't' && "tiles"@[1] == 'i');
    assert("grids"@.len() == 5 && "grids"@[0] == 'g' && "grids"@[1] == 'r');
    assert("data"@.len() == 4 && "data"@[0] == 'd' && "data"@[1] == 'a');
    assert("minzoom"@.len() == 7 && "minzoom"@[0] == 'm' && "minzoom"@[1] == 'i');
    assert("maxzoom"@.len() == 7 && "maxzoom"@[0] == 'm' && "maxzoom"@[1] == 'a');
    assert("bounds"@.len() == 6 && "bounds"@[0] == 'b' && "bounds"@[1] == 'o');
    assert("center"@.len() == 6 && "center"@[0] == 'c' && "center"@[1] == 'e');
}

/// The members of a document are what it writes for its fifteen fields.
proof fn lemma_members_are_pieces(document: TileJsonView)
    ensures
        members_of(document) == pieces(document, 15),
{
    reveal_with_fuel(pieces, 16);
    assert(pieces(document, 1) =~= piece(document, 0));
}

/// Under the key of a field, the first `count` fields hold what the field
/// writes, if it is among them and writes anything.
proof fn lemma_lookup_in_pieces(document: TileJsonView, count: nat, key: Seq<char>)
    requires
        count <= 15,
    ensures
        lookup_spec(pieces(document, count), key) == if 0 <= field_index(key) < count && piece(
            document,
            field_index(key),
        ).len() == 1 {
            Some(piece(document, field_index(key))[0].value)
        } else {
            None
        },
    decreases count,
{
    lemma_keys_differ();
    if count > 0 {
        let place = count - 1;
        let last = piece(document, place);
        lemma_lookup_in_pieces(document, place as nat, key);
        lemma_lookup_in_two(pieces(document, place as nat), last, key);
        assert(field_index(field_key(place)) == place);
        if last.len() > 0 {
            assert(last.len() == 1 && last[0].key == field_key(place));
            assert(last.last() == last[0]);
            assert(lookup_spec(last.drop_last(), key) is None);
        }
    }
}

/// What each field writes, seen from the members of the document.
///
/// Seven fields are always written, `tiles` also where it is empty. An
/// optional text and `center` are written where they are present, `grids`
/// and `data` where they are not empty; what is absent or empty has no member
/// at all.
pub proof fn lemma_written_members(document: TileJsonView)
    ensures
        lookup_spec(members_of(document), "tilejson"@) == Some(JsonView::Text(document.tilejson)),
        lookup_spec(members_of(document), "name"@) == match document.name {
            Some(text) => Some(JsonView::Text(text)),
            None => None,
        },
        lookup_spec(members_of(document), "description"@) == match document.description {
            Some(text) => Some(JsonView::Text(text)),
            None => None,
        },
        lookup_spec(members_of(document), "version"@) == Some(JsonView::Text(document.version)),
        lookup_spec(members_of(document), "attribution"@) == match document.attribution {
            Some(text) => Some(JsonView::Text(text)),
            None => None,
        },
        lookup_spec(members_of(document), "template"@) == match document.template {
            Some(text) => Some(JsonView::Text(text)),
            None => None,
        },
        lookup_spec(members_of(document), "legend"@) == match document.legend {
            Some(text) => Some(JsonView::Text(text)),
            None => None,
        },
        lookup_spec(members_of(document), "scheme"@) == Some(
            JsonView::Text(document.scheme.label_spec()),
        ),
        lookup_spec(members_of(document), "tiles"@) == Some(texts_json(document.tiles)),
        lookup_spec(members_of(document), "grids"@) == if document.grids.len() == 0 {
            None
        } else {
            Some(texts_json(document.grids))
        },
        lookup_spec(members_of(document), "data"@) == if document.data.len() == 0 {
            None
        } else {
            Some(texts_json(document.data))
        },
        lookup_spec(members_of(document), "minzoom"@) == Some(
            JsonView::Number(decimal(document.minzoom as nat)),
        ),
        lookup_spec(members_of(document), "maxzoom"@) == Some(
            JsonView::Number(decimal(document.maxzoom as nat)),
        ),
        lookup_spec(members_of(document), "bounds"@) == Some(numbers_json(document.bounds)),
        lookup_spec(members_of(document), "center"@) == match document.center {
            Some(center) => Some(numbers_json(center)),
            None => None,
        },
{
    lemma_keys_differ();
    lemma_members_are_pieces(document);
    lemma_lookup_in_pieces(document, 15, "tilejson"@);
    lemma_lookup_in_pieces(document, 15, "name"@);
    lemma_lookup_in_pieces(document, 15, "description"@);
    lemma_lookup_in_pieces(document, 15, "version"@);
    lemma_lookup_in_pieces(document, 15, "attribution"@);
    lemma_lookup_in_pieces(document, 15, "template"@);
    lemma_lookup_in_pieces(document, 15, "legend"@);
    lemma_lookup_in_pieces(document, 15, "scheme"@);
    lemma_lookup_in_pieces(document, 15, "tiles"@);
    lemma_lookup_in_pieces(document, 15, "grids"@);
    lemma_lookup_in_pieces(document, 15, "data"@);
    lemma_lookup_in_pieces(document, 15, "minzoom"@);
    lemma_lookup_in_pieces(document, 15, "maxzoom"@);
    lemma_lookup_in_pieces(document, 15, "bounds"@);
    lemma_lookup_in_pieces(document, 15, "center"@);
}

/// No member of a document has the value `null`, and none has a key that is
/// not the key of a field.
pub proof fn lemma_no_null_is_written(document: TileJsonView, i: int)
    requires
        0 <= i < members_of(document).len(),
    ensures
        !(members_of(document)[i].value is Null),
        is_field_key(members_of(document)[i].key),
{
    lemma_members_are_pieces(document);
    lemma_member_of_pieces(document, 15, i);
}

/// Each of the members that the first `count` fields write is the member of a field.
proof fn lemma_member_of_pieces(document: TileJsonView, count: nat, i: int)
    requires
        count <= 15,
        0 <= i < pieces(document, count).len(),
    ensures
        !(pieces(document, count)[i].value is Null),
        is_field_key(pieces(document, count)[i].key),
    decreases count,
{
    if count > 0 {
        let before = pieces(document, (count - 1) as nat);
        if i < before.len() {
            lemma_member_of_pieces(document, (count - 1) as nat, i);
        }
    }
}

/// The texts of a list of strings are read back as they were written.
proof fn lemma_texts_round_trip(texts: Seq<Seq<char>>)
    ensures
        texts_of(texts_json(texts)->List_0) == Some(texts),
{
    let items = texts_json(texts)->List_0;
    assert(texts_of(items)->0 =~= texts);
}

/// The coordinates of a list of numbers are read back as they were written.
proof fn lemma_numbers_round_trip(literals: Seq<Seq<char>>)
    requires
        all_fractional(literals),
    ensures
        numbers_of(numbers_json(literals)->List_0) == Some(literals),
{
    let items = numbers_json(literals)->List_0;
    assert forall|i: int| 0 <= i < items.len() implies is_coordinate(#[trigger] items[i])
        && number_of(items[i]->Number_0) == Some(literals[i]) by {
        assert(items[i] == JsonView::Number(literals[i]));
    }
    assert(numbers_of(items)->0 =~= literals);
}

/// Reading back what was written gives the document again.
///
/// For every sound model of a document, the JSON object that stands for it
/// decodes to that same document. Together with the contracts of `encode`
/// and `decode` this leaves one step open between the two: that the parser
/// finds in the text of a JSON value that same value.
pub proof fn lemma_round_trip(document: TileJsonView)
    requires
        document.is_sound(),
    ensures
        document_of(to_json_spec(document)) == Ok::<TileJsonView, DecodeError>(document),
{
    let members = members_of(document);
    lemma_written_members(document);
    document.scheme.lemma_label_round_trip();
    lemma_small_decimal_is_exact(decimal(document.minzoom as nat), document.minzoom);
    lemma_small_decimal_is_exact(decimal(document.maxzoom as nat), document.maxzoom);
    lemma_texts_round_trip(document.tiles);
    lemma_texts_round_trip(document.grids);
    lemma_texts_round_trip(document.data);
    lemma_numbers_round_trip(document.bounds);
    if document.center is Some {
        lemma_numbers_round_trip(document.center->0);
    }
    assert(texts_or_empty(members, "grids"@) == Some(document.grids)) by {
        if document.grids.len() == 0 {
            assert(document.grids =~= Seq::<Seq<char>>::empty());
        }
    }
    assert(texts_or_empty(members, "data"@) == Some(document.data)) by {
        if document.data.len() == 0 {
            assert(document.data =~= Seq::<Seq<char>>::empty());
        }
    }
    assert(fields_fit(members));
    assert(fields_of(members) == document);
}

/// An object without any of the keys of the fields gives the default document.
///
/// The empty object is one of them; so is any object that holds other keys
/// only.
pub proof fn lemma_default_fill(members: Seq<MemberView>)
    requires
        forall|i: int| 0 <= i < members.len() ==> !is_field_key(#[trigger] members[i].key),
    ensures
        document_of(JsonView::Object(members)) == Ok::<TileJsonView, DecodeError>(
            default_document(),
        ),
{
    lemma_lookup_of_absent_key(members, "tilejson"@);
    lemma_lookup_of_absent_key(members, "name"@);
    lemma_lookup_of_absent_key(members, "description"@);
    lemma_lookup_of_absent_key(members, "version"@);
    lemma_lookup_of_absent_key(members, "attribution"@);
    lemma_lookup_of_absent_key(members, "template"@);
    lemma_lookup_of_absent_key(members, "legend"@);
    lemma_lookup_of_absent_key(members, "scheme"@);
    lemma_lookup_of_absent_key(members, "tiles"@);
    lemma_lookup_of_absent_key(members, "grids"@);
    lemma_lookup_of_absent_key(members, "data"@);
    lemma_lookup_of_absent_key(members, "minzoom"@);
    lemma_lookup_of_absent_key(members, "maxzoom"@);
    lemma_lookup_of_absent_key(members, "bounds"@);
    lemma_lookup_of_absent_key(members, "center"@);
    assert(fields_fit(members));
    assert(fields_of(members) == default_document());
}

/// A member under a key that is the key of no field changes nothing.
///
/// Wherever it stands among the members and whatever its value, the object
/// decodes with it as it does without it.
pub proof fn lemma_other_keys_are_ignored(members: Seq<MemberView>, at: int, other: MemberView)
    requires
        0 <= at <= members.len(),
        !is_field_key(other.key),
    ensures
        document_of(JsonView::Object(members.insert(at, other))) == document_of(
            JsonView::Object(members),
        ),
{
    lemma_lookup_past_other_key(members, at, other, "tilejson"@);
    lemma_lookup_past_other_key(members, at, other, "name"@);
    lemma_lookup_past_other_key(members, at, other, "description"@);
    lemma_lookup_past_other_key(members, at, other, "version"@);
    lemma_lookup_past_other_key(members, at, other, "attribution"@);
    lemma_lookup_past_other_key(members, at, other, "template"@);
    lemma_lookup_past_other_key(members, at, other, "legend"@);
    lemma_lookup_past_other_key(members, at, other, "scheme"@);
    lemma_lookup_past_other_key(members, at, other, "tiles"@);
    lemma_lookup_past_other_key(members, at, other, "grids"@);
    lemma_lookup_past_other_key(members, at, other, "data"@);
    lemma_lookup_past_other_key(members, at, other, "minzoom"@);
    lemma_lookup_past_other_key(members, at, other, "maxzoom"@);
    lemma_lookup_past_other_key(members, at, other, "bounds"@);
    lemma_lookup_past_other_key(members, at, other, "center"@);
}

/// A zoom level that is given as a string is refused.
pub proof fn lemma_zoom_as_text_is_refused(members: Seq<MemberView>, text: Seq<char>)
    requires
        lookup_spec(members, "minzoom"@) == Some(JsonView::Text(text)) || lookup_spec(
            members,
            "maxzoom"@,
        ) == Some(JsonView::Text(text)),
    ensures
        document_of(JsonView::Object(members)) == Err::<TileJsonView, DecodeError>(
            DecodeError::Mismatch,
        ),
{
}

/// A coordinate may be written as a whole number or with `.0` after it: the
/// list of coordinates that is read is the same.
pub proof fn lemma_whole_and_fractional_items_agree(
    items: Seq<JsonView>,
    at: int,
    literal: Seq<char>,
)
    requires
        0 <= at < items.len(),
        items[at] == JsonView::Number(literal),
        is_whole_literal(literal),
    ensures
        numbers_of(items.update(at, JsonView::Number(literal + seq!['.', '0']))) == numbers_of(
            items,
        ),
{
    let spelled = literal + seq!['.', '0'];
    let changed = items.update(at, JsonView::Number(spelled));
    lemma_whole_and_fractional_agree(literal);
    assert forall|i: int| 0 <= i < items.len() implies is_coordinate(#[trigger] items[i])
        == is_coordinate(changed[i]) by {
        if i != at {
            assert(changed[i] == items[i]);
        }
    }
    if numbers_of(items) is Some {
        assert forall|i: int| 0 <= i < changed.len() implies is_coordinate(
            #[trigger] changed[i],
        ) by {
            assert(is_coordinate(items[i]));
        }
        assert(numbers_of(changed)->0 =~= numbers_of(items)->0);
    } else {
        let bad = choose|i: int| 0 <= i < items.len() && !is_coordinate(#[trigger] items[i]);
        assert(!is_coordinate(changed[bad]));
    }
}

/// The text of a member whose key and string value are plain: both between
/// quotes, with a colon between them.
proof fn lemma_text_member(key: Seq<char>, text: Seq<char>)
    requires
        forall|i: int| 0 <= i < key.len() ==> is_plain_char(#[trigger] key[i]),
        forall|i: int| 0 <= i < text.len() ==> is_plain_char(#[trigger] text[i]),
    ensures
        render_member(MemberView { key, value: JsonView::Text(text) }) == seq!['"'] + key
            + seq!['"', ':', '"'] + text + seq!['"'],
{
    reveal_strlit(":");
    lemma_plain_text_is_not_escaped(key);
    lemma_plain_text_is_not_escaped(text);
    assert(render_member(MemberView { key, value: JsonView::Text(text) }) =~= seq!['"'] + key
        + seq!['"', ':', '"'] + text + seq!['"']);
}

/// The text of a member whose key is plain and whose value is not a string:
/// the key between quotes, a colon, the text of the value.
proof fn lemma_other_member(key: Seq<char>, value: JsonView)
    requires
        forall|i: int| 0 <= i < key.len() ==> is_plain_char(#[trigger] key[i]),
    ensures
        render_member(MemberView { key, value }) == seq!['"'] + key + seq!['"', ':']
            + render_spec(value),
{
    reveal_strlit(":");
    lemma_plain_text_is_not_escaped(key);
    assert(render_member(MemberView { key, value }) =~= seq!['"'] + key + seq!['"', ':']
        + render_spec(value));
}

/// The default bounds are written as `[-180.0,-90.0,180.0,90.0]`.
proof fn lemma_default_bounds_text()
    ensures
        render_spec(numbers_json(default_bounds_spec())) == "[-180.0,-90.0,180.0,90.0]"@,
{
    reveal_strlit("-180.0");
    reveal_strlit("-90.0");
    reveal_strlit("180.0");
    reveal_strlit("90.0");
    reveal_strlit("[");
    reveal_strlit("]");
    reveal_strlit(",");
    reveal_strlit("[-180.0,-90.0,180.0,90.0]");
    let items = numbers_json(default_bounds_spec())->List_0;
    let none = Seq::<JsonView>::empty();
    let one = none.push(JsonView::Number("-180.0"@));
    let two = one.push(JsonView::Number("-90.0"@));
    let three = two.push(JsonView::Number("180.0"@));
    let four = three.push(JsonView::Number("90.0"@));
    assert(items =~= four);
    lemma_render_one_more_item(none, JsonView::Number("-180.0"@));
    lemma_render_one_more_item(one, JsonView::Number("-90.0"@));
    lemma_render_one_more_item(two, JsonView::Number("180.0"@));
    lemma_render_one_more_item(three, JsonView::Number("90.0"@));
    assert(render_items(two) =~= "-180.0"@ + ","@ + "-90.0"@);
    assert(render_items(four) =~= "-180.0"@ + ","@ + "-90.0"@ + ","@ + "180.0"@ + ","@ + "90.0"@);
    assert(render_spec(JsonView::List(four)) =~= "[-180.0,-90.0,180.0,90.0]"@);
}

/// The texts of the members of the default document, joined one by one.
proof fn lemma_default_texts_joined()
    ensures
        "\"tilejson\":\"2.2.0\""@ + ","@ + "\"version\":\"1.0.0\""@
            == "\"tilejson\":\"2.2.0\",\"version\":\"1.0.0\""@,
        "\"tilejson\":\"2.2.0\",\"version\":\"1.0.0\""@ + ","@ + "\"scheme\":\"xyz\""@
            == "\"tilejson\":\"2.2.0\",\"version\":\"1.0.0\",\"scheme\":\"xyz\""@,
        "\"tilejson\":\"2.2.0\",\"version\":\"1.0.0\",\"scheme\":\"xyz\""@ + ","@ + "\"tiles\":[]"@
            == "\"tilejson\":\"2.2.0\",\"version\":\"1.0.0\",\"scheme\":\"xyz\",\"tiles\":[]"@,
        "\"tilejson\":\"2.2.0\",\"version\":\"1.0.0\",\"scheme\":\"xyz\",\"tiles\":[]"@ + ","@ + "\"minzoom\":0"@
            == "\"tilejson\":\"2.2.0\",\"version\":\"1.0.0\",\"scheme\":\"xyz\",\"tiles\":[],\"minzoom\":0"@,
        "\"tilejson\":\"2.2.0\",\"version\":\"1.0.0\",\"scheme\":\"xyz\",\"tiles\":[],\"minzoom\":0"@ + ","@ + "\"maxzoom\":30"@
            == "\"tilejson\":\"2.2.0\",\"version\":\"1.0.0\",\"scheme\":\"xyz\",\"tiles\":[],\"minzoom\":0,\"maxzoom\":30"@,
        "\"tilejson\":\"2.2.0\",\"version\":\"1.0.0\",\"scheme\":\"xyz\",\"tiles\":[],\"minzoom\":0,\"maxzoom\":30"@ + ","@ + "\"bounds\":[-180.0,-90.0,180.0,90.0]"@
            == "\"tilejson\":\"2.2.0\",\"version\":\"1.0.0\",\"scheme\":\"xyz\",\"tiles\":[],\"minzoom\":0,\"maxzoom\":30,\"bounds\":[-180.0,-90.0,180.0,90.0]"@,
        "{"@ + "\"tilejson\":\"2.2.0\",\"version\":\"1.0.0\",\"scheme\":\"xyz\",\"tiles\":[],\"minzoom\":0,\"maxzoom\":30,\"bounds\":[-180.0,-90.0,180.0,90.0]"@ + "}"@
            == "{\"tilejson\":\"2.2.0\",\"version\":\"1.0.0\",\"scheme\":\"xyz\",\"tiles\":[],\"minzoom\":0,\"maxzoom\":30,\"bounds\":[-180.0,-90.0,180.0,90.0]}"@,
{
    assert("\"tilejson\":\"2.2.0\""@ + ","@ + "\"version\":\"1.0.0\""@ == "\"tilejson\":\"2.2.0\",\"version\":\"1.0.0\""@) by {
        reveal_strlit("\"tilejson\":\"2.2.0\"");
        reveal_strlit(",");
        reveal_strlit("\"version\":\"1.0.0\"");
        reveal_strlit("\"tilejson\":\"2.2.0\",\"version\":\"1.0.0\"");
        assert("\"tilejson\":\"2.2.0\""@ + ","@ + "\"version\":\"1.0.0\""@ =~= "\"tilejson\":\"2.2.0\",\"version\":\"1.0.0\""@);
    }
    assert("\"tilejson\":\"2.2.0\",\"version\":\"1.0.0\""@ + ","@ + "\"scheme\":\"xyz\""@ == "\"tilejson\":\"2.2.0\",\"version\":\"1.0.0\",\"scheme\":\"xyz\""@) by {
        reveal_strlit("\"tilejson\":\"2.2.0\",\"version\":\"1.0.0\"");
        reveal_strlit(",");
        reveal_strlit("\"scheme\":\"xyz\"");
        reveal_strlit("\"tilejson\":\"2.2.0\",\"version\":\"1.0.0\",\"scheme\":\"xyz\"");
        assert("\"tilejson\":\"2.2.0\",\"version\":\"1.0.0\""@ + ","@ + "\"scheme\":\"xyz\""@ =~= "\"tilejson\":\"2.2.0\",\"version\":\"1.0.0\",\"scheme\":\"xyz\""@);
    }
    assert("\"tilejson\":\"2.2.0\",\"version\":\"1.0.0\",\"scheme\":\"xyz\""@ + ","@ + "\"tiles\":[]"@ == "\"tilejson\":\"2.2.0\",\"version\":\"1.0.0\",\"scheme\":\"xyz\",\"tiles\":[]"@) by {
        reveal_strlit("\"tilejson\":\"2.2.0\",\"version\":\"1.0.0\",\"scheme\":\"xyz\"");
        reveal_strlit(",");
        reveal_strlit("\"tiles\":[]");
        reveal_strlit("\"tilejson\":\"2.2.0\",\"version\":\"1.0.0\",\"scheme\":\"xyz\",\"tiles\":[]");
        assert("\"tilejson\":\"2.2.0\",\"version\":\"1.0.0\",\"scheme\":\"xyz\""@ + ","@ + "\"tiles\":[]"@ =~= "\"tilejson\":\"2.2.0\",\"version\":\"1.0.0\",\"scheme\":\"xyz\",\"tiles\":[]"@);
    }
    assert("\"tilejson\":\"2.2.0\",\"version\":\"1.0.0\",\"scheme\":\"xyz\",\"tiles\":[]"@ + ","@ + "\"minzoom\":0"@ == "\"tilejson\":\"2.2.0\",\"version\":\"1.0.0\",\"scheme\":\"xyz\",\"tiles\":[],\"minzoom\":0"@) by {
        reveal_strlit("\"tilejson\":\"2.2.0\",\"version\":\"1.0.0\",\"scheme\":\"xyz\",\"tiles\":[]");
        reveal_strlit(",");
        reveal_strlit("\"minzoom\":0");
        reveal_strlit("\"tilejson\":\"2.2.0\",\"version\":\"1.0.0\",\"scheme\":\"xyz\",\"tiles\":[],\"minzoom\":0");
        assert("\"tilejson\":\"2.2.0\",\"version\":\"1.0.0\",\"scheme\":\"xyz\",\"tiles\":[]"@ + ","@ + "\"minzoom\":0"@ =~= "\"tilejson\":\"2.2.0\",\"version\":\"1.0.0\",\"scheme\":\"xyz\",\"tiles\":[],\"minzoom\":0"@);
    }
    assert("\"tilejson\":\"2.2.0\",\"version\":\"1.0.0\",\"scheme\":\"xyz\",\"tiles\":[],\"minzoom\":0"@ + ","@ + "\"maxzoom\":30"@ == "\"tilejson\":\"2.2.0\",\"version\":\"1.0.0\",\"scheme\":\"xyz\",\"tiles\":[],\"minzoom\":0,\"maxzoom\":30"@) by {
        reveal_strlit("\"tilejson\":\"2.2.0\",\"version\":\"1.0.0\",\"scheme\":\"xyz\",\"tiles\":[],\"minzoom\":0");
        reveal_strlit(",");
        reveal_strlit("\"maxzoom\":30");
        reveal_strlit("\"tilejson\":\"2.2.0\",\"version\":\"1.0.0\",\"scheme\":\"xyz\",\"tiles\":[],\"minzoom\":0,\"maxzoom\":30");
        assert("\"tilejson\":\"2.2.0\",\"version\":\"1.0.0\",\"scheme\":\"xyz\",\"tiles\":[],\"minzoom\":0"@ + ","@ + "\"maxzoom\":30"@ =~= "\"tilejson\":\"2.2.0\",\"version\":\"1.0.0\",\"scheme\":\"xyz\",\"tiles\":[],\"minzoom\":0,\"maxzoom\":30"@);
    }
    assert("\"tilejson\":\"2.2.0\",\"version\":\"1.0.0\",\"scheme\":\"xyz\",\"tiles\":[],\"minzoom\":0,\"maxzoom\":30"@ + ","@ + "\"bounds\":[-180.0,-90.0,180.0,90.0]"@ == "\"tilejson\":\"2.2.0\",\"version\":\"1.0.0\",\"scheme\":\"xyz\",\"tiles\":[],\"minzoom\":0,\"maxzoom\":30,\"bounds\":[-180.0,-90.0,180.0,90.0]"@) by {
        reveal_strlit("\"tilejson\":\"2.2.0\",\"version\":\"1.0.0\",\"scheme\":\"xyz\",\"tiles\":[],\"minzoom\":0,\"maxzoom\":30");
        reveal_strlit(",");
        reveal_strlit("\"bounds\":[-180.0,-90.0,180.0,90.0]");
        reveal_strlit("\"tilejson\":\"2.2.0\",\"version\":\"1.0.0\",\"scheme\":\"xyz\",\"tiles\":[],\"minzoom\":0,\"maxzoom\":30,\"bounds\":[-180.0,-90.0,180.0,90.0]");
        assert("\"tilejson\":\"2.2.0\",\"version\":\"1.0.0\",\"scheme\":\"xyz\",\"tiles\":[],\"minzoom\":0,\"maxzoom\":30"@ + ","@ + "\"bounds\":[-180.0,-90.0,180.0,90.0]"@ =~= "\"tilejson\":\"2.2.0\",\"version\":\"1.0.0\",\"scheme\":\"xyz\",\"tiles\":[],\"minzoom\":0,\"maxzoom\":30,\"bounds\":[-180.0,-90.0,180.0,90.0]"@);
    }
    assert("{"@ + "\"tilejson\":\"2.2.0\",\"version\":\"1.0.0\",\"scheme\":\"xyz\",\"tiles\":[],\"minzoom\":0,\"maxzoom\":30,\"bounds\":[-180.0,-90.0,180.0,90.0]"@ + "}"@ == "{\"tilejson\":\"2.2.0\",\"version\":\"1.0.0\",\"scheme\":\"xyz\",\"tiles\":[],\"minzoom\":0,\"maxzoom\":30,\"bounds\":[-180.0,-90.0,180.0,90.0]}"@) by {
        reveal_strlit("{");
        reveal_strlit("}");
        reveal_strlit("\"tilejson\":\"2.2.0\",\"version\":\"1.0.0\",\"scheme\":\"xyz\",\"tiles\":[],\"minzoom\":0,\"maxzoom\":30,\"bounds\":[-180.0,-90.0,180.0,90.0]");
        reveal_strlit("{\"tilejson\":\"2.2.0\",\"version\":\"1.0.0\",\"scheme\":\"xyz\",\"tiles\":[],\"minzoom\":0,\"maxzoom\":30,\"bounds\":[-180.0,-90.0,180.0,90.0]}");
        assert("{"@ + "\"tilejson\":\"2.2.0\",\"version\":\"1.0.0\",\"scheme\":\"xyz\",\"tiles\":[],\"minzoom\":0,\"maxzoom\":30,\"bounds\":[-180.0,-90.0,180.0,90.0]"@ + "}"@ =~= "{\"tilejson\":\"2.2.0\",\"version\":\"1.0.0\",\"scheme\":\"xyz\",\"tiles\":[],\"minzoom\":0,\"maxzoom\":30,\"bounds\":[-180.0,-90.0,180.0,90.0]}"@);
    }
}

/// The text of each member of the default document.
proof fn lemma_default_member_texts()
    ensures
        render_member(MemberView { key: "tilejson"@, value: JsonView::Text("2.2.0"@) })
            == "\"tilejson\":\"2.2.0\""@,
        render_member(MemberView { key: "version"@, value: JsonView::Text("1.0.0"@) })
            == "\"version\":\"1.0.0\""@,
        render_member(MemberView { key: "scheme"@, value: JsonView::Text("xyz"@) })
            == "\"scheme\":\"xyz\""@,
        render_member(MemberView { key: "tiles"@, value: texts_json(Seq::empty()) })
            == "\"tiles\":[]"@,
        render_member(MemberView { key: "minzoom"@, value: JsonView::Number(decimal(0)) })
            == "\"minzoom\":0"@,
        render_member(MemberView { key: "maxzoom"@, value: JsonView::Number(decimal(30)) })
            == "\"maxzoom\":30"@,
        render_member(MemberView { key: "bounds"@, value: numbers_json(default_bounds_spec()) })
            == "\"bounds\":[-180.0,-90.0,180.0,90.0]"@,
{
    let tilejson = MemberView { key: "tilejson"@, value: JsonView::Text("2.2.0"@) };
    let version = MemberView { key: "version"@, value: JsonView::Text("1.0.0"@) };
    let scheme = MemberView { key: "scheme"@, value: JsonView::Text("xyz"@) };
    let tiles = MemberView { key: "tiles"@, value: texts_json(Seq::empty()) };
    let minzoom = MemberView { key: "minzoom"@, value: JsonView::Number(decimal(0)) };
    let maxzoom = MemberView { key: "maxzoom"@, value: JsonView::Number(decimal(30)) };
    let bounds = MemberView { key: "bounds"@, value: numbers_json(default_bounds_spec()) };
    assert(render_member(tilejson) == "\"tilejson\":\"2.2.0\""@) by {
        reveal_strlit("tilejson");
        reveal_strlit("2.2.0");
        reveal_strlit("\"tilejson\":\"2.2.0\"");
        lemma_text_member("tilejson"@, "2.2.0"@);
        assert(render_member(tilejson) =~= "\"tilejson\":\"2.2.0\""@);
    }
    assert(render_member(version) == "\"version\":\"1.0.0\""@) by {
        reveal_strlit("version");
        reveal_strlit("1.0.0");
        reveal_strlit("\"version\":\"1.0.0\"");
        lemma_text_member("version"@, "1.0.0"@);
        assert(render_member(version) =~= "\"version\":\"1.0.0\""@);
    }
    assert(render_member(scheme) == "\"scheme\":\"xyz\""@) by {
        reveal_strlit("scheme");
        reveal_strlit("xyz");
        reveal_strlit("\"scheme\":\"xyz\"");
        lemma_text_member("scheme"@, "xyz"@);
        assert(render_member(scheme) =~= "\"scheme\":\"xyz\""@);
    }
    assert(render_member(tiles) == "\"tiles\":[]"@) by {
        reveal_strlit("tiles");
        reveal_strlit("[");
        reveal_strlit("]");
        reveal_strlit("\"tiles\":[]");
        lemma_other_member("tiles"@, tiles.value);
        assert(tiles.value->List_0 =~= Seq::<JsonView>::empty());
        assert(render_spec(tiles.value) =~= seq!['[', ']']);
        assert(render_member(tiles) =~= "\"tiles\":[]"@);
    }
    assert(render_member(minzoom) == "\"minzoom\":0"@) by {
        reveal_strlit("minzoom");
        reveal_strlit("\"minzoom\":0");
        lemma_other_member("minzoom"@, minzoom.value);
        assert(render_member(minzoom) =~= "\"minzoom\":0"@);
    }
    assert(render_member(maxzoom) == "\"maxzoom\":30"@) by {
        reveal_strlit("maxzoom");
        reveal_strlit("\"maxzoom\":30");
        lemma_other_member("maxzoom"@, maxzoom.value);
        reveal_with_fuel(decimal, 2);
        assert(decimal(30) =~= seq!['3', '0']);
        assert(render_member(maxzoom) =~= "\"maxzoom\":30"@);
    }
    assert(render_member(bounds) == "\"bounds\":[-180.0,-90.0,180.0,90.0]"@) by {
        reveal_strlit("bounds");
        reveal_strlit("[-180.0,-90.0,180.0,90.0]");
        reveal_strlit("\"bounds\":[-180.0,-90.0,180.0,90.0]");
        lemma_other_member("bounds"@, bounds.value);
        lemma_default_bounds_text();
        assert(render_member(bounds) =~= "\"bounds\":[-180.0,-90.0,180.0,90.0]"@);
    }
}

/// The default document is written as this text, character for character.
pub proof fn lemma_default_text()
    ensures
        encode_spec(default_document())
            == "{\"tilejson\":\"2.2.0\",\"version\":\"1.0.0\",\"scheme\":\"xyz\",\"tiles\":[],\"minzoom\":0,\"maxzoom\":30,\"bounds\":[-180.0,-90.0,180.0,90.0]}"@,
{
    let document = default_document();
    let tilejson = MemberView { key: "tilejson"@, value: JsonView::Text("2.2.0"@) };
    let version = MemberView { key: "version"@, value: JsonView::Text("1.0.0"@) };
    let scheme = MemberView { key: "scheme"@, value: JsonView::Text("xyz"@) };
    let tiles = MemberView { key: "tiles"@, value: texts_json(Seq::empty()) };
    let minzoom = MemberView { key: "minzoom"@, value: JsonView::Number(decimal(0)) };
    let maxzoom = MemberView { key: "maxzoom"@, value: JsonView::Number(decimal(30)) };
    let bounds = MemberView { key: "bounds"@, value: numbers_json(default_bounds_spec()) };
    let none = Seq::<MemberView>::empty();
    let one = none.push(tilejson);
    let two = one.push(version);
    let three = two.push(scheme);
    let four = three.push(tiles);
    let five = four.push(minzoom);
    let six = five.push(maxzoom);
    let seven = six.push(bounds);
    assert(members_of(document) =~= seven);
    lemma_default_member_texts();
    lemma_default_texts_joined();
    lemma_render_one_more_member(none, tilejson);
    lemma_render_one_more_member(one, version);
    lemma_render_one_more_member(two, scheme);
    lemma_render_one_more_member(three, tiles);
    lemma_render_one_more_member(four, minzoom);
    lemma_render_one_more_member(five, maxzoom);
    lemma_render_one_more_member(six, bounds);
}

} // verus!
