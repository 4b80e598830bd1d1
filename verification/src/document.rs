//! The TileJSON document and its default values.

use vstd::prelude::*;
use crate::decimal::{decimal, signed_decimal};
use crate::number::{is_fractional_literal, Number};
use crate::scheme::Scheme;

verus! {

/// A TileJSON document: the description of a set of map tiles.
///
/// The fields stand in the order in which they are written. None of the
/// limits that the TileJSON specification puts on their values is enforced
/// here: the zoom levels may lie in any order and beyond 30, and `tiles`,
/// `bounds` and `center` may have any length.
#[derive(Debug)]
pub struct TileJson {
    /// The version of the TileJSON specification that the document follows.
    pub tilejson: String,
    /// A name for the tile set.
    pub name: Option<String>,
    /// A description of the tile set.
    pub description: Option<String>,
    /// The version of the tile set itself.
    pub version: String,
    /// The attribution to show beside the map.
    pub attribution: Option<String>,
    /// A template that formats the data of the grids.
    pub template: Option<String>,
    /// A legend to show beside the map.
    pub legend: Option<String>,
    /// The direction of the Y coordinate of the tiles.
    pub scheme: Scheme,
    /// The addresses of the tiles.
    pub tiles: Vec<String>,
    /// The addresses of the interaction grids.
    pub grids: Vec<String>,
    /// The addresses of the data files.
    pub data: Vec<String>,
    /// The lowest zoom level.
    pub minzoom: u8,
    /// The highest zoom level.
    pub maxzoom: u8,
    /// The extent of the tiles: left, bottom, right, top.
    pub bounds: Vec<Number>,
    /// The default view: longitude, latitude, zoom level.
    pub center: Option<Vec<Number>>,
}

/// The mathematical model of a document: texts are sequences of characters,
/// and a coordinate is its literal.
pub struct TileJsonView {
    pub tilejson: Seq<char>,
    pub name: Option<Seq<char>>,
    pub description: Option<Seq<char>>,
    pub version: Seq<char>,
    pub attribution: Option<Seq<char>>,
    pub template: Option<Seq<char>>,
    pub legend: Option<Seq<char>>,
    pub scheme: Scheme,
    pub tiles: Seq<Seq<char>>,
    pub grids: Seq<Seq<char>>,
    pub data: Seq<Seq<char>>,
    pub minzoom: u8,
    pub maxzoom: u8,
    pub bounds: Seq<Seq<char>>,
    pub center: Option<Seq<Seq<char>>>,
}

/// The model of an optional text.
pub open spec fn optional_text_view(text: Option<String>) -> Option<Seq<char>> {
    match text {
        Some(text) => Some(text@),
        None => None,
    }
}

/// The models of some texts, in order.
pub open spec fn texts_view(texts: Seq<String>) -> Seq<Seq<char>> {
    Seq::new(texts.len(), |i: int| texts[i]@)
}

/// The literals of some coordinates, in order.
pub open spec fn numbers_view(numbers: Seq<Number>) -> Seq<Seq<char>> {
    Seq::new(numbers.len(), |i: int| numbers[i]@)
}

/// The model of an optional list of coordinates.
pub open spec fn optional_numbers_view(numbers: Option<Vec<Number>>) -> Option<Seq<Seq<char>>> {
    match numbers {
        Some(numbers) => Some(numbers_view(numbers@)),
        None => None,
    }
}

impl View for TileJson {
    type V = TileJsonView;

    open spec fn view(&self) -> TileJsonView {
        TileJsonView {
            tilejson: self.tilejson@,
            name: optional_text_view(self.name),
            description: optional_text_view(self.description),
            version: self.version@,
            attribution: optional_text_view(self.attribution),
            template: optional_text_view(self.template),
            legend: optional_text_view(self.legend),
            scheme: self.scheme,
            tiles: texts_view(self.tiles@),
            grids: texts_view(self.grids@),
            data: texts_view(self.data@),
            minzoom: self.minzoom,
            maxzoom: self.maxzoom,
            bounds: numbers_view(self.bounds@),
            center: optional_numbers_view(self.center),
        }
    }
}

/// Copies some texts.
fn clone_texts(texts: &Vec<String>) -> (copy: Vec<String>)
    ensures
        texts_view(copy@) == texts_view(texts@),
{
    let mut copy: Vec<String> = Vec::new();
    let mut i: usize = 0;
    while i < texts.len()
        invariant
            i <= texts.len(),
            copy.len() == i,
            forall|j: int| 0 <= j < i ==> (#[trigger] copy[j])@ == texts[j]@,
        decreases texts.len() - i,
    {
        copy.push(texts[i].clone());
        i += 1;
    }
    assert(texts_view(copy@) =~= texts_view(texts@));
    copy
}

/// Copies some coordinates.
fn clone_numbers(numbers: &Vec<Number>) -> (copy: Vec<Number>)
    ensures
        numbers_view(copy@) == numbers_view(numbers@),
{
    let mut copy: Vec<Number> = Vec::new();
    let mut i: usize = 0;
    while i < numbers.len()
        invariant
            i <= numbers.len(),
            copy.len() == i,
            forall|j: int| 0 <= j < i ==> (#[trigger] copy[j])@ == numbers[j]@,
        decreases numbers.len() - i,
    {
        copy.push(numbers[i].clone());
        i += 1;
    }
    assert(numbers_view(copy@) =~= numbers_view(numbers@));
    copy
}

/// Copies an optional text.
fn clone_optional_text(text: &Option<String>) -> (copy: Option<String>)
    ensures
        optional_text_view(copy) == optional_text_view(*text),
{
    match text {
        Some(text) => Some(text.clone()),
        None => None,
    }
}

impl Clone for TileJson {
    /// A copy has the same value in every field.
    fn clone(&self) -> (copy: TileJson)
        ensures
            copy@ == self@,
    {
        TileJson {
            tilejson: self.tilejson.clone(),
            name: clone_optional_text(&self.name),
            description: clone_optional_text(&self.description),
            version: self.version.clone(),
            attribution: clone_optional_text(&self.attribution),
            template: clone_optional_text(&self.template),
            legend: clone_optional_text(&self.legend),
            scheme: self.scheme,
            tiles: clone_texts(&self.tiles),
            grids: clone_texts(&self.grids),
            data: clone_texts(&self.data),
            minzoom: self.minzoom,
            maxzoom: self.maxzoom,
            bounds: clone_numbers(&self.bounds),
            center: match &self.center {
                Some(center) => Some(clone_numbers(center)),
                None => None,
            },
        }
    }
}

/// Whether two lists hold the same texts in the same order.
fn same_texts(left: &Vec<String>, right: &Vec<String>) -> (same: bool)
    ensures
        same == (texts_view(left@) == texts_view(right@)),
{
    if left.len() != right.len() {
        assert(texts_view(left@).len() != texts_view(right@).len());
        return false;
    }
    let mut i: usize = 0;
    while i < left.len()
        invariant
            i <= left.len(),
            left.len() == right.len(),
            forall|j: int| 0 <= j < i ==> (#[trigger] left[j])@ == right[j]@,
        decreases left.len() - i,
    {
        if left[i] != right[i] {
            assert(texts_view(left@)[i as int] != texts_view(right@)[i as int]);
            return false;
        }
        i += 1;
    }
    assert(texts_view(left@) =~= texts_view(right@));
    true
}

/// Whether two lists hold the same coordinates in the same order.
fn same_numbers(left: &Vec<Number>, right: &Vec<Number>) -> (same: bool)
    ensures
        same == (numbers_view(left@) == numbers_view(right@)),
{
    if left.len() != right.len() {
        assert(numbers_view(left@).len() != numbers_view(right@).len());
        return false;
    }
    let mut i: usize = 0;
    while i < left.len()
        invariant
            i <= left.len(),
            left.len() == right.len(),
            forall|j: int| 0 <= j < i ==> (#[trigger] left[j])@ == right[j]@,
        decreases left.len() - i,
    {
        if left[i] != right[i] {
            assert(numbers_view(left@)[i as int] != numbers_view(right@)[i as int]);
            return false;
        }
        i += 1;
    }
    assert(numbers_view(left@) =~= numbers_view(right@));
    true
}

/// Whether two optional texts are both absent or the same text.
fn same_optional_text(left: &Option<String>, right: &Option<String>) -> (same: bool)
    ensures
        same == (optional_text_view(*left) == optional_text_view(*right)),
{
    match (left, right) {
        (Some(left), Some(right)) => *left == *right,
        (None, None) => true,
        _ => false,
    }
}

/// Whether two optional lists of coordinates are both absent or the same list.
fn same_optional_numbers(left: &Option<Vec<Number>>, right: &Option<Vec<Number>>) -> (same: bool)
    ensures
        same == (optional_numbers_view(*left) == optional_numbers_view(*right)),
{
    match (left, right) {
        (Some(left), Some(right)) => same_numbers(left, right),
        (None, None) => true,
        _ => false,
    }
}

impl PartialEq for TileJson {
    fn eq(&self, other: &TileJson) -> (same: bool) {
        self.tilejson == other.tilejson
            && same_optional_text(&self.name, &other.name)
            && same_optional_text(&self.description, &other.description)
            && self.version == other.version
            && same_optional_text(&self.attribution, &other.attribution)
            && same_optional_text(&self.template, &other.template)
            && same_optional_text(&self.legend, &other.legend)
            && self.scheme == other.scheme
            && same_texts(&self.tiles, &other.tiles)
            && same_texts(&self.grids, &other.grids)
            && same_texts(&self.data, &other.data)
            && self.minzoom == other.minzoom
            && self.maxzoom == other.maxzoom
            && same_numbers(&self.bounds, &other.bounds)
            && same_optional_numbers(&self.center, &other.center)
    }
}

impl vstd::std_specs::cmp::PartialEqSpecImpl for TileJson {
    open spec fn obeys_eq_spec() -> bool {
        true
    }

    /// Two documents are equal where they have the same value in every field.
    open spec fn eq_spec(&self, other: &TileJson) -> bool {
        self@ == other@
    }
}

/// Whether every one of `literals` is a number literal with a fraction or an
/// exponent, as the literal of a coordinate is.
pub open spec fn all_fractional(literals: Seq<Seq<char>>) -> bool {
    forall|i: int| 0 <= i < literals.len() ==> is_fractional_literal(#[trigger] literals[i])
}

impl TileJsonView {
    /// Whether this is the model of a document: its coordinates are what the
    /// type of a coordinate admits.
    pub open spec fn is_sound(self) -> bool {
        &&& all_fractional(self.bounds)
        &&& self.center matches Some(center) ==> all_fractional(center)
    }
}

/// The bounds of a document that states none: the whole world.
pub open spec fn default_bounds_spec() -> Seq<Seq<char>> {
    seq!["-180.0"@, "-90.0"@, "180.0"@, "90.0"@]
}

/// The document that states nothing: each field has its default value.
pub open spec fn default_document() -> TileJsonView {
    TileJsonView {
        tilejson: "2.2.0"@,
        name: None,
        description: None,
        version: "1.0.0"@,
        attribution: None,
        template: None,
        legend: None,
        scheme: Scheme::XYZ,
        tiles: Seq::empty(),
        grids: Seq::empty(),
        data: Seq::empty(),
        minzoom: 0,
        maxzoom: 30,
        bounds: default_bounds_spec(),
        center: None,
    }
}

/// The default bounds are the whole numbers -180, -90, 180 and 90 as coordinates.
proof fn lemma_default_bounds()
    ensures
        signed_decimal(-180) + seq!['.', '0'] == "-180.0"@,
        signed_decimal(-90) + seq!['.', '0'] == "-90.0"@,
        signed_decimal(180) + seq!['.', '0'] == "180.0"@,
        signed_decimal(90) + seq!['.', '0'] == "90.0"@,
{
    reveal_strlit("-180.0");
    reveal_strlit("-90.0");
    reveal_strlit("180.0");
    reveal_strlit("90.0");
    reveal_with_fuel(decimal, 3);
    assert(signed_decimal(-180) + seq!['.', '0'] =~= "-180.0"@);
    assert(signed_decimal(-90) + seq!['.', '0'] =~= "-90.0"@);
    assert(signed_decimal(180) + seq!['.', '0'] =~= "180.0"@);
    assert(signed_decimal(90) + seq!['.', '0'] =~= "90.0"@);
}

/// The default of `tilejson`: version 2.2.0 of the specification.
pub fn default_tilejson() -> (text: String)
    ensures
        text@ == "2.2.0"@,
{
    "2.2.0".to_owned()
}

/// The default of `version`: 1.0.0.
pub fn default_version() -> (text: String)
    ensures
        text@ == "1.0.0"@,
{
    "1.0.0".to_owned()
}

/// The default of `minzoom`: 0.
pub fn default_minzoom() -> (zoom: u8)
    ensures
        zoom == 0,
{
    0
}

/// The default of `maxzoom`: 30.
pub fn default_maxzoom() -> (zoom: u8)
    ensures
        zoom == 30,
{
    30
}

/// The default of `bounds`: -180.0, -90.0, 180.0, 90.0.
pub fn default_bounds() -> (bounds: Vec<Number>)
    ensures
        numbers_view(bounds@) == default_bounds_spec(),
{
    let mut bounds: Vec<Number> = Vec::new();
    bounds.push(Number::from_integer(-180));
    bounds.push(Number::from_integer(-90));
    bounds.push(Number::from_integer(180));
    bounds.push(Number::from_integer(90));
    proof {
        lemma_default_bounds();
        assert(numbers_view(bounds@) =~= default_bounds_spec());
    }
    bounds
}

impl Default for TileJson {
    /// The document that states nothing: each field has its default value, the
    /// optional texts and the center are absent, and the lists of addresses
    /// are empty.
    fn default() -> (document: TileJson)
        ensures
            document@ == default_document(),
    {
        let document = TileJson {
            tilejson: default_tilejson(),
            name: None,
            description: None,
            version: default_version(),
            attribution: None,
            template: None,
            legend: None,
            scheme: Scheme::XYZ,
            tiles: Vec::new(),
            grids: Vec::new(),
            data: Vec::new(),
            minzoom: default_minzoom(),
            maxzoom: default_maxzoom(),
            bounds: default_bounds(),
            center: None,
        };
        proof {
            assert(document@.tiles =~= Seq::<Seq<char>>::empty());
            assert(document@.grids =~= Seq::<Seq<char>>::empty());
            assert(document@.data =~= Seq::<Seq<char>>::empty());
        }
        document
    }
}

} // verus!
