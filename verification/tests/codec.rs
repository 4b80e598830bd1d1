use tilejson::{decode, encode, from_json, to_json, DecodeError, Json, Member, Number, Scheme, TileJson};

const DEFAULT_TEXT: &str = r#"{"tilejson":"2.2.0","version":"1.0.0","scheme":"xyz","tiles":[],"minzoom":0,"maxzoom":30,"bounds":[-180.0,-90.0,180.0,90.0]}"#;

const EXAMPLE_TEXT: &str = r#"{"tilejson":"1.0.0","name":"OpenStreetMap","description":"A free editable map of the whole world.","version":"1.0.0","attribution":"(c) OpenStreetMap contributors, CC-BY-SA","scheme":"xyz","tiles":["https://a.tile.openstreetmap.org/{z}/{x}/{y}.png","https://b.tile.openstreetmap.org/{z}/{x}/{y}.png","https://c.tile.openstreetmap.org/{z}/{x}/{y}.png"],"minzoom":0,"maxzoom":18,"bounds":[-180.0,-85.0,180.0,85.0]}"#;

/// The coordinate that stands for a float: the number as JSON writes it.
fn coordinate(value: f32) -> Number {
    Number::parse(&serde_json::to_string(&value).unwrap()).unwrap()
}

fn coordinates(values: &[f32]) -> Vec<Number> {
    values.iter().map(|value| coordinate(*value)).collect()
}

fn example() -> TileJson {
    let mut tilejson = TileJson::default();
    tilejson.tilejson = "1.0.0".to_owned();
    tilejson.name = Some("OpenStreetMap".to_owned());
    tilejson.description = Some("A free editable map of the whole world.".to_owned());
    tilejson.attribution = Some("(c) OpenStreetMap contributors, CC-BY-SA".to_owned());
    tilejson.tiles = vec![
        "https://a.tile.openstreetmap.org/{z}/{x}/{y}.png".to_owned(),
        "https://b.tile.openstreetmap.org/{z}/{x}/{y}.png".to_owned(),
        "https://c.tile.openstreetmap.org/{z}/{x}/{y}.png".to_owned(),
    ];
    tilejson.maxzoom = 18;
    tilejson.bounds = coordinates(&[-180.0, -85.0, 180.0, 85.0]);
    tilejson
}

fn populated() -> TileJson {
    TileJson {
        tilejson: "2.1.0".to_owned(),
        name: Some("Roads \"A\" \\ B".to_owned()),
        description: Some("line\nbreak\ttab \u{1} caf\u{e9} \u{1f5fa}".to_owned()),
        version: "3.4.5".to_owned(),
        attribution: Some("<a href=\"https://example.org/\">us</a>".to_owned()),
        template: Some("{{#__teaser__}}{{NAME}}{{/__teaser__}}".to_owned()),
        legend: Some("".to_owned()),
        scheme: Scheme::TMS,
        tiles: vec!["https://example.org/{z}/{x}/{y}.png".to_owned()],
        grids: vec!["https://example.org/{z}/{x}/{y}.grid.json".to_owned()],
        data: vec!["https://example.org/a.geojson".to_owned(), "https://example.org/b.geojson".to_owned()],
        minzoom: 3,
        maxzoom: 22,
        bounds: coordinates(&[-12.5, 35.25, 0.1, 42.0]),
        center: Some(coordinates(&[-6.0, 40.5, 7.0])),
    }
}

#[test]
fn test_encode_default() {
    let encoded_str = r#"{"tilejson":"2.2.0","version":"1.0.0","scheme":"xyz","tiles":[],"minzoom":0,"maxzoom":30,"bounds":[-180.0,-90.0,180.0,90.0]}"#;
    let tilejson = TileJson::default();
    assert_eq!(encode(&tilejson), encoded_str);
}

#[test]
fn test_decode_default() {
    let encoded_str = r#"{"tilejson":"2.2.0","version":"1.0.0","scheme":"xyz","tiles":[],"minzoom":0,"maxzoom":30,"bounds":[-180.0,-90.0,180.0,90.0]}"#;
    let tilejson = TileJson::default();
    assert_eq!(decode(&encoded_str).unwrap(), tilejson);
}

#[test]
fn test_encode_example() {
    let encoded_str = r#"{"tilejson":"1.0.0","name":"OpenStreetMap","description":"A free editable map of the whole world.","version":"1.0.0","attribution":"(c) OpenStreetMap contributors, CC-BY-SA","scheme":"xyz","tiles":["https://a.tile.openstreetmap.org/{z}/{x}/{y}.png","https://b.tile.openstreetmap.org/{z}/{x}/{y}.png","https://c.tile.openstreetmap.org/{z}/{x}/{y}.png"],"minzoom":0,"maxzoom":18,"bounds":[-180.0,-85.0,180.0,85.0]}"#;
    let mut tilejson = TileJson::default();
    tilejson.tilejson = "1.0.0".to_owned();
    tilejson.name = Some("OpenStreetMap".to_owned());
    tilejson.description = Some("A free editable map of the whole world.".to_owned());
    tilejson.attribution = Some("(c) OpenStreetMap contributors, CC-BY-SA".to_owned());
    tilejson.tiles = vec![
        "https://a.tile.openstreetmap.org/{z}/{x}/{y}.png".to_owned(),
        "https://b.tile.openstreetmap.org/{z}/{x}/{y}.png".to_owned(),
        "https://c.tile.openstreetmap.org/{z}/{x}/{y}.png".to_owned(),
    ];
    tilejson.maxzoom = 18;
    tilejson.bounds = vec![coordinate(-180.0), coordinate(-85.0), coordinate(180.0), coordinate(85.0)];

    assert_eq!(encode(&tilejson), encoded_str);
}

#[test]
fn test_decode_example() {
    let encoded_str = r#"{
            "tilejson": "1.0.0",
            "name": "OpenStreetMap",
            "description": "A free editable map of the whole world.",
            "version": "1.0.0",
            "attribution": "(c) OpenStreetMap contributors, CC-BY-SA",
            "scheme": "xyz",
            "tiles": [
                "https://a.tile.openstreetmap.org/{z}/{x}/{y}.png",
                "https://b.tile.openstreetmap.org/{z}/{x}/{y}.png",
                "https://c.tile.openstreetmap.org/{z}/{x}/{y}.png"
            ],
            "minzoom": 0,
            "maxzoom": 18,
            "bounds": [ -180, -85, 180, 85 ]
        }"#;

    let mut tilejson = TileJson::default();
    tilejson.tilejson = "1.0.0".to_owned();
    tilejson.name = Some("OpenStreetMap".to_owned());
    tilejson.description = Some("A free editable map of the whole world.".to_owned());
    tilejson.attribution = Some("(c) OpenStreetMap contributors, CC-BY-SA".to_owned());
    tilejson.tiles = vec![
        "https://a.tile.openstreetmap.org/{z}/{x}/{y}.png".to_owned(),
        "https://b.tile.openstreetmap.org/{z}/{x}/{y}.png".to_owned(),
        "https://c.tile.openstreetmap.org/{z}/{x}/{y}.png".to_owned(),
    ];
    tilejson.maxzoom = 18;
    tilejson.bounds = vec![coordinate(-180.0), coordinate(-85.0), coordinate(180.0), coordinate(85.0)];

    assert_eq!(decode(&encoded_str).unwrap(), tilejson);
}

#[test]
fn default_document_has_the_documented_values() {
    let document = TileJson::default();
    assert_eq!(document.tilejson, "2.2.0");
    assert_eq!(document.name, None);
    assert_eq!(document.description, None);
    assert_eq!(document.version, "1.0.0");
    assert_eq!(document.attribution, None);
    assert_eq!(document.template, None);
    assert_eq!(document.legend, None);
    assert_eq!(document.scheme, Scheme::XYZ);
    assert!(document.tiles.is_empty());
    assert!(document.grids.is_empty());
    assert!(document.data.is_empty());
    assert_eq!(document.minzoom, 0);
    assert_eq!(document.maxzoom, 30);
    assert_eq!(document.bounds, coordinates(&[-180.0, -90.0, 180.0, 90.0]));
    assert_eq!(document.center, None);
}

#[test]
fn default_values_one_by_one() {
    assert_eq!(tilejson::default_tilejson(), "2.2.0");
    assert_eq!(tilejson::default_version(), "1.0.0");
    assert_eq!(tilejson::default_minzoom(), 0);
    assert_eq!(tilejson::default_maxzoom(), 30);
    let bounds: Vec<String> = tilejson::default_bounds().iter().map(|n| n.as_str().to_owned()).collect();
    assert_eq!(bounds, vec!["-180.0", "-90.0", "180.0", "90.0"]);
}

#[test]
fn round_trip_of_the_default_document() {
    let document = TileJson::default();
    assert_eq!(decode(&encode(&document)), Ok(TileJson::default()));
}

#[test]
fn round_trip_of_the_example() {
    assert_eq!(encode(&example()), EXAMPLE_TEXT);
    assert_eq!(decode(EXAMPLE_TEXT), Ok(example()));
}

#[test]
fn round_trip_of_a_populated_document() {
    let document = populated();
    let text = encode(&document);
    assert_eq!(decode(&text), Ok(populated()));
    assert_eq!(encode(&decode(&text).unwrap()), text);
}

#[test]
fn round_trip_through_the_tree() {
    for document in [TileJson::default(), example(), populated()] {
        assert_eq!(from_json(&to_json(&document)), Ok(document));
    }
}

#[test]
fn encode_writes_every_field_in_order() {
    let parts = [
        r#"{"tilejson":"2.1.0","#,
        r#""name":"Roads \"A\" \\ B","#,
        r#""description":"line\nbreak\ttab \u0001 café 🗺","#,
        r#""version":"3.4.5","#,
        r#""attribution":"<a href=\"https://example.org/\">us</a>","#,
        r#""template":"{{#__teaser__}}{{NAME}}{{/__teaser__}}","#,
        r#""legend":"","#,
        r#""scheme":"tms","#,
        r#""tiles":["https://example.org/{z}/{x}/{y}.png"],"#,
        r#""grids":["https://example.org/{z}/{x}/{y}.grid.json"],"#,
        r#""data":["https://example.org/a.geojson","https://example.org/b.geojson"],"#,
        r#""minzoom":3,"maxzoom":22,"#,
        r#""bounds":[-12.5,35.25,0.1,42.0],"#,
        r#""center":[-6.0,40.5,7.0]}"#,
    ];
    let expected: String = parts.iter().copied().collect();
    assert_eq!(encode(&populated()), expected);
}

#[test]
fn encode_does_not_check_the_limits_of_the_specification() {
    let mut document = TileJson::default();
    document.minzoom = 200;
    document.maxzoom = 1;
    document.bounds = Vec::new();
    document.center = Some(Vec::new());
    let text = encode(&document);
    assert_eq!(
        text,
        r#"{"tilejson":"2.2.0","version":"1.0.0","scheme":"xyz","tiles":[],"minzoom":200,"maxzoom":1,"bounds":[],"center":[]}"#
    );
    assert_eq!(decode(&text), Ok(document));
}

#[test]
fn decoding_the_empty_object_gives_the_default_document() {
    assert_eq!(decode("{}"), Ok(TileJson::default()));
    assert_eq!(decode("  { }\n"), Ok(TileJson::default()));
    assert_eq!(decode(r#"{"other": 1, "more": {"name": "x"}}"#), Ok(TileJson::default()));
    assert_eq!(from_json(&Json::Object(Vec::new())), Ok(TileJson::default()));
}

#[test]
fn missing_required_fields_fall_back_to_their_defaults() {
    let document = decode(r#"{"name": "n"}"#).unwrap();
    assert_eq!(document.tilejson, "2.2.0");
    assert!(document.tiles.is_empty());
    assert_eq!(document.name, Some("n".to_owned()));
}

#[test]
fn empty_grids_and_data_are_left_out() {
    let document = TileJson::default();
    let text = encode(&document);
    assert!(!text.contains("grids"));
    assert!(!text.contains("data"));
    let parsed: serde_json::Value = serde_json::from_str(&text).unwrap();
    assert!(parsed.get("grids").is_none());
    assert!(parsed.get("data").is_none());
    assert!(parsed.get("tiles").unwrap().as_array().unwrap().is_empty());
}

#[test]
fn grids_and_data_are_written_where_they_are_not_empty() {
    let mut document = TileJson::default();
    document.grids = vec!["g1".to_owned(), "g2".to_owned()];
    let text = encode(&document);
    assert!(text.contains(r#","grids":["g1","g2"],"minzoom""#));
    assert!(!text.contains("data"));
    document.grids = Vec::new();
    document.data = vec!["d".to_owned()];
    let text = encode(&document);
    assert!(text.contains(r#""tiles":[],"data":["d"],"minzoom""#));
    assert!(!text.contains("grids"));
}

#[test]
fn absent_texts_are_left_out_and_never_written_as_null() {
    let document = TileJson::default();
    let text = encode(&document);
    assert!(!text.contains("\"name\""));
    assert!(!text.contains("null"));
    let mut document = populated();
    document.name = None;
    document.center = None;
    let text = encode(&document);
    let parsed: serde_json::Value = serde_json::from_str(&text).unwrap();
    assert!(parsed.get("name").is_none());
    assert!(parsed.get("center").is_none());
    assert!(parsed.get("legend").is_some());
    assert!(!text.contains("null"));
}

#[test]
fn whole_and_fractional_literals_decode_alike() {
    let whole = decode(r#"{"bounds": [-180, -85, 180, 85]}"#).unwrap();
    let fractional = decode(r#"{"bounds": [-180.0, -85.0, 180.0, 85.0]}"#).unwrap();
    assert_eq!(whole, fractional);
    assert_eq!(whole.bounds, coordinates(&[-180.0, -85.0, 180.0, 85.0]));
    let center = decode(r#"{"center": [0, 1, 2]}"#).unwrap();
    assert_eq!(center.center, Some(coordinates(&[0.0, 1.0, 2.0])));
    assert_eq!(center, decode(r#"{"center": [0.0, 1.0, 2.0]}"#).unwrap());
}

#[test]
fn an_unknown_key_is_passed_over() {
    let plain = decode(EXAMPLE_TEXT).unwrap();
    let text = EXAMPLE_TEXT.replacen('{', r#"{"vector_layers":[{"id":"roads"}],"#, 1);
    assert_eq!(decode(&text), Ok(plain));
    let text = format!("{},\"zzz\":null}}", &DEFAULT_TEXT[..DEFAULT_TEXT.len() - 1]);
    assert_eq!(decode(&text), Ok(TileJson::default()));
}

#[test]
fn malformed_text_is_a_syntax_error() {
    assert_eq!(decode(""), Err(DecodeError::Syntax));
    assert_eq!(decode("{"), Err(DecodeError::Syntax));
    assert_eq!(decode(r#"{"name": }"#), Err(DecodeError::Syntax));
    assert_eq!(decode(r#"{"name": "x",}"#), Err(DecodeError::Syntax));
    assert_eq!(decode("{} {}"), Err(DecodeError::Syntax));
    assert_eq!(decode(r#"{"minzoom": 01}"#), Err(DecodeError::Syntax));
    assert_eq!(decode("not json"), Err(DecodeError::Syntax));
}

#[test]
fn a_zoom_level_given_as_a_string_is_a_mismatch() {
    assert_eq!(decode(r#"{"minzoom": "3"}"#), Err(DecodeError::Mismatch));
    assert_eq!(decode(r#"{"maxzoom": "3"}"#), Err(DecodeError::Mismatch));
}

#[test]
fn values_of_the_wrong_type_are_mismatches() {
    for text in [
        "[]",
        "null",
        "3",
        "\"text\"",
        r#"{"tilejson": 2}"#,
        r#"{"tilejson": null}"#,
        r#"{"name": 1}"#,
        r#"{"name": ["n"]}"#,
        r#"{"version": null}"#,
        r#"{"scheme": "XYZ"}"#,
        r#"{"scheme": "zxy"}"#,
        r#"{"scheme": null}"#,
        r#"{"scheme": {"xyz": null}}"#,
        r#"{"tiles": "a"}"#,
        r#"{"tiles": [1]}"#,
        r#"{"tiles": ["a", null]}"#,
        r#"{"grids": null}"#,
        r#"{"data": {}}"#,
        r#"{"minzoom": 256}"#,
        r#"{"minzoom": -1}"#,
        r#"{"minzoom": 1.0}"#,
        r#"{"minzoom": 1e1}"#,
        r#"{"minzoom": null}"#,
        r#"{"maxzoom": true}"#,
        r#"{"bounds": null}"#,
        r#"{"bounds": 1}"#,
        r#"{"bounds": ["1"]}"#,
        r#"{"bounds": [1, null]}"#,
        r#"{"bounds": [[1]]}"#,
        r#"{"center": "x"}"#,
        r#"{"center": [true]}"#,
    ] {
        assert_eq!(decode(text), Err(DecodeError::Mismatch), "{}", text);
    }
}

#[test]
fn null_stands_for_an_absent_optional_field() {
    let document = decode(r#"{"name": null, "description": null, "attribution": null, "template": null, "legend": null, "center": null}"#).unwrap();
    assert_eq!(document, TileJson::default());
}

#[test]
fn every_field_is_read() {
    let document = decode(
        r#"{"center": [1.5, -2, 3], "bounds": [1e2, 0.25], "maxzoom": 255, "minzoom": 7,
            "data": ["d"], "grids": ["g"], "tiles": ["t", "u"], "scheme": "tms", "legend": "l",
            "template": "t", "attribution": "a", "version": "v", "description": "d",
            "name": "n", "tilejson": "j"}"#,
    )
    .unwrap();
    let expected = TileJson {
        tilejson: "j".to_owned(),
        name: Some("n".to_owned()),
        description: Some("d".to_owned()),
        version: "v".to_owned(),
        attribution: Some("a".to_owned()),
        template: Some("t".to_owned()),
        legend: Some("l".to_owned()),
        scheme: Scheme::TMS,
        tiles: vec!["t".to_owned(), "u".to_owned()],
        grids: vec!["g".to_owned()],
        data: vec!["d".to_owned()],
        minzoom: 7,
        maxzoom: 255,
        bounds: coordinates(&[100.0, 0.25]),
        center: Some(coordinates(&[1.5, -2.0, 3.0])),
    };
    assert_eq!(document, expected);
}

#[test]
fn escapes_in_the_text_are_resolved() {
    let document = decode(r#"{"name": "a\"b\\cA\né"}"#).unwrap();
    assert_eq!(document.name, Some("a\"b\\cA\n\u{e9}".to_owned()));
}

#[test]
fn the_later_of_two_members_with_one_key_counts() {
    let tree = Json::Object(vec![
        Member { key: "minzoom".to_owned(), value: Json::Text("x".to_owned()) },
        Member { key: "name".to_owned(), value: Json::Text("first".to_owned()) },
        Member { key: "minzoom".to_owned(), value: Json::Number("4".to_owned()) },
        Member { key: "name".to_owned(), value: Json::Text("second".to_owned()) },
    ]);
    let document = from_json(&tree).unwrap();
    assert_eq!(document.minzoom, 4);
    assert_eq!(document.name, Some("second".to_owned()));
    assert_eq!(decode(r#"{"minzoom": 1, "minzoom": 2}"#).unwrap().minzoom, 2);
}

#[test]
fn from_json_reads_hand_made_trees() {
    let tree = Json::Object(vec![
        Member { key: "maxzoom".to_owned(), value: Json::Number("12".to_owned()) },
        Member { key: "bounds".to_owned(), value: Json::List(vec![Json::Number("-1".to_owned()), Json::Number("2.5e3".to_owned())]) },
        Member { key: "extra".to_owned(), value: Json::Bool(true) },
    ]);
    let mut expected = TileJson::default();
    expected.maxzoom = 12;
    expected.bounds = vec![Number::parse("-1.0").unwrap(), Number::parse("2.5e3").unwrap()];
    assert_eq!(from_json(&tree), Ok(expected));

    assert_eq!(from_json(&Json::Null), Err(DecodeError::Mismatch));
    assert_eq!(from_json(&Json::List(Vec::new())), Err(DecodeError::Mismatch));
    let bad_zoom = Json::Object(vec![Member { key: "minzoom".to_owned(), value: Json::Number("007".to_owned()) }]);
    assert_eq!(from_json(&bad_zoom), Err(DecodeError::Mismatch));
    let bad_bound = Json::Object(vec![Member { key: "bounds".to_owned(), value: Json::List(vec![Json::Number("1.".to_owned())]) }]);
    assert_eq!(from_json(&bad_bound), Err(DecodeError::Mismatch));
}

#[test]
fn to_json_lists_the_members_in_order() {
    let tree = to_json(&TileJson::default());
    let Json::Object(members) = tree else { panic!("an object") };
    let keys: Vec<&str> = members.iter().map(|member| member.key.as_str()).collect();
    assert_eq!(keys, vec!["tilejson", "version", "scheme", "tiles", "minzoom", "maxzoom", "bounds"]);
    assert_eq!(members[3].value, Json::List(Vec::new()));
    assert_eq!(members[4].value, Json::Number("0".to_owned()));
    assert_eq!(members[5].value, Json::Number("30".to_owned()));

    let Json::Object(members) = to_json(&populated()) else { panic!("an object") };
    let keys: Vec<&str> = members.iter().map(|member| member.key.as_str()).collect();
    assert_eq!(
        keys,
        vec![
            "tilejson", "name", "description", "version", "attribution", "template", "legend",
            "scheme", "tiles", "grids", "data", "minzoom", "maxzoom", "bounds", "center"
        ]
    );
    assert_eq!(members[7].value, Json::Text("tms".to_owned()));
    assert!(members.iter().all(|member| member.value != Json::Null));
}

#[test]
fn coordinates_are_read_back_as_the_parser_writes_them() {
    let mut document = TileJson::default();
    document.bounds = vec![
        Number::parse("0.10").unwrap(),
        Number::parse("1E2").unwrap(),
        Number::parse("12").unwrap(),
        Number::parse("-2.50e-3").unwrap(),
    ];
    let text = encode(&document);
    assert!(text.ends_with(r#""bounds":[0.10,1E2,12.0,-2.50e-3]}"#));
    let read = decode(&text).unwrap();
    let literals: Vec<&str> = read.bounds.iter().map(|number| number.as_str()).collect();
    assert_eq!(literals, vec!["0.1", "100.0", "12.0", "-0.0025"]);
    assert_eq!(decode(&encode(&read)), Ok(read));
}

#[test]
fn a_coordinate_beyond_the_range_of_the_parser_is_a_syntax_error() {
    let mut document = TileJson::default();
    document.center = Some(vec![Number::parse("1e400").unwrap()]);
    assert_eq!(decode(&encode(&document)), Err(DecodeError::Syntax));
    assert_eq!(from_json(&to_json(&document)), Ok(document));
}

#[test]
fn a_copy_is_equal_to_the_document() {
    for document in [TileJson::default(), example(), populated()] {
        let copy = document.clone();
        assert_eq!(copy, document);
        assert_eq!(encode(&copy), encode(&document));
    }
}

#[test]
fn documents_differ_where_one_field_differs() {
    let changes: Vec<fn(&mut TileJson)> = vec![
        |d| d.tilejson.push('x'),
        |d| d.name = None,
        |d| d.name = Some("other".to_owned()),
        |d| d.description = Some(String::new()),
        |d| d.version = "3.4.6".to_owned(),
        |d| d.attribution = None,
        |d| d.template = None,
        |d| d.legend = None,
        |d| d.scheme = Scheme::XYZ,
        |d| d.tiles.push("more".to_owned()),
        |d| d.tiles[0].push('x'),
        |d| d.grids.clear(),
        |d| d.data.swap(0, 1),
        |d| d.minzoom = 4,
        |d| d.maxzoom = 21,
        |d| d.bounds[3] = Number::from_integer(43),
        |d| d.bounds.truncate(3),
        |d| d.center = None,
        |d| d.center = Some(Vec::new()),
        |d| d.center.as_mut().unwrap().reverse(),
    ];
    for change in changes {
        let mut changed = populated();
        change(&mut changed);
        assert_ne!(changed, populated());
        assert_ne!(encode(&changed), encode(&populated()));
    }
    assert_eq!(populated(), populated());
}
