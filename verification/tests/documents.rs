use notioncli::ids::normalize_notion_id;
use notioncli::json::{Json, JsonObject};
use notioncli::names::NameMap;
use notioncli::objects::{
    bot_id_from_user_me, data_source_title_property_name, extract_title, object_kind,
    owner_email_from_user_me, owner_name_from_user_me, rich_text_to_plain_text,
};
use notioncli::parse::parse_json;
use notioncli::text::{
    ascii_lower_char, chars_of, decimal_string, has, lower_string, parse_number, trim,
    trim_end_char, white_space,
};

fn doc(text: &str) -> Json {
    parse_json(text).expect("JSON")
}

fn show(value: &Json) -> String {
    match value {
        Json::Null => "null".to_string(),
        Json::Bool(b) => b.to_string(),
        Json::Number(n) => n.clone(),
        Json::Text(s) => format!("{:?}", s),
        Json::Array(items) => {
            let parts: Vec<String> = items.iter().map(show).collect();
            format!("[{}]", parts.join(","))
        }
        Json::Object(fields) => {
            let mut parts: Vec<String> = Vec::new();
            for i in 0..fields.len() {
                parts.push(format!("{:?}:{}", fields.name_at(i), show(fields.value_at(i))));
            }
            format!("{{{}}}", parts.join(","))
        }
    }
}

#[test]
fn normalizes_compact_ids() {
    assert_eq!(
        normalize_notion_id("https://www.notion.so/Example-1234567890abcdef1234567890abcdef")
            .unwrap(),
        "12345678-90ab-cdef-1234-567890abcdef"
    );
}

#[test]
fn extracts_page_titles() {
    let value = doc(
        r#"{
            "object": "page",
            "id": "1",
            "properties": {
                "Name": {
                    "type": "title",
                    "title": [
                        { "plain_text": "Hello" },
                        { "plain_text": " world" }
                    ]
                }
            }
        }"#,
    );

    assert_eq!(extract_title(&value), "Hello world");
}

#[test]
fn titles_fall_back() {
    assert_eq!(
        extract_title(&doc(r#"{"title":[{"plain_text":"A"},{"x":1}],"name":"n","id":"i"}"#)),
        "A"
    );
    assert_eq!(extract_title(&doc(r#"{"title":[],"name":"n","id":"i"}"#)), "n");
    assert_eq!(extract_title(&doc(r#"{"name":"","id":"i"}"#)), "i");
    assert_eq!(extract_title(&doc(r#"{}"#)), "<untitled>");
    assert_eq!(extract_title(&doc(r#"[1]"#)), "<untitled>");
    assert_eq!(
        extract_title(&doc(
            r#"{"properties":{"B":{"type":"title","title":[{"plain_text":"b"}]},
                "A":{"type":"title","title":[]}},"id":"i"}"#
        )),
        "b"
    );
    assert_eq!(rich_text_to_plain_text(&doc(r#"[{"plain_text":""}]"#)), None);
    assert_eq!(rich_text_to_plain_text(&doc(r#""text""#)), None);
}

#[test]
fn dashed_ids_go_before_compact_ones() {
    let dashed = "12345678-90AB-cdef-1234-567890abcdef";
    assert_eq!(
        normalize_notion_id(&format!("{dashed}?v=ffffffffffffffffffffffffffffffff")).unwrap(),
        "12345678-90ab-cdef-1234-567890abcdef"
    );
    assert_eq!(
        normalize_notion_id(
            "x/11111111111111111111111111111111?p=22222222222222222222222222222222"
        )
        .unwrap(),
        "22222222-2222-2222-2222-222222222222"
    );
    assert_eq!(
        normalize_notion_id("a11111111-1111-1111-1111-1111111111111").unwrap(),
        "11111111-1111-1111-1111-111111111111"
    );
}

#[test]
fn ids_keep_their_form() {
    let id = "12345678-90ab-cdef-1234-567890abcdef";
    assert_eq!(normalize_notion_id(id).unwrap(), id);
    assert_eq!(normalize_notion_id("  1234567890ABCDEF1234567890ABCDEF\n").unwrap(), id);
    let once = normalize_notion_id("https://notion.so/1234567890abcdef1234567890abcdef").unwrap();
    assert_eq!(normalize_notion_id(&once).unwrap(), once);
}

#[test]
fn texts_without_ids_are_refused() {
    assert_eq!(
        normalize_notion_id(" \t").unwrap_err().message,
        "expected a Notion page or data source id/url"
    );
    assert_eq!(
        normalize_notion_id(" roadmap ").unwrap_err().message,
        "`roadmap` does not look like a Notion page or data source id/url"
    );
    assert!(normalize_notion_id("1234567890abcdef1234567890abcde").is_err());
    assert!(normalize_notion_id("12345678-90ab-cdef-1234-567890abcdeg").is_err());
}

#[test]
fn documents_are_parsed() {
    assert_eq!(
        show(&doc(r#" {"b":[1,-2,true,null,"x\ny"],"a":{"k":1.5}, "a": {"k":2}} "#)),
        r#"{"a":{"k":2},"b":[1,-2,true,null,"x\ny"]}"#
    );
    assert_eq!(show(&doc("18446744073709551615")), "18446744073709551615");
    assert_eq!(show(&doc("1.50")), "1.5");
    assert_eq!(show(&doc("\"\\u00e9\"")), "\"é\"");
    assert!(parse_json("").is_none());
    assert!(parse_json("{\"a\":}").is_none());
    assert!(parse_json("1 2").is_none());
}

#[test]
fn documents_are_read() {
    let value = doc(r#"{"a":"x","b":2,"c":{"d":[1]}}"#);
    assert_eq!(value.get_str("a"), Some("x"));
    assert_eq!(value.get_str("b"), None);
    assert_eq!(value.get_str("z"), None);
    assert_eq!(show(value.get("c").unwrap()), r#"{"d":[1]}"#);
    assert!(value.as_object().is_some());
    assert!(value.as_array().is_none());
    assert!(value.get("c").unwrap().get("d").unwrap().as_array().is_some());
    assert!(doc("[]").get("a").is_none());
    assert_eq!(doc("\"s\"").as_str(), Some("s"));
    let copy = value.clone();
    assert_eq!(show(&copy), show(&value));
}

#[test]
fn objects_keep_their_fields_in_order() {
    let mut object = JsonObject::new();
    object.insert("b", Json::boolean(true));
    object.insert("a", Json::null());
    object.insert("b", Json::string("later"));
    object.insert("c", Json::array(vec![Json::numeral("7".to_string())]));
    assert_eq!(object.len(), 3);
    assert_eq!(object.name_at(0), "a");
    assert_eq!(show(object.value_at(1)), "\"later\"");
    assert!(object.get("d").is_none());
    assert_eq!(show(&object.document()), r#"{"a":null,"b":"later","c":[7]}"#);
}

#[test]
fn names_are_ordered_by_code_point() {
    let mut map: NameMap<u8> = NameMap::new();
    map.insert("b".to_string(), 1);
    map.insert("ab".to_string(), 2);
    map.insert("a".to_string(), 3);
    map.insert("é".to_string(), 4);
    map.insert("B".to_string(), 5);
    map.insert("b".to_string(), 6);
    let order: Vec<String> = (0..map.len()).map(|i| map.key_at(i).clone()).collect();
    assert_eq!(order, vec!["B", "a", "ab", "b", "é"]);
    assert_eq!(map.get("b"), Some(&6));
    assert_eq!(map.first_key().map(|s| s.as_str()), Some("B"));
    map.remove("B");
    map.remove("zz");
    assert_eq!(map.first_key().map(|s| s.as_str()), Some("a"));
    assert!(!map.contains_key("B"));
    assert_eq!(map.len(), 4);
}

#[test]
fn title_properties_are_found() {
    assert_eq!(
        data_source_title_property_name(&doc(
            r#"{"properties":{"Z":{"type":"title"},"M":{"type":"title"},"A":{"type":"text"}}}"#
        )),
        Some("M".to_string())
    );
    assert_eq!(
        data_source_title_property_name(&doc(r#"{"properties":{"A":{"type":"text"}}}"#)),
        None
    );
    assert_eq!(data_source_title_property_name(&doc(r#"{"properties":[]}"#)), None);
    assert_eq!(data_source_title_property_name(&doc("null")), None);
}

#[test]
fn user_objects_are_read() {
    let me = doc(
        r#"{"object":"user","id":"bot-1","name":"Bot",
            "owner":{"user":{"name":"Ada","person":{"email":"ada@example.com"}}},
            "person":{"email":"other@example.com"}}"#,
    );
    assert_eq!(object_kind(&me), "user");
    assert_eq!(bot_id_from_user_me(&me), Some("bot-1".to_string()));
    assert_eq!(owner_name_from_user_me(&me), Some("Ada".to_string()));
    assert_eq!(owner_email_from_user_me(&me), Some("ada@example.com".to_string()));
    let plain = doc(r#"{"name":"Bot","owner":{"type":"workspace"},"person":{"email":"e"}}"#);
    assert_eq!(object_kind(&plain), "unknown");
    assert_eq!(bot_id_from_user_me(&plain), None);
    assert_eq!(owner_name_from_user_me(&plain), Some("Bot".to_string()));
    assert_eq!(owner_email_from_user_me(&plain), Some("e".to_string()));
    assert_eq!(owner_name_from_user_me(&doc("{}")), None);
    assert_eq!(owner_email_from_user_me(&doc("{}")), None);
}

#[test]
fn texts_are_trimmed_and_searched() {
    assert_eq!(trim("\u{a0} a b \u{2028}\t"), "a b");
    assert_eq!(trim(trim(" x ").as_str()), "x");
    assert_eq!(trim_end_char("http://h//", '/'), "http://h");
    assert_eq!(trim_end_char("///", '/'), "");
    assert_eq!(lower_string("ÄBC xyZ"), "Äbc xyz");
    assert!(has("rate limit", "e l"));
    assert!(has("abc", ""));
    assert!(has("abc", "c"));
    assert!(!has("abc", "cd"));
    assert!(!has("", "a"));
}

#[test]
fn numerals_are_read_and_written() {
    assert_eq!(decimal_string(0), "0");
    assert_eq!(decimal_string(1234567890), "1234567890");
    assert_eq!(decimal_string(u64::MAX), "18446744073709551615");
    assert_eq!(parse_number("18446744073709551615"), Some(u64::MAX));
    assert_eq!(parse_number("18446744073709551616"), None);
    assert_eq!(parse_number("+7"), Some(7));
    assert_eq!(parse_number("007"), Some(7));
    assert_eq!(parse_number(""), None);
    assert_eq!(parse_number("+"), None);
    assert_eq!(parse_number("-1"), None);
    assert_eq!(parse_number("1 "), None);
}

#[test]
fn characters_are_classified_as_in_std() {
    for n in 0..=0x10ffffu32 {
        if let Some(c) = char::from_u32(n) {
            assert_eq!(white_space(c), c.is_whitespace(), "{n:x}");
            assert_eq!(ascii_lower_char(c), c.to_ascii_lowercase(), "{n:x}");
        }
    }
}

#[test]
fn texts_are_handled_as_in_std() {
    let samples = [
        "", " ", "a", " a", "a ", "\t\n x y \u{85}", "\u{200b}x\u{200b}", "\u{feff} z", "ÀÉ Az",
        "//", "a//", "/a/", "12", "+12", "-12", "+", "++1", "0012", "1e3", "٣", "12 ",
        "18446744073709551615", "18446744073709551616", "99999999999999999999999",
    ];
    for s in samples {
        assert_eq!(trim(s), s.trim(), "{s:?}");
        assert_eq!(trim_end_char(s, '/'), s.trim_end_matches('/'), "{s:?}");
        assert_eq!(lower_string(s), s.to_ascii_lowercase(), "{s:?}");
        assert_eq!(parse_number(s), s.parse::<u64>().ok(), "{s:?}");
        assert_eq!(chars_of(s), s.chars().collect::<Vec<char>>(), "{s:?}");
        for needle in samples {
            assert_eq!(has(s, needle), s.contains(needle), "{s:?} {needle:?}");
        }
    }
    for n in [0u64, 9, 10, 99, 100, 429, u64::MAX] {
        assert_eq!(decimal_string(n), n.to_string());
        assert_eq!(parse_number(&decimal_string(n)), Some(n));
    }
}
