use serde_json::Value;
use serde_nested_json::de::{
    element_outcome, inner_outcome, unnest, unnest_vec, NestedJsonVisitor,
};
use serde_nested_json::error::{DecodeError, EncodeError};
use serde_nested_json::optional::is_null_text;
use serde_nested_json::ser::{element_string_outcome, nest, nest_iter, string_outcome};
use serde_nested_json::token::{Element, Kind, Token};
use serde_nested_json::NestedJson;

fn text(content: &str) -> Token {
    Token::Text(String::from(content))
}

fn element(content: &str) -> Element {
    Element::Text(String::from(content))
}

fn element_of(value: &Value) -> Element {
    match value {
        Value::Null => Element::Null,
        Value::Bool(_) => Element::Bool,
        Value::Number(_) => Element::Number,
        Value::String(content) => Element::Text(content.clone()),
        Value::Array(_) => Element::Sequence,
        Value::Object(_) => Element::Mapping,
    }
}

fn token_of(value: &Value) -> Token {
    match value {
        Value::Null => Token::Null,
        Value::Bool(_) => Token::Bool,
        Value::Number(_) => Token::Number,
        Value::String(content) => Token::Text(content.clone()),
        Value::Array(items) => Token::Sequence(items.iter().map(element_of).collect()),
        Value::Object(_) => Token::Mapping,
    }
}

fn value_of(token: Token) -> Value {
    match token {
        Token::Text(content) => Value::String(content),
        Token::Sequence(items) => Value::Array(
            items
                .into_iter()
                .map(|item| match item {
                    Element::Text(content) => Value::String(content),
                    other => panic!("an encoded element is a string, not {:?}", other),
                })
                .collect(),
        ),
        other => panic!("an encoded field is a string or a sequence, not {:?}", other),
    }
}

fn parse(document: &str) -> Value {
    serde_json::from_str(document).unwrap()
}

fn optional(value: &Value) -> Option<Value> {
    match value {
        Value::Null => None,
        other => Some(other.clone()),
    }
}

fn foo_bar() -> Value {
    let mut map = serde_json::Map::new();
    map.insert(String::from("foo"), Value::String(String::from("bar")));
    Value::Object(map)
}

fn empty_object() -> Value {
    Value::Object(serde_json::Map::new())
}

#[test]
fn it_should_handle_options_without_values_as_null() {
    let nested = r#"
        {
            "some": "\"here\"",
            "null": "null"
        }
    "#;

    let outer = parse(nested);
    let fields = outer.as_object().unwrap();

    let some: Option<Value> = unnest(&token_of(&fields["some"])).unwrap();
    let null: Option<Value> = unnest(&token_of(&fields["null"])).unwrap();
    let undefined: Option<Value> = match fields.get("undefined") {
        Some(field) => unnest(&token_of(field)).unwrap(),
        None => None,
    };

    assert_eq!(
        (Some(Value::String("here".into())), None, None),
        (some, null, undefined),
    )
}

#[test]
fn it_should_work() {
    let unnested_json = r#"
            {
              "full": { "foo": "bar" },
              "empty": {},
              "null": null,
              "array": [
                { "foo": "bar"},
                {},
                null
              ]
            }
        "#;

    let nested_json = r#"
            {
              "full": "{\"foo\":\"bar\"}",
              "empty": "{}",
              "null": "null",
              "array": [
                "{\"foo\":\"bar\"}",
                "{}",
                "null"
              ]
            }

        "#;

    let de_unnested = parse(unnested_json);
    let outer = parse(nested_json);

    let full: Value = unnest(&token_of(&outer["full"])).unwrap();
    let empty: Value = unnest(&token_of(&outer["empty"])).unwrap();
    let null: Option<Value> = unnest(&token_of(&outer["null"])).unwrap();
    let array: Vec<Option<Value>> = unnest_vec(&token_of(&outer["array"])).unwrap();

    assert_eq!(de_unnested["full"], full);
    assert_eq!(de_unnested["empty"], empty);
    assert_eq!(optional(&de_unnested["null"]), null);
    assert_eq!(
        de_unnested["array"].as_array().unwrap().iter().map(optional).collect::<Vec<_>>(),
        array
    );

    let mut unnested = serde_json::Map::new();
    unnested.insert(String::from("full"), full.clone());
    unnested.insert(String::from("empty"), empty.clone());
    unnested.insert(String::from("null"), null.clone().unwrap_or(Value::Null));
    unnested.insert(
        String::from("array"),
        Value::Array(array.iter().map(|item| item.clone().unwrap_or(Value::Null)).collect()),
    );
    let ser_unnested = serde_json::to_string(&Value::Object(unnested)).unwrap();

    let mut nested = serde_json::Map::new();
    nested.insert(String::from("full"), value_of(nest(&full).unwrap()));
    nested.insert(String::from("empty"), value_of(nest(&empty).unwrap()));
    nested.insert(String::from("null"), value_of(nest(&null).unwrap()));
    nested.insert(String::from("array"), value_of(nest_iter(&array).unwrap()));
    let ser_nested = serde_json::to_string(&Value::Object(nested)).unwrap();

    assert_eq!(
        serde_json::from_str::<Value>(&ser_unnested).unwrap(),
        serde_json::from_str::<Value>(unnested_json).unwrap(),
    );

    assert_eq!(
        serde_json::from_str::<Value>(&ser_nested).unwrap(),
        serde_json::from_str::<Value>(nested_json).unwrap(),
    );
}

#[test]
fn a_string_decodes_to_the_document_it_holds() {
    let value: Value = unnest(&text("{\"baz\":123}")).unwrap();
    assert_eq!(value, parse("{\"baz\":123}"));
    assert_eq!(value["baz"], Value::from(123));
}

#[test]
fn a_value_encodes_to_a_string_with_its_compact_text() {
    let value = parse("{ \"baz\" : 123 }");
    assert_eq!(nest(&value), Ok(text("{\"baz\":123}")));
}

#[test]
fn a_string_value_encodes_with_its_quotes() {
    let value = Value::String(String::from("here"));
    assert_eq!(nest(&value), Ok(text("\"here\"")));
}

#[test]
fn every_kind_of_value_encodes_to_a_string() {
    let values = vec![
        Value::Null,
        Value::Bool(true),
        Value::from(7),
        Value::String(String::from("x")),
        parse("[1,2,3]"),
        foo_bar(),
    ];
    for value in values.iter() {
        let token = nest(value).unwrap();
        assert_eq!(token.kind(), Kind::Text);
        assert!(matches!(token, Token::Text(_)));
    }
    assert_eq!(nest(&parse("[1,2,3]")), Ok(text("[1,2,3]")));
}

#[test]
fn what_is_encoded_decodes_to_the_same_value() {
    let values = vec![
        Value::Null,
        Value::Bool(false),
        Value::from(-12),
        Value::String(String::from("a \"quoted\" word\n")),
        parse("[1,[2,{\"three\":null}]]"),
        foo_bar(),
        empty_object(),
    ];
    for value in values.iter() {
        let token = nest(value).unwrap();
        assert_eq!(unnest::<Value>(&token).as_ref(), Ok(value));
    }
}

#[test]
fn optional_values_come_back_from_their_fields() {
    let values = vec![None, Some(foo_bar()), Some(empty_object()), Some(Value::from(1))];
    for value in values.iter() {
        let token = nest(value).unwrap();
        assert_eq!(unnest::<Option<Value>>(&token).as_ref(), Ok(value));
    }
}

#[test]
fn a_present_null_comes_back_absent() {
    let value = Some(Value::Null);
    let token = nest(&value).unwrap();
    assert_eq!(token, text("null"));
    assert_eq!(unnest::<Option<Value>>(&token), Ok(None));
}

#[test]
fn a_sequence_comes_back_from_its_fields_in_order() {
    let values = vec![Some(foo_bar()), None, Some(empty_object()), Some(Value::from(3))];
    let token = nest_iter(&values).unwrap();
    assert_eq!(
        token,
        Token::Sequence(vec![
            element("{\"foo\":\"bar\"}"),
            element("null"),
            element("{}"),
            element("3"),
        ])
    );
    assert_eq!(unnest_vec::<Option<Value>>(&token), Ok(values));
}

#[test]
fn the_absent_value_encodes_to_null() {
    assert_eq!(nest(&None::<Value>), Ok(text("null")));
    assert_eq!(nest(&Some(foo_bar())), Ok(text("{\"foo\":\"bar\"}")));
}

#[test]
fn null_decodes_to_the_absent_value() {
    assert_eq!(unnest::<Option<Value>>(&text("null")), Ok(None));
    assert_eq!(unnest::<Option<Option<Value>>>(&text("null")), Ok(None));
}

#[test]
fn null_decodes_to_the_null_of_a_type_that_has_one() {
    assert_eq!(unnest::<Value>(&text("null")), Ok(Value::Null));
}

#[test]
fn only_the_exact_text_is_the_absent_value() {
    assert!(is_null_text("null"));
    assert!(!is_null_text(""));
    assert!(!is_null_text("nul"));
    assert!(!is_null_text("nulll"));
    assert!(!is_null_text(" null"));
    assert!(!is_null_text("null "));
    assert!(!is_null_text("NULL"));
    assert!(!is_null_text("nuII"));
    assert!(!is_null_text("nu\u{142}"));
    assert!(!is_null_text("\u{1F600}"));
    assert!(!is_null_text("n\u{fc}ll"));
    assert_eq!(unnest::<Option<Value>>(&text("\"null\"")), Ok(Some(Value::String("null".into()))));
    assert_eq!(unnest::<Option<Value>>(&text("{}")), Ok(Some(empty_object())));
}

#[test]
fn an_outer_null_is_no_nested_field() {
    assert_eq!(
        unnest::<Option<Value>>(&Token::Null),
        Err(DecodeError::Shape { expected: Kind::Text, found: Kind::Null })
    );
}

#[test]
fn a_sequence_decodes_as_its_elements_do_alone() {
    let contents = ["{\"foo\":\"bar\"}", "{}", "null"];
    let token = Token::Sequence(contents.iter().map(|content| element(content)).collect());
    let together: Vec<Option<Value>> = unnest_vec(&token).unwrap();
    assert_eq!(together, vec![Some(foo_bar()), Some(empty_object()), None]);
    assert_eq!(together.len(), contents.len());
    for (i, content) in contents.iter().enumerate() {
        let alone: Option<Value> = unnest(&text(content)).unwrap();
        assert_eq!(alone, together[i]);
    }
}

#[test]
fn a_sequence_without_the_null_convention_keeps_null_values() {
    let token = Token::Sequence(vec![element("{}"), element("null")]);
    assert_eq!(unnest_vec::<Value>(&token), Ok(vec![empty_object(), Value::Null]));
}

#[test]
fn an_empty_sequence_decodes_and_encodes_to_nothing() {
    assert_eq!(unnest_vec::<Value>(&Token::Sequence(vec![])), Ok(vec![]));
    assert_eq!(nest_iter::<Value>(&[]), Ok(Token::Sequence(vec![])));
}

#[test]
fn a_malformed_document_is_an_inner_failure() {
    let error = unnest::<Value>(&text("{not valid json")).unwrap_err();
    assert_eq!(
        error,
        DecodeError::Inner { message: String::from("key must be a string at line 1 column 2") }
    );
}

#[test]
fn the_inner_message_is_the_one_the_reader_gave() {
    let content = "{not valid json";
    let said = serde_json::from_str::<Value>(content).unwrap_err().to_string();
    assert_eq!(unnest::<Value>(&text(content)), Err(DecodeError::Inner { message: said }));
}

#[test]
fn trailing_content_is_an_inner_failure() {
    let error = unnest::<Value>(&text("{}extra")).unwrap_err();
    assert_eq!(
        error,
        DecodeError::Inner { message: String::from("trailing characters at line 1 column 3") }
    );
    assert!(unnest::<Option<Value>>(&text("nullextra")).is_err());
    assert!(unnest::<Value>(&text("{} {}")).is_err());
}

#[test]
fn an_empty_string_is_an_inner_failure() {
    assert!(matches!(unnest::<Value>(&text("")), Err(DecodeError::Inner { .. })));
    assert!(matches!(unnest::<Value>(&text("{\"a\":")), Err(DecodeError::Inner { .. })));
}

#[test]
fn surrounding_space_is_part_of_a_complete_document() {
    assert_eq!(unnest::<Value>(&text("  {}\n")), Ok(empty_object()));
}

#[test]
fn anything_but_a_string_is_of_the_wrong_shape() {
    let others = vec![
        (Token::Null, Kind::Null),
        (Token::Bool, Kind::Bool),
        (Token::Number, Kind::Number),
        (Token::Sequence(vec![element("{}")]), Kind::Sequence),
        (Token::Mapping, Kind::Mapping),
    ];
    for (token, found) in others.iter() {
        assert_eq!(token.kind(), *found);
        assert_eq!(
            unnest::<Value>(token),
            Err(DecodeError::Shape { expected: Kind::Text, found: *found })
        );
    }
}

#[test]
fn anything_but_a_sequence_is_of_the_wrong_shape() {
    let others = vec![
        (Token::Null, Kind::Null),
        (Token::Bool, Kind::Bool),
        (Token::Number, Kind::Number),
        (text("[\"{}\"]"), Kind::Text),
        (Token::Mapping, Kind::Mapping),
    ];
    for (token, found) in others.iter() {
        assert_eq!(
            unnest_vec::<Value>(token),
            Err(DecodeError::Shape { expected: Kind::Sequence, found: *found })
        );
    }
}

#[test]
fn an_element_that_is_no_string_is_of_the_wrong_shape() {
    let token = Token::Sequence(vec![element("{}"), Element::Mapping, Element::Number]);
    assert_eq!(
        unnest_vec::<Value>(&token),
        Err(DecodeError::Shape { expected: Kind::Text, found: Kind::Mapping })
    );
    let kinds = vec![
        (Element::Null, Kind::Null),
        (Element::Bool, Kind::Bool),
        (Element::Number, Kind::Number),
        (Element::Sequence, Kind::Sequence),
        (Element::Mapping, Kind::Mapping),
        (element("x"), Kind::Text),
    ];
    for (item, kind) in kinds.iter() {
        assert_eq!(item.kind(), *kind);
    }
}

#[test]
fn the_shape_of_every_element_is_read_before_any_content() {
    let token = Token::Sequence(vec![element("{not valid json"), Element::Null]);
    assert_eq!(
        unnest_vec::<Value>(&token),
        Err(DecodeError::Shape { expected: Kind::Text, found: Kind::Null })
    );
}

#[test]
fn the_first_element_that_fails_makes_the_sequence_fail() {
    let token = Token::Sequence(vec![
        element("{}"),
        element("null"),
        element("{}extra"),
        element("{not valid json"),
    ]);
    assert_eq!(
        unnest_vec::<Option<Value>>(&token),
        Err(DecodeError::Element {
            index: 2,
            message: String::from("trailing characters at line 1 column 3"),
        })
    );
}

#[test]
fn the_visitor_decodes_the_content_it_is_given() {
    let visitor = NestedJsonVisitor::<Value>::new();
    assert_eq!(visitor.expecting(), "expected a string");
    assert_eq!(visitor.visit_str("{\"foo\":\"bar\"}"), Ok(foo_bar()));
    assert!(matches!(
        NestedJsonVisitor::<Value>::new().visit_str("{"),
        Err(DecodeError::Inner { .. })
    ));
    assert_eq!(NestedJsonVisitor::<Option<Value>>::new().visit_str("null"), Ok(None));
}

#[test]
fn outcomes_keep_values_and_messages() {
    assert_eq!(inner_outcome(Ok::<u8, String>(3)), Ok(3));
    assert_eq!(
        inner_outcome(Err::<u8, String>(String::from("no"))),
        Err(DecodeError::Inner { message: String::from("no") })
    );
    assert_eq!(element_outcome(4, Ok::<u8, String>(3)), Ok(3));
    assert_eq!(
        element_outcome(4, Err::<u8, String>(String::from("no"))),
        Err(DecodeError::Element { index: 4, message: String::from("no") })
    );
    assert_eq!(string_outcome(Ok(String::from("{}"))), Ok(text("{}")));
    assert_eq!(
        string_outcome(Err(String::from("no"))),
        Err(EncodeError::Inner { message: String::from("no") })
    );
    assert_eq!(element_string_outcome(1, Ok(String::from("{}"))), Ok(element("{}")));
    assert_eq!(
        element_string_outcome(1, Err(String::from("no"))),
        Err(EncodeError::Element { index: 1, message: String::from("no") })
    );
}

#[test]
fn the_wrapper_holds_its_value() {
    let nested = NestedJson::from(foo_bar());
    assert_eq!(nested.as_ref(), &foo_bar());
    assert_eq!(nested.into(), foo_bar());
    let converted: NestedJson<u32> = From::from(32);
    assert_eq!(*converted.as_ref(), 32);
    assert_eq!(NestedJson::into(converted), 32);
}

#[test]
fn the_wrapper_decodes_and_encodes_as_a_nested_field() {
    let nested = NestedJson::<Value>::deserialize(&text("{\"baz\":123}")).unwrap();
    assert_eq!(nested.as_ref(), &parse("{\"baz\":123}"));
    assert_eq!(nested.serialize(), Ok(text("{\"baz\":123}")));
    assert!(matches!(
        NestedJson::<Value>::deserialize(&Token::Mapping),
        Err(DecodeError::Shape { expected: Kind::Text, found: Kind::Mapping })
    ));
    let absent = NestedJson::<Option<Value>>::deserialize(&text("null")).unwrap();
    assert_eq!(absent.into(), None);
}
