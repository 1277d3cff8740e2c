use std::cell::Cell;

use deser_stringified::deserialize_embedded;
use deser_stringified::integrate;
use deser_stringified::take_string_token;
use deser_stringified::EmbedError;
use deser_stringified::Token;

fn expectation() -> String {
    String::from("a string containing formatted data")
}

#[test]
fn take_string_token_accepts_string() {
    let r = take_string_token(Token::Text(String::from("hello")), expectation());
    match r {
        Ok(text) => assert_eq!(text, "hello"),
        Err(_) => panic!("a string token must be accepted"),
    }
}

#[test]
fn take_string_token_rejects_every_other_kind() {
    let tokens = vec![
        Token::Number,
        Token::Boolean,
        Token::Null,
        Token::Mapping,
        Token::Sequence,
    ];
    for token in tokens {
        let r = take_string_token(token, expectation());
        match r {
            Ok(_) => panic!("a non-string token must be rejected"),
            Err(EmbedError::TypeMismatch { expected }) => {
                assert_eq!(expected, "a string containing formatted data");
            }
            Err(EmbedError::EmbeddedParseFailure { .. }) => {
                panic!("rejecting a non-string token is a type mismatch, not a parse failure")
            }
        }
    }
}

#[test]
fn integrate_passes_values_through() {
    let r: Result<u32, EmbedError> = integrate(Ok(7));
    match r {
        Ok(v) => assert_eq!(v, 7),
        Err(_) => panic!("a parsed value must pass through"),
    }
}

#[test]
fn integrate_keeps_diagnostic_text() {
    let r: Result<u32, EmbedError> = integrate(Err(String::from("unexpected character")));
    match r {
        Ok(_) => panic!("a rejection must stay a rejection"),
        Err(EmbedError::EmbeddedParseFailure { message }) => {
            assert_eq!(message, "unexpected character");
        }
        Err(EmbedError::TypeMismatch { .. }) => {
            panic!("a parser rejection is a parse failure, not a type mismatch")
        }
    }
}

#[test]
fn round_trip_through_adapter() {
    // A value whose rendering parses back to itself comes out of the
    // adapter unchanged.
    let value: i32 = 42;
    let rendered = value.to_string();
    let r = deserialize_embedded(Token::Text(rendered), expectation(), |text: String| {
        text.parse::<i32>().map_err(|e| e.to_string())
    });
    assert_eq!(r.unwrap(), value);
}

#[test]
fn parser_invoked_exactly_once() {
    let calls: Cell<u32> = Cell::new(0);
    let r = deserialize_embedded(
        Token::Text(String::from("payload")),
        expectation(),
        |text: String| -> Result<String, String> {
            calls.set(calls.get() + 1);
            Ok(text)
        },
    );
    assert_eq!(calls.get(), 1);
    assert_eq!(r.unwrap(), "payload");
}

#[test]
fn type_mismatch_invokes_no_parser() {
    let tokens = vec![
        Token::Number,
        Token::Boolean,
        Token::Null,
        Token::Mapping,
        Token::Sequence,
    ];
    for token in tokens {
        let calls: Cell<u32> = Cell::new(0);
        let r = deserialize_embedded(token, expectation(), |_text: String| -> Result<u8, String> {
            calls.set(calls.get() + 1);
            Ok(0)
        });
        assert_eq!(calls.get(), 0, "the parser must not be consulted");
        match r {
            Ok(_) => panic!("a non-string token must fail"),
            Err(EmbedError::TypeMismatch { expected }) => {
                assert_eq!(expected, "a string containing formatted data");
            }
            Err(EmbedError::EmbeddedParseFailure { .. }) => {
                panic!("a non-string token is a type mismatch")
            }
        }
    }
}

#[test]
fn error_message_propagates_verbatim() {
    let r = deserialize_embedded(
        Token::Text(String::from("###")),
        expectation(),
        |_text: String| -> Result<u8, String> { Err(String::from("bad token at line 3")) },
    );
    match r {
        Ok(_) => panic!("a parser rejection must fail the adapter"),
        Err(e) => {
            assert!(e.detail().contains("bad token at line 3"));
            assert_eq!(e.detail(), "bad token at line 3");
        }
    }
}

#[test]
fn detail_returns_the_carried_text() {
    let mismatch = EmbedError::TypeMismatch {
        expected: String::from("an integer"),
    };
    assert_eq!(mismatch.detail(), "an integer");
    let failure = EmbedError::EmbeddedParseFailure {
        message: String::from("eof while parsing"),
    };
    assert_eq!(failure.detail(), "eof while parsing");
}
