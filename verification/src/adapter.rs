//! One field of an outer structured document carries, as a plain string,
//! a complete document in some other text format. This module reads that
//! string token, hands its contents to a caller-supplied parser, and
//! folds the parser's verdict back into the outer pass: the parsed value
//! on success, a type mismatch when the token is not a string, and the
//! parser's own diagnostic text when it rejects the embedded document.

use vstd::prelude::*;

verus! {

/// The token an outer document's cursor is positioned on, as far as the
/// adapter needs to tell tokens apart: the contents of a string scalar,
/// and the bare kind of every other token.
#[derive(Debug)]
pub enum Token {
    /// A string scalar, carrying its contents.
    Text(String),
    /// A numeric scalar.
    Number,
    /// A boolean scalar.
    Boolean,
    /// A null or absent value.
    Null,
    /// The start of a mapping.
    Mapping,
    /// The start of a sequence.
    Sequence,
}

/// The mathematical value of a [`Token`].
pub ghost enum TokenModel {
    Text(Seq<char>),
    Number,
    Boolean,
    Null,
    Mapping,
    Sequence,
}

impl View for Token {
    type V = TokenModel;

    open spec fn view(&self) -> TokenModel {
        match self {
            Token::Text(s) => TokenModel::Text(s@),
            Token::Number => TokenModel::Number,
            Token::Boolean => TokenModel::Boolean,
            Token::Null => TokenModel::Null,
            Token::Mapping => TokenModel::Mapping,
            Token::Sequence => TokenModel::Sequence,
        }
    }
}

/// Why the adapter failed. No failure is ever recovered locally: each one
/// is final for the field being read.
#[derive(Debug)]
pub enum EmbedError {
    /// The cursor's next token was not a string scalar. Carries the
    /// expectation message the caller supplied, which should name the
    /// target type of the embedded document.
    TypeMismatch { expected: String },
    /// The supplied parser rejected the string's contents. Carries the
    /// parser's diagnostic text; nothing else of the parser's error is
    /// preserved.
    EmbeddedParseFailure { message: String },
}

/// The mathematical value of an [`EmbedError`].
pub ghost enum ErrorModel {
    TypeMismatch { expected: Seq<char> },
    EmbeddedParseFailure { message: Seq<char> },
}

impl View for EmbedError {
    type V = ErrorModel;

    open spec fn view(&self) -> ErrorModel {
        match self {
            EmbedError::TypeMismatch { expected } => ErrorModel::TypeMismatch {
                expected: expected@,
            },
            EmbedError::EmbeddedParseFailure { message } => ErrorModel::EmbeddedParseFailure {
                message: message@,
            },
        }
    }
}

impl EmbedError {
    /// The human-readable text this error carries: the expectation message
    /// of a type mismatch, or the parser's diagnostic.
    pub fn detail(&self) -> (r: &String)
        ensures
            self@ matches ErrorModel::TypeMismatch { expected } ==> r@ == expected,
            self@ matches ErrorModel::EmbeddedParseFailure { message } ==> r@ == message,
    {
        match self {
            EmbedError::TypeMismatch { expected } => expected,
            EmbedError::EmbeddedParseFailure { message } => message,
        }
    }
}

/// What reading the string token yields: the contents of a string scalar,
/// and a type mismatch carrying `expected` for every other kind of token.
pub open spec fn string_step_model(token: TokenModel, expected: Seq<char>) -> Result<
    Seq<char>,
    ErrorModel,
> {
    match token {
        TokenModel::Text(s) => Ok(s),
        _ => Err(ErrorModel::TypeMismatch { expected }),
    }
}

/// How a parser's verdict is folded into the adapter's result: a value
/// passes through unchanged; a rejection becomes an embedded-parse
/// failure that keeps exactly the parser's diagnostic text.
pub open spec fn integrate_model<T>(parsed: Result<T, Seq<char>>) -> Result<T, ErrorModel> {
    match parsed {
        Ok(v) => Ok(v),
        Err(m) => Err(ErrorModel::EmbeddedParseFailure { message: m }),
    }
}

/// The whole adapter over a mathematical parser: read the string token,
/// then fold the parser's verdict on its contents.
pub open spec fn adapter_model<T>(
    token: TokenModel,
    expected: Seq<char>,
    parse: spec_fn(Seq<char>) -> Result<T, Seq<char>>,
) -> Result<T, ErrorModel> {
    match string_step_model(token, expected) {
        Ok(s) => integrate_model(parse(s)),
        Err(e) => Err(e),
    }
}

/// A parser's executable verdict, as the model sees it.
pub open spec fn parsed_model<T>(parsed: Result<T, String>) -> Result<T, Seq<char>> {
    match parsed {
        Ok(v) => Ok(v),
        Err(m) => Err(m@),
    }
}

/// An adapter result, as the model sees it.
pub open spec fn outcome_model<T>(r: Result<T, EmbedError>) -> Result<T, ErrorModel> {
    match r {
        Ok(v) => Ok(v),
        Err(e) => Err(e@),
    }
}

/// A read string token, as the model sees it.
pub open spec fn text_outcome_model(r: Result<String, EmbedError>) -> Result<
    Seq<char>,
    ErrorModel,
> {
    match r {
        Ok(t) => Ok(t@),
        Err(e) => Err(e@),
    }
}

/// Consume the one token the cursor stands on, accepting exactly a string
/// scalar and returning its contents. Any other kind of token is a type
/// mismatch carrying the supplied expectation message.
pub fn take_string_token(token: Token, expected: String) -> (r: Result<String, EmbedError>)
    ensures
        text_outcome_model(r) == string_step_model(token@, expected@),
{
    match token {
        Token::Text(s) => Ok(s),
        _ => Err(EmbedError::TypeMismatch { expected }),
    }
}

/// Fold a parser's verdict into the adapter's result: a parsed value is
/// handed through unchanged; a rejection becomes an embedded-parse
/// failure carrying exactly the parser's diagnostic text.
pub fn integrate<T>(parsed: Result<T, String>) -> (r: Result<T, EmbedError>)
    ensures
        outcome_model(r) == integrate_model(parsed_model(parsed)),
{
    match parsed {
        Ok(v) => Ok(v),
        Err(m) => Err(EmbedError::EmbeddedParseFailure { message: m }),
    }
}

/// The adapter itself. For a string token, `parse` is invoked exactly
/// once, on the token's contents, and its verdict is folded into the
/// result. For every other kind of token the adapter fails with a type
/// mismatch carrying `expected`, and `parse` is not invoked at all.
pub fn deserialize_embedded<T, P: FnOnce(String) -> Result<T, String>>(
    token: Token,
    expected: String,
    parse: P,
) -> (r: Result<T, EmbedError>)
    requires
        forall|t: String| token@ == TokenModel::Text(t@) ==> #[trigger] call_requires(parse, (t,)),
    ensures
        token@ !is Text ==> outcome_model(r) == Err::<T, ErrorModel>(
            ErrorModel::TypeMismatch { expected: expected@ },
        ),
        token@ is Text ==> exists|t: String, parsed: Result<T, String>|
            {
                &&& t@ == token@->Text_0
                &&& #[trigger] call_ensures(parse, (t,), parsed)
                &&& outcome_model(r) == integrate_model(parsed_model(parsed))
            },
{
    match take_string_token(token, expected) {
        Ok(text) => integrate(parse(text)),
        Err(e) => Err(e),
    }
}

/// Round-trip law: if a parser maps a rendering of some value back to
/// that value, the adapter on a string token holding that rendering
/// yields exactly that value.
pub proof fn lemma_round_trip<T>(
    rendered: Seq<char>,
    expected: Seq<char>,
    parse: spec_fn(Seq<char>) -> Result<T, Seq<char>>,
    v: T,
)
    requires
        parse(rendered) == Ok::<T, Seq<char>>(v),
    ensures
        adapter_model(TokenModel::Text(rendered), expected, parse) == Ok::<T, ErrorModel>(v),
{
}

/// Type-mismatch law: on any token that is not a string the adapter fails
/// with a type mismatch, and its outcome is the same whatever parser was
/// supplied: the parser is never consulted.
pub proof fn lemma_type_mismatch<T>(
    token: TokenModel,
    expected: Seq<char>,
    parse: spec_fn(Seq<char>) -> Result<T, Seq<char>>,
    other: spec_fn(Seq<char>) -> Result<T, Seq<char>>,
)
    requires
        token !is Text,
    ensures
        adapter_model(token, expected, parse) == Err::<T, ErrorModel>(
            ErrorModel::TypeMismatch { expected },
        ),
        adapter_model(token, expected, parse) == adapter_model(token, expected, other),
{
}

/// Error-propagation law: when the parser rejects the embedded text, the
/// adapter's error carries the parser's diagnostic text exactly.
pub proof fn lemma_error_propagation<T>(
    text: Seq<char>,
    expected: Seq<char>,
    parse: spec_fn(Seq<char>) -> Result<T, Seq<char>>,
    diagnostic: Seq<char>,
)
    requires
        parse(text) == Err::<T, Seq<char>>(diagnostic),
    ensures
        adapter_model(TokenModel::Text(text), expected, parse) == Err::<T, ErrorModel>(
            ErrorModel::EmbeddedParseFailure { message: diagnostic },
        ),
{
}

} // verus!
