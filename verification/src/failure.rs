//! The failure model of the codec: a kind and an optional message, as the
//! stream layer reports its own failures.

use vstd::prelude::*;

verus! {

/// The error of the JSON backend. Its inside is not visible here; the three
/// functions below name what the translation reads from it.
#[verifier::external_type_specification]
#[verifier::external_body]
pub struct ExJsonError(serde_json::Error);

/// The kind of a stream failure, as the standard library classifies it.
/// It is carried through unchanged and never inspected.
#[verifier::external_type_specification]
#[verifier::external_body]
pub struct ExIoErrorKind(std::io::ErrorKind);

/// The category that `serde_json::Error::classify` reports for an error.
pub uninterp spec fn json_error_category(err: serde_json::Error) -> Category;

/// The stream failure kind that `serde_json::Error::io_error_kind` reports
/// for an error, if any.
pub uninterp spec fn json_error_io_kind(err: serde_json::Error) -> Option<std::io::ErrorKind>;

/// The text that `serde_json::Error` renders itself as.
pub uninterp spec fn json_error_message(err: serde_json::Error) -> Seq<char>;

/// Why the JSON backend failed.
#[derive(Clone, Copy, Debug, PartialEq, Eq, Structural)]
pub enum Category {
    /// The underlying byte stream failed while reading or writing.
    Io,
    /// The input is not syntactically valid JSON.
    Syntax,
    /// The input is valid JSON of the wrong shape for the expected type.
    Data,
    /// The input ended before a complete value was parsed.
    Eof,
}

/// The kind of a failure that the codec reports.
#[derive(Clone, Copy, Debug, PartialEq, Eq)]
pub enum Kind {
    /// The byte stream failed; the stream's own kind is passed through.
    Transport(std::io::ErrorKind),
    /// The payload is malformed: the generic, unclassified kind.
    Other,
    /// The input was truncated: unexpected end of input.
    UnexpectedEof,
}

/// A failure of a codec operation.
#[derive(Debug, PartialEq, Eq)]
pub struct CodecError {
    /// What kind of failure this is.
    pub kind: Kind,
    /// The description of the failure, where one was given.
    pub message: Option<String>,
}

/// The mathematical value of a [`CodecError`].
pub struct CodecErrorView {
    pub kind: Kind,
    pub message: Option<Seq<char>>,
}

impl View for CodecError {
    type V = CodecErrorView;

    open spec fn view(&self) -> CodecErrorView {
        CodecErrorView {
            kind: self.kind,
            message: match self.message {
                Some(m) => Some(m@),
                None => None,
            },
        }
    }
}

/// The kind that a backend failure of the given category translates to.
///
/// A stream failure keeps the stream's kind, or becomes `Other` where the
/// backend reports none. Syntax and data failures are `Other`. A premature
/// end of the input is `UnexpectedEof`.
pub open spec fn translated_kind(category: Category, io_kind: Option<std::io::ErrorKind>) -> Kind {
    match category {
        Category::Io => match io_kind {
            Some(k) => Kind::Transport(k),
            None => Kind::Other,
        },
        Category::Syntax | Category::Data => Kind::Other,
        Category::Eof => Kind::UnexpectedEof,
    }
}

/// The failure that a backend failure with the given category, stream kind
/// and description translates to.
pub open spec fn translated(
    category: Category,
    io_kind: Option<std::io::ErrorKind>,
    message: Seq<char>,
) -> CodecErrorView {
    CodecErrorView { kind: translated_kind(category, io_kind), message: Some(message) }
}

/// The failure that a given backend error translates to.
pub open spec fn translation_of(err: serde_json::Error) -> CodecErrorView {
    translated(json_error_category(err), json_error_io_kind(err), json_error_message(err))
}

/// The failure reported for a missing or empty frame: unexpected end of
/// input, with no message.
pub open spec fn end_of_input() -> CodecErrorView {
    CodecErrorView { kind: Kind::UnexpectedEof, message: None }
}

impl CodecError {
    /// The failure for a missing or empty frame.
    pub fn unexpected_eof() -> (r: CodecError)
        ensures
            r@ == end_of_input(),
    {
        CodecError { kind: Kind::UnexpectedEof, message: None }
    }

    /// Whether this failure is of the truncated-input kind.
    pub fn is_truncated_input(&self) -> (r: bool)
        ensures
            r == (self.kind == Kind::UnexpectedEof),
    {
        match self.kind {
            Kind::UnexpectedEof => true,
            _ => false,
        }
    }

    /// Whether this failure is of the malformed-payload kind.
    pub fn is_malformed_payload(&self) -> (r: bool)
        ensures
            r == (self.kind == Kind::Other),
    {
        match self.kind {
            Kind::Other => true,
            _ => false,
        }
    }
}

/// Calls `serde_json::Error::classify` and maps the category it returns,
/// variant for variant, to [`Category`]. The result is a function of the
/// error alone, named [`json_error_category`].
#[verifier::external_body]
fn classify(err: &serde_json::Error) -> (r: Category)
    ensures
        r == json_error_category(*err),
{
    match err.classify() {
        serde_json::error::Category::Io => Category::Io,
        serde_json::error::Category::Syntax => Category::Syntax,
        serde_json::error::Category::Data => Category::Data,
        serde_json::error::Category::Eof => Category::Eof,
    }
}

/// Calls `serde_json::Error::io_error_kind`, which gives the kind of the
/// stream failure that caused the error, if one did. The result is a
/// function of the error alone, named [`json_error_io_kind`].
#[verifier::external_body]
fn io_error_kind(err: &serde_json::Error) -> (r: Option<std::io::ErrorKind>)
    ensures
        r == json_error_io_kind(*err),
{
    err.io_error_kind()
}

/// Renders a `serde_json::Error` as text through its `Display` impl. The
/// text is a function of the error alone, named [`json_error_message`].
#[verifier::external_body]
fn describe(err: &serde_json::Error) -> (r: String)
    ensures
        r@ == json_error_message(*err),
{
    err.to_string()
}

/// Translates a backend failure, given by its category, the stream kind it
/// carries and its description, into a codec failure.
pub fn translate(category: Category, io_kind: Option<std::io::ErrorKind>, message: String) -> (r:
    CodecError)
    ensures
        r@ == translated(category, io_kind, message@),
{
    let kind = match category {
        Category::Io => match io_kind {
            Some(k) => Kind::Transport(k),
            None => Kind::Other,
        },
        Category::Syntax => Kind::Other,
        Category::Data => Kind::Other,
        Category::Eof => Kind::UnexpectedEof,
    };
    CodecError { kind, message: Some(message) }
}

/// Translates an error of the JSON backend into a codec failure: the kind
/// follows the error's category and the message is the error's own text.
pub fn serde_json_error_into_io_error(err: serde_json::Error) -> (r: CodecError)
    ensures
        r@ == translation_of(err),
{
    let category = classify(&err);
    let io_kind = io_error_kind(&err);
    let message = describe(&err);
    translate(category, io_kind, message)
}

} // verus!
