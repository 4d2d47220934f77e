//! The error taxonomy that handlers and the dispatcher share.

use vstd::prelude::*;

verus! {

/// Something that can say, in words, what input it would have accepted.
pub trait Expected {
    /// The description, as text.
    spec fn text(&self) -> Seq<char>;

    /// Renders the description.
    fn describe(&self) -> (s: String)
        ensures
            s@ == self.text(),
    ;
}

impl Expected for str {
    open spec fn text(&self) -> Seq<char> {
        self@
    }

    fn describe(&self) -> (s: String) {
        self.to_owned()
    }
}

/// The shape of the input that was found where another was wanted.
///
/// `Float` holds the IEEE 754 double-precision bit pattern of the number.
/// `Unsigned128` and `Signed128` hold an integer that no 64-bit variant can.
#[derive(Debug, PartialEq, Eq)]
pub enum Unexpected {
    Bool(bool),
    Unsigned(u64),
    Signed(i64),
    Float(u64),
    Char(char),
    Str(String),
    Bytes(Vec<u8>),
    Unit,
    Option,
    NewtypeStruct,
    Sequence,
    Mapping,
    Enum,
    UnitVariant,
    NewtypeVariant,
    TupleVariant,
    StructVariant,
    Other(String),
    Unsigned128(u128),
    Signed128(i128),
}

/// What an [`Unexpected`] holds, with text and bytes as sequences.
pub enum UnexpectedView {
    Bool(bool),
    Unsigned(u64),
    Signed(i64),
    Float(u64),
    Char(char),
    Str(Seq<char>),
    Bytes(Seq<u8>),
    Unit,
    Option,
    NewtypeStruct,
    Sequence,
    Mapping,
    Enum,
    UnitVariant,
    NewtypeVariant,
    TupleVariant,
    StructVariant,
    Other(Seq<char>),
    Unsigned128(u128),
    Signed128(i128),
}

impl View for Unexpected {
    type V = UnexpectedView;

    open spec fn view(&self) -> UnexpectedView {
        match *self {
            Unexpected::Bool(v) => UnexpectedView::Bool(v),
            Unexpected::Unsigned(v) => UnexpectedView::Unsigned(v),
            Unexpected::Signed(v) => UnexpectedView::Signed(v),
            Unexpected::Float(v) => UnexpectedView::Float(v),
            Unexpected::Char(v) => UnexpectedView::Char(v),
            Unexpected::Str(v) => UnexpectedView::Str(v@),
            Unexpected::Bytes(v) => UnexpectedView::Bytes(v@),
            Unexpected::Unit => UnexpectedView::Unit,
            Unexpected::Option => UnexpectedView::Option,
            Unexpected::NewtypeStruct => UnexpectedView::NewtypeStruct,
            Unexpected::Sequence => UnexpectedView::Sequence,
            Unexpected::Mapping => UnexpectedView::Mapping,
            Unexpected::Enum => UnexpectedView::Enum,
            Unexpected::UnitVariant => UnexpectedView::UnitVariant,
            Unexpected::NewtypeVariant => UnexpectedView::NewtypeVariant,
            Unexpected::TupleVariant => UnexpectedView::TupleVariant,
            Unexpected::StructVariant => UnexpectedView::StructVariant,
            Unexpected::Other(v) => UnexpectedView::Other(v@),
            Unexpected::Unsigned128(v) => UnexpectedView::Unsigned128(v),
            Unexpected::Signed128(v) => UnexpectedView::Signed128(v),
        }
    }
}

/// The kinds of failure, each with what it reports.
#[allow(inconsistent_fields)]
#[derive(Debug, PartialEq, Eq)]
pub enum ErrorImpl {
    Custom(String),
    InvalidType { unexpected: Unexpected, expected: String },
    InvalidValue { unexpected: Unexpected, expected: String },
    InvalidLength { len: usize, expected: String },
    UnknownVariant { variant: String, expected: &'static [&'static str] },
    UnknownField { field: String, expected: &'static [&'static str] },
    MissingField { field: &'static str },
    DuplicateField { field: &'static str },
}

/// A failure of a handler or of the dispatch itself.
#[derive(Debug, PartialEq, Eq)]
pub struct Error {
    pub imp: ErrorImpl,
}

/// What an [`Error`] reports, with text as sequences of characters.
#[allow(inconsistent_fields)]
pub enum ErrorView {
    Custom(Seq<char>),
    InvalidType { unexpected: UnexpectedView, expected: Seq<char> },
    InvalidValue { unexpected: UnexpectedView, expected: Seq<char> },
    InvalidLength { len: usize, expected: Seq<char> },
    UnknownVariant { variant: Seq<char>, expected: Seq<Seq<char>> },
    UnknownField { field: Seq<char>, expected: Seq<Seq<char>> },
    MissingField { field: Seq<char> },
    DuplicateField { field: Seq<char> },
}

/// The names in a list of names, each as text.
pub open spec fn names(list: &[&str]) -> Seq<Seq<char>> {
    Seq::new(list@.len(), |i: int| list@[i]@)
}

impl View for Error {
    type V = ErrorView;

    open spec fn view(&self) -> ErrorView {
        match self.imp {
            ErrorImpl::Custom(msg) => ErrorView::Custom(msg@),
            ErrorImpl::InvalidType { unexpected, expected } => ErrorView::InvalidType {
                unexpected: unexpected@,
                expected: expected@,
            },
            ErrorImpl::InvalidValue { unexpected, expected } => ErrorView::InvalidValue {
                unexpected: unexpected@,
                expected: expected@,
            },
            ErrorImpl::InvalidLength { len, expected } => ErrorView::InvalidLength {
                len,
                expected: expected@,
            },
            ErrorImpl::UnknownVariant { variant, expected } => ErrorView::UnknownVariant {
                variant: variant@,
                expected: names(expected),
            },
            ErrorImpl::UnknownField { field, expected } => ErrorView::UnknownField {
                field: field@,
                expected: names(expected),
            },
            ErrorImpl::MissingField { field } => ErrorView::MissingField { field: field@ },
            ErrorImpl::DuplicateField { field } => ErrorView::DuplicateField { field: field@ },
        }
    }
}

impl Error {
    /// A failure described only by a message.
    pub fn custom(msg: &str) -> (e: Error)
        ensures
            e@ == ErrorView::Custom(msg@),
    {
        Error { imp: ErrorImpl::Custom(msg.to_owned()) }
    }

    /// The input had a shape other than the expected one.
    pub fn invalid_type<E: Expected + ?Sized>(unexpected: Unexpected, expected: &E) -> (e: Error)
        ensures
            e@ == (ErrorView::InvalidType { unexpected: unexpected@, expected: expected.text() }),
    {
        Error { imp: ErrorImpl::InvalidType { unexpected, expected: expected.describe() } }
    }

    /// The input had the right shape and a value that is not acceptable.
    pub fn invalid_value<E: Expected + ?Sized>(unexpected: Unexpected, expected: &E) -> (e: Error)
        ensures
            e@ == (ErrorView::InvalidValue { unexpected: unexpected@, expected: expected.text() }),
    {
        Error { imp: ErrorImpl::InvalidValue { unexpected, expected: expected.describe() } }
    }

    /// A sequence or map had `len` entries where another count was expected.
    pub fn invalid_length<E: Expected + ?Sized>(len: usize, expected: &E) -> (e: Error)
        ensures
            e@ == (ErrorView::InvalidLength { len, expected: expected.text() }),
    {
        Error { imp: ErrorImpl::InvalidLength { len, expected: expected.describe() } }
    }

    /// An enum variant was named that is not among `expected`.
    pub fn unknown_variant(variant: &str, expected: &'static [&'static str]) -> (e: Error)
        ensures
            e@ == (ErrorView::UnknownVariant { variant: variant@, expected: names(expected) }),
    {
        Error { imp: ErrorImpl::UnknownVariant { variant: variant.to_owned(), expected } }
    }

    /// A struct field was named that is not among `expected`.
    pub fn unknown_field(field: &str, expected: &'static [&'static str]) -> (e: Error)
        ensures
            e@ == (ErrorView::UnknownField { field: field@, expected: names(expected) }),
    {
        Error { imp: ErrorImpl::UnknownField { field: field.to_owned(), expected } }
    }

    /// A struct field that must be present was not.
    pub fn missing_field(field: &'static str) -> (e: Error)
        ensures
            e@ == (ErrorView::MissingField { field: field@ }),
    {
        Error { imp: ErrorImpl::MissingField { field } }
    }

    /// A struct field was given more than once.
    pub fn duplicate_field(field: &'static str) -> (e: Error)
        ensures
            e@ == (ErrorView::DuplicateField { field: field@ }),
    {
        Error { imp: ErrorImpl::DuplicateField { field } }
    }
}

} // verus!
