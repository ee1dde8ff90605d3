//! A struct definition as the compiler reads it: its fields, their types and
//! their annotations, as plain data.
use crate::text::same_text;
use vstd::prelude::*;

verus! {

/// A literal in an annotation. Of a string literal the value is kept; of any
/// other literal only that it is none.
#[derive(Debug)]
pub enum Lit {
    Str(String),
    Other,
}

/// A path in an annotation, such as `validate` or `a::b`.
#[derive(Debug)]
pub struct Path {
    pub leading_colon: bool,
    pub segments: Vec<String>,
}

/// What stands inside an annotation: a bare path, `path = literal`, or
/// `path(...)` with further items nested in it.
#[derive(Debug)]
pub enum Meta {
    Path(Path),
    NameValue { path: Path, lit: Lit },
    List { path: Path, nested: Vec<NestedMeta> },
}

/// An item of a list in an annotation.
#[derive(Debug)]
pub enum NestedMeta {
    Meta(Meta),
    Lit(Lit),
}

/// An annotation of a field. `meta` is `None` where what the annotation holds
/// is of none of the three shapes of [`Meta`].
#[derive(Debug)]
pub struct Attribute {
    pub path: Path,
    pub meta: Option<Meta>,
}

/// The declared type of a field. `Path` holds the text of a type like
/// `std::collections::HashMap<K, V>`, `Reference` that of the type referred
/// to and whether the reference names a lifetime, `Other` the text of a type
/// of any other shape.
#[derive(Debug)]
pub enum Type {
    Path(String),
    Reference { lifetime: bool, elem: String },
    Other(String),
}

/// A field of a struct. A field of a tuple struct has no name.
#[derive(Debug)]
pub struct Field {
    pub ident: Option<String>,
    pub ty: Type,
    pub attrs: Vec<Attribute>,
}

/// What a definition defines.
#[derive(Debug)]
pub enum Data {
    Struct(Vec<Field>),
    Enum,
    Union,
}

/// A type definition that validation is derived for. The three parts of its
/// generics are kept as the text that an impl for the type is written with.
#[derive(Debug)]
pub struct DeriveInput {
    pub ident: String,
    pub impl_generics: String,
    pub type_generics: String,
    pub where_clause: String,
    pub data: Data,
}

/// The family that an annotation belongs to: the rules of validation, the
/// renaming of serialization, or neither.
#[derive(Clone, Copy, Debug, PartialEq, Eq, Structural)]
pub enum Family {
    Rule,
    Rename,
    Other,
}

/// The characters of an optional string.
pub open spec fn text_of(s: Option<String>) -> Option<Seq<char>> {
    match s {
        Some(t) => Some(t@),
        None => None,
    }
}

impl Lit {
    /// The value of a string literal; nothing for any other literal.
    pub open spec fn text(&self) -> Option<Seq<char>> {
        match self {
            Lit::Str(s) => Some(s@),
            Lit::Other => None,
        }
    }
}

impl Path {
    /// The identifier that the path consists of, if it is a single one
    /// without a leading `::`.
    pub open spec fn ident_text(&self) -> Option<Seq<char>> {
        if !self.leading_colon && self.segments@.len() == 1 {
            Some(self.segments@[0]@)
        } else {
            None
        }
    }

    /// The identifier that the path consists of, if it is a single one.
    pub fn get_ident(&self) -> (r: Option<&String>)
        ensures
            match r {
                Some(s) => self.ident_text() == Some(s@),
                None => self.ident_text() is None,
            },
    {
        if !self.leading_colon && self.segments.len() == 1 {
            Some(&self.segments[0])
        } else {
            None
        }
    }

    /// Whether the path is the single identifier `name`.
    pub fn is_ident(&self, name: &str) -> (r: bool)
        ensures
            r == (self.ident_text() == Some(name@)),
    {
        match self.get_ident() {
            Some(s) => same_text(s.as_str(), name),
            None => false,
        }
    }
}

impl Attribute {
    /// The family of the annotation: `validate` names a rule annotation,
    /// `serde` a rename annotation.
    pub open spec fn family_of(&self) -> Family {
        if self.path.ident_text() == Some("validate"@) {
            Family::Rule
        } else if self.path.ident_text() == Some("serde"@) {
            Family::Rename
        } else {
            Family::Other
        }
    }

    /// The family of the annotation.
    pub fn family(&self) -> (r: Family)
        ensures
            r == self.family_of(),
    {
        if self.path.is_ident("validate") {
            Family::Rule
        } else if self.path.is_ident("serde") {
            Family::Rename
        } else {
            Family::Other
        }
    }
}

} // verus!
