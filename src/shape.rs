//! The shape of a declaration: its name, its single wrapped field, and the
//! name of the borrowed type derived from it.
use vstd::prelude::*;
use crate::text::str_eq;

verus! {

/// A field as declared.
pub struct FieldDecl {
    /// The field's name; `None` for a positional field.
    pub name: Option<String>,
    /// The field's type, as written.
    pub ty: String,
    /// The attributes attached to the field, as written.
    pub attrs: Vec<String>,
}

/// A type declaration: a name and zero or more fields.
pub struct StructDecl {
    pub name: String,
    pub fields: Vec<FieldDecl>,
}

/// How the wrapped field is addressed.
pub enum FieldName {
    Named(String),
    Unnamed,
}

/// The delimiter of a constructor expression.
#[derive(Clone, Copy, Debug, PartialEq, Eq, Structural)]
pub enum Delimiter {
    Brace,
    Parenthesis,
}

/// The wrapped field of a braid.
pub struct Field {
    pub attrs: Vec<String>,
    pub name: FieldName,
    pub ty: String,
}

/// Why a declaration cannot be wrapped.
#[derive(Clone, Copy, Debug, PartialEq, Eq, Structural)]
pub enum ShapeError {
    /// A typed string can only have one field.
    TooManyFields,
}

impl ShapeError {
    /// The diagnostic for this error.
    pub fn message(&self) -> (r: &'static str)
        ensures
            r@ == "typed string can only have one field"@,
    {
        "typed string can only have one field"
    }
}

impl FieldName {
    /// The delimiter of `Self { .. }` or `Self( .. )`.
    pub fn constructor_delimiter(&self) -> (r: Delimiter)
        ensures
            r == (if self is Named {
                Delimiter::Brace
            } else {
                Delimiter::Parenthesis
            }),
    {
        match self {
            FieldName::Named(_) => Delimiter::Brace,
            FieldName::Unnamed => Delimiter::Parenthesis,
        }
    }

    /// The name of a constructor's parameter: the field's own name, or `raw`.
    pub fn input_name(&self) -> (r: String)
        ensures
            r@ == (match self {
                FieldName::Named(n) => n@,
                FieldName::Unnamed => "raw"@,
            }),
    {
        match self {
            FieldName::Named(n) => n.clone(),
            FieldName::Unnamed => "raw".to_owned(),
        }
    }

    /// How the field is accessed: its name, or `0`.
    pub fn accessor(&self) -> (r: String)
        ensures
            r@ == (match self {
                FieldName::Named(n) => n@,
                FieldName::Unnamed => "0"@,
            }),
    {
        match self {
            FieldName::Named(n) => n.clone(),
            FieldName::Unnamed => "0".to_owned(),
        }
    }
}

/// Whether `s` ends with `suffix`.
pub open spec fn has_suffix(s: Seq<char>, suffix: Seq<char>) -> bool {
    suffix.len() <= s.len() && s.subrange(s.len() - suffix.len(), s.len() as int) == suffix
}

/// The borrowed name derived from an owned name: a trailing `Buf` or
/// `String` is stripped (when something is left), or else `Ref` is appended.
pub open spec fn borrowed_name_of(name: Seq<char>) -> Seq<char> {
    if has_suffix(name, "Buf"@) && name.len() > "Buf"@.len() {
        name.subrange(0, name.len() - "Buf"@.len())
    } else if has_suffix(name, "String"@) && name.len() > "String"@.len() {
        name.subrange(0, name.len() - "String"@.len())
    } else {
        name + "Ref"@
    }
}

/// Whether `s` ends with `suffix`.
pub fn ends_with(s: &str, suffix: &str) -> (r: bool)
    ensures
        r == has_suffix(s@, suffix@),
{
    let n = s.unicode_len();
    let m = suffix.unicode_len();
    if m > n {
        return false;
    }
    let tail = s.substring_char(n - m, n);
    str_eq(tail, suffix)
}

/// The name of the borrowed type of an owned type named `name`.
pub fn infer_ref_type_from_owned_name(name: &str) -> (r: String)
    ensures
        r@ == borrowed_name_of(name@),
{
    let n = name.unicode_len();
    let buf = "Buf";
    let string = "String";
    let nb = buf.unicode_len();
    let ns = string.unicode_len();
    if ends_with(name, buf) && n > nb {
        name.substring_char(0, n - nb).to_owned()
    } else if ends_with(name, string) && n > ns {
        name.substring_char(0, n - ns).to_owned()
    } else {
        name.to_owned().concat("Ref")
    }
}

/// Gives a declaration without fields one positional field of the default
/// wrapped type; leaves any other declaration unchanged.
pub fn create_field_if_none(fields: &mut Vec<FieldDecl>, default_ty: &str)
    ensures
        old(fields)@.len() == 0 ==> final(fields)@.len() == 1 && final(fields)@[0].name is None
            && final(fields)@[0].ty@ == default_ty@ && final(fields)@[0].attrs@.len() == 0,
        old(fields)@.len() > 0 ==> final(fields)@ == old(fields)@,
{
    if fields.len() == 0 {
        fields.push(FieldDecl { name: None, ty: default_ty.to_owned(), attrs: Vec::new() });
    }
}

/// Whether `f` is the declared field `d`.
pub open spec fn field_matches(f: Field, d: FieldDecl) -> bool {
    &&& f.ty == d.ty
    &&& f.attrs == d.attrs
    &&& match d.name {
        Some(n) => (f.name matches FieldName::Named(m) && m == n),
        None => f.name is Unnamed,
    }
}

/// The single field of a declaration, or an error when there are several.
pub fn get_field_info(fields: Vec<FieldDecl>) -> (r: Result<Field, ShapeError>)
    requires
        fields@.len() >= 1,
    ensures
        fields@.len() > 1 ==> r == Err::<Field, ShapeError>(ShapeError::TooManyFields),
        fields@.len() == 1 ==> (r matches Ok(f) && field_matches(f, fields@[0])),
{
    if fields.len() > 1 {
        return Err(ShapeError::TooManyFields);
    }
    let mut fields = fields;
    let f = fields.pop().unwrap();
    let name = match f.name {
        Some(n) => FieldName::Named(n),
        None => FieldName::Unnamed,
    };
    Ok(Field { attrs: f.attrs, name, ty: f.ty })
}

} // verus!
