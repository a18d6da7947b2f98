//! The contact record from which a vCard is generated.
use vstd::prelude::*;

verus! {

/// One submitted contact record. The two name fields are required but may
/// be any string, even the empty one. Every optional field treats `None`
/// and the empty string alike: both mean "absent". `color` is an optional
/// `#RRGGBB` string selecting the foreground color of the rendered QR
/// symbol; when it is `None` the symbol is rendered monochrome.
#[derive(Debug, Clone)]
pub struct ContactData {
    pub first_name: String,
    pub last_name: String,
    pub mobile: Option<String>,
    pub work: Option<String>,
    pub email: Option<String>,
    pub company: Option<String>,
    pub role: Option<String>,
    pub street: Option<String>,
    pub city: Option<String>,
    pub state: Option<String>,
    pub website: Option<String>,
    pub color: Option<String>,
}

/// An optional field counts as given only when it holds a non-empty string.
pub open spec fn field_present(field: Option<String>) -> bool {
    field is Some && field->0@.len() > 0
}

/// The text of an optional field; the empty sequence when the field is absent.
pub open spec fn field_text(field: Option<String>) -> Seq<char> {
    match field {
        Some(s) => s@,
        None => Seq::<char>::empty(),
    }
}

/// Two optional fields carry the same information: both absent (where
/// `None` and the empty string both count as absent), or both the same
/// non-empty text.
pub open spec fn fields_equivalent(a: Option<String>, b: Option<String>) -> bool {
    field_present(a) == field_present(b) && (field_present(a) ==> field_text(a) == field_text(b))
}

/// Whether an optional field holds a non-empty string.
pub fn field_is_present(field: &Option<String>) -> (r: bool)
    ensures
        r == field_present(*field),
{
    match field {
        Some(s) => s.unicode_len() > 0,
        None => false,
    }
}

} // verus!
