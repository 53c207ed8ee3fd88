//! What the library believes of `postgres_types`: the table of built-in types
//! and the reading of a text value.

use postgres_types::{FromSql, Type};
use vstd::prelude::*;
use vstd::string::StringSliceAdditionalSpecFns;
use vstd::utf8::valid_utf8;

verus! {

#[verifier::external_type_specification]
#[verifier::external_body]
pub struct ExType(Type);

/// The built-in type that an OID stands for, if it stands for one.
pub uninterp spec fn builtin_type(oid: u32) -> Option<Type>;

/// `Type::from_oid`: looks the OID up in the table of built-in types.
pub assume_specification[ Type::from_oid ](oid: u32) -> (r: Option<Type>)
    ensures
        r == builtin_type(oid),
;

/// `FromSql::from_sql_nullable` for `Option<&str>` and the type TEXT: nothing
/// for SQL NULL, else the bytes as a string, which they are exactly when they
/// are UTF-8. The cause of a failure comes back as its message.
#[verifier::external_body]
pub(crate) fn text_from_sql<'a>(raw: Option<&'a [u8]>) -> (r: Result<Option<&'a str>, String>)
    ensures
        match raw {
            None => r == Ok::<Option<&str>, String>(None),
            Some(bytes) => if valid_utf8(bytes@) {
                r matches Ok(Some(text)) && text.spec_bytes() == bytes@
            } else {
                r is Err
            },
        },
{
    match <Option<&str> as FromSql>::from_sql_nullable(&Type::TEXT, raw) {
        Ok(text) => Ok(text),
        Err(cause) => Err(cause.to_string()),
    }
}

} // verus!
