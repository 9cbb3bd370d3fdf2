//! The generator: from the shape of a record to the source text of its
//! conversions.
//!
//! Each generated operation applies the operation of the same name to every
//! field of the record, in the order of declaration, and builds the record
//! anew from the results. A record declared without fields is handed back as
//! it is. Only records are supported.

use vstd::prelude::*;
use vstd::string::StringExecFns;
use crate::shape::{Data, DataView, DeriveInput, Fields, FieldsView, GenericsView};

verus! {

/// One of the four conversions.
#[derive(Clone, Copy, PartialEq, Eq, Structural, Debug)]
pub enum Method {
    ToLe,
    ToBe,
    FromLe,
    FromBe,
}

/// Why nothing was generated.
#[derive(Clone, Copy, PartialEq, Eq, Structural, Debug)]
pub enum DeriveError {
    /// The type is not a record: it is an `enum` or a `union`.
    UnsupportedShape,
}

impl Method {
    /// The name of the operation, as the trait spells it.
    pub open spec fn name_spec(self) -> Seq<char> {
        match self {
            Method::ToLe => "to_le"@,
            Method::ToBe => "to_be"@,
            Method::FromLe => "from_le"@,
            Method::FromBe => "from_be"@,
        }
    }

    /// The name of the operation, as the trait spells it.
    pub fn name(self) -> (r: &'static str)
        ensures
            r@ == self.name_spec(),
    {
        match self {
            Method::ToLe => "to_le",
            Method::ToBe => "to_be",
            Method::FromLe => "from_le",
            Method::FromBe => "from_be",
        }
    }
}

impl DeriveError {
    /// The diagnostic for the author of the type.
    pub fn message(&self) -> (r: String)
        ensures
            r@ == "unsupported shape: only structs are supported"@,
    {
        String::from_str("unsupported shape: only structs are supported")
    }
}

/// The decimal digit for `d`.
pub open spec fn digit(d: nat) -> char
    recommends
        d < 10,
{
    "0123456789"@[d as int]
}

/// `n` in decimal notation, without leading zeros.
pub open spec fn decimal(n: nat) -> Seq<char>
    decreases n,
{
    if n < 10 {
        seq![digit(n)]
    } else {
        decimal(n / 10).push(digit(n % 10))
    }
}

/// `parts`, one after the other, with `separator` between each two.
pub open spec fn joined(parts: Seq<Seq<char>>, separator: Seq<char>) -> Seq<char>
    decreases parts.len(),
{
    if parts.len() == 0 {
        Seq::empty()
    } else if parts.len() == 1 {
        parts[0]
    } else {
        joined(parts.drop_last(), separator) + separator + parts.last()
    }
}

/// The initialiser of the field called `field`: `field: Endify::method(self.field)`.
pub open spec fn named_initialiser(field: Seq<char>, method: Method) -> Seq<char> {
    field + ": Endify::"@ + method.name_spec() + "(self."@ + field + ")"@
}

/// The initialiser of the field at `index`: `Endify::method(self.index)`.
pub open spec fn unnamed_initialiser(index: nat, method: Method) -> Seq<char> {
    "Endify::"@ + method.name_spec() + "(self."@ + decimal(index) + ")"@
}

/// The initialisers of a generated operation: one for each field, in the
/// order of declaration.
pub open spec fn initialisers(fields: FieldsView, method: Method) -> Seq<Seq<char>> {
    match fields {
        FieldsView::Named(names) => Seq::new(
            names.len(),
            |i: int| named_initialiser(names[i], method),
        ),
        FieldsView::Unnamed(count) => Seq::new(
            count,
            |i: int| unnamed_initialiser(i as nat, method),
        ),
        FieldsView::Unit => Seq::empty(),
    }
}

/// The expression that a generated operation returns.
pub open spec fn body_text(fields: FieldsView, method: Method) -> Seq<char> {
    match fields {
        FieldsView::Named(_) => "Self { "@ + joined(initialisers(fields, method), ", "@) + " }"@,
        FieldsView::Unnamed(_) => "Self("@ + joined(initialisers(fields, method), ", "@) + ")"@,
        FieldsView::Unit => "self"@,
    }
}

/// The source text of one generated operation.
pub open spec fn method_text(fields: FieldsView, method: Method) -> Seq<char> {
    "fn "@ + method.name_spec() + "(self) -> Self { "@ + body_text(fields, method) + " }"@
}

/// The source text of the generated implementation of a record called `ident`
/// with the generic parameters `generics` and the fields `fields`: its header,
/// and the four operations in the order `to_le`, `to_be`, `from_le`, `from_be`.
pub open spec fn impl_text(ident: Seq<char>, generics: GenericsView, fields: FieldsView) -> Seq<
    char,
> {
    "impl"@ + generics.impl_generics + " endify::Endify for "@ + ident + generics.ty_generics
        + " "@ + generics.where_clause + " { "@ + method_text(fields, Method::ToLe) + " "@
        + method_text(fields, Method::ToBe) + " "@ + method_text(fields, Method::FromLe) + " "@
        + method_text(fields, Method::FromBe) + " }"@
}

/// Field order is kept: a generated operation has one initialiser for each
/// field of the record, and the initialiser at place `i` gives the field
/// declared at place `i`, under its own name or position, the operation
/// applied to that same field.
pub proof fn lemma_fields_in_order(fields: FieldsView, method: Method, i: int)
    requires
        0 <= i < fields.count(),
    ensures
        initialisers(fields, method).len() == fields.count(),
        fields matches FieldsView::Named(names) ==> initialisers(fields, method)[i]
            == named_initialiser(names[i], method),
        fields is Unnamed ==> initialisers(fields, method)[i] == unnamed_initialiser(
            i as nat,
            method,
        ),
{
}

/// A record declared without fields is handed back as it is by each
/// generated operation.
pub proof fn lemma_unit_is_identity(method: Method)
    ensures
        body_text(FieldsView::Unit, method) == "self"@,
{
}

/// The text of one decimal digit.
fn digit_text(d: usize) -> (r: &'static str)
    requires
        d < 10,
    ensures
        r@ == seq![digit(d as nat)],
{
    proof {
        reveal_strlit("0123456789");
        reveal_strlit("0");
        reveal_strlit("1");
        reveal_strlit("2");
        reveal_strlit("3");
        reveal_strlit("4");
        reveal_strlit("5");
        reveal_strlit("6");
        reveal_strlit("7");
        reveal_strlit("8");
        reveal_strlit("9");
    }
    let r = match d {
        0 => "0",
        1 => "1",
        2 => "2",
        3 => "3",
        4 => "4",
        5 => "5",
        6 => "6",
        7 => "7",
        8 => "8",
        _ => "9",
    };
    assert(r@ =~= seq![digit(d as nat)]);
    r
}

/// Writes `n` in decimal notation at the end of `out`.
fn push_decimal(out: &mut String, n: usize)
    ensures
        final(out)@ == old(out)@ + decimal(n as nat),
    decreases n,
{
    if n >= 10 {
        push_decimal(out, n / 10);
    }
    out.append(digit_text(n % 10));
    assert(out@ =~= old(out)@ + decimal(n as nat));
}

/// Writes the initialiser of the field called `field` at the end of `out`.
fn push_named_initialiser(out: &mut String, field: &str, method: Method)
    ensures
        final(out)@ == old(out)@ + named_initialiser(field@, method),
{
    out.append(field);
    out.append(": Endify::");
    out.append(method.name());
    out.append("(self.");
    out.append(field);
    out.append(")");
    assert(out@ =~= old(out)@ + named_initialiser(field@, method));
}

/// Writes the initialiser of the field at `index` at the end of `out`.
fn push_unnamed_initialiser(out: &mut String, index: usize, method: Method)
    ensures
        final(out)@ == old(out)@ + unnamed_initialiser(index as nat, method),
{
    out.append("Endify::");
    out.append(method.name());
    out.append("(self.");
    push_decimal(out, index);
    out.append(")");
    assert(out@ =~= old(out)@ + unnamed_initialiser(index as nat, method));
}

/// Joining one part more: the separator comes before every part but the first.
pub proof fn lemma_joined_next(parts: Seq<Seq<char>>, separator: Seq<char>, n: int)
    requires
        0 <= n < parts.len(),
    ensures
        joined(parts.take(n + 1), separator) == if n == 0 {
            parts[0]
        } else {
            joined(parts.take(n), separator) + separator + parts[n]
        },
{
    assert(parts.take(n + 1).drop_last() =~= parts.take(n));
}

/// Writes the initialisers of `fields`, separated by commas, at the end of `out`.
fn push_initialisers(out: &mut String, fields: &Fields, method: Method)
    ensures
        final(out)@ == old(out)@ + joined(initialisers(fields@, method), ", "@),
{
    let ghost parts = initialisers(fields@, method);
    match fields {
        Fields::Named(names) => {
            let mut i: usize = 0;
            while i < names.len()
                invariant
                    i <= names.len(),
                    parts == initialisers(fields@, method),
                    fields@ == FieldsView::Named(names.deep_view()),
                    out@ == old(out)@ + joined(parts.take(i as int), ", "@),
                decreases names.len() - i,
            {
                proof {
                    lemma_joined_next(parts, ", "@, i as int);
                    assert(parts[i as int] == named_initialiser(names[i as int]@, method));
                }
                if i > 0 {
                    out.append(", ");
                }
                push_named_initialiser(out, names[i].as_str(), method);
                i += 1;
                assert(out@ =~= old(out)@ + joined(parts.take(i as int), ", "@));
            }
            assert(parts.take(i as int) =~= parts);
        },
        Fields::Unnamed(count) => {
            let mut i: usize = 0;
            while i < *count
                invariant
                    i <= *count,
                    parts == initialisers(fields@, method),
                    fields@ == FieldsView::Unnamed(*count as nat),
                    out@ == old(out)@ + joined(parts.take(i as int), ", "@),
                decreases *count - i,
            {
                proof {
                    lemma_joined_next(parts, ", "@, i as int);
                }
                if i > 0 {
                    out.append(", ");
                }
                push_unnamed_initialiser(out, i, method);
                i += 1;
                assert(out@ =~= old(out)@ + joined(parts.take(i as int), ", "@));
            }
            assert(parts.take(i as int) =~= parts);
        },
        Fields::Unit => {
            assert(out@ =~= old(out)@ + joined(parts, ", "@));
        },
    }
}

/// Writes the text of one generated operation at the end of `out`.
fn push_method(out: &mut String, fields: &Fields, method: Method)
    ensures
        final(out)@ == old(out)@ + method_text(fields@, method),
{
    out.append("fn ");
    out.append(method.name());
    out.append("(self) -> Self { ");
    match fields {
        Fields::Named(_) => {
            out.append("Self { ");
            push_initialisers(out, fields, method);
            out.append(" }");
        },
        Fields::Unnamed(_) => {
            out.append("Self(");
            push_initialisers(out, fields, method);
            out.append(")");
        },
        Fields::Unit => {
            out.append("self");
        },
    }
    out.append(" }");
    assert(out@ =~= old(out)@ + method_text(fields@, method));
}

/// Generates the implementation of one operation for the type that `input`
/// describes.
///
/// For a record the result is the source text of the operation; for any other
/// type it is `UnsupportedShape`.
pub fn gen_method(input: &DeriveInput, method: Method) -> (r: Result<String, DeriveError>)
    ensures
        match input@.data {
            DataView::Struct(fields) => r matches Ok(text) && text@ == method_text(fields, method),
            _ => r == Err::<String, DeriveError>(DeriveError::UnsupportedShape),
        },
{
    match &input.data {
        Data::Struct(fields) => {
            let mut out = String::new();
            push_method(&mut out, fields, method);
            assert(out@ =~= method_text(fields@, method));
            Ok(out)
        },
        _ => Err(DeriveError::UnsupportedShape),
    }
}

/// Generates the implementation of the conversion trait for the type that
/// `input` describes.
///
/// For a record the result is the source text of an `impl` block with the four
/// operations; for any other type it is `UnsupportedShape`, and nothing is
/// generated.
pub fn endify_derive(input: &DeriveInput) -> (r: Result<String, DeriveError>)
    ensures
        match input@.data {
            DataView::Struct(fields) => r matches Ok(text) && text@ == impl_text(
                input@.ident,
                input@.generics,
                fields,
            ),
            _ => r == Err::<String, DeriveError>(DeriveError::UnsupportedShape),
        },
{
    match &input.data {
        Data::Struct(fields) => {
            let mut out = String::from_str("impl");
            out.append(input.generics.impl_generics.as_str());
            out.append(" endify::Endify for ");
            out.append(input.ident.as_str());
            out.append(input.generics.ty_generics.as_str());
            out.append(" ");
            out.append(input.generics.where_clause.as_str());
            out.append(" { ");
            push_method(&mut out, fields, Method::ToLe);
            out.append(" ");
            push_method(&mut out, fields, Method::ToBe);
            out.append(" ");
            push_method(&mut out, fields, Method::FromLe);
            out.append(" ");
            push_method(&mut out, fields, Method::FromBe);
            out.append(" }");
            assert(out@ =~= impl_text(input@.ident, input@.generics, fields@));
            Ok(out)
        },
        _ => Err(DeriveError::UnsupportedShape),
    }
}

} // verus!
