//! The shape of a type for which conversions are to be generated.

use vstd::prelude::*;

verus! {

/// The fields of a record, in the order of their declaration.
pub enum Fields {
    /// Fields with names, as in `struct S { a: u32, b: u16 }`: the names.
    Named(Vec<String>),
    /// Fields by position, as in `struct S(u32, u16);`: how many there are.
    Unnamed(usize),
    /// No fields at all, as in `struct S;`.
    Unit,
}

/// What kind of type a declaration declares.
pub enum Data {
    /// A record with its fields.
    Struct(Fields),
    /// A type with several alternative shapes.
    Enum,
    /// A type whose fields share their storage.
    Union,
}

/// The generic parameters of a declaration, in the three forms in which an
/// `impl` block repeats them.
pub struct Generics {
    /// The parameters with their bounds, as written after `impl`.
    pub impl_generics: String,
    /// The parameters alone, as written after the name of the type.
    pub ty_generics: String,
    /// The `where` clause, or nothing.
    pub where_clause: String,
}

/// A type declaration, as far as generating its conversions needs it.
pub struct DeriveInput {
    /// The name of the type.
    pub ident: String,
    /// Its generic parameters.
    pub generics: Generics,
    /// Its kind and fields.
    pub data: Data,
}

/// The mathematical content of `Fields`.
pub enum FieldsView {
    Named(Seq<Seq<char>>),
    Unnamed(nat),
    Unit,
}

/// The mathematical content of `Data`.
pub enum DataView {
    Struct(FieldsView),
    Enum,
    Union,
}

/// The mathematical content of `Generics`.
pub struct GenericsView {
    pub impl_generics: Seq<char>,
    pub ty_generics: Seq<char>,
    pub where_clause: Seq<char>,
}

/// The mathematical content of `DeriveInput`.
pub struct DeriveInputView {
    pub ident: Seq<char>,
    pub generics: GenericsView,
    pub data: DataView,
}

impl View for Fields {
    type V = FieldsView;

    open spec fn view(&self) -> FieldsView {
        match self {
            Fields::Named(names) => FieldsView::Named(names.deep_view()),
            Fields::Unnamed(count) => FieldsView::Unnamed(*count as nat),
            Fields::Unit => FieldsView::Unit,
        }
    }
}

impl View for Data {
    type V = DataView;

    open spec fn view(&self) -> DataView {
        match self {
            Data::Struct(fields) => DataView::Struct(fields@),
            Data::Enum => DataView::Enum,
            Data::Union => DataView::Union,
        }
    }
}

impl View for Generics {
    type V = GenericsView;

    open spec fn view(&self) -> GenericsView {
        GenericsView {
            impl_generics: self.impl_generics@,
            ty_generics: self.ty_generics@,
            where_clause: self.where_clause@,
        }
    }
}

impl View for DeriveInput {
    type V = DeriveInputView;

    open spec fn view(&self) -> DeriveInputView {
        DeriveInputView { ident: self.ident@, generics: self.generics@, data: self.data@ }
    }
}

impl FieldsView {
    /// How many fields there are.
    pub open spec fn count(self) -> nat {
        match self {
            FieldsView::Named(names) => names.len(),
            FieldsView::Unnamed(count) => count,
            FieldsView::Unit => 0,
        }
    }
}

} // verus!
