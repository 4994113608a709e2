//! Syntax-tree building blocks: spans, identifiers, type references and
//! attributes, and the Luau node tree the optimizer and debugger work on.

use vstd::prelude::*;
use crate::keyed::{find_key, keyed_map, keys_unique, lemma_key_index, lemma_keyed_map, lemma_put, put};

pub mod luau;

verus! {

/// A span of source code, represented by start and end byte indices.
#[derive(Debug, Clone, Copy, PartialEq, Eq, Structural)]
pub struct Span {
    pub start: usize,
    pub end: usize,
}

/// A simple identifier with an optional namespace.
#[derive(Debug, Clone, PartialEq, Eq)]
pub struct Ident {
    pub name: String,
    pub namespace: Option<String>,
    pub span: Span,
}

/// An AST node with attached span information.
#[derive(Debug, Clone, PartialEq)]
pub struct Node<T> {
    pub span: Span,
    pub node: T,
}

/// A type reference, which can be a primitive type, a custom type, or a generic type.
#[derive(Debug)]
pub enum TypeRef {
    /// A primitive type (i32, bool, etc.)
    Primitive(String),
    /// A custom type (MyStruct, etc.)
    Custom(Ident),
    /// A generic type (Vec<T>, etc.)
    Generic { base: Box<TypeRef>, params: Vec<TypeRef> },
    /// A function type (Fn(A, B) -> C)
    Function { params: Vec<TypeRef>, return_type: Box<TypeRef> },
    /// A tuple type ((A, B, C))
    Tuple(Vec<TypeRef>),
    /// An array type ([T; N])
    Array { element_type: Box<TypeRef>, size: Option<usize> },
    /// A reference type (&T or &mut T)
    Reference { target: Box<TypeRef>, mutable: bool },
}

/// A simple name->value attribute.
#[derive(Debug, Clone, PartialEq)]
pub struct Attribute {
    pub name: String,
    pub value: Option<String>,
}

/// Attributes attached to an AST node: each name at most once, with its
/// value.
#[derive(Debug, Clone)]
pub struct Attributes {
    pub attrs: Vec<(String, Option<String>)>,
}

impl Attributes {
    /// No name occurs twice.
    pub open spec fn wf(&self) -> bool {
        keys_unique(self.attrs@)
    }

    /// The attributes as a map from names to values.
    pub open spec fn map(&self) -> Map<Seq<char>, Option<String>> {
        keyed_map(self.attrs@)
    }

    /// No attributes.
    pub fn new() -> (r: Self)
        ensures
            r.wf(),
            r.map() == Map::<Seq<char>, Option<String>>::empty(),
    {
        Attributes { attrs: Vec::new() }
    }

    /// Add an attribute; one of the same name is replaced.
    pub fn add(&mut self, attr: Attribute)
        requires
            old(self).wf(),
        ensures
            final(self).wf(),
            final(self).map() == old(self).map().insert(attr.name@, attr.value),
    {
        proof {
            lemma_put(self.attrs@, attr.name, attr.value);
        }
        put(&mut self.attrs, attr.name, attr.value);
    }

    /// Whether an attribute of this name is present.
    pub fn has(&self, name: &str) -> (r: bool)
        requires
            self.wf(),
        ensures
            r == self.map().dom().contains(name@),
    {
        proof {
            lemma_keyed_map(self.attrs@, name@);
        }
        find_key(&self.attrs, name).is_some()
    }

    /// The value of the attribute of this name, if present.
    pub fn get(&self, name: &str) -> (r: Option<&Option<String>>)
        requires
            self.wf(),
        ensures
            r is Some == self.map().dom().contains(name@),
            r matches Some(v) ==> *v == self.map()[name@],
    {
        proof {
            lemma_keyed_map(self.attrs@, name@);
            lemma_key_index(self.attrs@, name@);
        }
        match find_key(&self.attrs, name) {
            Some(i) => Some(&self.attrs[i].1),
            None => None,
        }
    }
}

impl Default for Attributes {
    fn default() -> (r: Self)
        ensures
            r.wf(),
            r.map() == Map::<Seq<char>, Option<String>>::empty(),
    {
        Attributes::new()
    }
}

} // verus!
pub mod parser;
pub mod visitor;
