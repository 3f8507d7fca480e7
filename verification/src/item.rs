//! The items that a transformation can be applied to: a free function, a trait
//! definition, an implementation block.

use vstd::prelude::*;
use crate::declaration::{duplicate_attributes, Declaration, DeclarationView};
use crate::either::Either;
use crate::syntax::{
    duplicate_optional_text, optional_text, views, Attribute, AttributeView, Generics,
    GenericsView, Signature, SignatureView, Span,
};

verus! {

/// A member of an implementation block.
#[derive(Debug, PartialEq, Eq)]
pub enum ImplItem {
    /// A method or an associated function.
    Method(Declaration),
    /// Any other member (a type, a constant), as written.
    Other(String),
}

/// The view of [`ImplItem`]: what it reads as, every text a sequence of characters.
pub enum ImplItemView {
    Method(DeclarationView),
    Other(Seq<char>),
}

impl View for ImplItem {
    type V = ImplItemView;

    open spec fn view(&self) -> ImplItemView {
        match self {
            ImplItem::Method(method) => ImplItemView::Method(method@),
            ImplItem::Other(tokens) => ImplItemView::Other(tokens@),
        }
    }
}

impl ImplItem {
    /// A copy with the same text.
    pub fn duplicate(&self) -> (copy: ImplItem)
        ensures
            copy@ == self@,
    {
        match self {
            ImplItem::Method(method) => ImplItem::Method(method.duplicate()),
            ImplItem::Other(tokens) => ImplItem::Other(tokens.clone()),
        }
    }
}

/// An implementation block, inherent or of a trait. `qualifiers` is what is
/// written before the word `impl`; `trait_path` is the implemented trait with
/// its generic arguments.
#[derive(Debug, PartialEq, Eq)]
pub struct ImplBlock {
    pub attrs: Vec<Attribute>,
    pub qualifiers: String,
    pub generics: Generics,
    pub trait_path: Option<String>,
    pub self_type: String,
    pub items: Vec<ImplItem>,
}

/// The view of [`ImplBlock`]: what it reads as, every text a sequence of characters.
pub struct ImplBlockView {
    pub attrs: Seq<AttributeView>,
    pub qualifiers: Seq<char>,
    pub generics: GenericsView,
    pub trait_path: Option<Seq<char>>,
    pub self_type: Seq<char>,
    pub items: Seq<ImplItemView>,
}

impl View for ImplBlock {
    type V = ImplBlockView;

    open spec fn view(&self) -> ImplBlockView {
        ImplBlockView {
            attrs: views(self.attrs@),
            qualifiers: self.qualifiers@,
            generics: self.generics@,
            trait_path: optional_text(self.trait_path),
            self_type: self.self_type@,
            items: views(self.items@),
        }
    }
}

impl ImplBlock {
    /// A copy with the same text.
    pub fn duplicate(&self) -> (copy: ImplBlock)
        ensures
            copy@ == self@,
    {
        let mut items: Vec<ImplItem> = Vec::new();
        let mut i: usize = 0;
        while i < self.items.len()
            invariant
                i <= self.items.len(),
                items.len() == i,
                forall|j: int| 0 <= j < i ==> items[j]@ == self.items[j]@,
            decreases self.items.len() - i,
        {
            items.push(self.items[i].duplicate());
            i += 1;
        }
        assert(views(items@) =~= views(self.items@));
        ImplBlock {
            attrs: duplicate_attributes(&self.attrs),
            qualifiers: self.qualifiers.clone(),
            generics: self.generics.duplicate(),
            trait_path: duplicate_optional_text(&self.trait_path),
            self_type: self.self_type.clone(),
            items,
        }
    }
}

/// A member of a trait definition.
#[derive(Debug, PartialEq, Eq)]
pub enum TraitItem {
    /// A method with a default body.
    Provided(Declaration),
    /// A method that implementors have to write: it has no body.
    Required { attrs: Vec<Attribute>, sig: Signature },
    /// Any other member (a type, a constant), as written.
    Other(String),
}

/// The view of [`TraitItem`]: what it reads as, every text a sequence of characters.
pub enum TraitItemView {
    Provided(DeclarationView),
    Required { attrs: Seq<AttributeView>, sig: SignatureView },
    Other(Seq<char>),
}

impl View for TraitItem {
    type V = TraitItemView;

    open spec fn view(&self) -> TraitItemView {
        match self {
            TraitItem::Provided(method) => TraitItemView::Provided(method@),
            TraitItem::Required { attrs, sig } => TraitItemView::Required {
                attrs: views(attrs@),
                sig: sig@,
            },
            TraitItem::Other(tokens) => TraitItemView::Other(tokens@),
        }
    }
}

impl TraitItem {
    /// A copy with the same text.
    pub fn duplicate(&self) -> (copy: TraitItem)
        ensures
            copy@ == self@,
    {
        match self {
            TraitItem::Provided(method) => TraitItem::Provided(method.duplicate()),
            TraitItem::Required { attrs, sig } => TraitItem::Required {
                attrs: duplicate_attributes(attrs),
                sig: sig.duplicate(),
            },
            TraitItem::Other(tokens) => TraitItem::Other(tokens.clone()),
        }
    }
}

/// A trait definition. `qualifiers` is what is written between the visibility
/// and the word `trait`; `supertraits` is what follows the colon after the
/// generic parameters.
#[derive(Debug, PartialEq, Eq)]
pub struct TraitDefinition {
    pub attrs: Vec<Attribute>,
    pub visibility: String,
    pub qualifiers: String,
    pub name: String,
    pub generics: Generics,
    pub supertraits: String,
    pub items: Vec<TraitItem>,
}

/// The view of [`TraitDefinition`]: what it reads as, every text a sequence of characters.
pub struct TraitDefinitionView {
    pub attrs: Seq<AttributeView>,
    pub visibility: Seq<char>,
    pub qualifiers: Seq<char>,
    pub name: Seq<char>,
    pub generics: GenericsView,
    pub supertraits: Seq<char>,
    pub items: Seq<TraitItemView>,
}

impl View for TraitDefinition {
    type V = TraitDefinitionView;

    open spec fn view(&self) -> TraitDefinitionView {
        TraitDefinitionView {
            attrs: views(self.attrs@),
            visibility: self.visibility@,
            qualifiers: self.qualifiers@,
            name: self.name@,
            generics: self.generics@,
            supertraits: self.supertraits@,
            items: views(self.items@),
        }
    }
}

impl TraitDefinition {
    /// A copy with the same text.
    pub fn duplicate(&self) -> (copy: TraitDefinition)
        ensures
            copy@ == self@,
    {
        let mut items: Vec<TraitItem> = Vec::new();
        let mut i: usize = 0;
        while i < self.items.len()
            invariant
                i <= self.items.len(),
                items.len() == i,
                forall|j: int| 0 <= j < i ==> items[j]@ == self.items[j]@,
            decreases self.items.len() - i,
        {
            items.push(self.items[i].duplicate());
            i += 1;
        }
        assert(views(items@) =~= views(self.items@));
        TraitDefinition {
            attrs: duplicate_attributes(&self.attrs),
            visibility: self.visibility.clone(),
            qualifiers: self.qualifiers.clone(),
            name: self.name.clone(),
            generics: self.generics.duplicate(),
            supertraits: self.supertraits.clone(),
            items,
        }
    }
}

/// What the parser made of the annotated input.
#[derive(Debug, PartialEq, Eq)]
pub enum Item {
    /// A free function.
    Function(Declaration),
    /// A trait definition.
    Trait(TraitDefinition),
    /// An implementation block.
    Impl(ImplBlock),
    /// An item of another kind, of which only the place is kept.
    Other(Span),
}

impl Item {
    /// A copy with the same text.
    pub fn duplicate(&self) -> (copy: Item)
        ensures
            copy@ == self@,
    {
        match self {
            Item::Function(function) => Item::Function(function.duplicate()),
            Item::Trait(definition) => Item::Trait(definition.duplicate()),
            Item::Impl(block) => Item::Impl(block.duplicate()),
            Item::Other(span) => Item::Other(*span),
        }
    }

    /// The item that a block is, whichever of the two kinds it was read as.
    pub fn from_scope(scope: Either<ImplBlock, TraitDefinition>) -> (item: Item)
        ensures
            item == match scope {
                Either::Left(block) => Item::Impl(block),
                Either::Right(definition) => Item::Trait(definition),
            },
    {
        match scope {
            Either::Left(block) => Item::Impl(block),
            Either::Right(definition) => Item::Trait(definition),
        }
    }
}

/// The view of [`Item`]: what it reads as, every text a sequence of characters.
pub enum ItemView {
    Function(DeclarationView),
    Trait(TraitDefinitionView),
    Impl(ImplBlockView),
    Other(Span),
}

impl View for Item {
    type V = ItemView;

    open spec fn view(&self) -> ItemView {
        match self {
            Item::Function(function) => ItemView::Function(function@),
            Item::Trait(definition) => ItemView::Trait(definition@),
            Item::Impl(block) => ItemView::Impl(block@),
            Item::Other(span) => ItemView::Other(*span),
        }
    }
}

} // verus!
