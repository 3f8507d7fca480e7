//! A function's declaration, and what its body becomes when it is split: a
//! helper that holds the body as it was written, and the call that forwards to
//! it.

use vstd::prelude::*;
use crate::syntax::{
    duplicate_optional_trait_info, duplicate_texts, optional_trait_info, views, Attribute,
    AttributeView, Generics, GenericsView, Signature, SignatureView, TraitInfo, TraitInfoView,
    TraitRef, TraitRefView,
};

verus! {

/// The call that hands the outer function's parameters on to the inner one.
///
/// Without a qualifier it reads `function::<generic_args>(args)`; with one,
/// `<Self as qualifier>::function::<generic_args>(args)`. Where `awaited` is
/// set, the call is followed by a suspension point.
#[derive(Clone, Debug, PartialEq, Eq)]
pub struct ForwardCall {
    pub qualifier: Option<TraitRef>,
    pub function: String,
    pub generic_args: Vec<String>,
    pub args: Vec<String>,
    pub awaited: bool,
}

/// The view of [`ForwardCall`]: what it reads as, every text a sequence of characters.
pub struct ForwardCallView {
    pub qualifier: Option<TraitRefView>,
    pub function: Seq<char>,
    pub generic_args: Seq<Seq<char>>,
    pub args: Seq<Seq<char>>,
    pub awaited: bool,
}

/// The view of a trait reference that may be absent.
pub open spec fn optional_trait_ref(reference: Option<TraitRef>) -> Option<TraitRefView> {
    match reference {
        Some(r) => Some(r@),
        None => None,
    }
}

impl View for ForwardCall {
    type V = ForwardCallView;

    open spec fn view(&self) -> ForwardCallView {
        ForwardCallView {
            qualifier: optional_trait_ref(self.qualifier),
            function: self.function@,
            generic_args: views(self.generic_args@),
            args: views(self.args@),
            awaited: self.awaited,
        }
    }
}

impl ForwardCall {
    /// A copy with the same text.
    pub fn duplicate(&self) -> (copy: ForwardCall)
        ensures
            copy@ == self@,
    {
        ForwardCall {
            qualifier: match &self.qualifier {
                Some(helper) => Some(helper.duplicate()),
                None => None,
            },
            function: self.function.clone(),
            generic_args: duplicate_texts(&self.generic_args),
            args: duplicate_texts(&self.args),
            awaited: self.awaited,
        }
    }
}

/// The declaration of the helper trait: its name, the generic parameters of
/// the enclosing block, the trait metadata of the context, and the signature
/// of its one method.
#[derive(Clone, Debug, PartialEq, Eq)]
pub struct HelperTrait {
    pub name: String,
    pub generics: Generics,
    pub trait_info: Option<TraitInfo>,
    pub method: Signature,
}

/// The view of [`HelperTrait`]: what it reads as, every text a sequence of characters.
pub struct HelperTraitView {
    pub name: Seq<char>,
    pub generics: GenericsView,
    pub trait_info: Option<TraitInfoView>,
    pub method: SignatureView,
}

impl View for HelperTrait {
    type V = HelperTraitView;

    open spec fn view(&self) -> HelperTraitView {
        HelperTraitView {
            name: self.name@,
            generics: self.generics@,
            trait_info: optional_trait_info(self.trait_info),
            method: self.method@,
        }
    }
}

impl HelperTrait {
    /// A copy with the same text.
    pub fn duplicate(&self) -> (copy: HelperTrait)
        ensures
            copy@ == self@,
    {
        HelperTrait {
            name: self.name.clone(),
            generics: self.generics.duplicate(),
            trait_info: duplicate_optional_trait_info(&self.trait_info),
            method: self.method.duplicate(),
        }
    }
}

/// The implementation of the helper trait for the enclosing block's type.
#[derive(Debug, PartialEq, Eq)]
pub struct HelperImpl {
    pub helper: TraitRef,
    pub generics: Generics,
    pub trait_info: Option<TraitInfo>,
    pub self_type: String,
    pub method: Declaration,
}

/// Where the former body goes: a nested function, or a helper trait with its
/// implementation.
#[derive(Debug, PartialEq, Eq)]
pub enum Helper {
    Function(Declaration),
    Trait(HelperTrait, HelperImpl),
}

/// The body of a function that was split.
#[derive(Debug, PartialEq, Eq)]
pub struct Forwarding {
    pub helper: Helper,
    pub call: ForwardCall,
}

/// The body of a function: its statements as written, or a forwarding.
#[derive(Debug, PartialEq, Eq)]
pub enum Body {
    Source(Vec<String>),
    Forwarding(Box<Forwarding>),
}

/// A function or a method with its body.
#[derive(Debug, PartialEq, Eq)]
pub struct Declaration {
    pub attrs: Vec<Attribute>,
    pub visibility: String,
    pub sig: Signature,
    pub body: Body,
}

/// The view of [`HelperImpl`]: what it reads as, every text a sequence of characters.
pub struct HelperImplView {
    pub helper: TraitRefView,
    pub generics: GenericsView,
    pub trait_info: Option<TraitInfoView>,
    pub self_type: Seq<char>,
    pub method: DeclarationView,
}

/// The view of [`Helper`]: what it reads as, every text a sequence of characters.
pub enum HelperView {
    Function(DeclarationView),
    Trait(HelperTraitView, HelperImplView),
}

/// The view of [`Forwarding`]: what it reads as, every text a sequence of characters.
pub struct ForwardingView {
    pub helper: HelperView,
    pub call: ForwardCallView,
}

/// The view of [`Body`]: what it reads as, every text a sequence of characters.
pub enum BodyView {
    Source(Seq<Seq<char>>),
    Forwarding(Box<ForwardingView>),
}

/// The view of [`Declaration`]: what it reads as, every text a sequence of characters.
pub struct DeclarationView {
    pub attrs: Seq<AttributeView>,
    pub visibility: Seq<char>,
    pub sig: SignatureView,
    pub body: BodyView,
}

/// The view of a declaration.
pub open spec fn declaration_view(declaration: Declaration) -> DeclarationView
    decreases declaration,
{
    DeclarationView {
        attrs: views(declaration.attrs@),
        visibility: declaration.visibility@,
        sig: declaration.sig@,
        body: body_view(declaration.body),
    }
}

/// The view of a body.
pub open spec fn body_view(body: Body) -> BodyView
    decreases body,
{
    match body {
        Body::Source(statements) => BodyView::Source(views(statements@)),
        Body::Forwarding(forwarding) => BodyView::Forwarding(
            Box::new(forwarding_view(*forwarding)),
        ),
    }
}

/// The view of a forwarding.
pub open spec fn forwarding_view(forwarding: Forwarding) -> ForwardingView
    decreases forwarding,
{
    ForwardingView { helper: helper_view(forwarding.helper), call: forwarding.call@ }
}

/// The view of a helper.
pub open spec fn helper_view(helper: Helper) -> HelperView
    decreases helper,
{
    match helper {
        Helper::Function(inner) => HelperView::Function(declaration_view(inner)),
        Helper::Trait(declared, implemented) => HelperView::Trait(
            declared@,
            helper_impl_view(implemented),
        ),
    }
}

/// The view of the implementation of a helper trait.
pub open spec fn helper_impl_view(implemented: HelperImpl) -> HelperImplView
    decreases implemented,
{
    HelperImplView {
        helper: implemented.helper@,
        generics: implemented.generics@,
        trait_info: optional_trait_info(implemented.trait_info),
        self_type: implemented.self_type@,
        method: declaration_view(implemented.method),
    }
}

impl View for HelperImpl {
    type V = HelperImplView;

    open spec fn view(&self) -> HelperImplView {
        helper_impl_view(*self)
    }
}

impl View for Helper {
    type V = HelperView;

    open spec fn view(&self) -> HelperView {
        helper_view(*self)
    }
}

impl View for Forwarding {
    type V = ForwardingView;

    open spec fn view(&self) -> ForwardingView {
        forwarding_view(*self)
    }
}

impl View for Body {
    type V = BodyView;

    open spec fn view(&self) -> BodyView {
        body_view(*self)
    }
}

impl View for Declaration {
    type V = DeclarationView;

    open spec fn view(&self) -> DeclarationView {
        declaration_view(*self)
    }
}

/// A copy of a list of attributes.
pub fn duplicate_attributes(attrs: &Vec<Attribute>) -> (copy: Vec<Attribute>)
    ensures
        views(copy@) == views(attrs@),
{
    let mut copy: Vec<Attribute> = Vec::new();
    let mut i: usize = 0;
    while i < attrs.len()
        invariant
            i <= attrs.len(),
            copy.len() == i,
            forall|j: int| 0 <= j < i ==> copy[j]@ == attrs[j]@,
        decreases attrs.len() - i,
    {
        copy.push(attrs[i].duplicate());
        i += 1;
    }
    assert(views(copy@) =~= views(attrs@));
    copy
}

impl Declaration {
    /// A copy with the same text, all the way down.
    pub fn duplicate(&self) -> (copy: Declaration)
        ensures
            copy@ == self@,
        decreases self,
    {
        Declaration {
            attrs: duplicate_attributes(&self.attrs),
            visibility: self.visibility.clone(),
            sig: self.sig.duplicate(),
            body: self.body.duplicate(),
        }
    }
}

impl Body {
    /// A copy with the same text, all the way down.
    pub fn duplicate(&self) -> (copy: Body)
        ensures
            copy@ == self@,
        decreases self,
    {
        match self {
            Body::Source(statements) => Body::Source(duplicate_texts(statements)),
            Body::Forwarding(forwarding) => Body::Forwarding(Box::new(forwarding.duplicate())),
        }
    }
}

impl Forwarding {
    /// A copy with the same text, all the way down.
    pub fn duplicate(&self) -> (copy: Forwarding)
        ensures
            copy@ == self@,
        decreases self,
    {
        Forwarding { helper: self.helper.duplicate(), call: self.call.duplicate() }
    }
}

impl Helper {
    /// A copy with the same text, all the way down.
    pub fn duplicate(&self) -> (copy: Helper)
        ensures
            copy@ == self@,
        decreases self,
    {
        match self {
            Helper::Function(inner) => Helper::Function(inner.duplicate()),
            Helper::Trait(declared, implemented) => Helper::Trait(
                declared.duplicate(),
                implemented.duplicate(),
            ),
        }
    }
}

impl HelperImpl {
    /// A copy with the same text, all the way down.
    pub fn duplicate(&self) -> (copy: HelperImpl)
        ensures
            copy@ == self@,
        decreases self,
    {
        HelperImpl {
            helper: self.helper.duplicate(),
            generics: self.generics.duplicate(),
            trait_info: duplicate_optional_trait_info(&self.trait_info),
            self_type: self.self_type.clone(),
            method: self.method.duplicate(),
        }
    }
}

} // verus!
