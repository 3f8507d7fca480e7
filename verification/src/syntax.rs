//! The parts of a function's declaration: attributes, generic parameters,
//! parameters and the signature that holds them.
//!
//! Whatever the rewrite does not look into (a type, a bound, a pattern that is
//! no plain name) is kept as the text it was written as. Each type has a view in
//! which every text is a sequence of characters; the contracts of this crate
//! are stated over those views.

use vstd::prelude::*;

verus! {

/// The views of the items of a sequence, in the same order.
pub open spec fn views<T: View>(items: Seq<T>) -> Seq<T::V> {
    items.map_values(|item: T| item@)
}

/// A stretch of the source text, from one byte offset up to another.
#[derive(Clone, Copy, Debug, PartialEq, Eq, Structural)]
pub struct Span {
    pub start: usize,
    pub end: usize,
}

/// The span that stands for the place where the transformation was invoked.
pub open spec fn call_site() -> Span {
    Span { start: 0, end: 0 }
}

impl Span {
    /// The place where the transformation was invoked.
    pub fn call_site() -> (span: Span)
        ensures
            span == call_site(),
    {
        Span { start: 0, end: 0 }
    }
}

/// One token of the arguments handed to the transformation itself.
#[derive(Clone, Debug, PartialEq, Eq)]
pub struct Token {
    pub text: String,
    pub span: Span,
}

/// An attribute on a declaration: its path and what follows the path.
#[derive(Clone, Debug, PartialEq, Eq)]
pub struct Attribute {
    pub path: String,
    pub arguments: String,
}

/// The view of [`Attribute`]: what it reads as, every text a sequence of characters.
pub struct AttributeView {
    pub path: Seq<char>,
    pub arguments: Seq<char>,
}

impl View for Attribute {
    type V = AttributeView;

    open spec fn view(&self) -> AttributeView {
        AttributeView { path: self.path@, arguments: self.arguments@ }
    }
}

impl Attribute {
    /// A copy with the same text.
    pub fn duplicate(&self) -> (copy: Attribute)
        ensures
            copy@ == self@,
    {
        Attribute { path: self.path.clone(), arguments: self.arguments.clone() }
    }
}

/// What a generic parameter stands for.
#[derive(Clone, Copy, Debug, PartialEq, Eq, Structural)]
pub enum GenericKind {
    Lifetime,
    Type,
    Const,
}

/// A generic parameter: its kind, its name, its bounds (for a constant, its
/// type) and its default, the last two empty where there is none.
#[derive(Clone, Debug, PartialEq, Eq)]
pub struct GenericParam {
    pub kind: GenericKind,
    pub name: String,
    pub bounds: String,
    pub default: String,
}

/// The view of [`GenericParam`]: what it reads as, every text a sequence of characters.
pub struct GenericParamView {
    pub kind: GenericKind,
    pub name: Seq<char>,
    pub bounds: Seq<char>,
    pub default: Seq<char>,
}

impl View for GenericParam {
    type V = GenericParamView;

    open spec fn view(&self) -> GenericParamView {
        GenericParamView {
            kind: self.kind,
            name: self.name@,
            bounds: self.bounds@,
            default: self.default@,
        }
    }
}

impl GenericParam {
    /// A copy with the same text.
    pub fn duplicate(&self) -> (copy: GenericParam)
        ensures
            copy@ == self@,
    {
        GenericParam {
            kind: self.kind,
            name: self.name.clone(),
            bounds: self.bounds.clone(),
            default: self.default.clone(),
        }
    }
}

/// The generic parameters of a declaration or a block, with its `where` clause.
#[derive(Clone, Debug, PartialEq, Eq)]
pub struct Generics {
    pub params: Vec<GenericParam>,
    pub where_clause: String,
}

/// The view of [`Generics`]: what it reads as, every text a sequence of characters.
pub struct GenericsView {
    pub params: Seq<GenericParamView>,
    pub where_clause: Seq<char>,
}

impl View for Generics {
    type V = GenericsView;

    open spec fn view(&self) -> GenericsView {
        GenericsView { params: views(self.params@), where_clause: self.where_clause@ }
    }
}

impl Generics {
    /// A copy with the same parameters and the same `where` clause.
    pub fn duplicate(&self) -> (copy: Generics)
        ensures
            copy@ == self@,
    {
        let mut params: Vec<GenericParam> = Vec::new();
        let mut i: usize = 0;
        while i < self.params.len()
            invariant
                i <= self.params.len(),
                params.len() == i,
                forall|j: int| 0 <= j < i ==> params[j]@ == self.params[j]@,
            decreases self.params.len() - i,
        {
            params.push(self.params[i].duplicate());
            i += 1;
        }
        assert(views(params@) =~= views(self.params@));
        Generics { params, where_clause: self.where_clause.clone() }
    }
}

/// The pattern that binds a parameter.
#[derive(Clone, Debug, PartialEq, Eq)]
pub enum Pattern {
    /// A plain name, with what is written in front of it (`mut`, `ref`).
    Binding { qualifiers: String, name: String, span: Span },
    /// Any other pattern, as written.
    Other { tokens: String, span: Span },
}

/// The view of [`Pattern`]: what it reads as, every text a sequence of characters.
pub enum PatternView {
    Binding { qualifiers: Seq<char>, name: Seq<char>, span: Span },
    Other { tokens: Seq<char>, span: Span },
}

impl PatternView {
    /// Where the pattern stands in the source.
    pub open spec fn span(self) -> Span {
        match self {
            PatternView::Binding { span, .. } => span,
            PatternView::Other { span, .. } => span,
        }
    }
}

impl View for Pattern {
    type V = PatternView;

    open spec fn view(&self) -> PatternView {
        match self {
            Pattern::Binding { qualifiers, name, span } => PatternView::Binding {
                qualifiers: qualifiers@,
                name: name@,
                span: *span,
            },
            Pattern::Other { tokens, span } => PatternView::Other { tokens: tokens@, span: *span },
        }
    }
}

impl Pattern {
    /// A copy with the same text.
    pub fn duplicate(&self) -> (copy: Pattern)
        ensures
            copy@ == self@,
    {
        match self {
            Pattern::Binding { qualifiers, name, span } => Pattern::Binding {
                qualifiers: qualifiers.clone(),
                name: name.clone(),
                span: *span,
            },
            Pattern::Other { tokens, span } => Pattern::Other {
                tokens: tokens.clone(),
                span: *span,
            },
        }
    }

    /// Where the pattern stands in the source.
    pub fn span(&self) -> (span: Span)
        ensures
            span == self@.span(),
    {
        match self {
            Pattern::Binding { span, .. } => *span,
            Pattern::Other { span, .. } => *span,
        }
    }
}

/// A parameter of a function: the receiver in its short form, or a pattern
/// with its type.
#[derive(Clone, Debug, PartialEq, Eq)]
pub enum Parameter {
    /// `self`, `&self`, `&mut self`: the receiver without a type of its own.
    Receiver { tokens: String, span: Span },
    /// A pattern and the type of what it binds.
    Typed { pattern: Pattern, ty: String, ty_span: Span },
}

/// The view of [`Parameter`]: what it reads as, every text a sequence of characters.
pub enum ParameterView {
    Receiver { tokens: Seq<char>, span: Span },
    Typed { pattern: PatternView, ty: Seq<char>, ty_span: Span },
}

impl View for Parameter {
    type V = ParameterView;

    open spec fn view(&self) -> ParameterView {
        match self {
            Parameter::Receiver { tokens, span } => ParameterView::Receiver {
                tokens: tokens@,
                span: *span,
            },
            Parameter::Typed { pattern, ty, ty_span } => ParameterView::Typed {
                pattern: pattern@,
                ty: ty@,
                ty_span: *ty_span,
            },
        }
    }
}

impl Parameter {
    /// A copy with the same text.
    pub fn duplicate(&self) -> (copy: Parameter)
        ensures
            copy@ == self@,
    {
        match self {
            Parameter::Receiver { tokens, span } => Parameter::Receiver {
                tokens: tokens.clone(),
                span: *span,
            },
            Parameter::Typed { pattern, ty, ty_span } => Parameter::Typed {
                pattern: pattern.duplicate(),
                ty: ty.clone(),
                ty_span: *ty_span,
            },
        }
    }
}

/// The signature of a function: its markers, its name, its generic
/// parameters, its parameters in order and its return type (empty where none
/// is written).
#[derive(Clone, Debug, PartialEq, Eq)]
pub struct Signature {
    pub constness: bool,
    pub asyncness: bool,
    pub unsafety: bool,
    pub abi: Option<String>,
    pub name: String,
    pub generics: Generics,
    pub inputs: Vec<Parameter>,
    pub output: String,
}

/// The view of [`Signature`]: what it reads as, every text a sequence of characters.
pub struct SignatureView {
    pub constness: bool,
    pub asyncness: bool,
    pub unsafety: bool,
    pub abi: Option<Seq<char>>,
    pub name: Seq<char>,
    pub generics: GenericsView,
    pub inputs: Seq<ParameterView>,
    pub output: Seq<char>,
}

/// The view of a text that may be absent.
pub open spec fn optional_text(text: Option<String>) -> Option<Seq<char>> {
    match text {
        Some(t) => Some(t@),
        None => None,
    }
}

impl View for Signature {
    type V = SignatureView;

    open spec fn view(&self) -> SignatureView {
        SignatureView {
            constness: self.constness,
            asyncness: self.asyncness,
            unsafety: self.unsafety,
            abi: optional_text(self.abi),
            name: self.name@,
            generics: self.generics@,
            inputs: views(self.inputs@),
            output: self.output@,
        }
    }
}

/// A copy of a text that may be absent.
pub fn duplicate_optional_text(text: &Option<String>) -> (copy: Option<String>)
    ensures
        optional_text(copy) == optional_text(*text),
{
    match text {
        Some(t) => Some(t.clone()),
        None => None,
    }
}

/// A copy of a list of texts.
pub fn duplicate_texts(texts: &Vec<String>) -> (copy: Vec<String>)
    ensures
        views(copy@) == views(texts@),
{
    let mut copy: Vec<String> = Vec::new();
    let mut i: usize = 0;
    while i < texts.len()
        invariant
            i <= texts.len(),
            copy.len() == i,
            forall|j: int| 0 <= j < i ==> copy[j]@ == texts[j]@,
        decreases texts.len() - i,
    {
        copy.push(texts[i].clone());
        i += 1;
    }
    copy
}

/// A copy of a list of parameters.
pub fn duplicate_parameters(inputs: &Vec<Parameter>) -> (copy: Vec<Parameter>)
    ensures
        views(copy@) == views(inputs@),
{
    let mut copy: Vec<Parameter> = Vec::new();
    let mut i: usize = 0;
    while i < inputs.len()
        invariant
            i <= inputs.len(),
            copy.len() == i,
            forall|j: int| 0 <= j < i ==> copy[j]@ == inputs[j]@,
        decreases inputs.len() - i,
    {
        copy.push(inputs[i].duplicate());
        i += 1;
    }
    copy
}

impl Signature {
    /// A copy with the same markers and the same text.
    pub fn duplicate(&self) -> (copy: Signature)
        ensures
            copy@ == self@,
    {
        Signature {
            constness: self.constness,
            asyncness: self.asyncness,
            unsafety: self.unsafety,
            abi: duplicate_optional_text(&self.abi),
            name: self.name.clone(),
            generics: self.generics.duplicate(),
            inputs: duplicate_parameters(&self.inputs),
            output: self.output.clone(),
        }
    }
}

/// A trait applied to generic arguments: `path<args>`, or the bare path where
/// there are no arguments.
#[derive(Clone, Debug, PartialEq, Eq)]
pub struct TraitRef {
    pub path: String,
    pub args: Vec<String>,
}

/// The view of [`TraitRef`]: what it reads as, every text a sequence of characters.
pub struct TraitRefView {
    pub path: Seq<char>,
    pub args: Seq<Seq<char>>,
}

impl View for TraitRef {
    type V = TraitRefView;

    open spec fn view(&self) -> TraitRefView {
        TraitRefView { path: self.path@, args: views(self.args@) }
    }
}

impl TraitRef {
    /// A copy with the same text.
    pub fn duplicate(&self) -> (copy: TraitRef)
        ensures
            copy@ == self@,
    {
        TraitRef { path: self.path.clone(), args: duplicate_texts(&self.args) }
    }
}

/// What a method's context knows of the trait it belongs to: the bound that
/// the helper trait takes over as its supertrait and, for a method of a trait
/// definition, the name of the type parameter that stands for the implementing
/// type; that parameter is bounded by `bound`.
#[derive(Clone, Debug, PartialEq, Eq)]
pub struct TraitInfo {
    pub bound: TraitRef,
    pub self_param: Option<String>,
}

/// The view of [`TraitInfo`]: what it reads as, every text a sequence of characters.
pub struct TraitInfoView {
    pub bound: TraitRefView,
    pub self_param: Option<Seq<char>>,
}

impl View for TraitInfo {
    type V = TraitInfoView;

    open spec fn view(&self) -> TraitInfoView {
        TraitInfoView { bound: self.bound@, self_param: optional_text(self.self_param) }
    }
}

impl TraitInfo {
    /// A copy with the same text.
    pub fn duplicate(&self) -> (copy: TraitInfo)
        ensures
            copy@ == self@,
    {
        TraitInfo {
            bound: self.bound.duplicate(),
            self_param: duplicate_optional_text(&self.self_param),
        }
    }
}

/// The view of trait metadata that may be absent.
pub open spec fn optional_trait_info(info: Option<TraitInfo>) -> Option<TraitInfoView> {
    match info {
        Some(t) => Some(t@),
        None => None,
    }
}

/// A copy of trait metadata that may be absent.
pub fn duplicate_optional_trait_info(info: &Option<TraitInfo>) -> (copy: Option<TraitInfo>)
    ensures
        optional_trait_info(copy) == optional_trait_info(*info),
{
    match info {
        Some(t) => Some(t.duplicate()),
        None => None,
    }
}

} // verus!
