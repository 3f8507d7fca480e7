//! What the rewrite of a method has to know of the block around it.

use vstd::prelude::*;
use crate::item::{ImplBlock, ImplBlockView, TraitDefinition, TraitDefinitionView};
use crate::names::{placeholder, placeholder_name};
use crate::syntax::{
    optional_trait_info, views, GenericParam, GenericParamView, Generics, GenericsView,
    TraitInfo, TraitInfoView, TraitRef, TraitRefView,
};

verus! {

/// The context of a method: the generic parameters of the enclosing block,
/// the type that the helper trait is implemented for, and what is known of
/// the trait, if the block has one.
#[derive(Clone, Debug, PartialEq, Eq)]
pub struct MethodContext {
    pub generics: Generics,
    pub self_type: String,
    pub trait_info: Option<TraitInfo>,
}

/// The view of [`MethodContext`]: what it reads as, every text a sequence of characters.
pub struct MethodContextView {
    pub generics: GenericsView,
    pub self_type: Seq<char>,
    pub trait_info: Option<TraitInfoView>,
}

impl View for MethodContext {
    type V = MethodContextView;

    open spec fn view(&self) -> MethodContextView {
        MethodContextView {
            generics: self.generics@,
            self_type: self.self_type@,
            trait_info: optional_trait_info(self.trait_info),
        }
    }
}

/// The view of a context that may be absent.
pub open spec fn optional_context(context: Option<&MethodContext>) -> Option<MethodContextView> {
    match context {
        Some(c) => Some(c@),
        None => None,
    }
}

/// The names of generic parameters, in the order of their declaration.
pub open spec fn generic_names(params: Seq<GenericParamView>) -> Seq<Seq<char>> {
    Seq::new(params.len(), |i: int| params[i].name)
}

/// A generic parameter as it is declared again elsewhere: without its default.
pub open spec fn without_default(param: GenericParamView) -> GenericParamView {
    GenericParamView { default: Seq::empty(), ..param }
}

/// Generic parameters as they are declared again elsewhere.
pub open spec fn without_defaults(params: Seq<GenericParamView>) -> Seq<GenericParamView> {
    Seq::new(params.len(), |i: int| without_default(params[i]))
}

/// The context that an implementation block gives its methods: its generic
/// parameters and its type, and the implemented trait as the bound.
pub open spec fn impl_context(block: ImplBlockView) -> MethodContextView {
    MethodContextView {
        generics: block.generics,
        self_type: block.self_type,
        trait_info: match block.trait_path {
            Some(path) => Some(
                TraitInfoView {
                    bound: TraitRefView { path, args: Seq::empty() },
                    self_param: None,
                },
            ),
            None => None,
        },
    }
}

/// The context that a trait definition gives its default methods. There is
/// no type yet, so a placeholder stands for it, bounded by the trait applied
/// to its own parameters.
pub open spec fn trait_context(definition: TraitDefinitionView) -> MethodContextView {
    MethodContextView {
        generics: GenericsView {
            params: without_defaults(definition.generics.params),
            where_clause: definition.generics.where_clause,
        },
        self_type: placeholder_name(),
        trait_info: Some(
            TraitInfoView {
                bound: TraitRefView {
                    path: definition.name,
                    args: generic_names(definition.generics.params),
                },
                self_param: Some(placeholder_name()),
            },
        ),
    }
}

/// The names of the given generic parameters, in order.
pub fn names_of(params: &Vec<GenericParam>) -> (names: Vec<String>)
    ensures
        views(names@) == generic_names(views(params@)),
{
    let mut names: Vec<String> = Vec::new();
    let mut i: usize = 0;
    while i < params.len()
        invariant
            i <= params.len(),
            names.len() == i,
            forall|j: int| 0 <= j < i ==> names[j]@ == params[j]@.name,
        decreases params.len() - i,
    {
        names.push(params[i].name.clone());
        i += 1;
    }
    names
}

fn strip_defaults(params: &Vec<GenericParam>) -> (stripped: Vec<GenericParam>)
    ensures
        views(stripped@) == without_defaults(views(params@)),
{
    let mut stripped: Vec<GenericParam> = Vec::new();
    let mut i: usize = 0;
    while i < params.len()
        invariant
            i <= params.len(),
            stripped.len() == i,
            forall|j: int| 0 <= j < i ==> stripped[j]@ == without_default(params[j]@),
        decreases params.len() - i,
    {
        let param = &params[i];
        stripped.push(
            GenericParam {
                kind: param.kind,
                name: param.name.clone(),
                bounds: param.bounds.clone(),
                default: String::new(),
            },
        );
        i += 1;
    }
    stripped
}

impl MethodContext {
    /// The context of the methods of an implementation block.
    pub fn for_impl(block: &ImplBlock) -> (context: MethodContext)
        ensures
            context@ == impl_context(block@),
    {
        let trait_info = match &block.trait_path {
            Some(path) => {
                let args: Vec<String> = Vec::new();
                assert(views(args@) =~= Seq::<Seq<char>>::empty());
                Some(TraitInfo { bound: TraitRef { path: path.clone(), args }, self_param: None })
            },
            None => None,
        };
        MethodContext {
            generics: block.generics.duplicate(),
            self_type: block.self_type.clone(),
            trait_info,
        }
    }

    /// The context of the default methods of a trait definition.
    pub fn for_trait(definition: &TraitDefinition) -> (context: MethodContext)
        ensures
            context@ == trait_context(definition@),
    {
        let bound = TraitRef {
            path: definition.name.clone(),
            args: names_of(&definition.generics.params),
        };
        MethodContext {
            generics: Generics {
                params: strip_defaults(&definition.generics.params),
                where_clause: definition.generics.where_clause.clone(),
            },
            self_type: placeholder(),
            trait_info: Some(TraitInfo { bound, self_param: Some(placeholder()) }),
        }
    }
}

} // verus!
