use require_unsafe_in_body::context::MethodContext;
use require_unsafe_in_body::declaration::{
    Body, Declaration, ForwardCall, Forwarding, Helper, HelperImpl, HelperTrait,
};
use require_unsafe_in_body::error::{ErrorKind, Shape, TransformError};
use require_unsafe_in_body::item::{ImplBlock, ImplItem, Item, TraitDefinition, TraitItem};
use require_unsafe_in_body::{require_unsafe_in_bodies, require_unsafe_in_body};
use require_unsafe_in_body::rewrite::edit_function_in_place;
use require_unsafe_in_body::scope::{rewrite_impl, rewrite_trait};
use require_unsafe_in_body::syntax::{
    Attribute, GenericKind, GenericParam, Generics, Parameter, Pattern, Signature, Span, Token,
    TraitInfo, TraitRef,
};

const INNER: &str = "__require_unsafe_inner";
const HELPER: &str = "__RequireUnsafeHelper";

fn s(text: &str) -> String {
    text.to_string()
}

fn at(n: usize) -> Span {
    Span { start: n, end: n + 1 }
}

fn binding(name: &str, place: usize) -> Pattern {
    Pattern::Binding { qualifiers: String::new(), name: s(name), span: at(place) }
}

fn typed(name: &str, ty: &str, place: usize) -> Parameter {
    Parameter::Typed { pattern: binding(name, place), ty: s(ty), ty_span: at(place + 100) }
}

fn wildcard(ty: &str, place: usize) -> Parameter {
    Parameter::Typed {
        pattern: Pattern::Other { tokens: s("_"), span: at(place) },
        ty: s(ty),
        ty_span: at(place + 100),
    }
}

fn generic(kind: GenericKind, name: &str, bounds: &str) -> GenericParam {
    GenericParam { kind, name: s(name), bounds: s(bounds), default: String::new() }
}

fn generics(params: Vec<GenericParam>, where_clause: &str) -> Generics {
    Generics { params, where_clause: s(where_clause) }
}

fn always_inline() -> Attribute {
    Attribute { path: s("inline"), arguments: s("(always)") }
}

fn helper_ref(args: &[&str]) -> TraitRef {
    TraitRef { path: s(HELPER), args: args.iter().map(|a| s(a)).collect() }
}

fn my_read_signature(name: &str, unsafety: bool, second: Parameter) -> Signature {
    Signature {
        constness: false,
        asyncness: false,
        unsafety,
        abi: None,
        name: s(name),
        generics: generics(vec![generic(GenericKind::Type, "U", "")], "where U : Copy"),
        inputs: vec![typed("self", "& '_ Self", 1), second],
        output: s("U"),
    }
}

fn read_body() -> Body {
    Body::Source(vec![s("unsafe { :: core :: ptr :: read (p) }")])
}

// unsafe fn my_read<U>(self: &'_ Self, p: *const U) -> U where U: Copy
fn my_read(visibility: &str) -> Declaration {
    Declaration {
        attrs: vec![],
        visibility: s(visibility),
        sig: my_read_signature("my_read", true, typed("p", "* const U", 2)),
        body: read_body(),
    }
}

fn forwarded_parameter() -> Parameter {
    Parameter::Typed { pattern: binding("arg_0", 2), ty: s("* const U"), ty_span: at(102) }
}

fn my_read_inner() -> Declaration {
    Declaration {
        attrs: vec![always_inline()],
        visibility: String::new(),
        sig: my_read_signature(INNER, false, typed("p", "* const U", 2)),
        body: read_body(),
    }
}

fn my_read_rewritten(
    visibility: &str,
    scope_generics: Generics,
    trait_info: Option<TraitInfo>,
    self_type: &str,
    in_impl: &[&str],
    in_call: &[&str],
) -> Declaration {
    Declaration {
        attrs: vec![],
        visibility: s(visibility),
        sig: my_read_signature("my_read", true, forwarded_parameter()),
        body: Body::Forwarding(Box::new(Forwarding {
            helper: Helper::Trait(
                HelperTrait {
                    name: s(HELPER),
                    generics: scope_generics.clone(),
                    trait_info: trait_info.clone(),
                    method: my_read_signature(INNER, false, forwarded_parameter()),
                },
                HelperImpl {
                    helper: helper_ref(in_impl),
                    generics: scope_generics,
                    trait_info,
                    self_type: s(self_type),
                    method: my_read_inner(),
                },
            ),
            call: ForwardCall {
                qualifier: Some(helper_ref(in_call)),
                function: s(INNER),
                generic_args: vec![s("U")],
                args: vec![s("self"), s("arg_0")],
                awaited: false,
            },
        })),
    }
}

fn outer_names(method: &Declaration) -> Vec<String> {
    method
        .sig
        .inputs
        .iter()
        .map(|parameter| match parameter {
            Parameter::Receiver { .. } => s("self"),
            Parameter::Typed { pattern: Pattern::Binding { name, .. }, .. } => name.clone(),
            Parameter::Typed { pattern: Pattern::Other { tokens, .. }, .. } => tokens.clone(),
        })
        .collect()
}

fn inner_of(method: &Declaration) -> (&Declaration, &ForwardCall) {
    match &method.body {
        Body::Forwarding(forwarding) => match &forwarding.helper {
            Helper::Function(inner) => (inner, &forwarding.call),
            Helper::Trait(_, implemented) => (&implemented.method, &forwarding.call),
        },
        Body::Source(_) => panic!("the method was not split"),
    }
}

// What the inner function finds bound to `pattern` when the outer function is
// called with `values`, one for each of its parameters.
fn received(method: &Declaration, values: &[i32], pattern: &str) -> i32 {
    let names = outer_names(method);
    assert_eq!(names.len(), values.len());
    let (inner, call) = inner_of(method);
    assert_eq!(call.args.len(), inner.sig.inputs.len());
    for (position, parameter) in inner.sig.inputs.iter().enumerate() {
        if let Parameter::Typed { pattern: Pattern::Binding { name, .. }, .. } = parameter {
            if name == pattern {
                let passed = &call.args[position];
                let source = names.iter().position(|n| n == passed).unwrap();
                return values[source];
            }
        }
    }
    panic!("the inner function binds no such name");
}

// impl<T> Foo<T> { pub unsafe fn my_read<U>(..) }
fn inherent_block() -> ImplBlock {
    ImplBlock {
        attrs: vec![],
        qualifiers: String::new(),
        generics: generics(vec![generic(GenericKind::Type, "T", "")], ""),
        trait_path: None,
        self_type: s("Foo < T >"),
        items: vec![ImplItem::Method(my_read("pub"))],
    }
}

// impl<T> MyRead for Foo<T> { unsafe fn my_read<U>(..) }
fn trait_block() -> ImplBlock {
    ImplBlock {
        attrs: vec![],
        qualifiers: String::new(),
        generics: generics(vec![generic(GenericKind::Type, "T", "")], ""),
        trait_path: Some(s("MyRead")),
        self_type: s("Foo < T >"),
        items: vec![ImplItem::Method(my_read(""))],
    }
}

fn unused_signature() -> Signature {
    Signature {
        constness: false,
        asyncness: false,
        unsafety: false,
        abi: None,
        name: s("unused"),
        generics: generics(vec![], ""),
        inputs: vec![],
        output: String::new(),
    }
}

// pub trait MyRead { unsafe fn my_read<U>(..) { .. }  fn unused(); }
fn my_read_trait() -> TraitDefinition {
    TraitDefinition {
        attrs: vec![],
        visibility: s("pub"),
        qualifiers: String::new(),
        name: s("MyRead"),
        generics: generics(vec![], ""),
        supertraits: String::new(),
        items: vec![
            TraitItem::Provided(my_read("")),
            TraitItem::Required { attrs: vec![], sig: unused_signature() },
        ],
    }
}

#[test]
fn impl_method_main() {
    let x = 42;
    let output = require_unsafe_in_bodies(&vec![], Ok(Item::Impl(inherent_block())));
    let block = match output {
        Ok(Item::Impl(block)) => block,
        other => panic!("unexpected outcome: {:?}", other),
    };
    let method = match &block.items[0] {
        ImplItem::Method(method) => method,
        other => panic!("unexpected member: {:?}", other),
    };
    let scope = generics(vec![generic(GenericKind::Type, "T", "")], "");
    assert_eq!(*method, my_read_rewritten("pub", scope, None, "Foo < T >", &["T"], &["T"]));
    // foo.my_read(&x): what the body reads through `p` is what the caller passed
    assert_eq!(received(method, &[0, x], "p"), 42);
}

#[test]
fn impl_method_2_main() {
    let x = 42;
    let output = require_unsafe_in_bodies(&vec![], Ok(Item::Impl(trait_block())));
    let block = match output {
        Ok(Item::Impl(block)) => block,
        other => panic!("unexpected outcome: {:?}", other),
    };
    let method = match &block.items[0] {
        ImplItem::Method(method) => method,
        other => panic!("unexpected member: {:?}", other),
    };
    let scope = generics(vec![generic(GenericKind::Type, "T", "")], "");
    let info = TraitInfo { bound: TraitRef { path: s("MyRead"), args: vec![] }, self_param: None };
    assert_eq!(*method, my_read_rewritten("", scope, Some(info), "Foo < T >", &["T"], &["T"]));
    assert_eq!(received(method, &[0, x], "p"), 42);
}

#[test]
fn trait_default_method_main() {
    let x = 42;
    let output = require_unsafe_in_bodies(&vec![], Ok(Item::Trait(my_read_trait())));
    let definition = match output {
        Ok(Item::Trait(definition)) => definition,
        other => panic!("unexpected outcome: {:?}", other),
    };
    assert_eq!(definition.items.len(), 2);
    let method = match &definition.items[0] {
        TraitItem::Provided(method) => method,
        other => panic!("unexpected member: {:?}", other),
    };
    let info = TraitInfo {
        bound: TraitRef { path: s("MyRead"), args: vec![] },
        self_param: Some(s("__Self")),
    };
    assert_eq!(
        *method,
        my_read_rewritten("", generics(vec![], ""), Some(info), "__Self", &["__Self"], &["Self"])
    );
    // the method without a body is as it was
    assert_eq!(
        definition.items[1],
        TraitItem::Required { attrs: vec![], sig: unused_signature() }
    );
    assert_eq!(received(method, &[0, x], "p"), 42);
}

#[test]
fn scope_transform_keeps_the_rest_of_the_block() {
    let mut block = trait_block();
    block.attrs.push(Attribute { path: s("doc"), arguments: s("= \"reads\"") });
    block.qualifiers = s("unsafe");
    block.items.insert(0, ImplItem::Other(s("type U = i32 ;")));
    rewrite_impl(&mut block);
    assert_eq!(block.attrs, vec![Attribute { path: s("doc"), arguments: s("= \"reads\"") }]);
    assert_eq!(block.qualifiers, "unsafe");
    assert_eq!(block.trait_path, Some(s("MyRead")));
    assert_eq!(block.self_type, "Foo < T >");
    assert_eq!(block.generics, generics(vec![generic(GenericKind::Type, "T", "")], ""));
    assert_eq!(block.items.len(), 2);
    assert_eq!(block.items[0], ImplItem::Other(s("type U = i32 ;")));
    assert!(matches!(&block.items[1], ImplItem::Method(m) if matches!(m.body, Body::Forwarding(_))));
}

#[test]
fn scope_transform_leaves_safe_methods_alone() {
    let mut safe = my_read("");
    safe.sig.unsafety = false;
    let mut expected = my_read("");
    expected.sig.unsafety = false;
    let mut block = trait_block();
    block.items = vec![ImplItem::Method(safe), ImplItem::Method(my_read(""))];
    rewrite_impl(&mut block);
    assert_eq!(block.items[0], ImplItem::Method(expected));
    assert!(matches!(&block.items[1], ImplItem::Method(m) if matches!(m.body, Body::Forwarding(_))));
}

#[test]
fn members_keep_their_order() {
    let mut first = my_read("");
    first.sig.name = s("first");
    let mut second = my_read("");
    second.sig.name = s("second");
    let mut definition = my_read_trait();
    definition.items = vec![
        TraitItem::Provided(first),
        TraitItem::Other(s("type Arg ;")),
        TraitItem::Provided(second),
    ];
    rewrite_trait(&mut definition);
    let names: Vec<String> = definition
        .items
        .iter()
        .map(|item| match item {
            TraitItem::Provided(method) => method.sig.name.clone(),
            TraitItem::Required { sig, .. } => sig.name.clone(),
            TraitItem::Other(tokens) => tokens.clone(),
        })
        .collect();
    assert_eq!(names, vec![s("first"), s("type Arg ;"), s("second")]);
}

// trait Foo<T> { type Arg; unsafe fn foo<U>(self: &'_ Self, x: T, y: U, arg: Self::Arg) {} }
#[test]
fn basic_require_unsafe_in_bodies_default_method() {
    let foo = Declaration {
        attrs: vec![],
        visibility: String::new(),
        sig: Signature {
            constness: false,
            asyncness: false,
            unsafety: true,
            abi: None,
            name: s("foo"),
            generics: generics(vec![generic(GenericKind::Type, "U", "")], ""),
            inputs: vec![
                typed("self", "& '_ Self", 1),
                typed("x", "T", 2),
                typed("y", "U", 3),
                typed("arg", "Self :: Arg", 4),
            ],
            output: String::new(),
        },
        body: Body::Source(vec![]),
    };
    let mut definition = TraitDefinition {
        attrs: vec![],
        visibility: String::new(),
        qualifiers: String::new(),
        name: s("Foo"),
        generics: generics(vec![generic(GenericKind::Type, "T", "")], ""),
        supertraits: String::new(),
        items: vec![TraitItem::Other(s("type Arg ;")), TraitItem::Provided(foo)],
    };
    rewrite_trait(&mut definition);
    let method = match &definition.items[1] {
        TraitItem::Provided(method) => method,
        other => panic!("unexpected member: {:?}", other),
    };
    assert!(method.sig.unsafety);
    assert_eq!(outer_names(method), vec![s("self"), s("arg_0"), s("arg_1"), s("arg_2")]);
    let forwarding = match &method.body {
        Body::Forwarding(forwarding) => forwarding,
        other => panic!("unexpected body: {:?}", other),
    };
    assert_eq!(
        forwarding.call,
        ForwardCall {
            qualifier: Some(helper_ref(&["T", "Self"])),
            function: s(INNER),
            generic_args: vec![s("U")],
            args: vec![s("self"), s("arg_0"), s("arg_1"), s("arg_2")],
            awaited: false,
        }
    );
    let (declared, implemented) = match &forwarding.helper {
        Helper::Trait(declared, implemented) => (declared, implemented),
        other => panic!("unexpected helper: {:?}", other),
    };
    let bound = TraitInfo {
        bound: TraitRef { path: s("Foo"), args: vec![s("T")] },
        self_param: Some(s("__Self")),
    };
    assert_eq!(declared.name, HELPER);
    assert_eq!(declared.generics, generics(vec![generic(GenericKind::Type, "T", "")], ""));
    assert_eq!(declared.trait_info, Some(bound.clone()));
    assert_eq!(declared.method.name, INNER);
    assert!(!declared.method.unsafety);
    assert_eq!(implemented.helper, helper_ref(&["T", "__Self"]));
    assert_eq!(implemented.trait_info, Some(bound));
    assert_eq!(implemented.self_type, "__Self");
    assert_eq!(implemented.method.sig.name, INNER);
    assert!(!implemented.method.sig.unsafety);
    assert_eq!(
        implemented.method.sig.inputs,
        vec![
            typed("self", "& '_ Self", 1),
            typed("x", "T", 2),
            typed("y", "U", 3),
            typed("arg", "Self :: Arg", 4),
        ]
    );
    assert_eq!(implemented.method.body, Body::Source(vec![]));
}

// impl<T: Copy> Trait for Foo<T> { type U = i32; unsafe fn make<K>(_: Self::U) -> Self { .. } }
#[test]
fn basic_require_unsafe_in_bodies_impl_trait() {
    let body = Body::Source(vec![s("unsafe { :: core :: ptr :: read (:: core :: ptr :: null :: < Self > ()) }")]);
    let make = Declaration {
        attrs: vec![],
        visibility: String::new(),
        sig: Signature {
            constness: false,
            asyncness: false,
            unsafety: true,
            abi: None,
            name: s("make"),
            generics: generics(vec![generic(GenericKind::Type, "K", "")], ""),
            inputs: vec![wildcard("Self :: U", 1)],
            output: s("Self"),
        },
        body,
    };
    let scope = generics(vec![generic(GenericKind::Type, "T", "Copy")], "");
    let block = ImplBlock {
        attrs: vec![],
        qualifiers: String::new(),
        generics: scope.clone(),
        trait_path: Some(s("Trait")),
        self_type: s("Foo < T >"),
        items: vec![ImplItem::Other(s("type U = i32 ;")), ImplItem::Method(make)],
    };
    let output = require_unsafe_in_bodies(&vec![], Ok(Item::Impl(block)));
    let block = match output {
        Ok(Item::Impl(block)) => block,
        other => panic!("unexpected outcome: {:?}", other),
    };
    let method = match &block.items[1] {
        ImplItem::Method(method) => method,
        other => panic!("unexpected member: {:?}", other),
    };
    assert_eq!(
        method.sig.inputs,
        vec![Parameter::Typed { pattern: binding("arg_0", 1), ty: s("Self :: U"), ty_span: at(101) }]
    );
    let forwarding = match &method.body {
        Body::Forwarding(forwarding) => forwarding,
        other => panic!("unexpected body: {:?}", other),
    };
    assert_eq!(forwarding.call.qualifier, Some(helper_ref(&["T"])));
    assert_eq!(forwarding.call.generic_args, vec![s("K")]);
    assert_eq!(forwarding.call.args, vec![s("arg_0")]);
    let (declared, implemented) = match &forwarding.helper {
        Helper::Trait(declared, implemented) => (declared, implemented),
        other => panic!("unexpected helper: {:?}", other),
    };
    let bound = TraitInfo { bound: TraitRef { path: s("Trait"), args: vec![] }, self_param: None };
    assert_eq!(declared.generics, scope);
    assert_eq!(declared.trait_info, Some(bound));
    assert_eq!(implemented.generics, scope);
    assert_eq!(implemented.self_type, "Foo < T >");
    assert_eq!(implemented.helper, helper_ref(&["T"]));
    assert_eq!(implemented.method.sig.inputs, vec![wildcard("Self :: U", 1)]);
    assert_eq!(implemented.method.sig.output, "Self");
}

#[test]
fn lifetimes_of_the_block_reach_the_helper() {
    // impl<'lt1, 'lt2, T: ?Sized + Bound1 + 'lt1> Bar<'lt2> for Foo<'lt1, T> where ..
    let scope = generics(
        vec![
            generic(GenericKind::Lifetime, "'lt1", ""),
            generic(GenericKind::Lifetime, "'lt2", ""),
            generic(GenericKind::Type, "T", "? Sized + Bound1 + 'lt1"),
        ],
        "where for < 'a > Foo < 'a , T > : Bound2",
    );
    let mut block = trait_block();
    block.generics = scope.clone();
    block.trait_path = Some(s("Bar < 'lt2 >"));
    block.self_type = s("Foo < 'lt1 , T >");
    rewrite_impl(&mut block);
    let method = match &block.items[0] {
        ImplItem::Method(method) => method,
        other => panic!("unexpected member: {:?}", other),
    };
    let forwarding = match &method.body {
        Body::Forwarding(forwarding) => forwarding,
        other => panic!("unexpected body: {:?}", other),
    };
    assert_eq!(forwarding.call.qualifier, Some(helper_ref(&["'lt1", "'lt2", "T"])));
    match &forwarding.helper {
        Helper::Trait(declared, implemented) => {
            assert_eq!(declared.generics, scope);
            assert_eq!(implemented.generics, scope);
            assert_eq!(
                declared.trait_info,
                Some(TraitInfo {
                    bound: TraitRef { path: s("Bar < 'lt2 >"), args: vec![] },
                    self_param: None
                })
            );
        },
        other => panic!("unexpected helper: {:?}", other),
    }
}

#[test]
fn contexts_are_made_from_their_blocks() {
    let context = MethodContext::for_impl(&trait_block());
    assert_eq!(
        context,
        MethodContext {
            generics: generics(vec![generic(GenericKind::Type, "T", "")], ""),
            self_type: s("Foo < T >"),
            trait_info: Some(TraitInfo {
                bound: TraitRef { path: s("MyRead"), args: vec![] },
                self_param: None
            }),
        }
    );
    assert_eq!(MethodContext::for_impl(&inherent_block()).trait_info, None);

    let mut definition = my_read_trait();
    definition.generics = Generics {
        params: vec![
            generic(GenericKind::Lifetime, "'a", ""),
            GenericParam {
                kind: GenericKind::Type,
                name: s("T"),
                bounds: s("Copy"),
                default: s("u8"),
            },
            generic(GenericKind::Const, "N", "usize"),
        ],
        where_clause: s("where T : 'a"),
    };
    let context = MethodContext::for_trait(&definition);
    assert_eq!(
        context,
        MethodContext {
            generics: generics(
                vec![
                    generic(GenericKind::Lifetime, "'a", ""),
                    generic(GenericKind::Type, "T", "Copy"),
                    generic(GenericKind::Const, "N", "usize"),
                ],
                "where T : 'a"
            ),
            self_type: s("__Self"),
            trait_info: Some(TraitInfo {
                bound: TraitRef { path: s("MyRead"), args: vec![s("'a"), s("T"), s("N")] },
                self_param: Some(s("__Self")),
            }),
        }
    );
}

#[test]
fn a_context_admits_methods() {
    let context = MethodContext::for_impl(&inherent_block());
    let mut method = my_read("pub");
    assert_eq!(edit_function_in_place(&mut method, Some(&context)), Ok(()));
    assert!(matches!(method.body, Body::Forwarding(_)));
}

#[test]
fn scope_transform_refuses_what_is_no_block() {
    let function = {
        let mut function = my_read("");
        function.sig.inputs.remove(0);
        function
    };
    let refused = require_unsafe_in_bodies(&vec![], Ok(Item::Function(function))).unwrap_err();
    assert_eq!(
        refused,
        TransformError::WrongShape {
            span: Span::call_site(),
            expected: Shape::Scope,
            found: Shape::Function
        }
    );
    assert_eq!(refused.kind(), ErrorKind::Shape);

    let refused = require_unsafe_in_bodies(&vec![], Ok(Item::Other(at(7)))).unwrap_err();
    assert_eq!(
        refused,
        TransformError::WrongShape { span: at(7), expected: Shape::Scope, found: Shape::Other }
    );
    assert_eq!(refused.kind(), ErrorKind::Shape);
    assert_eq!(refused.span(), at(7));
    assert_eq!(
        refused.message(),
        "`#[require_unsafe_in_bodies]` must be applied to an `impl` block or a `trait` definition"
    );
}

#[test]
fn scope_transform_takes_no_arguments() {
    let arguments = vec![Token { text: s("foo"), span: at(3) }, Token { text: s(","), span: at(4) }];
    let refused = require_unsafe_in_bodies(&arguments, Ok(Item::Impl(trait_block()))).unwrap_err();
    assert_eq!(refused, TransformError::UnexpectedArguments { span: at(3) });
    assert_eq!(refused.kind(), ErrorKind::Usage);
}

// impl<T> Foo<T> { #[require_unsafe_in_body] pub unsafe fn my_read<U>(..) }
#[test]
fn body_on_method() {
    let refused = require_unsafe_in_body(&vec![], Ok(Item::Function(my_read("pub")))).unwrap_err();
    assert_eq!(refused, TransformError::MethodRequiresScope { span: at(1) });
    assert_eq!(refused.kind(), ErrorKind::Context);
}

// impl<T> MyRead for Foo<T> { #[require_unsafe_in_body] unsafe fn my_read<U>(..) }
#[test]
fn body_on_method_2() {
    let refused = require_unsafe_in_body(&vec![], Ok(Item::Function(my_read("")))).unwrap_err();
    assert_eq!(refused, TransformError::MethodRequiresScope { span: at(1) });
    assert_eq!(refused.kind(), ErrorKind::Context);
}

// trait Trait<X> { type Arg; type Ret;
//     unsafe fn foo(self: &'_ Self, x: X, arg: Self::Arg) -> Self::Ret { .. }
//     unsafe fn bar(this: &'_ Self, x: X, arg: Self::Arg) -> Self::Ret { .. }
//     unsafe fn baz(x: X, arg: Self::Arg) -> Self::Ret { .. } }
#[test]
fn associated_types() {
    let method = |name: &str, first: Option<&str>| {
        let mut inputs = vec![];
        if let Some(first) = first {
            inputs.push(typed(first, "& '_ Self", 1));
        }
        inputs.push(typed("x", "X", 2));
        inputs.push(typed("arg", "Self :: Arg", 3));
        TraitItem::Provided(Declaration {
            attrs: vec![],
            visibility: String::new(),
            sig: Signature {
                constness: false,
                asyncness: false,
                unsafety: true,
                abi: None,
                name: s(name),
                generics: generics(vec![], ""),
                inputs,
                output: s("Self :: Ret"),
            },
            body: Body::Source(vec![s("unsafe { :: core :: ptr :: read (:: core :: ptr :: null ()) }")]),
        })
    };
    let mut definition = TraitDefinition {
        attrs: vec![],
        visibility: String::new(),
        qualifiers: String::new(),
        name: s("Trait"),
        generics: generics(vec![generic(GenericKind::Type, "X", "")], ""),
        supertraits: String::new(),
        items: vec![
            TraitItem::Other(s("type Arg ;")),
            TraitItem::Other(s("type Ret ;")),
            method("foo", Some("self")),
            method("bar", Some("this")),
            method("baz", None),
        ],
    };
    rewrite_trait(&mut definition);
    let forwarded: Vec<(Vec<String>, Vec<String>)> = definition.items[2..]
        .iter()
        .map(|item| match item {
            TraitItem::Provided(method) => match &method.body {
                Body::Forwarding(forwarding) => {
                    assert_eq!(forwarding.call.qualifier, Some(helper_ref(&["X", "Self"])));
                    assert!(forwarding.call.generic_args.is_empty());
                    (outer_names(method), forwarding.call.args.clone())
                },
                other => panic!("unexpected body: {:?}", other),
            },
            other => panic!("unexpected member: {:?}", other),
        })
        .collect();
    let names = |names: &[&str]| -> Vec<String> { names.iter().map(|name| s(name)).collect() };
    assert_eq!(forwarded[0], (names(&["self", "arg_0", "arg_1"]), names(&["self", "arg_0", "arg_1"])));
    assert_eq!(
        forwarded[1],
        (names(&["arg_0", "arg_1", "arg_2"]), names(&["arg_0", "arg_1", "arg_2"]))
    );
    assert_eq!(forwarded[2], (names(&["arg_0", "arg_1"]), names(&["arg_0", "arg_1"])));
}

#[test]
fn copies_go_all_the_way_down() {
    let function = my_read("pub");
    assert_eq!(function.duplicate(), function);

    let given = Item::Impl(trait_block());
    let rewritten = require_unsafe_in_bodies(&vec![], Ok(given.duplicate())).unwrap();
    assert_eq!(given, Item::Impl(trait_block()));
    assert_ne!(rewritten, given);
    assert_eq!(rewritten.duplicate(), rewritten);

    let definition = Item::Trait(my_read_trait());
    let rewritten = require_unsafe_in_bodies(&vec![], Ok(definition.duplicate())).unwrap();
    assert_eq!(rewritten.duplicate(), rewritten);
    assert_eq!(definition.duplicate(), definition);
    assert_eq!(Item::Other(at(3)).duplicate(), Item::Other(at(3)));
    match &rewritten {
        Item::Trait(definition) => {
            assert_eq!(definition.items[0].duplicate(), definition.items[0]);
            assert_eq!(definition.items[1].duplicate(), definition.items[1]);
        },
        other => panic!("unexpected item: {:?}", other),
    }

    let mut split = my_read("");
    split.sig.inputs.remove(0);
    assert_eq!(edit_function_in_place(&mut split, None), Ok(()));
    assert_eq!(split.duplicate(), split);
    assert_eq!(split.body.duplicate(), split.body);
}
