//! Generation for bare types and method-set bindings, checked against the
//! emitted source text (compared token-wise through proc_macro2).

use std::str::FromStr;

use mockgen::mock_item;
use mockgen::model::{
    BindingDecl, BindingItem, FnArg, GenericParam, MethodSignature, Path, PathSeg, SelfTy,
    SourceDecl, TraitRef, TypeDecl,
};

fn norm(code: &str) -> String {
    proc_macro2::TokenStream::from_str(code).unwrap().to_string()
}

fn check(desired: &str, src: SourceDecl) {
    let output = mock_item(&src).unwrap();
    assert_eq!(norm(desired), norm(&output));
}

fn msig(name: &str, inputs: Vec<FnArg>, output: Option<&str>) -> MethodSignature {
    MethodSignature {
        constness: false,
        unsafety: false,
        asyncness: false,
        abi: None,
        name: name.to_string(),
        generics: vec![],
        inputs,
        output: output.map(|s| s.to_string()),
        variadic: false,
    }
}

fn self_ref() -> FnArg {
    FnArg::RecvRef { tokens: "&self".to_string() }
}

fn typed(pat: &str, ty: &str) -> FnArg {
    FnArg::Typed { pat: pat.to_string(), ty: ty.to_string() }
}

fn type_src(vis: &str, name: &str, generics: Vec<GenericParam>) -> SourceDecl {
    SourceDecl::TypeSource {
        decl: TypeDecl { vis: vis.to_string(), name: name.to_string(), generics: generics },
    }
}

fn self_path(name: &str, args: Option<&str>) -> SelfTy {
    SelfTy::Named {
        path: Path {
            leading_colon: false,
            segments: vec![
                PathSeg { name: name.to_string(), args: args.map(|s| s.to_string()) },
            ],
        },
    }
}

fn binding_src(
    trait_ref: Option<TraitRef>,
    self_ty: SelfTy,
    generics: Vec<GenericParam>,
    methods: Vec<(&str, MethodSignature)>,
) -> SourceDecl {
    let items = methods
        .into_iter()
        .map(|(vis, sig)| BindingItem::Method {
            defaultness: false,
            vis: vis.to_string(),
            sig,
        })
        .collect();
    SourceDecl::BindingSource {
        decl: BindingDecl { unsafety: false, generics, trait_ref, self_ty, items },
    }
}

#[test]
fn simple_struct() {
    check(
        r#"
    #[derive(Default)]
    struct MockSimpleStruct {
        e: ::mockall::Expectations,
    }"#,
        type_src("", "SimpleStruct", vec![]),
    );
    check(
        r#"
    impl MockSimpleStruct {
        fn foo(&self, x: u32) -> i64 {
            self.e.called:: <(u32), i64>("foo", (x))
        }
    }
    impl MockSimpleStruct {
        pub fn expect_foo(&mut self) -> &mut ::mockall::Expectation<(u32), i64>
        {
            self.e.expect:: <(u32), i64>("foo")
        }
    }"#,
        binding_src(
            None,
            self_path("SimpleStruct", None),
            vec![],
            vec![("", msig("foo", vec![self_ref(), typed("x", "u32")], Some("i64")))],
        ),
    );
}

#[test]
fn pub_struct() {
    check(
        r#"
    #[derive(Default)]
    pub struct MockPubStruct {
        e: ::mockall::Expectations,
    }"#,
        type_src("pub", "PubStruct", vec![]),
    );
    check(
        r#"
    impl MockPubStruct {
        pub fn foo(&self, x: u32) -> i64 {
            self.e.called:: <(u32), i64>("foo", (x))
        }
    }
    impl MockPubStruct {
        pub fn expect_foo(&mut self) -> &mut ::mockall::Expectation<(u32), i64>
        {
            self.e.expect:: <(u32), i64>("foo")
        }
    }"#,
        binding_src(
            None,
            self_path("PubStruct", None),
            vec![],
            vec![("pub", msig("foo", vec![self_ref(), typed("x", "u32")], Some("i64")))],
        ),
    );
}

#[test]
fn pub_crate_struct() {
    check(
        r#"
    #[derive(Default)]
    pub(crate) struct MockPubCrateStruct {
        e: ::mockall::Expectations,
    }"#,
        type_src("pub(crate)", "PubCrateStruct", vec![]),
    );
    check(
        r#"
    impl MockPubCrateStruct {
        pub(crate) fn foo(&self, x: u32) -> i64 {
            self.e.called:: <(u32), i64>("foo", (x))
        }
    }
    impl MockPubCrateStruct {
        pub fn expect_foo(&mut self) -> &mut ::mockall::Expectation<(u32), i64>
        {
            self.e.expect:: <(u32), i64>("foo")
        }
    }"#,
        binding_src(
            None,
            self_path("PubCrateStruct", None),
            vec![],
            vec![("pub(crate)", msig("foo", vec![self_ref(), typed("x", "u32")], Some("i64")))],
        ),
    );
}

#[test]
fn pub_super_struct() {
    check(
        r#"
    #[derive(Default)]
    pub(super) struct MockPubSuperStruct {
        e: ::mockall::Expectations,
    }"#,
        type_src("pub(super)", "PubSuperStruct", vec![]),
    );
    check(
        r#"
    impl MockPubSuperStruct {
        pub(super) fn foo(&self, x: u32) -> i64 {
            self.e.called:: <(u32), i64>("foo", (x))
        }
    }
    impl MockPubSuperStruct {
        pub fn expect_foo(&mut self) -> &mut ::mockall::Expectation<(u32), i64>
        {
            self.e.expect:: <(u32), i64>("foo")
        }
    }"#,
        binding_src(
            None,
            self_path("PubSuperStruct", None),
            vec![],
            vec![("pub(super)", msig("foo", vec![self_ref(), typed("x", "u32")], Some("i64")))],
        ),
    );
}

#[test]
fn generic_struct() {
    check(
        r#"
    #[derive(Default)]
    struct MockGenericStruct< 'a, T, V> {
        e: ::mockall::Expectations,
        _t0: ::std::marker::PhantomData< & 'a ()> ,
        _t1: ::std::marker::PhantomData<T> ,
        _t2: ::std::marker::PhantomData<V> ,
    }"#,
        type_src(
            "",
            "GenericStruct",
            vec![
                GenericParam::Lifetime { name: "'a".to_string(), has_bounds: false },
                GenericParam::TypeParam { name: "T".to_string(), bounds: None },
                GenericParam::TypeParam { name: "V".to_string(), bounds: None },
            ],
        ),
    );
    check(
        r#"
    impl< 'a, T, V> MockGenericStruct< 'a, T, V> {
        fn foo(&self, x: u32) -> i64 {
            self.e.called:: <(u32), i64>("foo", (x))
        }
    }
    impl< 'a, T, V> MockGenericStruct< 'a, T, V> {
        pub fn expect_foo(&mut self) -> &mut ::mockall::Expectation<(u32), i64>
        {
            self.e.expect:: <(u32), i64>("foo")
        }
    }"#,
        binding_src(
            None,
            self_path("GenericStruct", Some("< 'a, T, V>")),
            vec![
                GenericParam::Lifetime { name: "'a".to_string(), has_bounds: false },
                GenericParam::TypeParam { name: "T".to_string(), bounds: None },
                GenericParam::TypeParam { name: "V".to_string(), bounds: None },
            ],
            vec![("", msig("foo", vec![self_ref(), typed("x", "u32")], Some("i64")))],
        ),
    );
}

#[test]
fn method_by_value() {
    check(
        r#"
    impl MockMethodByValue {
        fn foo(self, x: u32) -> i64 {
            self.e.called:: <(u32), i64>("foo", (x))
        }
    }
    impl MockMethodByValue {
        pub fn expect_foo(&mut self) -> &mut ::mockall::Expectation<(u32), i64>
        {
            self.e.expect:: <(u32), i64>("foo")
        }
    }"#,
        binding_src(
            None,
            self_path("MethodByValue", None),
            vec![],
            vec![(
                "",
                msig(
                    "foo",
                    vec![FnArg::RecvValue { tokens: "self".to_string() }, typed("x", "u32")],
                    Some("i64"),
                ),
            )],
        ),
    );
}

#[test]
fn impl_trait() {
    check(
        r#"
    impl Foo for MockSomeStruct {
        fn foo(&self, x: u32) -> i64 {
            self.e.called:: <(u32), i64>("foo", (x))
        }
    }
    impl MockSomeStruct {
        pub fn expect_foo(&mut self) -> &mut ::mockall::Expectation<(u32), i64>
        {
            self.e.expect:: <(u32), i64>("foo")
        }
    }"#,
        binding_src(
            Some(TraitRef { bang: false, path: "Foo".to_string() }),
            self_path("SomeStruct", None),
            vec![],
            vec![("", msig("foo", vec![self_ref(), typed("x", "u32")], Some("i64")))],
        ),
    );
}

#[test]
fn two_args() {
    check(
        r#"
    #[derive(Default)]
    struct MockTwoArgs {
        e: ::mockall::Expectations,
    }"#,
        type_src("", "TwoArgs", vec![]),
    );
    check(
        r#"
    impl MockTwoArgs {
        fn foo(&self, x: u32, y: u32) -> i64 {
            self.e.called:: <(u32, u32), i64>("foo", (x, y))
        }
    }
    impl MockTwoArgs {
        pub fn expect_foo(&mut self)
            -> &mut ::mockall::Expectation<(u32, u32), i64>
        {
            self.e.expect:: <(u32, u32), i64>("foo")
        }
    }"#,
        binding_src(
            None,
            self_path("TwoArgs", None),
            vec![],
            vec![(
                "",
                msig("foo", vec![self_ref(), typed("x", "u32"), typed("y", "u32")], Some("i64")),
            )],
        ),
    );
}
