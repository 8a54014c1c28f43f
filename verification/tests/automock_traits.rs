//! Generation for standalone interfaces, checked against the emitted source
//! text (compared token-wise through proc_macro2).

use std::str::FromStr;

use mockgen::mock_item;
use mockgen::model::{
    FnArg, GenericParam, InterfaceDecl, InterfaceItem, MethodSignature, SourceDecl,
};

fn norm(code: &str) -> String {
    proc_macro2::TokenStream::from_str(code).unwrap().to_string()
}

fn check(desired: &str, src: SourceDecl) {
    let output = mock_item(&src).unwrap();
    assert_eq!(norm(desired), norm(&output));
}

fn msig(name: &str, inputs: Vec<FnArg>, output: Option<&str>) -> MethodSignature {
    MethodSignature {
        constness: false,
        unsafety: false,
        asyncness: false,
        abi: None,
        name: name.to_string(),
        generics: vec![],
        inputs,
        output: output.map(|s| s.to_string()),
        variadic: false,
    }
}

fn self_ref() -> FnArg {
    FnArg::RecvRef { tokens: "&self".to_string() }
}

fn typed(pat: &str, ty: &str) -> FnArg {
    FnArg::Typed { pat: pat.to_string(), ty: ty.to_string() }
}

fn trait_src(name: &str, generics: Vec<GenericParam>, sigs: Vec<MethodSignature>) -> SourceDecl {
    SourceDecl::InterfaceSource {
        decl: InterfaceDecl {
            unsafety: false,
            vis: "".to_string(),
            name: name.to_string(),
            generics,
            items: sigs.into_iter().map(|sig| InterfaceItem::Method { sig }).collect(),
        },
    }
}

#[test]
fn simple_trait() {
    check(
        r#"
    #[derive(Default)]
    struct MockSimpleTrait {
        e: ::mockall::Expectations,
    }
    impl SimpleTrait for MockSimpleTrait {
        fn foo(&self, x: u32) -> i64 {
            self.e.called:: <(u32), i64>("foo", (x))
        }
    }
    impl MockSimpleTrait {
        pub fn expect_foo(&mut self) -> &mut ::mockall::Expectation<(u32), i64>
        {
            self.e.expect:: <(u32), i64>("foo")
        }
    }"#,
        trait_src(
            "SimpleTrait",
            vec![],
            vec![msig("foo", vec![self_ref(), typed("x", "u32")], Some("i64"))],
        ),
    );
}

#[test]
fn generic_trait() {
    check(
        r#"
    #[derive(Default)]
    struct MockGenericTrait<T> {
        e: ::mockall::Expectations,
        _t0: ::std::marker::PhantomData<T> ,
    }
    impl<T> GenericTrait<T> for MockGenericTrait<T> {
        fn foo(&self) {
            self.e.called:: <(), ()>("foo", ())
        }
    }
    impl<T> MockGenericTrait<T> {
        pub fn expect_foo(&mut self) -> &mut ::mockall::Expectation<(), ()>
        {
            self.e.expect:: <(), ()>("foo")
        }
    }"#,
        trait_src(
            "GenericTrait",
            vec![GenericParam::TypeParam { name: "T".to_string(), bounds: None }],
            vec![msig("foo", vec![self_ref()], None)],
        ),
    );
}

#[test]
fn generic_method() {
    let mut sig = msig("foo", vec![self_ref(), typed("t", "T")], None);
    sig.generics = vec![
        GenericParam::TypeParam { name: "T".to_string(), bounds: Some("'static".to_string()) },
    ];
    check(
        r#"
    #[derive(Default)]
    struct MockA {
        e: ::mockall::Expectations,
    }
    impl A for MockA {
        fn foo<T: 'static>(&self, t: T) {
            self.e.called:: <(T), ()>("foo", (t))
        }
    }
    impl MockA {
        pub fn expect_foo<T: 'static>(&mut self)
            -> &mut ::mockall::Expectation<(T), ()>
        {
            self.e.expect:: <(T), ()>("foo")
        }
    }"#,
        trait_src("A", vec![], vec![sig]),
    );
}

#[test]
fn static_method() {
    check(
        r#"
    #[derive(Default)]
    struct MockA {
        e: ::mockall::Expectations,
    }
    impl A for MockA {
        fn foo(&self, x: u32) -> u32 {
            self.e.called:: <(u32), u32>("foo", (x))
        }
        fn bar() -> u32 {
            unimplemented!("Expectations on static methods are TODO");
        }
    }
    impl MockA {
        pub fn expect_foo(&mut self) -> &mut ::mockall::Expectation<(u32), u32>
        {
            self.e.expect:: <(u32), u32>("foo")
        }
    }"#,
        trait_src(
            "A",
            vec![],
            vec![
                msig("foo", vec![self_ref(), typed("x", "u32")], Some("u32")),
                msig("bar", vec![], Some("u32")),
            ],
        ),
    );
}

#[test]
fn const_member_skipped() {
    let src = SourceDecl::InterfaceSource {
        decl: InterfaceDecl {
            unsafety: false,
            vis: "".to_string(),
            name: "HasConst".to_string(),
            generics: vec![],
            items: vec![
                InterfaceItem::ConstMember,
                InterfaceItem::Method { sig: msig("go", vec![self_ref()], None) },
            ],
        },
    };
    check(
        r#"
    #[derive(Default)]
    struct MockHasConst {
        e: ::mockall::Expectations,
    }
    impl HasConst for MockHasConst {
        fn go(&self) {
            self.e.called:: <(), ()>("go", ())
        }
    }
    impl MockHasConst {
        pub fn expect_go(&mut self) -> &mut ::mockall::Expectation<(), ()>
        {
            self.e.expect:: <(), ()>("go")
        }
    }"#,
        src,
    );
}
