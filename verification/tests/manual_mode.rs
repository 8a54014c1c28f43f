//! Generation through the manual entry point, checked against the emitted
//! source text (compared token-wise through proc_macro2).

use std::str::FromStr;

use mockgen::do_mock;
use mockgen::model::{
    FnArg, InterfaceDecl, InterfaceItem, ManualItem, ManualSpec, MethodSignature,
};

fn norm(code: &str) -> String {
    proc_macro2::TokenStream::from_str(code).unwrap().to_string()
}

fn check(desired: &str, spec: ManualSpec) {
    let output = do_mock(&spec).unwrap();
    assert_eq!(norm(desired), norm(&output));
}

fn msig(name: &str, inputs: Vec<FnArg>, output: Option<&str>) -> MethodSignature {
    MethodSignature {
        constness: false,
        unsafety: false,
        asyncness: false,
        abi: None,
        name: name.to_string(),
        generics: vec![],
        inputs,
        output: output.map(|s| s.to_string()),
        variadic: false,
    }
}

fn self_ref() -> FnArg {
    FnArg::RecvRef { tokens: "&self".to_string() }
}

fn typed(pat: &str, ty: &str) -> FnArg {
    FnArg::Typed { pat: pat.to_string(), ty: ty.to_string() }
}

fn manual(name: &str, sigs: Vec<MethodSignature>, interfaces: Vec<InterfaceDecl>) -> ManualSpec {
    ManualSpec {
        vis: "".to_string(),
        name: name.to_string(),
        generics: vec![],
        items: sigs.into_iter().map(|sig| ManualItem::Method { sig, has_body: false }).collect(),
        interfaces,
    }
}

/// The recording methods and the configuration methods of a manual stand-in
/// always go to two separate self-binding blocks, and are forced public.
#[test]
fn external_struct() {
    let desired = r#"
        #[derive(Default)]
        struct MockExternalStruct {
            e: ::mockall::Expectations,
        }
        impl MockExternalStruct {
            pub fn foo(&self, x: u32) -> i64 {
                self.e.called:: <(u32), i64>("foo", (x))
            }
        }
        impl MockExternalStruct {
            pub fn expect_foo(&mut self)
                -> &mut ::mockall::Expectation<(u32), i64>
            {
                self.e.expect:: <(u32), i64>("foo")
            }
        }
    "#;
    check(
        desired,
        manual(
            "ExternalStruct",
            vec![msig("foo", vec![self_ref(), typed("x", "u32")], Some("i64"))],
            vec![],
        ),
    );
}

/// With no methods of its own, both self-binding blocks are emitted empty,
/// and the trailing interface gets its own pair of blocks.
#[test]
fn external_struct_with_trait() {
    let desired = r#"
        #[derive(Default)]
        struct MockExternalStruct {
            e: ::mockall::Expectations,
        }
        impl MockExternalStruct { }
        impl MockExternalStruct { }
        impl Foo for MockExternalStruct {
            fn foo(&self, x: u32) -> i64 {
                self.e.called:: <(u32), i64>("foo", (x))
            }
        }
        impl MockExternalStruct {
            pub fn expect_foo(&mut self)
                -> &mut ::mockall::Expectation<(u32), i64>
            {
                self.e.expect:: <(u32), i64>("foo")
            }
        }
    "#;
    check(
        desired,
        manual(
            "ExternalStruct",
            vec![],
            vec![
                InterfaceDecl {
                    unsafety: false,
                    vis: "".to_string(),
                    name: "Foo".to_string(),
                    generics: vec![],
                    items: vec![
                        InterfaceItem::Method {
                            sig: msig("foo", vec![self_ref(), typed("x", "u32")], Some("i64")),
                        },
                    ],
                },
            ],
        ),
    );
}

/// A bare type with one instance method: one self-binding block holds the
/// recording method, a second one holds the configuration method.
#[test]
fn bare_type_pair() {
    let desired = r#"
        #[derive(Default)]
        struct MockFoo {
            e: ::mockall::Expectations,
        }
        impl MockFoo {
            pub fn bar(&self, x: u32) -> i64 {
                self.e.called:: <(u32), i64>("bar", (x))
            }
        }
        impl MockFoo {
            pub fn expect_bar(&mut self)
                -> &mut ::mockall::Expectation<(u32), i64>
            {
                self.e.expect:: <(u32), i64>("bar")
            }
        }
    "#;
    check(
        desired,
        manual("Foo", vec![msig("bar", vec![self_ref(), typed("x", "u32")], Some("i64"))], vec![]),
    );
}

/// A method body where none is allowed fails the invocation with a located
/// syntax fault and produces no output.
#[test]
fn manual_method_body_rejected() {
    let spec = ManualSpec {
        vis: "".to_string(),
        name: "Foo".to_string(),
        generics: vec![],
        items: vec![
            ManualItem::Method {
                sig: msig("bar", vec![self_ref()], None),
                has_body: true,
            },
        ],
        interfaces: vec![],
    };
    let r = do_mock(&spec);
    let e = r.err().unwrap();
    assert!(e.is_syntax());
    assert_eq!(e.message(), "Unsupported in this context");
}

/// An item of the braced block that is not a plain method signature is a
/// syntax fault.
#[test]
fn manual_foreign_item_rejected() {
    let spec = ManualSpec {
        vis: "".to_string(),
        name: "Foo".to_string(),
        generics: vec![],
        items: vec![ManualItem::Unrecognized],
        interfaces: vec![],
    };
    let e = do_mock(&spec).err().unwrap();
    assert!(e.is_syntax());
    assert_eq!(e.message(), "Unsupported in this context");
}

/// A receiverless method in a manual stand-in gets only the deferred-fault
/// recording stub and no configuration method.
#[test]
fn manual_static_method_stub() {
    let desired = r#"
        #[derive(Default)]
        struct MockS {
            e: ::mockall::Expectations,
        }
        impl MockS {
            pub fn new() -> u32 {
                unimplemented!("Expectations on static methods are TODO");
            }
        }
        impl MockS { }
    "#;
    check(desired, manual("S", vec![msig("new", vec![], Some("u32"))], vec![]));
}
