//! Unit-level behavior: the identifier and path deriver, receiver
//! classification, the stand-in field layout, exact rendered text, and each
//! generation fault.

use mockgen::model::{
    BindingDecl, BindingItem, FnArg, GenericParam, InterfaceDecl, InterfaceItem, MethodSignature,
    Path, PathSeg, ReceiverKind, SelfTy, SourceDecl, TypeDecl,
};
use mockgen::out::StandInField;
use std::str::FromStr;
use mockgen::{classify_receiver, gen_mock_ident, gen_mock_method, gen_mock_path, gen_struct,
    mock_item};

fn msig(name: &str, inputs: Vec<FnArg>, output: Option<&str>) -> MethodSignature {
    MethodSignature {
        constness: false,
        unsafety: false,
        asyncness: false,
        abi: None,
        name: name.to_string(),
        generics: vec![],
        inputs,
        output: output.map(|s| s.to_string()),
        variadic: false,
    }
}

fn self_ref() -> FnArg {
    FnArg::RecvRef { tokens: "&self".to_string() }
}

fn typed(pat: &str, ty: &str) -> FnArg {
    FnArg::Typed { pat: pat.to_string(), ty: ty.to_string() }
}

#[test]
fn mock_ident_prefixes() {
    assert_eq!(gen_mock_ident("Foo"), "MockFoo");
    assert_eq!(gen_mock_ident("A"), "MockA");
    assert_ne!(gen_mock_ident("Foo"), gen_mock_ident("Bar"));
}

#[test]
fn mock_path_replaces_last_segment() {
    let p = Path {
        leading_colon: false,
        segments: vec![
            PathSeg { name: "foo".to_string(), args: None },
            PathSeg { name: "bar".to_string(), args: None },
            PathSeg { name: "Baz".to_string(), args: None },
        ],
    };
    let m = gen_mock_path(&p);
    assert_eq!(m.segments.len(), 3);
    assert_eq!(m.segments[0].name, "foo");
    assert_eq!(m.segments[1].name, "bar");
    assert_eq!(m.segments[2].name, "MockBaz");
    assert!(!m.leading_colon);
}

#[test]
fn mock_path_keeps_qualifier_and_arguments() {
    let p = Path {
        leading_colon: true,
        segments: vec![
            PathSeg { name: "Baz".to_string(), args: Some("< T >".to_string()) },
        ],
    };
    let m = gen_mock_path(&p);
    assert!(m.leading_colon);
    assert_eq!(m.segments[0].name, "MockBaz");
    assert_eq!(m.segments[0].args.as_deref(), Some("< T >"));
}

#[test]
fn receiver_classification() {
    assert_eq!(classify_receiver(&vec![self_ref(), typed("x", "u32")]), ReceiverKind::ByRef);
    assert_eq!(
        classify_receiver(&vec![FnArg::RecvValue { tokens: "self".to_string() }]),
        ReceiverKind::ByValue,
    );
    assert_eq!(classify_receiver(&vec![typed("x", "u32")]), ReceiverKind::Static);
    assert_eq!(classify_receiver(&vec![]), ReceiverKind::Static);
}

/// A source type with two generic parameters gets a stand-in with the
/// registry-handle field first, then one placeholder per parameter — a
/// lifetime-shaped one, then a type-shaped one — in declaration order.
#[test]
fn two_param_standin_order() {
    let generics = vec![
        GenericParam::Lifetime { name: "'a".to_string(), has_bounds: false },
        GenericParam::TypeParam { name: "T".to_string(), bounds: None },
    ];
    let s = gen_struct("", "G", &generics).unwrap();
    assert_eq!(s.name, "MockG");
    assert_eq!(s.fields.len(), 3);
    assert!(matches!(s.fields[0], StandInField::Registry));
    assert!(matches!(
        &s.fields[1],
        StandInField::Phantom { param: GenericParam::Lifetime { .. } }
    ));
    assert!(matches!(
        &s.fields[2],
        StandInField::Phantom { param: GenericParam::TypeParam { .. } }
    ));
}

/// Placeholder numbering is decimal and keeps counting past one digit.
#[test]
fn many_param_standin_numbering() {
    let mut generics = Vec::new();
    for i in 0..11 {
        generics.push(GenericParam::TypeParam { name: format!("T{}", i), bounds: None });
    }
    let src = SourceDecl::TypeSource {
        decl: TypeDecl { vis: "".to_string(), name: "Wide".to_string(), generics },
    };
    let out = mock_item(&src).unwrap();
    assert!(out.contains("_t9: ::std::marker::PhantomData< T9>"));
    assert!(out.contains("_t10: ::std::marker::PhantomData< T10>"));
}

/// The exact text of a rendered stand-in type.
#[test]
fn exact_standin_text() {
    let src = SourceDecl::TypeSource {
        decl: TypeDecl { vis: "".to_string(), name: "G".to_string(), generics: vec![
            GenericParam::Lifetime { name: "'a".to_string(), has_bounds: false },
            GenericParam::TypeParam { name: "T".to_string(), bounds: None },
        ] },
    };
    let out = mock_item(&src).unwrap();
    assert_eq!(
        out,
        "#[derive(Default)]\nstruct MockG< 'a, T> {\ne: ::mockall::Expectations,\n_t0: ::std::marker::PhantomData< & 'a ()> ,\n_t1: ::std::marker::PhantomData< T> ,\n}\n",
    );
}

/// Qualifiers are reproduced verbatim on the recording method and do not
/// appear on the configuration method.
#[test]
fn qualifiers_reproduced() {
    let mut sig = msig("foo", vec![self_ref()], Some("u8"));
    sig.unsafety = true;
    sig.asyncness = true;
    let src = SourceDecl::BindingSource {
        decl: BindingDecl {
            unsafety: false,
            generics: vec![],
            trait_ref: None,
            self_ty: SelfTy::Named {
                path: Path {
                    leading_colon: false,
                    segments: vec![PathSeg { name: "Q".to_string(), args: None }],
                },
            },
            items: vec![
                BindingItem::Method { defaultness: false, vis: "".to_string(), sig },
            ],
        },
    };
    let out = mock_item(&src).unwrap();
    let expected = proc_macro2::TokenStream::from_str(
        r#"
        impl MockQ {
            unsafe async fn foo(&self) -> u8 {
                self.e.called:: <(), u8>("foo", ())
            }
        }
        impl MockQ {
            pub fn expect_foo(&mut self) -> &mut ::mockall::Expectation<(), u8>
            {
                self.e.expect:: <(), u8>("foo")
            }
        }"#,
    )
        .unwrap()
        .to_string();
    let actual = proc_macro2::TokenStream::from_str(&out).unwrap().to_string();
    assert_eq!(expected, actual);
}

/// An unsafe interface is bound with an unsafe binding block; the separate
/// configuration block stays plain.
#[test]
fn unsafe_interface_binding() {
    let src = SourceDecl::InterfaceSource {
        decl: InterfaceDecl {
            unsafety: true,
            vis: "".to_string(),
            name: "U".to_string(),
            generics: vec![],
            items: vec![InterfaceItem::Method { sig: msig("go", vec![self_ref()], None) }],
        },
    };
    let out = mock_item(&src).unwrap();
    let expected = proc_macro2::TokenStream::from_str(
        r#"
        #[derive(Default)]
        struct MockU {
            e: ::mockall::Expectations,
        }
        unsafe impl U for MockU {
            fn go(&self) {
                self.e.called:: <(), ()>("go", ())
            }
        }
        impl MockU {
            pub fn expect_go(&mut self) -> &mut ::mockall::Expectation<(), ()>
            {
                self.e.expect:: <(), ()>("go")
            }
        }"#,
    )
        .unwrap()
        .to_string();
    let actual = proc_macro2::TokenStream::from_str(&out).unwrap().to_string();
    assert_eq!(expected, actual);
}

#[test]
fn variadic_rejected() {
    let mut sig = msig("foo", vec![self_ref()], None);
    sig.variadic = true;
    let e = gen_mock_method(false, "", &sig).err().unwrap();
    assert!(!e.is_syntax());
    assert_eq!(e.message(), "MockAll does not yet support variadic functions");
}

#[test]
fn unrecognized_parameter_rejected() {
    let sig = msig("foo", vec![self_ref(), FnArg::Unrecognized], None);
    let e = gen_mock_method(false, "", &sig).err().unwrap();
    assert_eq!(e.message(), "Should be unreachable for normal Rust code");
}

#[test]
fn lifetime_bounds_rejected() {
    let generics = vec![GenericParam::Lifetime { name: "'a".to_string(), has_bounds: true }];
    let e = gen_struct("", "S", &generics).err().unwrap();
    assert_eq!(e.message(), "#automock does not yet support lifetime bounds on structs");
}

#[test]
fn const_generics_rejected() {
    let generics = vec![GenericParam::ConstParam];
    let e = gen_struct("", "S", &generics).err().unwrap();
    assert_eq!(e.message(), "#automock does not yet support generic constants");
}

fn trait_with_item(item: InterfaceItem) -> SourceDecl {
    SourceDecl::InterfaceSource {
        decl: InterfaceDecl {
            unsafety: false,
            vis: "".to_string(),
            name: "A".to_string(),
            generics: vec![],
            items: vec![item],
        },
    }
}

#[test]
fn associated_types_rejected() {
    let e = mock_item(&trait_with_item(InterfaceItem::AssocType {
        has_generics: false,
        has_bounds: false,
    }))
        .err()
        .unwrap();
    assert_eq!(e.message(), "MockAll does not yet support associated types");
    let e = mock_item(&trait_with_item(InterfaceItem::AssocType {
        has_generics: true,
        has_bounds: false,
    }))
        .err()
        .unwrap();
    assert_eq!(e.message(), "Mockall does not yet support generic associated types");
    let e = mock_item(&trait_with_item(InterfaceItem::AssocType {
        has_generics: false,
        has_bounds: true,
    }))
        .err()
        .unwrap();
    assert_eq!(e.message(), "Mockall does not yet support associated types with trait bounds");
}

#[test]
fn unrecognized_trait_item_rejected() {
    let e = mock_item(&trait_with_item(InterfaceItem::Unrecognized)).err().unwrap();
    assert_eq!(e.message(), "This impl item is not yet supported by MockAll");
}

#[test]
fn unrecognized_self_type_rejected() {
    let src = SourceDecl::BindingSource {
        decl: BindingDecl {
            unsafety: false,
            generics: vec![],
            trait_ref: None,
            self_ty: SelfTy::Unrecognized,
            items: vec![],
        },
    };
    let e = mock_item(&src).err().unwrap();
    assert_eq!(e.message(), "This self type is not yet supported by MockAll");
}

#[test]
fn unrecognized_binding_item_rejected() {
    let src = SourceDecl::BindingSource {
        decl: BindingDecl {
            unsafety: false,
            generics: vec![],
            trait_ref: None,
            self_ty: SelfTy::Named {
                path: Path {
                    leading_colon: false,
                    segments: vec![PathSeg { name: "S".to_string(), args: None }],
                },
            },
            items: vec![BindingItem::Unrecognized],
        },
    };
    let e = mock_item(&src).err().unwrap();
    assert_eq!(e.message(), "This impl item is not yet supported by MockAll");
}

#[test]
fn unrecognized_source_rejected() {
    let e = mock_item(&SourceDecl::Unrecognized).err().unwrap();
    assert_eq!(e.message(), "#[automock] does not support this item type");
}

/// Constant and type passthrough items of a plain binding are re-emitted
/// unchanged into the recording block; under an interface binding they are
/// omitted, since the interface's own items already define them.
#[test]
fn passthrough_items() {
    let items = || vec![
        BindingItem::Passthrough { tokens: "type T = u32;".to_string() },
        BindingItem::Method {
            defaultness: false,
            vis: "".to_string(),
            sig: msig("foo", vec![self_ref()], None),
        },
    ];
    let self_ty = || SelfTy::Named {
        path: Path {
            leading_colon: false,
            segments: vec![PathSeg { name: "S".to_string(), args: None }],
        },
    };
    let plain = SourceDecl::BindingSource {
        decl: BindingDecl {
            unsafety: false,
            generics: vec![],
            trait_ref: None,
            self_ty: self_ty(),
            items: items(),
        },
    };
    let out = mock_item(&plain).unwrap();
    assert!(out.contains("type T = u32;"));
    let bound = SourceDecl::BindingSource {
        decl: BindingDecl {
            unsafety: false,
            generics: vec![],
            trait_ref: Some(mockgen::model::TraitRef { bang: false, path: "Tr".to_string() }),
            self_ty: self_ty(),
            items: items(),
        },
    };
    let out = mock_item(&bound).unwrap();
    assert!(!out.contains("type T = u32;"));
    let expected = proc_macro2::TokenStream::from_str(
        r#"
        impl Tr for MockS {
            fn foo(&self) {
                self.e.called:: <(), ()>("foo", ())
            }
        }
        impl MockS {
            pub fn expect_foo(&mut self) -> &mut ::mockall::Expectation<(), ()>
            {
                self.e.expect:: <(), ()>("foo")
            }
        }"#,
    )
        .unwrap()
        .to_string();
    let actual = proc_macro2::TokenStream::from_str(&out).unwrap().to_string();
    assert_eq!(expected, actual);
}
