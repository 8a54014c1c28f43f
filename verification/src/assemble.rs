//! The binding assembler: for each input shape (bare type, interface,
//! method-set binding) it emits the full set of output declarations, always
//! splitting recording methods and configuration methods into two separate
//! binding blocks.

use vstd::prelude::*;
use vstd::string::StringExecFns;
use crate::model::{
    BindingDecl, BindingDeclView, BindingItem, BindingItemView, Fault, FaultView, InterfaceDecl,
    InterfaceDeclView, InterfaceItem, InterfaceItemView, SelfTy, SelfTyView, SourceDecl,
    MethodSignatureView, SourceDeclView, TypeDecl, TypeDeclView, binding_items_view, clone_params,
};
use crate::naming::{gen_mock_ident, gen_mock_path, mock_ident_text, mock_path_view};
use crate::out::{
    BlockItem, BlockItemView, ImplBlock, ImplBlockView, MethodPair, OutItem, OutItemView,
    block_items_view, out_items_view,
};
use crate::render::{generics_text, output_text, path_text, push_generics, render_output, render_path};
use crate::synth::{
    gen_mock_method, gen_struct, has_receiver, method_fault, params_fault, synth_config,
    synth_recording, synth_struct,
};

verus! {

// ---------------------------------------------------------------------------
// Method-set bindings
// ---------------------------------------------------------------------------

/// The fault one binding item is rejected with, if any.
pub open spec fn binding_item_fault(it: BindingItemView) -> Option<FaultView> {
    match it {
        BindingItemView::Passthrough { .. } => Option::None,
        BindingItemView::Method { sig, .. } => method_fault(sig),
        BindingItemView::Unrecognized => Option::Some(
            FaultView::Unsupported { msg: "This impl item is not yet supported by MockAll"@ },
        ),
    }
}

/// The fault of the first offending binding item, in order, if any.
pub open spec fn binding_items_fault(items: Seq<BindingItemView>) -> Option<FaultView>
    decreases items.len(),
{
    if items.len() == 0 {
        Option::None
    } else {
        match binding_items_fault(items.drop_last()) {
            Option::Some(f) => Option::Some(f),
            Option::None => binding_item_fault(items.last()),
        }
    }
}

/// A fault among the first binding items decides the fault of the whole list.
proof fn lemma_binding_items_fault_extends(items: Seq<BindingItemView>, i: int)
    requires
        0 <= i <= items.len(),
        binding_items_fault(items.take(i)) is Some,
    ensures
        binding_items_fault(items) == binding_items_fault(items.take(i)),
    decreases items.len() - i,
{
    if i < items.len() {
        assert(items.take(i + 1).drop_last() =~= items.take(i));
        lemma_binding_items_fault_extends(items, i + 1);
    } else {
        assert(items.take(i) =~= items);
    }
}

/// The items of the recording block of a method-set binding: one recording
/// method per method item, under its original visibility and defaultness, and
/// the constant and type passthrough items unchanged — except that, when the
/// binding targets an interface, passthrough items are omitted, since the
/// interface's own items already define them.
pub open spec fn binding_rec_items(items: Seq<BindingItemView>, iface: bool) -> Seq<BlockItemView>
    decreases items.len(),
{
    if items.len() == 0 {
        Seq::empty()
    } else {
        let rest = binding_rec_items(items.drop_last(), iface);
        match items.last() {
            BindingItemView::Passthrough { tokens } => if iface {
                rest
            } else {
                rest.push(BlockItemView::Passthrough { tokens })
            },
            BindingItemView::Method { defaultness, vis, sig } => rest.push(
                BlockItemView::Recording { method: synth_recording(defaultness, vis, sig) },
            ),
            BindingItemView::Unrecognized => rest,
        }
    }
}

/// The items of the configuration block of a method-set binding: exactly one
/// configuration method per method item that takes a receiver.
pub open spec fn binding_cfg_items(items: Seq<BindingItemView>) -> Seq<BlockItemView>
    decreases items.len(),
{
    if items.len() == 0 {
        Seq::empty()
    } else {
        let rest = binding_cfg_items(items.drop_last());
        match items.last() {
            BindingItemView::Method { sig, .. } => if has_receiver(sig.inputs) {
                rest.push(BlockItemView::Config { method: synth_config(sig) })
            } else {
                rest
            },
            _ => rest,
        }
    }
}

/// The fault the target type of a binding is rejected with, if any: only a
/// named path is supported.
pub open spec fn self_ty_fault(s: SelfTyView) -> Option<FaultView> {
    match s {
        SelfTyView::Named { path } => if path.segments.len() == 0 {
            Option::Some(
                FaultView::Unsupported { msg: "This self type is not yet supported by MockAll"@ },
            )
        } else {
            Option::None
        },
        SelfTyView::Unrecognized => Option::Some(
            FaultView::Unsupported { msg: "This self type is not yet supported by MockAll"@ },
        ),
    }
}

/// The fault a method-set binding is rejected with, if any: the target type
/// is examined first, then the items in order.
pub open spec fn binding_fault(d: BindingDeclView) -> Option<FaultView> {
    match self_ty_fault(d.self_ty) {
        Option::Some(f) => Option::Some(f),
        Option::None => binding_items_fault(d.items),
    }
}

/// The rendered stand-in target of a binding.
pub open spec fn binding_self_text(d: BindingDeclView) -> Seq<char> {
    match d.self_ty {
        SelfTyView::Named { path } => path_text(mock_path_view(path)),
        SelfTyView::Unrecognized => Seq::empty(),
    }
}

/// The two blocks emitted for a method-set binding: the recording block,
/// reproducing the interface binding (bang and unsafety included) when one
/// was named, and a separate non-interface-bound configuration block.
pub open spec fn mock_impl_items(d: BindingDeclView) -> Seq<OutItemView> {
    seq![
        OutItemView::BindingBlock {
            block: ImplBlockView {
                unsafety: d.unsafety,
                generics: d.generics,
                bang: (match d.trait_ref {
                    Option::Some(t) => t.bang,
                    Option::None => false,
                }),
                trait_text: (match d.trait_ref {
                    Option::Some(t) => Option::Some(t.path),
                    Option::None => Option::None,
                }),
                self_text: binding_self_text(d),
                items: binding_rec_items(d.items, d.trait_ref is Some),
            },
        },
        OutItemView::BindingBlock {
            block: ImplBlockView {
                unsafety: false,
                generics: d.generics,
                bang: false,
                trait_text: Option::None,
                self_text: binding_self_text(d),
                items: binding_cfg_items(d.items),
            },
        },
    ]
}

/// Assemble the output for a method-set binding: derive the stand-in path
/// from the bound type's path, synthesize each method under its original
/// visibility, and emit the two blocks.  The first offending construct, in
/// order, aborts the whole invocation with its fault: no partial output.
pub fn mock_impl(decl: &BindingDecl) -> (r: Result<Vec<OutItem>, Fault>)
    ensures
        (match binding_fault(decl@) {
            Option::Some(f) => r matches Err(e) && e@ == f,
            Option::None => r matches Ok(v) && out_items_view(v@) == mock_impl_items(decl@),
        }),
{
    let path = match &decl.self_ty {
        SelfTy::Named { path } => path,
        SelfTy::Unrecognized => {
            return Result::Err(
                Fault::Unsupported {
                    msg: "This self type is not yet supported by MockAll".to_owned(),
                },
            );
        },
    };
    if path.segments.len() == 0 {
        return Result::Err(
            Fault::Unsupported { msg: "This self type is not yet supported by MockAll".to_owned() },
        );
    }
    let mock_path = gen_mock_path(path);
    let self_text = render_path(&mock_path);
    let iface = decl.trait_ref.is_some();
    let ghost ivs = binding_items_view(decl.items@);
    let mut rec_items: Vec<BlockItem> = Vec::new();
    let mut cfg_items: Vec<BlockItem> = Vec::new();
    let mut i: usize = 0;
    while i < decl.items.len()
        invariant
            i <= decl.items.len(),
            ivs == binding_items_view(decl.items@),
            ivs.len() == decl.items@.len(),
            iface == (decl@.trait_ref is Some),
            self_ty_fault(decl@.self_ty) is None,
            binding_items_fault(ivs.take(i as int)) is None,
            block_items_view(rec_items@) == binding_rec_items(ivs.take(i as int), iface),
            block_items_view(cfg_items@) == binding_cfg_items(ivs.take(i as int)),
        decreases decl.items.len() - i,
    {
        proof {
            assert(ivs.take(i as int + 1).drop_last() =~= ivs.take(i as int));
            assert(ivs.take(i as int + 1).last() == ivs[i as int]);
        }
        match &decl.items[i] {
            BindingItem::Passthrough { tokens } => {
                if !iface {
                    rec_items.push(BlockItem::Passthrough { tokens: tokens.clone() });
                }
            },
            BindingItem::Method { defaultness, vis, sig } => {
                match gen_mock_method(*defaultness, vis.as_str(), sig) {
                    Result::Ok(pair) => {
                        let MethodPair { recording, config } = pair;
                        rec_items.push(BlockItem::Recording { method: recording });
                        match config {
                            Option::Some(c) => {
                                cfg_items.push(BlockItem::Config { method: c });
                            },
                            Option::None => {},
                        }
                    },
                    Result::Err(e) => {
                        proof {
                            lemma_binding_items_fault_extends(ivs, i as int + 1);
                        }
                        return Result::Err(e);
                    },
                }
            },
            BindingItem::Unrecognized => {
                proof {
                    lemma_binding_items_fault_extends(ivs, i as int + 1);
                }
                return Result::Err(
                    Fault::Unsupported {
                        msg: "This impl item is not yet supported by MockAll".to_owned(),
                    },
                );
            },
        }
        i = i + 1;
        proof {
            assert(block_items_view(rec_items@) =~= binding_rec_items(ivs.take(i as int), iface));
            assert(block_items_view(cfg_items@) =~= binding_cfg_items(ivs.take(i as int)));
        }
    }
    let (bang, trait_text) = match &decl.trait_ref {
        Option::Some(t) => (t.bang, Option::Some(t.path.clone())),
        Option::None => (false, Option::None),
    };
    let block1 = ImplBlock {
        unsafety: decl.unsafety,
        generics: clone_params(&decl.generics),
        bang,
        trait_text,
        self_text: self_text.clone(),
        items: rec_items,
    };
    let block2 = ImplBlock {
        unsafety: false,
        generics: clone_params(&decl.generics),
        bang: false,
        trait_text: Option::None,
        self_text,
        items: cfg_items,
    };
    let v = vec![
        OutItem::BindingBlock { block: block1 },
        OutItem::BindingBlock { block: block2 },
    ];
    proof {
        assert(ivs.take(ivs.len() as int) =~= ivs);
        assert(out_items_view(v@) =~~= mock_impl_items(decl@));
    }
    Result::Ok(v)
}

// ---------------------------------------------------------------------------
// Interfaces
// ---------------------------------------------------------------------------

/// The fault one interface member is rejected with, if any.  Constants are
/// passed over silently; associated types are unsupported, generic ones and
/// bounded ones each with their own explanation.
pub open spec fn iface_item_fault(it: InterfaceItemView) -> Option<FaultView> {
    match it {
        InterfaceItemView::ConstMember => Option::None,
        InterfaceItemView::Method { sig } => method_fault(sig),
        InterfaceItemView::AssocType { has_generics, has_bounds } => if has_generics {
            Option::Some(
                FaultView::Unsupported {
                    msg: "Mockall does not yet support generic associated types"@,
                },
            )
        } else if has_bounds {
            Option::Some(
                FaultView::Unsupported {
                    msg: "Mockall does not yet support associated types with trait bounds"@,
                },
            )
        } else {
            Option::Some(
                FaultView::Unsupported { msg: "MockAll does not yet support associated types"@ },
            )
        },
        InterfaceItemView::Unrecognized => Option::Some(
            FaultView::Unsupported { msg: "This impl item is not yet supported by MockAll"@ },
        ),
    }
}

/// The fault of the first offending interface member, in order, if any.
pub open spec fn iface_items_fault(items: Seq<InterfaceItemView>) -> Option<FaultView>
    decreases items.len(),
{
    if items.len() == 0 {
        Option::None
    } else {
        match iface_items_fault(items.drop_last()) {
            Option::Some(f) => Option::Some(f),
            Option::None => iface_item_fault(items.last()),
        }
    }
}

/// A fault among the first interface members decides the fault of the list.
proof fn lemma_iface_items_fault_extends(items: Seq<InterfaceItemView>, i: int)
    requires
        0 <= i <= items.len(),
        iface_items_fault(items.take(i)) is Some,
    ensures
        iface_items_fault(items) == iface_items_fault(items.take(i)),
    decreases items.len() - i,
{
    if i < items.len() {
        assert(items.take(i + 1).drop_last() =~= items.take(i));
        lemma_iface_items_fault_extends(items, i + 1);
    } else {
        assert(items.take(i) =~= items);
    }
}

/// The items of the recording block of an interface binding: exactly one
/// recording method per method member, under inherited visibility, and
/// nothing else.
pub open spec fn iface_rec_items(items: Seq<InterfaceItemView>) -> Seq<BlockItemView>
    decreases items.len(),
{
    if items.len() == 0 {
        Seq::empty()
    } else {
        let rest = iface_rec_items(items.drop_last());
        match items.last() {
            InterfaceItemView::Method { sig } => rest.push(
                BlockItemView::Recording { method: synth_recording(false, Seq::empty(), sig) },
            ),
            _ => rest,
        }
    }
}

/// The items of the configuration block of an interface binding: exactly one
/// configuration method per method member that takes a receiver.
pub open spec fn iface_cfg_items(items: Seq<InterfaceItemView>) -> Seq<BlockItemView>
    decreases items.len(),
{
    if items.len() == 0 {
        Seq::empty()
    } else {
        let rest = iface_cfg_items(items.drop_last());
        match items.last() {
            InterfaceItemView::Method { sig } => if has_receiver(sig.inputs) {
                rest.push(BlockItemView::Config { method: synth_config(sig) })
            } else {
                rest
            },
            _ => rest,
        }
    }
}

/// How many method members an interface member list holds.
pub open spec fn iface_method_count(items: Seq<InterfaceItemView>) -> nat
    decreases items.len(),
{
    if items.len() == 0 {
        0
    } else {
        iface_method_count(items.drop_last()) + (if items.last() is Method {
            1nat
        } else {
            0nat
        })
    }
}

/// How many receiver-taking (non-static) method members an interface member
/// list holds.
pub open spec fn iface_instance_method_count(items: Seq<InterfaceItemView>) -> nat
    decreases items.len(),
{
    if items.len() == 0 {
        0
    } else {
        iface_instance_method_count(items.drop_last()) + (
        match items.last() {
            InterfaceItemView::Method { sig } => if has_receiver(sig.inputs) {
                1nat
            } else {
                0nat
            },
            _ => 0nat,
        })
    }
}

/// The method signatures of an interface's members, in order.
pub open spec fn iface_method_sigs(items: Seq<InterfaceItemView>) -> Seq<MethodSignatureView>
    decreases items.len(),
{
    if items.len() == 0 {
        Seq::empty()
    } else {
        let rest = iface_method_sigs(items.drop_last());
        match items.last() {
            InterfaceItemView::Method { sig } => rest.push(sig),
            _ => rest,
        }
    }
}

/// The receiver-taking signatures among a signature list, in order.
pub open spec fn instance_sigs(sigs: Seq<MethodSignatureView>) -> Seq<MethodSignatureView>
    decreases sigs.len(),
{
    if sigs.len() == 0 {
        Seq::empty()
    } else {
        let rest = instance_sigs(sigs.drop_last());
        if has_receiver(sigs.last().inputs) {
            rest.push(sigs.last())
        } else {
            rest
        }
    }
}

/// For an interface binding, the recording block holds only the interface's
/// own members: exactly one recording method per method member, in order,
/// under inherited visibility, and no configuration method.  The second,
/// disjoint block holds exactly one configuration method per non-static
/// (receiver-taking) method member, in order.
pub proof fn lemma_interface_binding_split(items: Seq<InterfaceItemView>)
    ensures
        iface_rec_items(items) == iface_method_sigs(items).map_values(
            |sig: MethodSignatureView|
                BlockItemView::Recording { method: synth_recording(false, Seq::empty(), sig) },
        ),
        iface_cfg_items(items) == instance_sigs(iface_method_sigs(items)).map_values(
            |sig: MethodSignatureView| BlockItemView::Config { method: synth_config(sig) },
        ),
        iface_rec_items(items).len() == iface_method_count(items),
        iface_cfg_items(items).len() == iface_instance_method_count(items),
    decreases items.len(),
{
    if items.len() > 0 {
        let dl = items.drop_last();
        lemma_interface_binding_split(dl);
        match items.last() {
            InterfaceItemView::Method { sig } => {
                assert(iface_method_sigs(items) == iface_method_sigs(dl).push(sig));
                assert(iface_method_sigs(items).drop_last() =~= iface_method_sigs(dl));
                assert(iface_method_sigs(items).last() == sig);
                assert(iface_rec_items(items) =~= iface_method_sigs(items).map_values(
                    |sig2: MethodSignatureView|
                        BlockItemView::Recording {
                            method: synth_recording(false, Seq::empty(), sig2),
                        },
                ));
                assert(iface_cfg_items(items) =~= instance_sigs(
                    iface_method_sigs(items),
                ).map_values(
                    |sig2: MethodSignatureView| BlockItemView::Config {
                        method: synth_config(sig2),
                    },
                ));
            },
            _ => {
                assert(iface_method_sigs(items) == iface_method_sigs(dl));
                assert(iface_rec_items(items) == iface_rec_items(dl));
                assert(iface_cfg_items(items) == iface_cfg_items(dl));
            },
        }
    }
}

/// The interface-bound recording block for a stand-in type.
pub open spec fn iface_rec_block(mock_name: Seq<char>, d: InterfaceDeclView) -> OutItemView {
    OutItemView::BindingBlock {
        block: ImplBlockView {
            unsafety: d.unsafety,
            generics: d.generics,
            bang: false,
            trait_text: Option::Some(d.name + generics_text(d.generics)),
            self_text: mock_name + generics_text(d.generics),
            items: iface_rec_items(d.items),
        },
    }
}

/// The separate, non-interface-bound configuration block for a stand-in type:
/// interface-binding rules forbid adding members beyond the interface's own
/// member set, so the configuration methods always stand outside it.
pub open spec fn iface_cfg_block(mock_name: Seq<char>, d: InterfaceDeclView) -> OutItemView {
    OutItemView::BindingBlock {
        block: ImplBlockView {
            unsafety: false,
            generics: d.generics,
            bang: false,
            trait_text: Option::None,
            self_text: mock_name + generics_text(d.generics),
            items: iface_cfg_items(d.items),
        },
    }
}

/// Assemble the two blocks binding an interface onto a stand-in type.
pub fn mock_trait_methods(mock_name: &str, decl: &InterfaceDecl) -> (r: Result<
    (OutItem, OutItem),
    Fault,
>)
    ensures
        (match iface_items_fault(decl@.items) {
            Option::Some(f) => r matches Err(e) && e@ == f,
            Option::None => r matches Ok(p) && p.0@ == iface_rec_block(mock_name@, decl@)
                && p.1@ == iface_cfg_block(mock_name@, decl@),
        }),
{
    let ghost ivs = decl@.items;
    let mut rec_items: Vec<BlockItem> = Vec::new();
    let mut cfg_items: Vec<BlockItem> = Vec::new();
    let mut i: usize = 0;
    while i < decl.items.len()
        invariant
            i <= decl.items.len(),
            ivs == decl@.items,
            ivs.len() == decl.items@.len(),
            iface_items_fault(ivs.take(i as int)) is None,
            block_items_view(rec_items@) == iface_rec_items(ivs.take(i as int)),
            block_items_view(cfg_items@) == iface_cfg_items(ivs.take(i as int)),
        decreases decl.items.len() - i,
    {
        proof {
            assert(ivs.take(i as int + 1).drop_last() =~= ivs.take(i as int));
            assert(ivs.take(i as int + 1).last() == ivs[i as int]);
        }
        match &decl.items[i] {
            InterfaceItem::ConstMember => {},
            InterfaceItem::Method { sig } => {
                let vis = String::new();
                match gen_mock_method(false, vis.as_str(), sig) {
                    Result::Ok(pair) => {
                        let MethodPair { recording, config } = pair;
                        rec_items.push(BlockItem::Recording { method: recording });
                        match config {
                            Option::Some(c) => {
                                cfg_items.push(BlockItem::Config { method: c });
                            },
                            Option::None => {},
                        }
                    },
                    Result::Err(e) => {
                        proof {
                            lemma_iface_items_fault_extends(ivs, i as int + 1);
                        }
                        return Result::Err(e);
                    },
                }
            },
            InterfaceItem::AssocType { has_generics, has_bounds } => {
                proof {
                    lemma_iface_items_fault_extends(ivs, i as int + 1);
                }
                let msg: &str = if *has_generics {
                    "Mockall does not yet support generic associated types"
                } else if *has_bounds {
                    "Mockall does not yet support associated types with trait bounds"
                } else {
                    "MockAll does not yet support associated types"
                };
                return Result::Err(Fault::Unsupported { msg: msg.to_owned() });
            },
            InterfaceItem::Unrecognized => {
                proof {
                    lemma_iface_items_fault_extends(ivs, i as int + 1);
                }
                return Result::Err(
                    Fault::Unsupported {
                        msg: "This impl item is not yet supported by MockAll".to_owned(),
                    },
                );
            },
        }
        i = i + 1;
        proof {
            assert(block_items_view(rec_items@) =~= iface_rec_items(ivs.take(i as int)));
            assert(block_items_view(cfg_items@) =~= iface_cfg_items(ivs.take(i as int)));
        }
    }
    let mut trait_text = decl.name.clone();
    push_generics(&mut trait_text, &decl.generics);
    let mut self_text = mock_name.to_owned();
    push_generics(&mut self_text, &decl.generics);
    let rec = OutItem::BindingBlock {
        block: ImplBlock {
            unsafety: decl.unsafety,
            generics: clone_params(&decl.generics),
            bang: false,
            trait_text: Option::Some(trait_text),
            self_text: self_text.clone(),
            items: rec_items,
        },
    };
    let cfg = OutItem::BindingBlock {
        block: ImplBlock {
            unsafety: false,
            generics: clone_params(&decl.generics),
            bang: false,
            trait_text: Option::None,
            self_text,
            items: cfg_items,
        },
    };
    proof {
        assert(ivs.take(ivs.len() as int) =~= ivs);
        assert(rec@ =~~= iface_rec_block(mock_name@, decl@));
        assert(cfg@ =~~= iface_cfg_block(mock_name@, decl@));
    }
    Result::Ok((rec, cfg))
}

/// The fault a standalone interface is rejected with, if any: its generics
/// are examined first (for the stand-in type), then its members in order.
pub open spec fn interface_fault(d: InterfaceDeclView) -> Option<FaultView> {
    match params_fault(d.generics) {
        Option::Some(f) => Option::Some(f),
        Option::None => iface_items_fault(d.items),
    }
}

/// Everything emitted for a standalone interface: the stand-in type, then the
/// interface-bound recording block and the separate configuration block.
pub open spec fn mock_trait_items(d: InterfaceDeclView) -> Seq<OutItemView> {
    seq![OutItemView::TypeItem { decl: synth_struct(d.vis, d.name, d.generics) }, iface_rec_block(
        mock_ident_text(d.name),
        d,
    ), iface_cfg_block(mock_ident_text(d.name), d)]
}

/// Assemble the output for a standalone interface: a stand-in type that
/// implements the interface.
pub fn mock_trait(decl: &InterfaceDecl) -> (r: Result<Vec<OutItem>, Fault>)
    ensures
        (match interface_fault(decl@) {
            Option::Some(f) => r matches Err(e) && e@ == f,
            Option::None => r matches Ok(v) && out_items_view(v@) == mock_trait_items(decl@),
        }),
{
    let s = match gen_struct(decl.vis.as_str(), decl.name.as_str(), &decl.generics) {
        Result::Ok(s) => s,
        Result::Err(e) => {
            return Result::Err(e);
        },
    };
    let mock_name = gen_mock_ident(decl.name.as_str());
    let (rec, cfg) = match mock_trait_methods(mock_name.as_str(), decl) {
        Result::Ok(p) => p,
        Result::Err(e) => {
            return Result::Err(e);
        },
    };
    let mut v: Vec<OutItem> = Vec::new();
    v.push(OutItem::TypeItem { decl: s });
    v.push(rec);
    v.push(cfg);
    proof {
        assert(out_items_view(v@) =~~= mock_trait_items(decl@));
    }
    Result::Ok(v)
}

// ---------------------------------------------------------------------------
// Bare types, and the annotation-driven dispatch
// ---------------------------------------------------------------------------

/// Everything emitted for a bare source type: just the stand-in type.
pub open spec fn mock_struct_items(d: TypeDeclView) -> Seq<OutItemView> {
    seq![OutItemView::TypeItem { decl: synth_struct(d.vis, d.name, d.generics) }]
}

/// Assemble the output for a bare source type.
pub fn mock_struct(decl: &TypeDecl) -> (r: Result<Vec<OutItem>, Fault>)
    ensures
        (match params_fault(decl@.generics) {
            Option::Some(f) => r matches Err(e) && e@ == f,
            Option::None => r matches Ok(v) && out_items_view(v@) == mock_struct_items(decl@),
        }),
{
    let s = match gen_struct(decl.vis.as_str(), decl.name.as_str(), &decl.generics) {
        Result::Ok(s) => s,
        Result::Err(e) => {
            return Result::Err(e);
        },
    };
    let mut v: Vec<OutItem> = Vec::new();
    v.push(OutItem::TypeItem { decl: s });
    proof {
        assert(out_items_view(v@) =~~= mock_struct_items(decl@));
    }
    Result::Ok(v)
}

/// The fault a source declaration is rejected with, if any.
pub open spec fn source_fault(s: SourceDeclView) -> Option<FaultView> {
    match s {
        SourceDeclView::TypeSource { decl } => params_fault(decl.generics),
        SourceDeclView::BindingSource { decl } => binding_fault(decl),
        SourceDeclView::InterfaceSource { decl } => interface_fault(decl),
        SourceDeclView::Unrecognized => Option::Some(
            FaultView::Unsupported { msg: "#[automock] does not support this item type"@ },
        ),
    }
}

/// Everything emitted for a source declaration.
pub open spec fn source_items(s: SourceDeclView) -> Seq<OutItemView> {
    match s {
        SourceDeclView::TypeSource { decl } => mock_struct_items(decl),
        SourceDeclView::BindingSource { decl } => mock_impl_items(decl),
        SourceDeclView::InterfaceSource { decl } => mock_trait_items(decl),
        SourceDeclView::Unrecognized => Seq::empty(),
    }
}

/// The annotation-driven entry point of the engine: generate the stand-in
/// declarations for one source declaration, as text to be appended after it.
/// The first offending construct aborts the invocation with its fault and no
/// output at all is produced for it.
pub fn mock_item(src: &SourceDecl) -> (r: Result<String, Fault>)
    ensures
        (match source_fault(src@) {
            Option::Some(f) => r matches Err(e) && e@ == f,
            Option::None => r matches Ok(t) && t@ == output_text(source_items(src@)),
        }),
{
    let items = match src {
        SourceDecl::TypeSource { decl } => mock_struct(decl),
        SourceDecl::BindingSource { decl } => mock_impl(decl),
        SourceDecl::InterfaceSource { decl } => mock_trait(decl),
        SourceDecl::Unrecognized => {
            return Result::Err(
                Fault::Unsupported { msg: "#[automock] does not support this item type".to_owned() },
            );
        },
    };
    match items {
        Result::Ok(v) => Result::Ok(render_output(&v)),
        Result::Err(e) => Result::Err(e),
    }
}

} // verus!
