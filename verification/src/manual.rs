//! The manual entry point: a stand-in is generated from a spelled-out
//! specification — visibility, name, generics, a braced block of body-less
//! method signatures, and trailing interface definitions to additionally
//! bind.

use vstd::prelude::*;
use vstd::string::StringExecFns;
use crate::assemble::{
    iface_cfg_block, iface_items_fault, iface_rec_block, mock_trait_methods,
};
use crate::model::{
    Fault, FaultView, InterfaceDecl, InterfaceDeclView, ManualItem, ManualItemView, ManualSpec,
    ManualSpecView, MethodSignature, MethodSignatureView, clone_sig, manual_items_view, sigs_view,
};
use crate::naming::{gen_mock_ident, mock_ident_text};
use crate::out::{
    BlockItem, BlockItemView, ImplBlock, ImplBlockView, MethodPair, OutItem, OutItemView,
    block_items_view, out_items_view,
};
use crate::render::{output_text, render_output};
use crate::synth::{
    gen_mock_method, gen_struct, has_receiver, method_fault, params_fault, synth_config,
    synth_recording, synth_struct,
};

verus! {

// ---------------------------------------------------------------------------
// The braced block: body-less method signatures only
// ---------------------------------------------------------------------------

/// The syntax fault one item of the braced block is rejected with, if any:
/// anything that is not a plain, body-less method signature.
pub open spec fn manual_item_fault(it: ManualItemView) -> Option<FaultView> {
    match it {
        ManualItemView::Method { has_body, .. } => if has_body {
            Option::Some(FaultView::Syntax { msg: "Unsupported in this context"@ })
        } else {
            Option::None
        },
        ManualItemView::Unrecognized => Option::Some(
            FaultView::Syntax { msg: "Unsupported in this context"@ },
        ),
    }
}

/// The syntax fault of the first offending item of the braced block, if any.
pub open spec fn manual_parse_fault(items: Seq<ManualItemView>) -> Option<FaultView>
    decreases items.len(),
{
    if items.len() == 0 {
        Option::None
    } else {
        match manual_parse_fault(items.drop_last()) {
            Option::Some(f) => Option::Some(f),
            Option::None => manual_item_fault(items.last()),
        }
    }
}

/// A fault among the first items decides the fault of the whole block.
proof fn lemma_manual_parse_fault_extends(items: Seq<ManualItemView>, i: int)
    requires
        0 <= i <= items.len(),
        manual_parse_fault(items.take(i)) is Some,
    ensures
        manual_parse_fault(items) == manual_parse_fault(items.take(i)),
    decreases items.len() - i,
{
    if i < items.len() {
        assert(items.take(i + 1).drop_last() =~= items.take(i));
        lemma_manual_parse_fault_extends(items, i + 1);
    } else {
        assert(items.take(i) =~= items);
    }
}

/// A method body where none is allowed always fails the whole invocation,
/// with a syntax fault — and, through the contract of the entry point, with
/// no output at all.
pub proof fn lemma_manual_body_rejected(items: Seq<ManualItemView>, i: int)
    requires
        0 <= i < items.len(),
        items[i] matches ManualItemView::Method { has_body: true, .. },
    ensures
        manual_parse_fault(items) is Some,
        manual_parse_fault(items) matches Option::Some(f) && f is Syntax,
    decreases items.len(),
{
    lemma_manual_parse_fault_syntax(items);
    if i == items.len() - 1 {
    } else {
        lemma_manual_body_rejected(items.drop_last(), i);
    }
}

/// Every fault of the braced block is a syntax fault.
proof fn lemma_manual_parse_fault_syntax(items: Seq<ManualItemView>)
    ensures
        manual_parse_fault(items) matches Option::Some(f) ==> f is Syntax,
    decreases items.len(),
{
    if items.len() > 0 {
        lemma_manual_parse_fault_syntax(items.drop_last());
    }
}

/// The method signatures of the braced block, in order.
pub open spec fn manual_sigs(items: Seq<ManualItemView>) -> Seq<MethodSignatureView>
    decreases items.len(),
{
    if items.len() == 0 {
        Seq::empty()
    } else {
        let rest = manual_sigs(items.drop_last());
        match items.last() {
            ManualItemView::Method { sig, .. } => rest.push(sig),
            ManualItemView::Unrecognized => rest,
        }
    }
}

/// The fault of the first rejected signature, in order, if any.
pub open spec fn sigs_fault(sigs: Seq<MethodSignatureView>) -> Option<FaultView>
    decreases sigs.len(),
{
    if sigs.len() == 0 {
        Option::None
    } else {
        match sigs_fault(sigs.drop_last()) {
            Option::Some(f) => Option::Some(f),
            Option::None => method_fault(sigs.last()),
        }
    }
}

/// A fault among the first signatures decides the fault of the whole list.
proof fn lemma_sigs_fault_extends(sigs: Seq<MethodSignatureView>, i: int)
    requires
        0 <= i <= sigs.len(),
        sigs_fault(sigs.take(i)) is Some,
    ensures
        sigs_fault(sigs) == sigs_fault(sigs.take(i)),
    decreases sigs.len() - i,
{
    if i < sigs.len() {
        assert(sigs.take(i + 1).drop_last() =~= sigs.take(i));
        lemma_sigs_fault_extends(sigs, i + 1);
    } else {
        assert(sigs.take(i) =~= sigs);
    }
}

/// The recording-block items of a manual stand-in: one recording method per
/// signature, forced public so the stand-in is externally callable in tests.
pub open spec fn manual_rec_items(sigs: Seq<MethodSignatureView>) -> Seq<BlockItemView>
    decreases sigs.len(),
{
    if sigs.len() == 0 {
        Seq::empty()
    } else {
        manual_rec_items(sigs.drop_last()).push(
            BlockItemView::Recording { method: synth_recording(false, "pub"@, sigs.last()) },
        )
    }
}

/// The configuration-block items of a manual stand-in: exactly one
/// configuration method per signature that takes a receiver.
pub open spec fn manual_cfg_items(sigs: Seq<MethodSignatureView>) -> Seq<BlockItemView>
    decreases sigs.len(),
{
    if sigs.len() == 0 {
        Seq::empty()
    } else {
        let rest = manual_cfg_items(sigs.drop_last());
        if has_receiver(sigs.last().inputs) {
            rest.push(BlockItemView::Config { method: synth_config(sigs.last()) })
        } else {
            rest
        }
    }
}

// ---------------------------------------------------------------------------
// Trailing interfaces
// ---------------------------------------------------------------------------

/// The fault of the first rejected trailing interface, in order, if any.
pub open spec fn ifaces_fault(ds: Seq<InterfaceDeclView>) -> Option<FaultView>
    decreases ds.len(),
{
    if ds.len() == 0 {
        Option::None
    } else {
        match ifaces_fault(ds.drop_last()) {
            Option::Some(f) => Option::Some(f),
            Option::None => iface_items_fault(ds.last().items),
        }
    }
}

/// A fault among the first interfaces decides the fault of the whole list.
proof fn lemma_ifaces_fault_extends(ds: Seq<InterfaceDeclView>, i: int)
    requires
        0 <= i <= ds.len(),
        ifaces_fault(ds.take(i)) is Some,
    ensures
        ifaces_fault(ds) == ifaces_fault(ds.take(i)),
    decreases ds.len() - i,
{
    if i < ds.len() {
        assert(ds.take(i + 1).drop_last() =~= ds.take(i));
        lemma_ifaces_fault_extends(ds, i + 1);
    } else {
        assert(ds.take(i) =~= ds);
    }
}

/// The blocks binding each trailing interface onto the stand-in, in order.
pub open spec fn ifaces_items(mock_name: Seq<char>, ds: Seq<InterfaceDeclView>) -> Seq<OutItemView>
    decreases ds.len(),
{
    if ds.len() == 0 {
        Seq::empty()
    } else {
        ifaces_items(mock_name, ds.drop_last()) + seq![
            iface_rec_block(mock_name, ds.last()),
            iface_cfg_block(mock_name, ds.last()),
        ]
    }
}

// ---------------------------------------------------------------------------
// The manual entry point
// ---------------------------------------------------------------------------

/// The fault a manual specification is rejected with, if any: the braced
/// block is parsed first, then the stand-in type's generics are examined,
/// then each signature, then each trailing interface, all in order.
pub open spec fn manual_fault(m: ManualSpecView) -> Option<FaultView> {
    match manual_parse_fault(m.items) {
        Option::Some(f) => Option::Some(f),
        Option::None => match params_fault(m.generics) {
            Option::Some(f) => Option::Some(f),
            Option::None => match sigs_fault(manual_sigs(m.items)) {
                Option::Some(f) => Option::Some(f),
                Option::None => ifaces_fault(m.interfaces),
            },
        },
    }
}

/// Everything emitted for a manual specification: the stand-in type, one
/// self-binding block of recording methods, a second self-binding block of
/// configuration methods, then the blocks of each trailing interface.
pub open spec fn do_mock_items(m: ManualSpecView) -> Seq<OutItemView> {
    seq![
        OutItemView::TypeItem { decl: synth_struct(m.vis, m.name, m.generics) },
        OutItemView::BindingBlock {
            block: ImplBlockView {
                unsafety: false,
                generics: Seq::empty(),
                bang: false,
                trait_text: Option::None,
                self_text: mock_ident_text(m.name),
                items: manual_rec_items(manual_sigs(m.items)),
            },
        },
        OutItemView::BindingBlock {
            block: ImplBlockView {
                unsafety: false,
                generics: Seq::empty(),
                bang: false,
                trait_text: Option::None,
                self_text: mock_ident_text(m.name),
                items: manual_cfg_items(manual_sigs(m.items)),
            },
        },
    ] + ifaces_items(mock_ident_text(m.name), m.interfaces)
}

/// The manual entry point of the engine: generate the full stand-in output
/// for one spelled-out specification.  The first offending construct, in
/// order, aborts the invocation with its fault: no partial output.
pub fn do_mock(m: &ManualSpec) -> (r: Result<String, Fault>)
    ensures
        (match manual_fault(m@) {
            Option::Some(f) => r matches Err(e) && e@ == f,
            Option::None => r matches Ok(t) && t@ == output_text(do_mock_items(m@)),
        }),
{
    let ghost mvs = manual_items_view(m.items@);
    let mut sigs: Vec<MethodSignature> = Vec::new();
    let mut i: usize = 0;
    while i < m.items.len()
        invariant
            i <= m.items.len(),
            mvs == manual_items_view(m.items@),
            mvs.len() == m.items@.len(),
            manual_parse_fault(mvs.take(i as int)) is None,
            sigs_view(sigs@) == manual_sigs(mvs.take(i as int)),
        decreases m.items.len() - i,
    {
        proof {
            assert(mvs.take(i as int + 1).drop_last() =~= mvs.take(i as int));
            assert(mvs.take(i as int + 1).last() == mvs[i as int]);
        }
        match &m.items[i] {
            ManualItem::Method { sig, has_body } => {
                if *has_body {
                    proof {
                        lemma_manual_parse_fault_extends(mvs, i as int + 1);
                    }
                    return Result::Err(
                        Fault::Syntax { msg: "Unsupported in this context".to_owned() },
                    );
                }
                sigs.push(clone_sig(sig));
            },
            ManualItem::Unrecognized => {
                proof {
                    lemma_manual_parse_fault_extends(mvs, i as int + 1);
                }
                return Result::Err(
                    Fault::Syntax { msg: "Unsupported in this context".to_owned() },
                );
            },
        }
        i = i + 1;
        proof {
            assert(sigs_view(sigs@) =~= manual_sigs(mvs.take(i as int)));
        }
    }
    proof {
        assert(mvs.take(mvs.len() as int) =~= mvs);
    }
    let s = match gen_struct(m.vis.as_str(), m.name.as_str(), &m.generics) {
        Result::Ok(s) => s,
        Result::Err(e) => {
            return Result::Err(e);
        },
    };
    let mock_name = gen_mock_ident(m.name.as_str());
    let ghost svs = sigs_view(sigs@);
    let mut rec_items: Vec<BlockItem> = Vec::new();
    let mut cfg_items: Vec<BlockItem> = Vec::new();
    let mut j: usize = 0;
    while j < sigs.len()
        invariant
            j <= sigs.len(),
            svs == sigs_view(sigs@),
            svs.len() == sigs@.len(),
            svs == manual_sigs(mvs.take(mvs.len() as int)),
            mvs == manual_items_view(m.items@),
            mvs.len() == m.items@.len(),
            manual_parse_fault(mvs.take(mvs.len() as int)) is None,
            params_fault(m@.generics) is None,
            sigs_fault(svs.take(j as int)) is None,
            block_items_view(rec_items@) == manual_rec_items(svs.take(j as int)),
            block_items_view(cfg_items@) == manual_cfg_items(svs.take(j as int)),
        decreases sigs.len() - j,
    {
        proof {
            assert(svs.take(j as int + 1).drop_last() =~= svs.take(j as int));
            assert(svs.take(j as int + 1).last() == svs[j as int]);
        }
        match gen_mock_method(false, "pub", &sigs[j]) {
            Result::Ok(pair) => {
                let MethodPair { recording, config } = pair;
                rec_items.push(BlockItem::Recording { method: recording });
                match config {
                    Option::Some(c) => {
                        cfg_items.push(BlockItem::Config { method: c });
                    },
                    Option::None => {},
                }
            },
            Result::Err(e) => {
                proof {
                    lemma_sigs_fault_extends(svs, j as int + 1);
                    assert(svs.take(svs.len() as int) =~= svs);
                    assert(mvs.take(mvs.len() as int) =~= mvs);
                }
                return Result::Err(e);
            },
        }
        j = j + 1;
        proof {
            assert(block_items_view(rec_items@) =~= manual_rec_items(svs.take(j as int)));
            assert(block_items_view(cfg_items@) =~= manual_cfg_items(svs.take(j as int)));
        }
    }
    let mut v: Vec<OutItem> = Vec::new();
    v.push(OutItem::TypeItem { decl: s });
    v.push(
        OutItem::BindingBlock {
            block: ImplBlock {
                unsafety: false,
                generics: Vec::new(),
                bang: false,
                trait_text: Option::None,
                self_text: mock_name.clone(),
                items: rec_items,
            },
        },
    );
    v.push(
        OutItem::BindingBlock {
            block: ImplBlock {
                unsafety: false,
                generics: Vec::new(),
                bang: false,
                trait_text: Option::None,
                self_text: mock_name.clone(),
                items: cfg_items,
            },
        },
    );
    let ghost base = out_items_view(v@);
    proof {
        assert(svs.take(svs.len() as int) =~= svs);
        assert(mvs.take(mvs.len() as int) =~= mvs);
        assert(base =~~= do_mock_items(m@).take(3));
    }
    let ghost dvs = m@.interfaces;
    let mut k: usize = 0;
    while k < m.interfaces.len()
        invariant
            k <= m.interfaces.len(),
            dvs == m@.interfaces,
            dvs.len() == m.interfaces@.len(),
            mock_name@ == mock_ident_text(m@.name),
            manual_parse_fault(m@.items) is None,
            params_fault(m@.generics) is None,
            sigs_fault(manual_sigs(m@.items)) is None,
            ifaces_fault(dvs.take(k as int)) is None,
            base == do_mock_items(m@).take(3),
            out_items_view(v@) == base + ifaces_items(mock_ident_text(m@.name), dvs.take(k as int)),
        decreases m.interfaces.len() - k,
    {
        proof {
            assert(dvs.take(k as int + 1).drop_last() =~= dvs.take(k as int));
            assert(dvs.take(k as int + 1).last() == dvs[k as int]);
        }
        proof {
            assert(m.interfaces@[k as int]@ == dvs[k as int]);
        }
        match mock_trait_methods(mock_name.as_str(), &m.interfaces[k]) {
            Result::Ok(p) => {
                let (rec, cfg) = p;
                proof {
                    assert(rec@ == iface_rec_block(mock_ident_text(m@.name), dvs[k as int]));
                    assert(cfg@ == iface_cfg_block(mock_ident_text(m@.name), dvs[k as int]));
                }
                let ghost rb = rec@;
                let ghost cb = cfg@;
                let ghost before = out_items_view(v@);
                v.push(rec);
                v.push(cfg);
                proof {
                    assert(out_items_view(v@) =~~= before + seq![rb, cb]);
                    assert(ifaces_items(mock_ident_text(m@.name), dvs.take(k as int + 1))
                        == ifaces_items(mock_ident_text(m@.name), dvs.take(k as int)) + seq![
                        rb,
                        cb,
                    ]);
                }
            },
            Result::Err(e) => {
                proof {
                    lemma_ifaces_fault_extends(dvs, k as int + 1);
                }
                return Result::Err(e);
            },
        }
        k = k + 1;
        proof {
            assert(out_items_view(v@) =~~= base + ifaces_items(
                mock_ident_text(m@.name),
                dvs.take(k as int),
            ));
        }
    }
    proof {
        assert(dvs.take(dvs.len() as int) =~= dvs);
        assert(out_items_view(v@) =~~= do_mock_items(m@));
    }
    Result::Ok(render_output(&v))
}

} // verus!
