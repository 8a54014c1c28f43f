//! The output model: the declarations the generator emits, before they are
//! turned into text.  Keeping the output structured lets the contracts state
//! the shape of what is generated (which block holds which methods, how many
//! placeholder fields the stand-in type has) independently of rendering.

use vstd::prelude::*;
use crate::model::{
    GenericParam, GenericParamView, MethodSignature, MethodSignatureView, params_view,
};

verus! {

/// The body of a recording method: either the deferred-fault stub emitted for
/// a receiverless (static) method, or the delegation to the call-recording
/// registry, keyed by the method name and parameterized by the argument-type
/// tuple and the return type.
pub enum RecordingBody {
    Stub,
    Delegate { name: String, arg_types: String, ret: String, args: String },
}

#[verifier::ext_equal]
pub enum RecordingBodyView {
    Stub,
    Delegate { name: Seq<char>, arg_types: Seq<char>, ret: Seq<char>, args: Seq<char> },
}

impl View for RecordingBody {
    type V = RecordingBodyView;

    open spec fn view(&self) -> RecordingBodyView {
        match self {
            RecordingBody::Stub => RecordingBodyView::Stub,
            RecordingBody::Delegate { name, arg_types, ret, args } => (
            RecordingBodyView::Delegate {
                name: name@,
                arg_types: arg_types@,
                ret: ret@,
                args: args@,
            }),
        }
    }
}

/// A recording method: the original signature reproduced verbatim, under the
/// requested visibility, with a synthesized body.
pub struct RecordingMethod {
    pub defaultness: bool,
    pub vis: String,
    pub sig: MethodSignature,
    pub body: RecordingBody,
}

#[verifier::ext_equal]
pub struct RecordingMethodView {
    pub defaultness: bool,
    pub vis: Seq<char>,
    pub sig: MethodSignatureView,
    pub body: RecordingBodyView,
}

impl View for RecordingMethod {
    type V = RecordingMethodView;

    open spec fn view(&self) -> RecordingMethodView {
        RecordingMethodView {
            defaultness: self.defaultness,
            vis: self.vis@,
            sig: self.sig@,
            body: self.body@,
        }
    }
}

/// A configuration method (`expect_<name>`): always public, carrying the
/// original method's generics, returning the registry's expectation handle
/// for the same argument-type tuple and return type.
pub struct ConfigMethod {
    pub name: String,
    pub generics: Vec<GenericParam>,
    pub called_name: String,
    pub arg_types: String,
    pub ret: String,
}

#[verifier::ext_equal]
pub struct ConfigMethodView {
    pub name: Seq<char>,
    pub generics: Seq<GenericParamView>,
    pub called_name: Seq<char>,
    pub arg_types: Seq<char>,
    pub ret: Seq<char>,
}

impl View for ConfigMethod {
    type V = ConfigMethodView;

    open spec fn view(&self) -> ConfigMethodView {
        ConfigMethodView {
            name: self.name@,
            generics: params_view(self.generics@),
            called_name: self.called_name@,
            arg_types: self.arg_types@,
            ret: self.ret@,
        }
    }
}

/// The output of the signature synthesizer for one method: the recording
/// method, and the configuration method unless the method is receiverless.
pub struct MethodPair {
    pub recording: RecordingMethod,
    pub config: Option<ConfigMethod>,
}

#[verifier::ext_equal]
pub struct MethodPairView {
    pub recording: RecordingMethodView,
    pub config: Option<ConfigMethodView>,
}

impl View for MethodPair {
    type V = MethodPairView;

    open spec fn view(&self) -> MethodPairView {
        MethodPairView {
            recording: self.recording@,
            config: (match self.config {
                Option::Some(c) => Option::Some(c@),
                Option::None => Option::None,
            }),
        }
    }
}

/// One field of the stand-in type: the registry handle (always first, always
/// the same name), or a zero-sized phantom placeholder for one generic
/// parameter of the source.
pub enum StandInField {
    Registry,
    Phantom { param: GenericParam },
}

#[verifier::ext_equal]
pub enum StandInFieldView {
    Registry,
    Phantom { param: GenericParamView },
}

impl View for StandInField {
    type V = StandInFieldView;

    open spec fn view(&self) -> StandInFieldView {
        match self {
            StandInField::Registry => StandInFieldView::Registry,
            StandInField::Phantom { param } => (StandInFieldView::Phantom { param: param@ }),
        }
    }
}

/// The views of a stand-in field list, in order.
pub open spec fn fields_view(v: Seq<StandInField>) -> Seq<StandInFieldView> {
    v.map_values(|f: StandInField| f@)
}

/// The stand-in type declaration.
pub struct StandInStruct {
    pub vis: String,
    pub name: String,
    pub generics: Vec<GenericParam>,
    pub fields: Vec<StandInField>,
}

#[verifier::ext_equal]
pub struct StandInStructView {
    pub vis: Seq<char>,
    pub name: Seq<char>,
    pub generics: Seq<GenericParamView>,
    pub fields: Seq<StandInFieldView>,
}

impl View for StandInStruct {
    type V = StandInStructView;

    open spec fn view(&self) -> StandInStructView {
        StandInStructView {
            vis: self.vis@,
            name: self.name@,
            generics: params_view(self.generics@),
            fields: fields_view(self.fields@),
        }
    }
}

/// One item of an emitted binding block.
pub enum BlockItem {
    Passthrough { tokens: String },
    Recording { method: RecordingMethod },
    Config { method: ConfigMethod },
}

#[verifier::ext_equal]
pub enum BlockItemView {
    Passthrough { tokens: Seq<char> },
    Recording { method: RecordingMethodView },
    Config { method: ConfigMethodView },
}

impl View for BlockItem {
    type V = BlockItemView;

    open spec fn view(&self) -> BlockItemView {
        match self {
            BlockItem::Passthrough { tokens } => (BlockItemView::Passthrough { tokens: tokens@ }),
            BlockItem::Recording { method } => (BlockItemView::Recording { method: method@ }),
            BlockItem::Config { method } => (BlockItemView::Config { method: method@ }),
        }
    }
}

/// The views of a block item list, in order.
pub open spec fn block_items_view(v: Seq<BlockItem>) -> Seq<BlockItemView> {
    v.map_values(|i: BlockItem| i@)
}

/// An emitted binding block: `impl <generics> [!][trait for] self { items }`.
/// The interface path and the target type are carried as renderable text.
pub struct ImplBlock {
    pub unsafety: bool,
    pub generics: Vec<GenericParam>,
    pub bang: bool,
    pub trait_text: Option<String>,
    pub self_text: String,
    pub items: Vec<BlockItem>,
}

#[verifier::ext_equal]
pub struct ImplBlockView {
    pub unsafety: bool,
    pub generics: Seq<GenericParamView>,
    pub bang: bool,
    pub trait_text: Option<Seq<char>>,
    pub self_text: Seq<char>,
    pub items: Seq<BlockItemView>,
}

impl View for ImplBlock {
    type V = ImplBlockView;

    open spec fn view(&self) -> ImplBlockView {
        ImplBlockView {
            unsafety: self.unsafety,
            generics: params_view(self.generics@),
            bang: self.bang,
            trait_text: crate::model::opt_text(self.trait_text),
            self_text: self.self_text@,
            items: block_items_view(self.items@),
        }
    }
}

/// One emitted top-level declaration.
pub enum OutItem {
    TypeItem { decl: StandInStruct },
    BindingBlock { block: ImplBlock },
}

#[verifier::ext_equal]
pub enum OutItemView {
    TypeItem { decl: StandInStructView },
    BindingBlock { block: ImplBlockView },
}

impl View for OutItem {
    type V = OutItemView;

    open spec fn view(&self) -> OutItemView {
        match self {
            OutItem::TypeItem { decl } => (OutItemView::TypeItem { decl: decl@ }),
            OutItem::BindingBlock { block } => (OutItemView::BindingBlock { block: block@ }),
        }
    }
}

/// The views of an output item list, in order.
pub open spec fn out_items_view(v: Seq<OutItem>) -> Seq<OutItemView> {
    v.map_values(|i: OutItem| i@)
}

} // verus!
