//! The signature synthesizer and the type synthesizer: from one method
//! signature, the paired recording and configuration methods; from a source
//! type's generics, the stand-in type's field layout.

use vstd::prelude::*;
use vstd::string::StringExecFns;
use crate::model::{
    FnArg, FnArgView, Fault, FaultView, GenericParam, GenericParamView, MethodSignature,
    ReceiverKind, args_view, clone_param, clone_params, clone_sig, params_view,
};
use crate::model::MethodSignatureView;
use crate::naming::{gen_mock_ident, mock_ident_text};
use crate::out::{
    ConfigMethod, ConfigMethodView, MethodPair, MethodPairView, RecordingBody, RecordingBodyView,
    RecordingMethod, RecordingMethodView, StandInField, StandInFieldView, StandInStruct,
    StandInStructView,
};

verus! {

// ---------------------------------------------------------------------------
// Receiver classification
// ---------------------------------------------------------------------------

/// Whether one parameter is a receiver.
pub open spec fn is_receiver(a: FnArgView) -> bool {
    a is RecvRef || a is RecvValue
}

/// Whether the parameter list holds a receiver; its absence makes the method
/// static.
pub open spec fn has_receiver(args: Seq<FnArgView>) -> bool
    decreases args.len(),
{
    if args.len() == 0 {
        false
    } else {
        has_receiver(args.drop_last()) || is_receiver(args.last())
    }
}

/// The receiver kind of a parameter list: that of its first receiver
/// parameter, or static when none is present.
pub open spec fn receiver_kind_of(args: Seq<FnArgView>) -> ReceiverKind
    decreases args.len(),
{
    if args.len() == 0 {
        ReceiverKind::Static
    } else {
        let k = receiver_kind_of(args.drop_last());
        if k != ReceiverKind::Static {
            k
        } else if args.last() is RecvRef {
            ReceiverKind::ByRef
        } else if args.last() is RecvValue {
            ReceiverKind::ByValue
        } else {
            ReceiverKind::Static
        }
    }
}

/// The receiver kind is static exactly when no receiver parameter is present.
pub proof fn lemma_receiver_kind_static(args: Seq<FnArgView>)
    ensures
        (receiver_kind_of(args) == ReceiverKind::Static) <==> !has_receiver(args),
    decreases args.len(),
{
    if args.len() > 0 {
        lemma_receiver_kind_static(args.drop_last());
    }
}

/// Classify how a method takes its receiver by scanning its parameter list.
pub fn classify_receiver(args: &Vec<FnArg>) -> (r: ReceiverKind)
    ensures
        r == receiver_kind_of(args_view(args@)),
{
    let ghost avs = args_view(args@);
    let mut i: usize = 0;
    while i < args.len()
        invariant
            i <= args.len(),
            avs == args_view(args@),
            avs.len() == args@.len(),
            receiver_kind_of(avs.take(i as int)) == ReceiverKind::Static,
        decreases args.len() - i,
    {
        proof {
            assert(avs.take(i as int + 1).drop_last() =~= avs.take(i as int));
            assert(avs.take(i as int + 1).last() == avs[i as int]);
        }
        match &args[i] {
            FnArg::RecvRef { .. } => {
                proof {
                    lemma_receiver_kind_extends(avs, i as int + 1);
                }
                return ReceiverKind::ByRef;
            },
            FnArg::RecvValue { .. } => {
                proof {
                    lemma_receiver_kind_extends(avs, i as int + 1);
                }
                return ReceiverKind::ByValue;
            },
            _ => {},
        }
        i = i + 1;
    }
    proof {
        assert(avs.take(avs.len() as int) =~= avs);
    }
    ReceiverKind::Static
}

/// Once a prefix of the parameter list has settled on a receiver kind, the
/// rest of the list cannot change it.
proof fn lemma_receiver_kind_extends(args: Seq<FnArgView>, i: int)
    requires
        0 <= i <= args.len(),
        receiver_kind_of(args.take(i)) != ReceiverKind::Static,
    ensures
        receiver_kind_of(args) == receiver_kind_of(args.take(i)),
    decreases args.len() - i,
{
    if i < args.len() {
        assert(args.take(i + 1).drop_last() =~= args.take(i));
        lemma_receiver_kind_extends(args, i + 1);
    } else {
        assert(args.take(i) =~= args);
    }
}

// ---------------------------------------------------------------------------
// Argument and return-type text
// ---------------------------------------------------------------------------

/// Whether the parameter list holds a plain (non-receiver) parameter.
pub open spec fn has_typed(args: Seq<FnArgView>) -> bool
    decreases args.len(),
{
    if args.len() == 0 {
        false
    } else {
        has_typed(args.drop_last()) || args.last() is Typed
    }
}

/// Whether the parameter list holds a parameter shape the generator does not
/// recognize.
pub open spec fn has_unrecognized_arg(args: Seq<FnArgView>) -> bool
    decreases args.len(),
{
    if args.len() == 0 {
        false
    } else {
        has_unrecognized_arg(args.drop_last()) || args.last() is Unrecognized
    }
}

/// The argument-type tuple text: the types of the non-receiver parameters,
/// in order, separated by commas.
pub open spec fn arg_types_text(args: Seq<FnArgView>) -> Seq<char>
    decreases args.len(),
{
    if args.len() == 0 {
        Seq::empty()
    } else {
        let rest = arg_types_text(args.drop_last());
        match args.last() {
            FnArgView::Typed { ty, .. } => if has_typed(args.drop_last()) {
                rest + ", "@ + ty
            } else {
                rest + ty
            },
            _ => rest,
        }
    }
}

/// The argument list text: the binding patterns of the non-receiver
/// parameters, in order, separated by commas.
pub open spec fn arg_pats_text(args: Seq<FnArgView>) -> Seq<char>
    decreases args.len(),
{
    if args.len() == 0 {
        Seq::empty()
    } else {
        let rest = arg_pats_text(args.drop_last());
        match args.last() {
            FnArgView::Typed { pat, .. } => if has_typed(args.drop_last()) {
                rest + ", "@ + pat
            } else {
                rest + pat
            },
            _ => rest,
        }
    }
}

/// The return type the synthesized pair is keyed by: the declared one, or the
/// unit type when omitted.
pub open spec fn ret_text(output: Option<Seq<char>>) -> Seq<char> {
    match output {
        Option::Some(t) => t,
        Option::None => "()"@,
    }
}

// ---------------------------------------------------------------------------
// The synthesized pair, in specification
// ---------------------------------------------------------------------------

/// The delegation body of a recording method.
pub open spec fn synth_delegate(sig: MethodSignatureView) -> RecordingBodyView {
    RecordingBodyView::Delegate {
        name: sig.name,
        arg_types: arg_types_text(sig.inputs),
        ret: ret_text(sig.output),
        args: arg_pats_text(sig.inputs),
    }
}

/// The recording method synthesized for a signature: the signature itself,
/// reproduced verbatim, with a delegating body, or a deferred-fault stub when
/// the method is receiverless.
pub open spec fn synth_recording(defaultness: bool, vis: Seq<char>, sig: MethodSignatureView)
    -> RecordingMethodView {
    RecordingMethodView {
        defaultness,
        vis,
        sig,
        body: if has_receiver(sig.inputs) {
            synth_delegate(sig)
        } else {
            RecordingBodyView::Stub
        },
    }
}

/// The name of a configuration method: the original name with "expect_" in
/// front.
pub open spec fn config_name_text(name: Seq<char>) -> Seq<char> {
    "expect_"@ + name
}

/// The configuration method synthesized for a signature.
pub open spec fn synth_config(sig: MethodSignatureView) -> ConfigMethodView {
    ConfigMethodView {
        name: config_name_text(sig.name),
        generics: sig.generics,
        called_name: sig.name,
        arg_types: arg_types_text(sig.inputs),
        ret: ret_text(sig.output),
    }
}

/// The full output of the signature synthesizer for one supported signature.
pub open spec fn synth_pair(defaultness: bool, vis: Seq<char>, sig: MethodSignatureView)
    -> MethodPairView {
    MethodPairView {
        recording: synth_recording(defaultness, vis, sig),
        config: if has_receiver(sig.inputs) {
            Option::Some(synth_config(sig))
        } else {
            Option::None
        },
    }
}

/// The fault a signature is rejected with, if any: variadic signatures first,
/// then unrecognized parameter shapes.
pub open spec fn method_fault(sig: MethodSignatureView) -> Option<FaultView> {
    if sig.variadic {
        Option::Some(
            FaultView::Unsupported { msg: "MockAll does not yet support variadic functions"@ },
        )
    } else if has_unrecognized_arg(sig.inputs) {
        Option::Some(FaultView::Unsupported { msg: "Should be unreachable for normal Rust code"@ })
    } else {
        Option::None
    }
}

// ---------------------------------------------------------------------------
// Laws of the synthesized pair
// ---------------------------------------------------------------------------

/// For every supported instance method, the recording method's delegation and
/// the configuration method agree exactly on the argument-type tuple and on
/// the return type.
pub proof fn lemma_pair_types_agree(defaultness: bool, vis: Seq<char>, sig: MethodSignatureView)
    requires
        has_receiver(sig.inputs),
    ensures
        (synth_recording(defaultness, vis, sig).body matches RecordingBodyView::Delegate {
            arg_types,
            ret,
            name,
            ..
        } && arg_types == synth_config(sig).arg_types && ret == synth_config(sig).ret
            && name == synth_config(sig).called_name),
{
}

/// A receiverless (static) method never produces a configuration method, and
/// its recording method is the deferred-fault stub rather than a delegation
/// to the registry.
pub proof fn lemma_static_method_stubbed(defaultness: bool, vis: Seq<char>, sig: MethodSignatureView)
    requires
        !has_receiver(sig.inputs),
    ensures
        synth_pair(defaultness, vis, sig).recording.body is Stub,
        synth_pair(defaultness, vis, sig).config is None,
{
}

/// Method-level generics are carried unchanged onto both the recording
/// method and the configuration method.
pub proof fn lemma_generics_carried(defaultness: bool, vis: Seq<char>, sig: MethodSignatureView)
    ensures
        synth_recording(defaultness, vis, sig).sig == sig,
        synth_config(sig).generics == sig.generics,
{
}

// ---------------------------------------------------------------------------
// The signature synthesizer
// ---------------------------------------------------------------------------

/// Synthesize the recording/configuration pair for one method signature,
/// applying the given visibility and defaultness to the recording method.
/// Variadic signatures and unrecognized parameter shapes are rejected, in
/// that order; a receiverless signature yields a stub recording method and no
/// configuration method.
pub fn gen_mock_method(defaultness: bool, vis: &str, sig: &MethodSignature) -> (r: Result<
    MethodPair,
    Fault,
>)
    ensures
        (match method_fault(sig@) {
            Option::Some(f) => r matches Err(e) && e@ == f,
            Option::None => r matches Ok(p) && p@ == synth_pair(defaultness, vis@, sig@),
        }),
{
    if sig.variadic {
        return Result::Err(
            Fault::Unsupported {
                msg: "MockAll does not yet support variadic functions".to_owned(),
            },
        );
    }
    let ghost avs: Seq<FnArgView> = args_view(sig.inputs@);
    let mut arg_types = String::new();
    let mut pats = String::new();
    let mut first: bool = true;
    let mut recv: bool = false;
    let mut i: usize = 0;
    while i < sig.inputs.len()
        invariant
            i <= sig.inputs.len(),
            !sig.variadic,
            avs == args_view(sig.inputs@),
            avs.len() == sig.inputs@.len(),
            !has_unrecognized_arg(avs.take(i as int)),
            arg_types@ == arg_types_text(avs.take(i as int)),
            pats@ == arg_pats_text(avs.take(i as int)),
            first == !has_typed(avs.take(i as int)),
            recv == has_receiver(avs.take(i as int)),
        decreases sig.inputs.len() - i,
    {
        proof {
            assert(avs.take(i as int + 1).drop_last() =~= avs.take(i as int));
            assert(avs.take(i as int + 1).last() == avs[i as int]);
        }
        match &sig.inputs[i] {
            FnArg::RecvRef { .. } => {
                recv = true;
            },
            FnArg::RecvValue { .. } => {
                recv = true;
            },
            FnArg::Typed { pat, ty } => {
                if !first {
                    arg_types.append(", ");
                    pats.append(", ");
                }
                arg_types.append(ty.as_str());
                pats.append(pat.as_str());
                first = false;
            },
            FnArg::Unrecognized => {
                let e = Fault::Unsupported {
                    msg: "Should be unreachable for normal Rust code".to_owned(),
                };
                proof {
                    assert(has_unrecognized_arg(avs.take(i as int + 1)));
                    lemma_has_unrecognized_extends(avs, i as int + 1);
                }
                return Result::Err(e);
            },
        }
        i = i + 1;
    }
    proof {
        assert(avs.take(avs.len() as int) =~= avs);
    }
    let rec_sig = clone_sig(sig);
    let rec_vis = vis.to_owned();
    if !recv {
        let pair = MethodPair {
            recording: RecordingMethod {
                defaultness,
                vis: rec_vis,
                sig: rec_sig,
                body: RecordingBody::Stub,
            },
            config: Option::None,
        };
        proof {
            assert(pair@ =~~= synth_pair(defaultness, vis@, sig@));
        }
        return Result::Ok(pair);
    }
    let ret: String = match &sig.output {
        Option::Some(t) => t.clone(),
        Option::None => "()".to_owned(),
    };
    let mut config_name = "expect_".to_owned();
    config_name.append(sig.name.as_str());
    let config = ConfigMethod {
        name: config_name,
        generics: clone_params(&sig.generics),
        called_name: sig.name.clone(),
        arg_types: arg_types.clone(),
        ret: ret.clone(),
    };
    let pair = MethodPair {
        recording: RecordingMethod {
            defaultness,
            vis: rec_vis,
            sig: rec_sig,
            body: RecordingBody::Delegate { name: sig.name.clone(), arg_types, ret, args: pats },
        },
        config: Option::Some(config),
    };
    proof {
        assert(pair@ =~~= synth_pair(defaultness, vis@, sig@));
    }
    Result::Ok(pair)
}

/// An unrecognized parameter in a prefix stays present in the whole list.
proof fn lemma_has_unrecognized_extends(args: Seq<FnArgView>, i: int)
    requires
        0 <= i <= args.len(),
        has_unrecognized_arg(args.take(i)),
    ensures
        has_unrecognized_arg(args),
    decreases args.len() - i,
{
    if i < args.len() {
        assert(args.take(i + 1).drop_last() =~= args.take(i));
        lemma_has_unrecognized_extends(args, i + 1);
    } else {
        assert(args.take(i) =~= args);
    }
}

// ---------------------------------------------------------------------------
// The type synthesizer
// ---------------------------------------------------------------------------

/// The fault one generic parameter is rejected with, if any: bounds on a
/// lifetime parameter and const parameters are unsupported.
pub open spec fn param_fault(p: GenericParamView) -> Option<FaultView> {
    match p {
        GenericParamView::Lifetime { has_bounds, .. } => if has_bounds {
            Option::Some(
                FaultView::Unsupported {
                    msg: "#automock does not yet support lifetime bounds on structs"@,
                },
            )
        } else {
            Option::None
        },
        GenericParamView::TypeParam { .. } => Option::None,
        GenericParamView::ConstParam => Option::Some(
            FaultView::Unsupported { msg: "#automock does not yet support generic constants"@ },
        ),
    }
}

/// The fault of the first offending parameter, in declaration order, if any.
pub open spec fn params_fault(ps: Seq<GenericParamView>) -> Option<FaultView>
    decreases ps.len(),
{
    if ps.len() == 0 {
        Option::None
    } else {
        match params_fault(ps.drop_last()) {
            Option::Some(f) => Option::Some(f),
            Option::None => param_fault(ps.last()),
        }
    }
}

/// A fault among the first parameters decides the fault of the whole list.
proof fn lemma_params_fault_extends(ps: Seq<GenericParamView>, i: int)
    requires
        0 <= i <= ps.len(),
        params_fault(ps.take(i)) is Some,
    ensures
        params_fault(ps) == params_fault(ps.take(i)),
    decreases ps.len() - i,
{
    if i < ps.len() {
        assert(ps.take(i + 1).drop_last() =~= ps.take(i));
        lemma_params_fault_extends(ps, i + 1);
    } else {
        assert(ps.take(i) =~= ps);
    }
}

/// The stand-in type's field layout: the registry handle first, then one
/// phantom placeholder per generic parameter, in declaration order.
pub open spec fn stand_in_fields(gs: Seq<GenericParamView>) -> Seq<StandInFieldView> {
    seq![StandInFieldView::Registry] + gs.map_values(
        |p: GenericParamView| StandInFieldView::Phantom { param: p },
    )
}

/// For every source type with N generic parameters, the stand-in type has
/// exactly N phantom placeholder fields after the registry-handle field,
/// positioned in declaration order.
pub proof fn lemma_stand_in_fields(gs: Seq<GenericParamView>)
    ensures
        stand_in_fields(gs).len() == gs.len() + 1,
        stand_in_fields(gs)[0] is Registry,
        forall|i: int|
            0 <= i < gs.len() ==> stand_in_fields(gs)[i + 1] == (StandInFieldView::Phantom {
                param: gs[i],
            }),
{
}

/// The stand-in type declaration synthesized for a source type: the same
/// visibility and generics, the derived name, and the field layout above.
pub open spec fn synth_struct(vis: Seq<char>, name: Seq<char>, gs: Seq<GenericParamView>)
    -> StandInStructView {
    StandInStructView {
        vis,
        name: mock_ident_text(name),
        generics: gs,
        fields: stand_in_fields(gs),
    }
}

/// Synthesize the stand-in type declaration for a source type's visibility,
/// name and generics.  Lifetime bounds and const parameters are rejected with
/// the fault of the first offending parameter.
pub fn gen_struct(vis: &str, name: &str, generics: &Vec<GenericParam>) -> (r: Result<
    StandInStruct,
    Fault,
>)
    ensures
        (match params_fault(params_view(generics@)) {
            Option::Some(f) => r matches Err(e) && e@ == f,
            Option::None => r matches Ok(s) && s@ == synth_struct(
                vis@,
                name@,
                params_view(generics@),
            ),
        }),
{
    let ghost gvs: Seq<GenericParamView> = params_view(generics@);
    let mut fields: Vec<StandInField> = Vec::new();
    fields.push(StandInField::Registry);
    let mut i: usize = 0;
    while i < generics.len()
        invariant
            i <= generics.len(),
            gvs == params_view(generics@),
            gvs.len() == generics@.len(),
            params_fault(gvs.take(i as int)) is None,
            fields@.len() == i + 1,
            fields@[0]@ == StandInFieldView::Registry,
            forall|j: int|
                1 <= j < i + 1 ==> (#[trigger] fields@[j])@ == (StandInFieldView::Phantom {
                    param: gvs[j - 1],
                }),
        decreases generics.len() - i,
    {
        proof {
            assert(gvs.take(i as int + 1).drop_last() =~= gvs.take(i as int));
            assert(gvs.take(i as int + 1).last() == gvs[i as int]);
        }
        match &generics[i] {
            GenericParam::Lifetime { has_bounds, .. } => {
                if *has_bounds {
                    proof {
                        lemma_params_fault_extends(gvs, i as int + 1);
                    }
                    return Result::Err(
                        Fault::Unsupported {
                            msg: "#automock does not yet support lifetime bounds on structs"
                                .to_owned(),
                        },
                    );
                }
            },
            GenericParam::TypeParam { .. } => {},
            GenericParam::ConstParam => {
                proof {
                    lemma_params_fault_extends(gvs, i as int + 1);
                }
                return Result::Err(
                    Fault::Unsupported {
                        msg: "#automock does not yet support generic constants".to_owned(),
                    },
                );
            },
        }
        fields.push(StandInField::Phantom { param: clone_param(&generics[i]) });
        i = i + 1;
    }
    proof {
        assert(gvs.take(gvs.len() as int) =~= gvs);
    }
    let s = StandInStruct {
        vis: vis.to_owned(),
        name: gen_mock_ident(name),
        generics: clone_params(generics),
        fields,
    };
    proof {
        assert(s@.fields =~= stand_in_fields(gvs));
        assert(s@ =~~= synth_struct(vis@, name@, gvs));
    }
    Result::Ok(s)
}

} // verus!
