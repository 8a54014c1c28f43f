//! Rendering: turns the output model into source text.  Every exec function
//! appends to a `String` exactly the text that its specification function
//! defines over the views.

use vstd::prelude::*;
use vstd::string::StringExecFns;
use crate::model::{
    FnArg, FnArgView, GenericParam, GenericParamView, MethodSignature, MethodSignatureView, Path,
    PathSeg, PathSegView, PathView, args_view, params_view,
};
use crate::out::{
    BlockItem, BlockItemView, ConfigMethod, ConfigMethodView, ImplBlock, ImplBlockView, OutItem,
    OutItemView, RecordingBody, RecordingBodyView, RecordingMethod, RecordingMethodView,
    StandInField, StandInFieldView, StandInStruct, StandInStructView, block_items_view,
    fields_view, out_items_view,
};

verus! {

// ---------------------------------------------------------------------------
// Decimal numbers
// ---------------------------------------------------------------------------

/// The character of one decimal digit.
pub open spec fn dec_digit(d: int) -> char {
    if d == 0 {
        '0'
    } else if d == 1 {
        '1'
    } else if d == 2 {
        '2'
    } else if d == 3 {
        '3'
    } else if d == 4 {
        '4'
    } else if d == 5 {
        '5'
    } else if d == 6 {
        '6'
    } else if d == 7 {
        '7'
    } else if d == 8 {
        '8'
    } else {
        '9'
    }
}

/// The decimal text of a number.
pub open spec fn dec_text(n: nat) -> Seq<char>
    decreases n,
{
    if n < 10 {
        seq![dec_digit(n as int)]
    } else {
        dec_text(n / 10) + seq![dec_digit((n % 10) as int)]
    }
}

/// Append the decimal text of a number.
pub fn push_dec(out: &mut String, n: usize)
    ensures
        final(out)@ == old(out)@ + dec_text(n as nat),
    decreases n,
{
    if n >= 10 {
        proof {
            assert(n / 10 < n) by (nonlinear_arith)
                requires
                    n >= 10,
            ;
        }
        push_dec(out, n / 10);
    }
    let d = n % 10;
    let s: &str = if d == 0 {
        "0"
    } else if d == 1 {
        "1"
    } else if d == 2 {
        "2"
    } else if d == 3 {
        "3"
    } else if d == 4 {
        "4"
    } else if d == 5 {
        "5"
    } else if d == 6 {
        "6"
    } else if d == 7 {
        "7"
    } else if d == 8 {
        "8"
    } else {
        "9"
    };
    proof {
        reveal_strlit("0");
        reveal_strlit("1");
        reveal_strlit("2");
        reveal_strlit("3");
        reveal_strlit("4");
        reveal_strlit("5");
        reveal_strlit("6");
        reveal_strlit("7");
        reveal_strlit("8");
        reveal_strlit("9");
        assert(s@ =~= seq![dec_digit(d as int)]);
    }
    out.append(s);
    proof {
        assert(out@ =~= old(out)@ + dec_text(n as nat));
    }
}

// ---------------------------------------------------------------------------
// Generic parameter lists
// ---------------------------------------------------------------------------

/// The text of one generic parameter, as it stands in a parameter list.
pub open spec fn param_text(p: GenericParamView) -> Seq<char> {
    match p {
        GenericParamView::Lifetime { name, .. } => name,
        GenericParamView::TypeParam { name, bounds } => match bounds {
            Option::Some(b) => name + ": "@ + b,
            Option::None => name,
        },
        GenericParamView::ConstParam => Seq::empty(),
    }
}

/// The comma-separated text of a generic parameter list, without brackets.
pub open spec fn params_list_text(ps: Seq<GenericParamView>) -> Seq<char>
    decreases ps.len(),
{
    if ps.len() == 0 {
        Seq::empty()
    } else if ps.len() == 1 {
        param_text(ps.last())
    } else {
        params_list_text(ps.drop_last()) + ", "@ + param_text(ps.last())
    }
}

/// The bracketed generics text: empty when there are no parameters.
pub open spec fn generics_text(ps: Seq<GenericParamView>) -> Seq<char> {
    if ps.len() == 0 {
        Seq::empty()
    } else {
        "< "@ + params_list_text(ps) + ">"@
    }
}

/// Append the text of one generic parameter.
fn push_param(out: &mut String, p: &GenericParam)
    ensures
        final(out)@ == old(out)@ + param_text(p@),
{
    match p {
        GenericParam::Lifetime { name, .. } => {
            out.append(name.as_str());
        },
        GenericParam::TypeParam { name, bounds } => {
            out.append(name.as_str());
            match bounds {
                Option::Some(b) => {
                    out.append(": ");
                    out.append(b.as_str());
                },
                Option::None => {},
            }
        },
        GenericParam::ConstParam => {},
    }
    proof {
        assert(out@ =~= old(out)@ + param_text(p@));
    }
}

/// Append the bracketed generics text of a parameter list.
pub fn push_generics(out: &mut String, ps: &Vec<GenericParam>)
    ensures
        final(out)@ == old(out)@ + generics_text(params_view(ps@)),
{
    let ghost pvs = params_view(ps@);
    if ps.len() == 0 {
        proof {
            assert(out@ =~= old(out)@ + generics_text(pvs));
        }
        return ;
    }
    out.append("< ");
    let mut i: usize = 0;
    while i < ps.len()
        invariant
            ps.len() > 0,
            i <= ps.len(),
            pvs == params_view(ps@),
            pvs.len() == ps@.len(),
            out@ == old(out)@ + "< "@ + params_list_text(pvs.take(i as int)),
        decreases ps.len() - i,
    {
        proof {
            assert(pvs.take(i as int + 1).drop_last() =~= pvs.take(i as int));
            assert(pvs.take(i as int + 1).last() == pvs[i as int]);
        }
        if i > 0 {
            out.append(", ");
        }
        push_param(out, &ps[i]);
        i = i + 1;
        proof {
            assert(out@ =~= old(out)@ + "< "@ + params_list_text(pvs.take(i as int)));
        }
    }
    out.append(">");
    proof {
        assert(pvs.take(pvs.len() as int) =~= pvs);
        assert(out@ =~= old(out)@ + generics_text(pvs));
    }
}

// ---------------------------------------------------------------------------
// Method parameter lists
// ---------------------------------------------------------------------------

/// The text of one method parameter, as it stands in the signature.
pub open spec fn arg_text(a: FnArgView) -> Seq<char> {
    match a {
        FnArgView::RecvRef { tokens } => tokens,
        FnArgView::RecvValue { tokens } => tokens,
        FnArgView::Typed { pat, ty } => pat + ": "@ + ty,
        FnArgView::Unrecognized => Seq::empty(),
    }
}

/// The comma-separated text of a method parameter list, without parentheses.
pub open spec fn inputs_text(args: Seq<FnArgView>) -> Seq<char>
    decreases args.len(),
{
    if args.len() == 0 {
        Seq::empty()
    } else if args.len() == 1 {
        arg_text(args.last())
    } else {
        inputs_text(args.drop_last()) + ", "@ + arg_text(args.last())
    }
}

/// Append the text of one method parameter.
fn push_arg(out: &mut String, a: &FnArg)
    ensures
        final(out)@ == old(out)@ + arg_text(a@),
{
    match a {
        FnArg::RecvRef { tokens } => {
            out.append(tokens.as_str());
        },
        FnArg::RecvValue { tokens } => {
            out.append(tokens.as_str());
        },
        FnArg::Typed { pat, ty } => {
            out.append(pat.as_str());
            out.append(": ");
            out.append(ty.as_str());
        },
        FnArg::Unrecognized => {},
    }
    proof {
        assert(out@ =~= old(out)@ + arg_text(a@));
    }
}

/// Append the comma-separated text of a method parameter list.
pub fn push_inputs(out: &mut String, args: &Vec<FnArg>)
    ensures
        final(out)@ == old(out)@ + inputs_text(args_view(args@)),
{
    let ghost avs = args_view(args@);
    let mut i: usize = 0;
    while i < args.len()
        invariant
            i <= args.len(),
            avs == args_view(args@),
            avs.len() == args@.len(),
            out@ == old(out)@ + inputs_text(avs.take(i as int)),
        decreases args.len() - i,
    {
        proof {
            assert(avs.take(i as int + 1).drop_last() =~= avs.take(i as int));
            assert(avs.take(i as int + 1).last() == avs[i as int]);
        }
        if i > 0 {
            out.append(", ");
        }
        push_arg(out, &args[i]);
        i = i + 1;
        proof {
            assert(out@ =~= old(out)@ + inputs_text(avs.take(i as int)));
        }
    }
    proof {
        assert(avs.take(avs.len() as int) =~= avs);
    }
}

// ---------------------------------------------------------------------------
// Paths
// ---------------------------------------------------------------------------

/// The text of one path segment: its identifier and any verbatim generic
/// arguments.
pub open spec fn seg_text(s: PathSegView) -> Seq<char> {
    s.name + (match s.args {
        Option::Some(a) => a,
        Option::None => Seq::<char>::empty(),
    })
}

/// The text of a segment list, separated by `::`.
pub open spec fn segs_text(ss: Seq<PathSegView>) -> Seq<char>
    decreases ss.len(),
{
    if ss.len() == 0 {
        Seq::empty()
    } else if ss.len() == 1 {
        seg_text(ss.last())
    } else {
        segs_text(ss.drop_last()) + "::"@ + seg_text(ss.last())
    }
}

/// The full text of a path.
pub open spec fn path_text(p: PathView) -> Seq<char> {
    (if p.leading_colon {
        "::"@
    } else {
        Seq::<char>::empty()
    }) + segs_text(p.segments)
}

/// Render a path as text.
pub fn render_path(p: &Path) -> (r: String)
    ensures
        r@ == path_text(p@),
{
    let ghost svs = p@.segments;
    let mut out = String::new();
    if p.leading_colon {
        out.append("::");
    }
    let ghost head = out@;
    let mut i: usize = 0;
    while i < p.segments.len()
        invariant
            i <= p.segments.len(),
            svs == p@.segments,
            svs.len() == p.segments@.len(),
            out@ == head + segs_text(svs.take(i as int)),
        decreases p.segments.len() - i,
    {
        proof {
            assert(svs.take(i as int + 1).drop_last() =~= svs.take(i as int));
            assert(svs.take(i as int + 1).last() == svs[i as int]);
        }
        if i > 0 {
            out.append("::");
        }
        let ghost g = out@;
        match &p.segments[i] {
            PathSeg { name, args } => {
                out.append(name.as_str());
                match args {
                    Option::Some(a) => {
                        out.append(a.as_str());
                    },
                    Option::None => {},
                }
            },
        }
        proof {
            assert(out@ =~= g + seg_text(svs[i as int]));
        }
        i = i + 1;
        proof {
            assert(out@ =~= head + segs_text(svs.take(i as int)));
        }
    }
    proof {
        assert(svs.take(svs.len() as int) =~= svs);
        assert(out@ =~= path_text(p@));
    }
    out
}

// ---------------------------------------------------------------------------
// Methods
// ---------------------------------------------------------------------------

/// The rendered return type of a signature: nothing when it was omitted.
pub open spec fn ret_render_text(o: Option<Seq<char>>) -> Seq<char> {
    match o {
        Option::Some(t) => " -> "@ + t,
        Option::None => Seq::empty(),
    }
}

/// The header of a recording method: the original signature reproduced
/// verbatim, under the requested defaultness and visibility.
pub open spec fn sig_header_text(defaultness: bool, vis: Seq<char>, sig: MethodSignatureView)
    -> Seq<char> {
    (if defaultness {
        "default "@
    } else {
        Seq::<char>::empty()
    }) + (if vis.len() > 0 {
        vis + " "@
    } else {
        Seq::<char>::empty()
    }) + (if sig.constness {
        "const "@
    } else {
        Seq::<char>::empty()
    }) + (if sig.unsafety {
        "unsafe "@
    } else {
        Seq::<char>::empty()
    }) + (if sig.asyncness {
        "async "@
    } else {
        Seq::<char>::empty()
    }) + (match sig.abi {
        Option::Some(a) => a + " "@,
        Option::None => Seq::<char>::empty(),
    }) + "fn "@ + sig.name + generics_text(sig.generics) + "("@ + inputs_text(sig.inputs) + ")"@
        + ret_render_text(sig.output)
}

/// The body of the recording stub for a receiverless method: a deferred
/// runtime fault, raised only if the method is actually called.
pub open spec fn stub_body_text() -> Seq<char> {
    " { unimplemented!(\"Expectations on static methods are TODO\"); }"@
}

/// The body of a delegating recording method.
pub open spec fn delegate_body_text(
    name: Seq<char>,
    arg_types: Seq<char>,
    ret: Seq<char>,
    args: Seq<char>,
) -> Seq<char> {
    " { self.e.called:: <("@ + arg_types + "), "@ + ret + ">(\""@ + name + "\", ("@ + args
        + ")) }"@
}

/// The full text of a recording method.
pub open spec fn recording_text(m: RecordingMethodView) -> Seq<char> {
    sig_header_text(m.defaultness, m.vis, m.sig) + (match m.body {
        RecordingBodyView::Stub => stub_body_text(),
        RecordingBodyView::Delegate { name, arg_types, ret, args } => delegate_body_text(
            name,
            arg_types,
            ret,
            args,
        ),
    })
}

/// The full text of a configuration method: always public, taking the
/// stand-in by exclusive reference, returning the registry's expectation
/// handle for the same argument-type tuple and return type.
pub open spec fn config_text(c: ConfigMethodView) -> Seq<char> {
    "pub fn "@ + c.name + generics_text(c.generics) + "(&mut self) -> &mut ::mockall::Expectation<("@
        + c.arg_types + "), "@ + c.ret + "> { self.e.expect:: <("@ + c.arg_types + "), "@ + c.ret
        + ">(\""@ + c.called_name + "\") }"@
}

/// Append the header of a recording method.
fn push_sig_header(out: &mut String, defaultness: bool, vis: &String, sig: &MethodSignature)
    ensures
        final(out)@ == old(out)@ + sig_header_text(defaultness, vis@, sig@),
{
    let mut h = String::new();
    let ghost q1 = (if defaultness { "default "@ } else { Seq::<char>::empty() });
    if defaultness {
        h.append("default ");
    }
    proof {
        assert(h@ == q1);
    }
    let ghost q2 = (if vis@.len() > 0 { vis@ + " "@ } else { Seq::<char>::empty() });
    if !vis.as_str().is_empty() {
        h.append(vis.as_str());
        h.append(" ");
        proof {
            assert(h@ =~= q1 + (vis@ + " "@));
        }
    }
    proof {
        assert(h@ == q1 + q2);
    }
    let ghost q3 = (if sig@.constness { "const "@ } else { Seq::<char>::empty() });
    if sig.constness {
        h.append("const ");
    }
    proof {
        assert(h@ == q1 + q2 + q3);
    }
    let ghost q4 = (if sig@.unsafety { "unsafe "@ } else { Seq::<char>::empty() });
    if sig.unsafety {
        h.append("unsafe ");
    }
    proof {
        assert(h@ == q1 + q2 + q3 + q4);
    }
    let ghost q5 = (if sig@.asyncness { "async "@ } else { Seq::<char>::empty() });
    if sig.asyncness {
        h.append("async ");
    }
    proof {
        assert(h@ == q1 + q2 + q3 + q4 + q5);
    }
    let ghost g5 = h@;
    let ghost q6 = (match sig@.abi {
        Option::Some(a) => a + " "@,
        Option::None => Seq::<char>::empty(),
    });
    match &sig.abi {
        Option::Some(a) => {
            h.append(a.as_str());
            h.append(" ");
            proof {
                assert(h@ =~= g5 + (a@ + " "@));
            }
        },
        Option::None => {},
    }
    proof {
        assert(h@ == g5 + q6);
    }
    h.append("fn ");
    h.append(sig.name.as_str());
    push_generics(&mut h, &sig.generics);
    h.append("(");
    push_inputs(&mut h, &sig.inputs);
    h.append(")");
    let ghost g9 = h@;
    match &sig.output {
        Option::Some(t) => {
            h.append(" -> ");
            h.append(t.as_str());
            proof {
                assert(h@ =~= g9 + (" -> "@ + t@));
            }
        },
        Option::None => {},
    }
    proof {
        assert(h@ == g9 + ret_render_text(sig@.output));
        assert(h@ == sig_header_text(defaultness, vis@, sig@));
    }
    out.append(h.as_str());
}

/// Append the full text of a recording method.
pub fn push_recording(out: &mut String, m: &RecordingMethod)
    ensures
        final(out)@ == old(out)@ + recording_text(m@),
{
    push_sig_header(out, m.defaultness, &m.vis, &m.sig);
    let mut b = String::new();
    match &m.body {
        RecordingBody::Stub => {
            b.append(" { unimplemented!(\"Expectations on static methods are TODO\"); }");
        },
        RecordingBody::Delegate { name, arg_types, ret, args } => {
            b.append(" { self.e.called:: <(");
            b.append(arg_types.as_str());
            b.append("), ");
            b.append(ret.as_str());
            b.append(">(\"");
            b.append(name.as_str());
            b.append("\", (");
            b.append(args.as_str());
            b.append(")) }");
        },
    }
    proof {
        assert(b@ == (match m@.body {
            RecordingBodyView::Stub => stub_body_text(),
            RecordingBodyView::Delegate { name, arg_types, ret, args } => delegate_body_text(
                name,
                arg_types,
                ret,
                args,
            ),
        }));
    }
    out.append(b.as_str());
    proof {
        assert(out@ =~= old(out)@ + recording_text(m@));
    }
}

/// Append the full text of a configuration method.
pub fn push_config(out: &mut String, c: &ConfigMethod)
    ensures
        final(out)@ == old(out)@ + config_text(c@),
{
    out.append("pub fn ");
    out.append(c.name.as_str());
    push_generics(out, &c.generics);
    out.append("(&mut self) -> &mut ::mockall::Expectation<(");
    out.append(c.arg_types.as_str());
    out.append("), ");
    out.append(c.ret.as_str());
    out.append("> { self.e.expect:: <(");
    out.append(c.arg_types.as_str());
    out.append("), ");
    out.append(c.ret.as_str());
    out.append(">(\"");
    out.append(c.called_name.as_str());
    out.append("\") }");
    proof {
        assert(out@ =~= old(out)@ + config_text(c@));
    }
}

// ---------------------------------------------------------------------------
// The stand-in type
// ---------------------------------------------------------------------------

/// The phantom marker of one generic parameter: reference-shaped for a
/// lifetime, ownership-shaped for a type parameter.
pub open spec fn phantom_marker_text(p: GenericParamView) -> Seq<char> {
    match p {
        GenericParamView::Lifetime { name, .. } => "& "@ + name + " ()"@,
        GenericParamView::TypeParam { name, .. } => name,
        GenericParamView::ConstParam => Seq::empty(),
    }
}

/// The text of one stand-in field; `k` numbers the phantom placeholders.
pub open spec fn field_text(f: StandInFieldView, k: nat) -> Seq<char> {
    match f {
        StandInFieldView::Registry => "e: ::mockall::Expectations,\n"@,
        StandInFieldView::Phantom { param } => "_t"@ + dec_text(k)
            + ": ::std::marker::PhantomData< "@ + phantom_marker_text(param) + "> ,\n"@,
    }
}

/// How many phantom placeholders a field list holds.
pub open spec fn phantom_count(fs: Seq<StandInFieldView>) -> nat
    decreases fs.len(),
{
    if fs.len() == 0 {
        0
    } else {
        phantom_count(fs.drop_last()) + (if fs.last() is Phantom {
            1nat
        } else {
            0nat
        })
    }
}

/// The text of a stand-in field list, the phantom placeholders numbered
/// positionally.
pub open spec fn fields_text(fs: Seq<StandInFieldView>) -> Seq<char>
    decreases fs.len(),
{
    if fs.len() == 0 {
        Seq::empty()
    } else {
        fields_text(fs.drop_last()) + field_text(fs.last(), phantom_count(fs.drop_last()))
    }
}

/// Append the phantom marker of one generic parameter.
fn push_marker(out: &mut String, p: &GenericParam)
    ensures
        final(out)@ == old(out)@ + phantom_marker_text(p@),
{
    match p {
        GenericParam::Lifetime { name, .. } => {
            out.append("& ");
            out.append(name.as_str());
            out.append(" ()");
        },
        GenericParam::TypeParam { name, .. } => {
            out.append(name.as_str());
        },
        GenericParam::ConstParam => {},
    }
    proof {
        assert(out@ =~= old(out)@ + phantom_marker_text(p@));
    }
}

/// Append the text of a stand-in field list.
pub fn push_fields(out: &mut String, fs: &Vec<StandInField>)
    ensures
        final(out)@ == old(out)@ + fields_text(fields_view(fs@)),
{
    let ghost fvs = fields_view(fs@);
    let mut k: usize = 0;
    let mut i: usize = 0;
    while i < fs.len()
        invariant
            i <= fs.len(),
            fvs == fields_view(fs@),
            fvs.len() == fs@.len(),
            k <= i,
            k as nat == phantom_count(fvs.take(i as int)),
            out@ == old(out)@ + fields_text(fvs.take(i as int)),
        decreases fs.len() - i,
    {
        proof {
            assert(fvs.take(i as int + 1).drop_last() =~= fvs.take(i as int));
            assert(fvs.take(i as int + 1).last() == fvs[i as int]);
        }
        match &fs[i] {
            StandInField::Registry => {
                out.append("e: ::mockall::Expectations,\n");
            },
            StandInField::Phantom { param } => {
                out.append("_t");
                push_dec(out, k);
                out.append(": ::std::marker::PhantomData< ");
                push_marker(out, param);
                out.append("> ,\n");
                k = k + 1;
            },
        }
        i = i + 1;
        proof {
            assert(out@ =~= old(out)@ + fields_text(fvs.take(i as int)));
        }
    }
    proof {
        assert(fvs.take(fvs.len() as int) =~= fvs);
    }
}

/// The full text of a stand-in type declaration.
pub open spec fn struct_text(s: StandInStructView) -> Seq<char> {
    "#[derive(Default)]\n"@ + (if s.vis.len() > 0 {
        s.vis + " "@
    } else {
        Seq::<char>::empty()
    }) + "struct "@ + s.name + generics_text(s.generics) + " {\n"@ + fields_text(s.fields) + "}"@
}

/// Append the full text of a stand-in type declaration.
pub fn push_struct(out: &mut String, s: &StandInStruct)
    ensures
        final(out)@ == old(out)@ + struct_text(s@),
{
    out.append("#[derive(Default)]\n");
    if !s.vis.as_str().is_empty() {
        out.append(s.vis.as_str());
        out.append(" ");
    }
    out.append("struct ");
    out.append(s.name.as_str());
    push_generics(out, &s.generics);
    out.append(" {\n");
    push_fields(out, &s.fields);
    out.append("}");
    proof {
        assert(out@ =~= old(out)@ + struct_text(s@));
    }
}

// ---------------------------------------------------------------------------
// Binding blocks and whole outputs
// ---------------------------------------------------------------------------

/// The text of one binding-block item.
pub open spec fn block_item_text(it: BlockItemView) -> Seq<char> {
    match it {
        BlockItemView::Passthrough { tokens } => tokens,
        BlockItemView::Recording { method } => recording_text(method),
        BlockItemView::Config { method } => config_text(method),
    }
}

/// The text of a binding block's items, one per line.
pub open spec fn block_items_text(items: Seq<BlockItemView>) -> Seq<char>
    decreases items.len(),
{
    if items.len() == 0 {
        Seq::empty()
    } else {
        block_items_text(items.drop_last()) + block_item_text(items.last()) + "\n"@
    }
}

/// The full text of a binding block.
pub open spec fn block_text(b: ImplBlockView) -> Seq<char> {
    (if b.unsafety {
        "unsafe "@
    } else {
        Seq::<char>::empty()
    }) + "impl"@ + generics_text(b.generics) + " "@ + (match b.trait_text {
        Option::Some(t) => (if b.bang {
            "!"@
        } else {
            Seq::<char>::empty()
        }) + t + " for "@,
        Option::None => Seq::<char>::empty(),
    }) + b.self_text + " {\n"@ + block_items_text(b.items) + "}"@
}

/// Append the full text of a binding block.
pub fn push_block(out: &mut String, b: &ImplBlock)
    ensures
        final(out)@ == old(out)@ + block_text(b@),
{
    let mut h = String::new();
    let ghost q1 = (if b.unsafety { "unsafe "@ } else { Seq::<char>::empty() });
    if b.unsafety {
        h.append("unsafe ");
    }
    proof {
        assert(h@ == q1);
    }
    h.append("impl");
    push_generics(&mut h, &b.generics);
    h.append(" ");
    let ghost g1 = h@;
    let ghost q2 = (match b@.trait_text {
        Option::Some(t) => (if b@.bang { "!"@ } else { Seq::<char>::empty() }) + t + " for "@,
        Option::None => Seq::<char>::empty(),
    });
    match &b.trait_text {
        Option::Some(t) => {
            let ghost qb = (if b@.bang { "!"@ } else { Seq::<char>::empty() });
            if b.bang {
                h.append("!");
            }
            proof {
                assert(h@ == g1 + qb);
            }
            h.append(t.as_str());
            h.append(" for ");
            proof {
                assert(h@ =~= g1 + (qb + t@ + " for "@));
            }
        },
        Option::None => {},
    }
    proof {
        assert(h@ == g1 + q2);
    }
    h.append(b.self_text.as_str());
    h.append(" {\n");
    let ghost ivs = block_items_view(b.items@);
    let ghost head = h@;
    let mut i: usize = 0;
    while i < b.items.len()
        invariant
            i <= b.items.len(),
            ivs == block_items_view(b.items@),
            ivs.len() == b.items@.len(),
            h@ == head + block_items_text(ivs.take(i as int)),
        decreases b.items.len() - i,
    {
        proof {
            assert(ivs.take(i as int + 1).drop_last() =~= ivs.take(i as int));
            assert(ivs.take(i as int + 1).last() == ivs[i as int]);
        }
        let ghost g2 = h@;
        match &b.items[i] {
            BlockItem::Passthrough { tokens } => {
                h.append(tokens.as_str());
            },
            BlockItem::Recording { method } => {
                push_recording(&mut h, method);
            },
            BlockItem::Config { method } => {
                push_config(&mut h, method);
            },
        }
        proof {
            assert(h@ == g2 + block_item_text(ivs[i as int]));
        }
        h.append("\n");
        i = i + 1;
        proof {
            assert(h@ =~= head + block_items_text(ivs.take(i as int)));
        }
    }
    h.append("}");
    proof {
        assert(ivs.take(ivs.len() as int) =~= ivs);
        assert(h@ == block_text(b@));
    }
    out.append(h.as_str());
}

/// The text of one emitted declaration.
pub open spec fn out_item_text(it: OutItemView) -> Seq<char> {
    match it {
        OutItemView::TypeItem { decl } => struct_text(decl),
        OutItemView::BindingBlock { block } => block_text(block),
    }
}

/// The text of a whole generated output, one declaration per line group.
pub open spec fn output_text(items: Seq<OutItemView>) -> Seq<char>
    decreases items.len(),
{
    if items.len() == 0 {
        Seq::empty()
    } else {
        output_text(items.drop_last()) + out_item_text(items.last()) + "\n"@
    }
}

/// Render a whole generated output as source text.
pub fn render_output(items: &Vec<OutItem>) -> (r: String)
    ensures
        r@ == output_text(out_items_view(items@)),
{
    let ghost ivs = out_items_view(items@);
    let mut out = String::new();
    let mut i: usize = 0;
    while i < items.len()
        invariant
            i <= items.len(),
            ivs == out_items_view(items@),
            ivs.len() == items@.len(),
            out@ == output_text(ivs.take(i as int)),
        decreases items.len() - i,
    {
        proof {
            assert(ivs.take(i as int + 1).drop_last() =~= ivs.take(i as int));
            assert(ivs.take(i as int + 1).last() == ivs[i as int]);
        }
        match &items[i] {
            OutItem::TypeItem { decl } => {
                push_struct(&mut out, decl);
            },
            OutItem::BindingBlock { block } => {
                push_block(&mut out, block);
            },
        }
        out.append("\n");
        i = i + 1;
        proof {
            assert(out@ =~= output_text(ivs.take(i as int)));
        }
    }
    proof {
        assert(ivs.take(ivs.len() as int) =~= ivs);
    }
    out
}

} // verus!
