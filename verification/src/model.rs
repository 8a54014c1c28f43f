//! The declaration model: the abstract representation of a type definition,
//! an interface definition, a method-set binding, or a manually spelled-out
//! stand-in specification, together with method signatures.
//!
//! Each executable type has a ghost mirror (`...View`) over `Seq<char>`,
//! reached through `@`; every contract in the crate speaks of those views.

use vstd::prelude::*;

verus! {

// ---------------------------------------------------------------------------
// Generic parameters
// ---------------------------------------------------------------------------

/// One generic parameter of a type, interface, binding or method.
/// Lifetime names carry their leading quote (`'a`); type-parameter bounds are
/// carried as verbatim text without the leading colon (`'static`, `Clone`).
/// Const parameters are recorded only to be rejected.
pub enum GenericParam {
    Lifetime { name: String, has_bounds: bool },
    TypeParam { name: String, bounds: Option<String> },
    ConstParam,
}

#[verifier::ext_equal]
pub enum GenericParamView {
    Lifetime { name: Seq<char>, has_bounds: bool },
    TypeParam { name: Seq<char>, bounds: Option<Seq<char>> },
    ConstParam,
}

/// The view of optional verbatim text.
pub open spec fn opt_text(o: Option<String>) -> Option<Seq<char>> {
    match o {
        Option::Some(s) => Option::Some(s@),
        Option::None => Option::None,
    }
}

impl View for GenericParam {
    type V = GenericParamView;

    open spec fn view(&self) -> GenericParamView {
        match self {
            GenericParam::Lifetime { name, has_bounds } => (GenericParamView::Lifetime {
                name: name@,
                has_bounds: *has_bounds,
            }),
            GenericParam::TypeParam { name, bounds } => (GenericParamView::TypeParam {
                name: name@,
                bounds: opt_text(*bounds),
            }),
            GenericParam::ConstParam => GenericParamView::ConstParam,
        }
    }
}

/// The views of a parameter list, in order.
pub open spec fn params_view(v: Seq<GenericParam>) -> Seq<GenericParamView> {
    v.map_values(|p: GenericParam| p@)
}

// ---------------------------------------------------------------------------
// Method signatures
// ---------------------------------------------------------------------------

/// One parameter of a method: a receiver (its tokens verbatim, e.g. `&self`,
/// `&'a mut self`, `self`), a plain binding-pattern/type pair, or a shape the
/// generator does not recognize.
pub enum FnArg {
    RecvRef { tokens: String },
    RecvValue { tokens: String },
    Typed { pat: String, ty: String },
    Unrecognized,
}

#[verifier::ext_equal]
pub enum FnArgView {
    RecvRef { tokens: Seq<char> },
    RecvValue { tokens: Seq<char> },
    Typed { pat: Seq<char>, ty: Seq<char> },
    Unrecognized,
}

impl View for FnArg {
    type V = FnArgView;

    open spec fn view(&self) -> FnArgView {
        match self {
            FnArg::RecvRef { tokens } => (FnArgView::RecvRef { tokens: tokens@ }),
            FnArg::RecvValue { tokens } => (FnArgView::RecvValue { tokens: tokens@ }),
            FnArg::Typed { pat, ty } => (FnArgView::Typed { pat: pat@, ty: ty@ }),
            FnArg::Unrecognized => FnArgView::Unrecognized,
        }
    }
}

/// The views of a method parameter list, in order.
pub open spec fn args_view(v: Seq<FnArg>) -> Seq<FnArgView> {
    v.map_values(|a: FnArg| a@)
}

/// How a method takes its receiver, classified by scanning its parameters.
#[derive(Clone, Copy, Debug, PartialEq, Eq, Structural)]
pub enum ReceiverKind {
    Static,
    ByRef,
    ByValue,
}

/// One method signature.  The qualifiers (constness, unsafety, asyncness,
/// calling convention) are carried opaquely and reproduced verbatim on the
/// recording method only.  The return type is verbatim text; `None` stands
/// for the omitted (unit) return type.  Variadic signatures are recorded only
/// to be rejected.
pub struct MethodSignature {
    pub constness: bool,
    pub unsafety: bool,
    pub asyncness: bool,
    pub abi: Option<String>,
    pub name: String,
    pub generics: Vec<GenericParam>,
    pub inputs: Vec<FnArg>,
    pub output: Option<String>,
    pub variadic: bool,
}

#[verifier::ext_equal]
pub struct MethodSignatureView {
    pub constness: bool,
    pub unsafety: bool,
    pub asyncness: bool,
    pub abi: Option<Seq<char>>,
    pub name: Seq<char>,
    pub generics: Seq<GenericParamView>,
    pub inputs: Seq<FnArgView>,
    pub output: Option<Seq<char>>,
    pub variadic: bool,
}

impl View for MethodSignature {
    type V = MethodSignatureView;

    open spec fn view(&self) -> MethodSignatureView {
        MethodSignatureView {
            constness: self.constness,
            unsafety: self.unsafety,
            asyncness: self.asyncness,
            abi: opt_text(self.abi),
            name: self.name@,
            generics: params_view(self.generics@),
            inputs: args_view(self.inputs@),
            output: opt_text(self.output),
            variadic: self.variadic,
        }
    }
}

// ---------------------------------------------------------------------------
// Paths
// ---------------------------------------------------------------------------

/// One segment of a type path: its identifier and any verbatim generic
/// arguments attached to it (e.g. `<'a, T>`).
pub struct PathSeg {
    pub name: String,
    pub args: Option<String>,
}

#[verifier::ext_equal]
pub struct PathSegView {
    pub name: Seq<char>,
    pub args: Option<Seq<char>>,
}

impl View for PathSeg {
    type V = PathSegView;

    open spec fn view(&self) -> PathSegView {
        PathSegView { name: self.name@, args: opt_text(self.args) }
    }
}

/// A type path, e.g. `foo::bar::Baz<T>`.
pub struct Path {
    pub leading_colon: bool,
    pub segments: Vec<PathSeg>,
}

#[verifier::ext_equal]
pub struct PathView {
    pub leading_colon: bool,
    pub segments: Seq<PathSegView>,
}

impl View for Path {
    type V = PathView;

    open spec fn view(&self) -> PathView {
        PathView {
            leading_colon: self.leading_colon,
            segments: self.segments@.map_values(|s: PathSeg| s@),
        }
    }
}

// ---------------------------------------------------------------------------
// Source declarations
// ---------------------------------------------------------------------------

/// A bare type definition: all the generator reads of it.
pub struct TypeDecl {
    pub vis: String,
    pub name: String,
    pub generics: Vec<GenericParam>,
}

#[verifier::ext_equal]
pub struct TypeDeclView {
    pub vis: Seq<char>,
    pub name: Seq<char>,
    pub generics: Seq<GenericParamView>,
}

impl View for TypeDecl {
    type V = TypeDeclView;

    open spec fn view(&self) -> TypeDeclView {
        TypeDeclView { vis: self.vis@, name: self.name@, generics: params_view(self.generics@) }
    }
}

/// One member of an interface definition.  Constants generate nothing;
/// associated types are recorded only to be rejected.
pub enum InterfaceItem {
    ConstMember,
    Method { sig: MethodSignature },
    AssocType { has_generics: bool, has_bounds: bool },
    Unrecognized,
}

#[verifier::ext_equal]
pub enum InterfaceItemView {
    ConstMember,
    Method { sig: MethodSignatureView },
    AssocType { has_generics: bool, has_bounds: bool },
    Unrecognized,
}

impl View for InterfaceItem {
    type V = InterfaceItemView;

    open spec fn view(&self) -> InterfaceItemView {
        match self {
            InterfaceItem::ConstMember => InterfaceItemView::ConstMember,
            InterfaceItem::Method { sig } => (InterfaceItemView::Method { sig: sig@ }),
            InterfaceItem::AssocType { has_generics, has_bounds } => (InterfaceItemView::AssocType {
                has_generics: *has_generics,
                has_bounds: *has_bounds,
            }),
            InterfaceItem::Unrecognized => InterfaceItemView::Unrecognized,
        }
    }
}

/// The views of an interface member list, in order.
pub open spec fn iface_items_view(v: Seq<InterfaceItem>) -> Seq<InterfaceItemView> {
    v.map_values(|i: InterfaceItem| i@)
}

/// An interface (trait) definition.
pub struct InterfaceDecl {
    pub unsafety: bool,
    pub vis: String,
    pub name: String,
    pub generics: Vec<GenericParam>,
    pub items: Vec<InterfaceItem>,
}

#[verifier::ext_equal]
pub struct InterfaceDeclView {
    pub unsafety: bool,
    pub vis: Seq<char>,
    pub name: Seq<char>,
    pub generics: Seq<GenericParamView>,
    pub items: Seq<InterfaceItemView>,
}

impl View for InterfaceDecl {
    type V = InterfaceDeclView;

    open spec fn view(&self) -> InterfaceDeclView {
        InterfaceDeclView {
            unsafety: self.unsafety,
            vis: self.vis@,
            name: self.name@,
            generics: params_view(self.generics@),
            items: iface_items_view(self.items@),
        }
    }
}

/// The interface named by a method-set binding: bang negation and the
/// interface path, carried as verbatim text.
pub struct TraitRef {
    pub bang: bool,
    pub path: String,
}

#[verifier::ext_equal]
pub struct TraitRefView {
    pub bang: bool,
    pub path: Seq<char>,
}

impl View for TraitRef {
    type V = TraitRefView;

    open spec fn view(&self) -> TraitRefView {
        TraitRefView { bang: self.bang, path: self.path@ }
    }
}

/// The target type of a method-set binding.  Only plain paths are supported.
pub enum SelfTy {
    Named { path: Path },
    Unrecognized,
}

#[verifier::ext_equal]
pub enum SelfTyView {
    Named { path: PathView },
    Unrecognized,
}

impl View for SelfTy {
    type V = SelfTyView;

    open spec fn view(&self) -> SelfTyView {
        match self {
            SelfTy::Named { path } => (SelfTyView::Named { path: path@ }),
            SelfTy::Unrecognized => SelfTyView::Unrecognized,
        }
    }
}

/// One item of a method-set binding.  Constant and type items pass through
/// unchanged (their tokens carried verbatim); anything else is rejected.
pub enum BindingItem {
    Passthrough { tokens: String },
    Method { defaultness: bool, vis: String, sig: MethodSignature },
    Unrecognized,
}

#[verifier::ext_equal]
pub enum BindingItemView {
    Passthrough { tokens: Seq<char> },
    Method { defaultness: bool, vis: Seq<char>, sig: MethodSignatureView },
    Unrecognized,
}

impl View for BindingItem {
    type V = BindingItemView;

    open spec fn view(&self) -> BindingItemView {
        match self {
            BindingItem::Passthrough { tokens } => (BindingItemView::Passthrough {
                tokens: tokens@,
            }),
            BindingItem::Method { defaultness, vis, sig } => (BindingItemView::Method {
                defaultness: *defaultness,
                vis: vis@,
                sig: sig@,
            }),
            BindingItem::Unrecognized => BindingItemView::Unrecognized,
        }
    }
}

/// The views of a binding item list, in order.
pub open spec fn binding_items_view(v: Seq<BindingItem>) -> Seq<BindingItemView> {
    v.map_values(|i: BindingItem| i@)
}

/// A method-set binding: a set of methods bound onto a named target type,
/// optionally implementing an interface.
pub struct BindingDecl {
    pub unsafety: bool,
    pub generics: Vec<GenericParam>,
    pub trait_ref: Option<TraitRef>,
    pub self_ty: SelfTy,
    pub items: Vec<BindingItem>,
}

#[verifier::ext_equal]
pub struct BindingDeclView {
    pub unsafety: bool,
    pub generics: Seq<GenericParamView>,
    pub trait_ref: Option<TraitRefView>,
    pub self_ty: SelfTyView,
    pub items: Seq<BindingItemView>,
}

impl View for BindingDecl {
    type V = BindingDeclView;

    open spec fn view(&self) -> BindingDeclView {
        BindingDeclView {
            unsafety: self.unsafety,
            generics: params_view(self.generics@),
            trait_ref: (match self.trait_ref {
                Option::Some(t) => Option::Some(t@),
                Option::None => Option::None,
            }),
            self_ty: self.self_ty@,
            items: binding_items_view(self.items@),
        }
    }
}

// ---------------------------------------------------------------------------
// Manual stand-in specifications
// ---------------------------------------------------------------------------

/// One item of the braced block of a manual stand-in specification.  Only
/// body-less method signatures are allowed there.
pub enum ManualItem {
    Method { sig: MethodSignature, has_body: bool },
    Unrecognized,
}

#[verifier::ext_equal]
pub enum ManualItemView {
    Method { sig: MethodSignatureView, has_body: bool },
    Unrecognized,
}

impl View for ManualItem {
    type V = ManualItemView;

    open spec fn view(&self) -> ManualItemView {
        match self {
            ManualItem::Method { sig, has_body } => (ManualItemView::Method {
                sig: sig@,
                has_body: *has_body,
            }),
            ManualItem::Unrecognized => ManualItemView::Unrecognized,
        }
    }
}

/// The views of a method signature list, in order.
pub open spec fn sigs_view(v: Seq<MethodSignature>) -> Seq<MethodSignatureView> {
    v.map_values(|s: MethodSignature| s@)
}

/// The views of a manual item list, in order.
pub open spec fn manual_items_view(v: Seq<ManualItem>) -> Seq<ManualItemView> {
    v.map_values(|i: ManualItem| i@)
}

/// The input of the manual entry point: visibility, name, generics, a braced
/// block of body-less method signatures, and trailing interface definitions
/// to additionally bind.
pub struct ManualSpec {
    pub vis: String,
    pub name: String,
    pub generics: Vec<GenericParam>,
    pub items: Vec<ManualItem>,
    pub interfaces: Vec<InterfaceDecl>,
}

#[verifier::ext_equal]
pub struct ManualSpecView {
    pub vis: Seq<char>,
    pub name: Seq<char>,
    pub generics: Seq<GenericParamView>,
    pub items: Seq<ManualItemView>,
    pub interfaces: Seq<InterfaceDeclView>,
}

impl View for ManualSpec {
    type V = ManualSpecView;

    open spec fn view(&self) -> ManualSpecView {
        ManualSpecView {
            vis: self.vis@,
            name: self.name@,
            generics: params_view(self.generics@),
            items: manual_items_view(self.items@),
            interfaces: self.interfaces@.map_values(|d: InterfaceDecl| d@),
        }
    }
}

/// A source declaration handed to the annotation-driven entry point.
pub enum SourceDecl {
    TypeSource { decl: TypeDecl },
    BindingSource { decl: BindingDecl },
    InterfaceSource { decl: InterfaceDecl },
    Unrecognized,
}

#[verifier::ext_equal]
pub enum SourceDeclView {
    TypeSource { decl: TypeDeclView },
    BindingSource { decl: BindingDeclView },
    InterfaceSource { decl: InterfaceDeclView },
    Unrecognized,
}

impl View for SourceDecl {
    type V = SourceDeclView;

    open spec fn view(&self) -> SourceDeclView {
        match self {
            SourceDecl::TypeSource { decl } => (SourceDeclView::TypeSource { decl: decl@ }),
            SourceDecl::BindingSource { decl } => (SourceDeclView::BindingSource { decl: decl@ }),
            SourceDecl::InterfaceSource { decl } => (SourceDeclView::InterfaceSource {
                decl: decl@,
            }),
            SourceDecl::Unrecognized => SourceDeclView::Unrecognized,
        }
    }
}

// ---------------------------------------------------------------------------
// Faults
// ---------------------------------------------------------------------------

/// A generation fault.  A syntax fault is recoverable at the boundary of one
/// invocation; an unsupported-construct fault is fatal for the invocation.
/// Either way no output at all is produced for the invocation.
#[derive(Debug)]
pub enum Fault {
    Syntax { msg: String },
    Unsupported { msg: String },
}

#[verifier::ext_equal]
pub enum FaultView {
    Syntax { msg: Seq<char> },
    Unsupported { msg: Seq<char> },
}

impl View for Fault {
    type V = FaultView;

    open spec fn view(&self) -> FaultView {
        match self {
            Fault::Syntax { msg } => (FaultView::Syntax { msg: msg@ }),
            Fault::Unsupported { msg } => (FaultView::Unsupported { msg: msg@ }),
        }
    }
}

impl Fault {
    /// The explanatory message of the fault.
    pub fn message(&self) -> (r: &str)
        ensures
            (match self@ {
                FaultView::Syntax { msg } => r@ == msg,
                FaultView::Unsupported { msg } => r@ == msg,
            }),
    {
        match self {
            Fault::Syntax { msg } => msg.as_str(),
            Fault::Unsupported { msg } => msg.as_str(),
        }
    }

    /// Whether the fault is a (recoverable) syntax fault.
    pub fn is_syntax(&self) -> (r: bool)
        ensures
            r == (self@ is Syntax),
    {
        match self {
            Fault::Syntax { .. } => true,
            Fault::Unsupported { .. } => false,
        }
    }
}

// ---------------------------------------------------------------------------
// View-preserving clones
// ---------------------------------------------------------------------------

/// Clone optional verbatim text.
pub fn clone_opt_string(o: &Option<String>) -> (r: Option<String>)
    ensures
        opt_text(r) == opt_text(*o),
{
    match o {
        Option::Some(s) => Option::Some(s.clone()),
        Option::None => Option::None,
    }
}

/// Clone one generic parameter.
pub fn clone_param(p: &GenericParam) -> (r: GenericParam)
    ensures
        r@ == p@,
{
    match p {
        GenericParam::Lifetime { name, has_bounds } => GenericParam::Lifetime {
            name: name.clone(),
            has_bounds: *has_bounds,
        },
        GenericParam::TypeParam { name, bounds } => GenericParam::TypeParam {
            name: name.clone(),
            bounds: clone_opt_string(bounds),
        },
        GenericParam::ConstParam => GenericParam::ConstParam,
    }
}

/// Clone a generic parameter list.
pub fn clone_params(v: &Vec<GenericParam>) -> (r: Vec<GenericParam>)
    ensures
        params_view(r@) == params_view(v@),
{
    let mut r: Vec<GenericParam> = Vec::new();
    let mut i: usize = 0;
    while i < v.len()
        invariant
            i <= v.len(),
            r@.len() == i,
            forall|j: int| 0 <= j < i ==> (#[trigger] r@[j])@ == v@[j]@,
        decreases v.len() - i,
    {
        r.push(clone_param(&v[i]));
        i = i + 1;
    }
    proof {
        assert(params_view(r@) =~= params_view(v@));
    }
    r
}

/// Clone one method parameter.
pub fn clone_arg(a: &FnArg) -> (r: FnArg)
    ensures
        r@ == a@,
{
    match a {
        FnArg::RecvRef { tokens } => FnArg::RecvRef { tokens: tokens.clone() },
        FnArg::RecvValue { tokens } => FnArg::RecvValue { tokens: tokens.clone() },
        FnArg::Typed { pat, ty } => FnArg::Typed { pat: pat.clone(), ty: ty.clone() },
        FnArg::Unrecognized => FnArg::Unrecognized,
    }
}

/// Clone a method parameter list.
pub fn clone_args(v: &Vec<FnArg>) -> (r: Vec<FnArg>)
    ensures
        args_view(r@) == args_view(v@),
{
    let mut r: Vec<FnArg> = Vec::new();
    let mut i: usize = 0;
    while i < v.len()
        invariant
            i <= v.len(),
            r@.len() == i,
            forall|j: int| 0 <= j < i ==> (#[trigger] r@[j])@ == v@[j]@,
        decreases v.len() - i,
    {
        r.push(clone_arg(&v[i]));
        i = i + 1;
    }
    proof {
        assert(args_view(r@) =~= args_view(v@));
    }
    r
}

/// Clone one path segment.
pub fn clone_path_seg(s: &PathSeg) -> (r: PathSeg)
    ensures
        r@ == s@,
{
    PathSeg { name: s.name.clone(), args: clone_opt_string(&s.args) }
}

/// Clone one method signature.
pub fn clone_sig(s: &MethodSignature) -> (r: MethodSignature)
    ensures
        r@ == s@,
{
    let r = MethodSignature {
        constness: s.constness,
        unsafety: s.unsafety,
        asyncness: s.asyncness,
        abi: clone_opt_string(&s.abi),
        name: s.name.clone(),
        generics: clone_params(&s.generics),
        inputs: clone_args(&s.inputs),
        output: clone_opt_string(&s.output),
        variadic: s.variadic,
    };
    proof {
        assert(r@ =~~= s@);
    }
    r
}

} // verus!
