//! A description of the type that a field is declared with, as far as the
//! generator looks into it.

use vstd::prelude::*;
use crate::text::same_text;

verus! {

/// One argument between the angle brackets of a path segment.
#[derive(Debug, PartialEq, Eq)]
pub enum GenericArg {
    /// A type argument, as the `T` of `Option<T>`.
    Type(TypeRef),
    /// Any other argument (a lifetime, a constant, a binding), by its source text.
    Other(String),
}

/// What follows the name of a path segment.
#[derive(Debug, PartialEq, Eq)]
pub enum PathArgs {
    /// Nothing, as in `String`.
    Absent,
    /// Arguments in angle brackets, as in `Vec<u8>`.
    AngleBracketed(Vec<GenericArg>),
    /// Arguments in round brackets, as in `Fn(u8) -> bool`, by their source text.
    Parenthesized(String),
}

/// One segment of a path: a name and its arguments.
#[derive(Debug, PartialEq, Eq)]
pub struct PathSegment {
    /// The name of the segment.
    pub ident: String,
    /// The arguments of the segment.
    pub args: PathArgs,
}

/// The explicit self type of a qualified path, as the `T` of `<T as Tr>::Out`.
/// The generator never looks into it, so it is kept as source text.
#[derive(Debug, PartialEq, Eq)]
pub struct QSelf {
    /// The self type, by its source text.
    pub ty: String,
    /// How many leading segments of the path name the trait.
    pub position: usize,
}

/// The declared type of a field.
#[derive(Debug, PartialEq, Eq)]
pub enum TypeRef {
    /// A path, as `String`, `Option<u64>` or `<T as Tr>::Out`.
    Path {
        /// Whether the path starts with `::`.
        leading_colon: bool,
        /// The explicit self type, if the path is qualified.
        qself: Option<QSelf>,
        /// The segments of the path, in order.
        segments: Vec<PathSegment>,
    },
    /// Any other type (a reference, a tuple, an array), by its source text.
    Other(String),
}

/// The mathematical value of a [`GenericArg`].
pub enum ArgModel {
    Type(TypeModel),
    Other(Seq<char>),
}

/// The mathematical value of a [`PathArgs`].
pub enum ArgsModel {
    Absent,
    AngleBracketed(Seq<ArgModel>),
    Parenthesized(Seq<char>),
}

/// The mathematical value of a [`PathSegment`].
pub struct SegmentModel {
    pub ident: Seq<char>,
    pub args: ArgsModel,
}

/// The mathematical value of a [`QSelf`].
pub struct QSelfModel {
    pub ty: Seq<char>,
    pub position: nat,
}

/// The mathematical value of a [`TypeRef`].
pub enum TypeModel {
    Path { leading_colon: bool, qself: Option<QSelfModel>, segments: Seq<SegmentModel> },
    Other(Seq<char>),
}

impl TypeModel {
    /// The path `name`, one segment without arguments.
    pub open spec fn named(name: Seq<char>) -> TypeModel {
        TypeModel::Path {
            leading_colon: false,
            qself: None,
            segments: seq![SegmentModel { ident: name, args: ArgsModel::Absent }],
        }
    }

    /// The type `Option<inner>`.
    pub open spec fn option_of(inner: TypeModel) -> TypeModel {
        TypeModel::Path {
            leading_colon: false,
            qself: None,
            segments: seq![
                SegmentModel {
                    ident: "Option"@,
                    args: ArgsModel::AngleBracketed(seq![ArgModel::Type(inner)]),
                },
            ],
        }
    }

    /// Whether the type is a path whose last segment is called `name`,
    /// whatever its arguments and whether or not the path is qualified.
    pub open spec fn last_ident_is(self, name: Seq<char>) -> bool {
        match self {
            TypeModel::Path { leading_colon, qself, segments } => segments.len() > 0 && segments.last().ident
                == name,
            TypeModel::Other(_) => false,
        }
    }

    /// Whether the type is an unqualified path whose last segment is called `name`.
    pub open spec fn plain_last_ident_is(self, name: Seq<char>) -> bool {
        match self {
            TypeModel::Path { leading_colon, qself, segments } => qself is None && segments.len() > 0
                && segments.last().ident == name,
            TypeModel::Other(_) => false,
        }
    }

    /// The `T` of an unqualified path that ends in `Option<T>`: the last
    /// segment is called `Option` and has exactly one argument in angle
    /// brackets, which is a type.
    pub open spec fn option_inner(self) -> Option<TypeModel> {
        match self {
            TypeModel::Path { leading_colon, qself, segments } => {
                if qself is None && segments.len() > 0 && segments.last().ident == "Option"@ {
                    match segments.last().args {
                        ArgsModel::AngleBracketed(args) => {
                            if args.len() == 1 {
                                match args[0] {
                                    ArgModel::Type(inner) => Some(inner),
                                    ArgModel::Other(_) => None,
                                }
                            } else {
                                None
                            }
                        },
                        _ => None,
                    }
                } else {
                    None
                }
            },
            TypeModel::Other(_) => None,
        }
    }
}

impl View for GenericArg {
    type V = ArgModel;

    open spec fn view(&self) -> ArgModel
        decreases self,
    {
        match self {
            GenericArg::Type(t) => ArgModel::Type(t.view()),
            GenericArg::Other(s) => ArgModel::Other(s@),
        }
    }
}

impl View for PathArgs {
    type V = ArgsModel;

    open spec fn view(&self) -> ArgsModel
        decreases self,
    {
        match self {
            PathArgs::Absent => ArgsModel::Absent,
            PathArgs::AngleBracketed(args) => ArgsModel::AngleBracketed(
                Seq::new(
                    args.len() as nat,
                    |i: int|
                        if 0 <= i < args.len() {
                            args[i].view()
                        } else {
                            ArgModel::Other(Seq::empty())
                        },
                ),
            ),
            PathArgs::Parenthesized(s) => ArgsModel::Parenthesized(s@),
        }
    }
}

impl View for PathSegment {
    type V = SegmentModel;

    open spec fn view(&self) -> SegmentModel
        decreases self,
    {
        SegmentModel { ident: self.ident@, args: self.args.view() }
    }
}

impl View for QSelf {
    type V = QSelfModel;

    open spec fn view(&self) -> QSelfModel {
        QSelfModel { ty: self.ty@, position: self.position as nat }
    }
}

impl View for TypeRef {
    type V = TypeModel;

    open spec fn view(&self) -> TypeModel
        decreases self,
    {
        match self {
            TypeRef::Path { leading_colon, qself, segments } => TypeModel::Path {
                leading_colon: *leading_colon,
                qself: match qself {
                    Some(q) => Some(q.view()),
                    None => None,
                },
                segments: Seq::new(
                    segments.len() as nat,
                    |i: int|
                        if 0 <= i < segments.len() {
                            segments[i].view()
                        } else {
                            SegmentModel { ident: Seq::empty(), args: ArgsModel::Absent }
                        },
                ),
            },
            TypeRef::Other(s) => TypeModel::Other(s@),
        }
    }
}

impl PathSegment {
    /// The value of a segment, one step unfolded.
    pub proof fn lemma_view(self)
        ensures
            self@.ident == self.ident@,
            self@.args == self.args@,
    {
    }
}

impl PathArgs {
    /// The value of a segment's arguments, one step unfolded.
    pub proof fn lemma_view(self)
        ensures
            match self {
                PathArgs::Absent => self@ == ArgsModel::Absent,
                PathArgs::AngleBracketed(args) => self@ is AngleBracketed
                    && self@->AngleBracketed_0.len() == args.len() && forall|i: int|
                    0 <= i < args.len() ==> self@->AngleBracketed_0[i] == #[trigger] args[i]@,
                PathArgs::Parenthesized(s) => self@ == ArgsModel::Parenthesized(s@),
            },
    {
    }
}

impl GenericArg {
    /// The value of an argument, one step unfolded.
    pub proof fn lemma_view(self)
        ensures
            match self {
                GenericArg::Type(t) => self@ == ArgModel::Type(t@),
                GenericArg::Other(s) => self@ == ArgModel::Other(s@),
            },
    {
    }
}

impl TypeRef {
    /// The value of a type, one step unfolded.
    pub proof fn lemma_view(self)
        ensures
            match self {
                TypeRef::Path { leading_colon, qself, segments } => self@ is Path
                    && self@->leading_colon == leading_colon && (self@->qself is Some
                    <==> qself is Some) && self@->segments.len() == segments.len() && forall|
                    i: int,
                | 0 <= i < segments.len() ==> self@->segments[i] == #[trigger] segments[i]@,
                TypeRef::Other(s) => self@ == TypeModel::Other(s@),
            },
    {
    }
}

fn clone_args(args: &Vec<GenericArg>) -> (out: Vec<GenericArg>)
    ensures
        out.len() == args.len(),
        forall|j: int| 0 <= j < args.len() ==> out[j]@ == args[j]@,
    decreases args,
{
    let mut out: Vec<GenericArg> = Vec::new();
    let mut i: usize = 0;
    while i < args.len()
        invariant
            i <= args.len(),
            out.len() == i,
            forall|j: int| 0 <= j < i ==> out[j]@ == args[j]@,
        decreases args.len() - i,
    {
        out.push(args[i].clone());
        i += 1;
    }
    out
}

fn clone_segments(segments: &Vec<PathSegment>) -> (out: Vec<PathSegment>)
    ensures
        out.len() == segments.len(),
        forall|j: int| 0 <= j < segments.len() ==> out[j]@ == segments[j]@,
    decreases segments,
{
    let mut out: Vec<PathSegment> = Vec::new();
    let mut i: usize = 0;
    while i < segments.len()
        invariant
            i <= segments.len(),
            out.len() == i,
            forall|j: int| 0 <= j < i ==> out[j]@ == segments[j]@,
        decreases segments.len() - i,
    {
        out.push(segments[i].clone());
        i += 1;
    }
    out
}

impl Clone for GenericArg {
    fn clone(&self) -> (r: Self)
        ensures
            r@ == self@,
        decreases self,
    {
        match self {
            GenericArg::Type(t) => GenericArg::Type(t.clone()),
            GenericArg::Other(s) => GenericArg::Other(s.clone()),
        }
    }
}

impl Clone for PathArgs {
    fn clone(&self) -> (r: Self)
        ensures
            r@ == self@,
        decreases self,
    {
        match self {
            PathArgs::Absent => PathArgs::Absent,
            PathArgs::AngleBracketed(args) => {
                let r = PathArgs::AngleBracketed(clone_args(args));
                assert(r@->AngleBracketed_0 =~= self@->AngleBracketed_0);
                r
            },
            PathArgs::Parenthesized(s) => PathArgs::Parenthesized(s.clone()),
        }
    }
}

impl Clone for PathSegment {
    fn clone(&self) -> (r: Self)
        ensures
            r@ == self@,
        decreases self,
    {
        PathSegment { ident: self.ident.clone(), args: self.args.clone() }
    }
}

impl Clone for QSelf {
    fn clone(&self) -> (r: Self)
        ensures
            r@ == self@,
    {
        QSelf { ty: self.ty.clone(), position: self.position }
    }
}

impl Clone for TypeRef {
    fn clone(&self) -> (r: Self)
        ensures
            r@ == self@,
        decreases self,
    {
        match self {
            TypeRef::Path { leading_colon, qself, segments } => {
                let q = match qself {
                    Some(q) => Some(q.clone()),
                    None => None,
                };
                let r = TypeRef::Path {
                    leading_colon: *leading_colon,
                    qself: q,
                    segments: clone_segments(segments),
                };
                assert(r@->segments =~= self@->segments);
                r
            },
            TypeRef::Other(s) => TypeRef::Other(s.clone()),
        }
    }
}

impl TypeRef {
    /// The path `name`, one segment without arguments.
    pub fn named(name: &str) -> (r: TypeRef)
        ensures
            r@ == TypeModel::named(name@),
    {
        let mut segments: Vec<PathSegment> = Vec::new();
        segments.push(PathSegment { ident: name.to_owned(), args: PathArgs::Absent });
        let r = TypeRef::Path { leading_colon: false, qself: None, segments };
        proof {
            r.lemma_view();
            segments[0].lemma_view();
            segments[0].args.lemma_view();
            assert(r@->segments =~= TypeModel::named(name@)->segments);
        }
        r
    }

    /// The path `name<args..>`, one segment with type arguments in angle brackets.
    pub fn generic(name: &str, args: Vec<TypeRef>) -> (r: TypeRef)
        ensures
            r@ == (TypeModel::Path {
                leading_colon: false,
                qself: None,
                segments: seq![
                    SegmentModel {
                        ident: name@,
                        args: ArgsModel::AngleBracketed(
                            Seq::new(args.len() as nat, |i: int| ArgModel::Type(args[i]@)),
                        ),
                    },
                ],
            }),
    {
        let mut list: Vec<GenericArg> = Vec::new();
        let mut i: usize = 0;
        while i < args.len()
            invariant
                i <= args.len(),
                list.len() == i,
                forall|j: int| 0 <= j < i ==> list[j]@ == ArgModel::Type(args[j]@),
            decreases args.len() - i,
        {
            let arg = GenericArg::Type(args[i].clone());
            proof {
                arg.lemma_view();
            }
            list.push(arg);
            i += 1;
        }
        let pa = PathArgs::AngleBracketed(list);
        proof {
            pa.lemma_view();
            assert(pa@->AngleBracketed_0 =~= Seq::new(
                args.len() as nat,
                |i: int| ArgModel::Type(args[i]@),
            ));
        }
        let mut segments: Vec<PathSegment> = Vec::new();
        segments.push(PathSegment { ident: name.to_owned(), args: pa });
        let r = TypeRef::Path { leading_colon: false, qself: None, segments };
        proof {
            r.lemma_view();
            segments[0].lemma_view();
            assert(r@->segments =~= seq![
                SegmentModel {
                    ident: name@,
                    args: ArgsModel::AngleBracketed(
                        Seq::new(args.len() as nat, |i: int| ArgModel::Type(args[i]@)),
                    ),
                },
            ]);
        }
        r
    }

    /// The type `Option<inner>`.
    pub fn option_of(inner: TypeRef) -> (r: TypeRef)
        ensures
            r@ == TypeModel::option_of(inner@),
    {
        let mut list: Vec<GenericArg> = Vec::new();
        list.push(GenericArg::Type(inner));
        let pa = PathArgs::AngleBracketed(list);
        proof {
            pa.lemma_view();
            list[0].lemma_view();
            assert(pa@->AngleBracketed_0 =~= seq![ArgModel::Type(inner@)]);
        }
        let mut segments: Vec<PathSegment> = Vec::new();
        segments.push(PathSegment { ident: "Option".to_owned(), args: pa });
        let r = TypeRef::Path { leading_colon: false, qself: None, segments };
        proof {
            r.lemma_view();
            segments[0].lemma_view();
            assert(r@->segments =~= TypeModel::option_of(inner@)->segments);
        }
        r
    }
}

/// Whether `ty` is a path whose last segment is called `name`. The arguments
/// of the segment are not looked at, nor whether the path is qualified.
pub fn is_type(ty: &TypeRef, name: &str) -> (r: bool)
    ensures
        r == ty@.last_ident_is(name@),
{
    proof {
        ty.lemma_view();
    }
    match ty {
        TypeRef::Path { leading_colon, qself, segments } => {
            if segments.len() == 0 {
                false
            } else {
                proof {
                    segments[segments.len() - 1].lemma_view();
                }
                same_text(segments[segments.len() - 1].ident.as_str(), name)
            }
        },
        TypeRef::Other(_) => false,
    }
}

/// Whether `ty` is an unqualified path whose last segment is called `name`.
pub fn is_type_deep(ty: &TypeRef, name: &str) -> (r: bool)
    ensures
        r == ty@.plain_last_ident_is(name@),
{
    proof {
        ty.lemma_view();
    }
    match ty {
        TypeRef::Path { leading_colon, qself, segments } => {
            if qself.is_some() || segments.len() == 0 {
                false
            } else {
                proof {
                    segments[segments.len() - 1].lemma_view();
                }
                same_text(segments[segments.len() - 1].ident.as_str(), name)
            }
        },
        TypeRef::Other(_) => false,
    }
}

/// The `T` of `Option<T>`: `Some` exactly when `ty` is an unqualified path
/// whose last segment is called `Option` and has a single type argument in
/// angle brackets.
pub fn get_option_inner(ty: &TypeRef) -> (r: Option<&TypeRef>)
    ensures
        match r {
            Some(inner) => ty@.option_inner() == Some(inner@),
            None => ty@.option_inner() is None,
        },
{
    proof {
        ty.lemma_view();
    }
    match ty {
        TypeRef::Path { leading_colon, qself, segments } => {
            if qself.is_some() || segments.len() == 0 {
                return None;
            }
            let segment = &segments[segments.len() - 1];
            proof {
                segment.lemma_view();
                segment.args.lemma_view();
            }
            if !same_text(segment.ident.as_str(), "Option") {
                return None;
            }
            match &segment.args {
                PathArgs::AngleBracketed(args) => {
                    if args.len() != 1 {
                        return None;
                    }
                    proof {
                        args[0].lemma_view();
                    }
                    match &args[0] {
                        GenericArg::Type(inner) => Some(inner),
                        GenericArg::Other(_) => None,
                    }
                },
                _ => None,
            }
        },
        TypeRef::Other(_) => None,
    }
}

} // verus!
