//! Type expressions: the part of their syntax that the generator reads, and their source text.

use crate::text::{join, join_strings, texts_of};
use vstd::prelude::*;

verus! {

/// A type expression.
#[derive(Debug, PartialEq, Eq)]
pub enum TypeSyntax {
    /// A named path such as `a::B<C>`, without a qualified self type.
    Path { leading_colon: bool, segments: Vec<PathSegment> },
    /// Any other type expression, kept as it was written.
    Other { text: String },
}

/// One segment of a path, with its arguments.
#[derive(Debug, PartialEq, Eq)]
pub struct PathSegment {
    pub ident: String,
    pub arguments: PathArguments,
}

/// The arguments that follow the identifier of a path segment.
#[derive(Debug, PartialEq, Eq)]
pub enum PathArguments {
    /// No arguments: `String`.
    Absent,
    /// Arguments in angle brackets: `Vec<u8>`.
    AngleBracketed { args: Vec<GenericArgument> },
    /// Arguments in round brackets with an optional result, kept as written: `Fn(u8) -> bool`.
    Parenthesized { text: String },
}

/// One argument inside angle brackets.
#[derive(Debug, PartialEq, Eq)]
pub enum GenericArgument {
    /// A type.
    Type { ty: TypeSyntax },
    /// A lifetime, a constant, a binding or a bound, kept as written.
    Other { text: String },
}

/// The mathematical value of a [`TypeSyntax`].
pub enum TypeView {
    Path { leading_colon: bool, segments: Seq<SegmentView> },
    Other { text: Seq<char> },
}

/// The mathematical value of a [`PathSegment`].
pub struct SegmentView {
    pub ident: Seq<char>,
    pub arguments: ArgumentsView,
}

/// The mathematical value of a [`PathArguments`].
pub enum ArgumentsView {
    Absent,
    AngleBracketed { args: Seq<ArgumentView> },
    Parenthesized { text: Seq<char> },
}

/// The mathematical value of a [`GenericArgument`].
pub enum ArgumentView {
    Type { ty: TypeView },
    Other { text: Seq<char> },
}

impl View for TypeSyntax {
    type V = TypeView;

    open spec fn view(&self) -> TypeView
        decreases self,
    {
        match self {
            TypeSyntax::Path { leading_colon, segments } => TypeView::Path {
                leading_colon: *leading_colon,
                segments: Seq::new(
                    segments.len() as nat,
                    |i: int|
                        if 0 <= i < segments.len() {
                            segments[i].view()
                        } else {
                            arbitrary()
                        },
                ),
            },
            TypeSyntax::Other { text } => TypeView::Other { text: text@ },
        }
    }
}

impl View for PathSegment {
    type V = SegmentView;

    open spec fn view(&self) -> SegmentView
        decreases self,
    {
        SegmentView { ident: self.ident@, arguments: self.arguments.view() }
    }
}

impl View for PathArguments {
    type V = ArgumentsView;

    open spec fn view(&self) -> ArgumentsView
        decreases self,
    {
        match self {
            PathArguments::Absent => ArgumentsView::Absent,
            PathArguments::AngleBracketed { args } => ArgumentsView::AngleBracketed {
                args: Seq::new(
                    args.len() as nat,
                    |i: int|
                        if 0 <= i < args.len() {
                            args[i].view()
                        } else {
                            arbitrary()
                        },
                ),
            },
            PathArguments::Parenthesized { text } => ArgumentsView::Parenthesized { text: text@ },
        }
    }
}

impl View for GenericArgument {
    type V = ArgumentView;

    open spec fn view(&self) -> ArgumentView
        decreases self,
    {
        match self {
            GenericArgument::Type { ty } => ArgumentView::Type { ty: ty.view() },
            GenericArgument::Other { text } => ArgumentView::Other { text: text@ },
        }
    }
}

/// The source text of a type: the segments of a path joined by `::`, each followed by
/// its arguments; any other type expression as it was written.
pub open spec fn type_text(t: TypeView) -> Seq<char>
    decreases t,
{
    match t {
        TypeView::Path { leading_colon, segments } => {
            let head = if leading_colon {
                "::"@
            } else {
                Seq::empty()
            };
            head + join(segment_texts(segments), "::"@)
        },
        TypeView::Other { text } => text,
    }
}

/// The source text of each segment of a path.
pub open spec fn segment_texts(segments: Seq<SegmentView>) -> Seq<Seq<char>>
    decreases segments,
{
    Seq::new(
        segments.len(),
        |i: int|
            if 0 <= i < segments.len() {
                segment_text(segments[i])
            } else {
                Seq::empty()
            },
    )
}

/// The source text of a path segment: its identifier, then its arguments.
pub open spec fn segment_text(s: SegmentView) -> Seq<char>
    decreases s,
{
    s.ident + arguments_text(s.arguments)
}

/// The source text of the arguments of a path segment.
pub open spec fn arguments_text(a: ArgumentsView) -> Seq<char>
    decreases a,
{
    match a {
        ArgumentsView::Absent => Seq::empty(),
        ArgumentsView::AngleBracketed { args } => "<"@ + join(argument_texts(args), ", "@) + ">"@,
        ArgumentsView::Parenthesized { text } => text,
    }
}

/// The source text of each argument inside angle brackets.
pub open spec fn argument_texts(args: Seq<ArgumentView>) -> Seq<Seq<char>>
    decreases args,
{
    Seq::new(
        args.len(),
        |i: int|
            if 0 <= i < args.len() {
                argument_text(args[i])
            } else {
                Seq::empty()
            },
    )
}

/// The source text of one argument inside angle brackets.
pub open spec fn argument_text(a: ArgumentView) -> Seq<char>
    decreases a,
{
    match a {
        ArgumentView::Type { ty } => type_text(ty),
        ArgumentView::Other { text } => text,
    }
}

impl TypeSyntax {
    /// Writes the type out as source text.
    pub fn render(&self) -> (out: String)
        ensures
            out@ == type_text(self@),
        decreases self,
    {
        match self {
            TypeSyntax::Path { leading_colon, segments } => {
                let mut parts: Vec<String> = Vec::new();
                let mut i: usize = 0;
                while i < segments.len()
                    invariant
                        0 <= i <= segments.len(),
                        *self == (TypeSyntax::Path {
                            leading_colon: *leading_colon,
                            segments: *segments,
                        }),
                        parts.len() == i,
                        forall|j: int| 0 <= j < i ==> parts[j]@ == segment_text(segments[j]@),
                    decreases segments.len() - i,
                {
                    assert(decreases_to!(self => segments)) by {
                        assert(self->Path_segments == *segments);
                    }
                    assert(decreases_to!(segments => segments[i as int]));
                    let part = segments[i].render();
                    parts.push(part);
                    i = i + 1;
                }
                let mut out = String::new();
                if *leading_colon {
                    out.append("::");
                }
                let body = join_strings(&parts, "::");
                out.append(body.as_str());
                proof {
                    let texts = segment_texts(self@->Path_segments);
                    assert(texts_of(parts@) =~= texts);
                    assert(out@ =~= type_text(self@));
                }
                out
            },
            TypeSyntax::Other { text } => text.clone(),
        }
    }

    /// A copy of the type, equal to it in every part.
    pub fn duplicate(&self) -> (out: TypeSyntax)
        ensures
            out@ == self@,
        decreases self,
    {
        match self {
            TypeSyntax::Path { leading_colon, segments } => {
                let mut copies: Vec<PathSegment> = Vec::new();
                let mut i: usize = 0;
                while i < segments.len()
                    invariant
                        0 <= i <= segments.len(),
                        *self == (TypeSyntax::Path {
                            leading_colon: *leading_colon,
                            segments: *segments,
                        }),
                        copies.len() == i,
                        forall|j: int| 0 <= j < i ==> copies[j]@ == segments[j]@,
                    decreases segments.len() - i,
                {
                    assert(decreases_to!(self => segments)) by {
                        assert(self->Path_segments == *segments);
                    }
                    assert(decreases_to!(segments => segments[i as int]));
                    let copy = segments[i].duplicate();
                    copies.push(copy);
                    i = i + 1;
                }
                let out = TypeSyntax::Path { leading_colon: *leading_colon, segments: copies };
                proof {
                    assert(out@->Path_segments =~= self@->Path_segments);
                }
                out
            },
            TypeSyntax::Other { text } => TypeSyntax::Other { text: text.clone() },
        }
    }
}

impl PathSegment {
    /// Writes the segment out as source text.
    pub fn render(&self) -> (out: String)
        ensures
            out@ == segment_text(self@),
        decreases self,
    {
        let mut out = self.ident.clone();
        let tail = self.arguments.render();
        out.append(tail.as_str());
        out
    }

    /// A copy of the segment, equal to it in every part.
    pub fn duplicate(&self) -> (out: PathSegment)
        ensures
            out@ == self@,
        decreases self,
    {
        PathSegment { ident: self.ident.clone(), arguments: self.arguments.duplicate() }
    }
}

impl PathArguments {
    /// Writes the arguments out as source text.
    pub fn render(&self) -> (out: String)
        ensures
            out@ == arguments_text(self@),
        decreases self,
    {
        match self {
            PathArguments::Absent => String::new(),
            PathArguments::AngleBracketed { args } => {
                let mut parts: Vec<String> = Vec::new();
                let mut i: usize = 0;
                while i < args.len()
                    invariant
                        0 <= i <= args.len(),
                        *self == (PathArguments::AngleBracketed { args: *args }),
                        parts.len() == i,
                        forall|j: int| 0 <= j < i ==> parts[j]@ == argument_text(args[j]@),
                    decreases args.len() - i,
                {
                    assert(decreases_to!(self => args)) by {
                        assert(self->AngleBracketed_args == *args);
                    }
                    assert(decreases_to!(args => args[i as int]));
                    let part = args[i].render();
                    parts.push(part);
                    i = i + 1;
                }
                let mut out = String::new();
                out.append("<");
                let body = join_strings(&parts, ", ");
                out.append(body.as_str());
                out.append(">");
                proof {
                    let texts = argument_texts(self@->AngleBracketed_args);
                    assert(texts_of(parts@) =~= texts);
                    assert(out@ =~= arguments_text(self@));
                }
                out
            },
            PathArguments::Parenthesized { text } => text.clone(),
        }
    }

    /// A copy of the arguments, equal to them in every part.
    pub fn duplicate(&self) -> (out: PathArguments)
        ensures
            out@ == self@,
        decreases self,
    {
        match self {
            PathArguments::Absent => PathArguments::Absent,
            PathArguments::AngleBracketed { args } => {
                let mut copies: Vec<GenericArgument> = Vec::new();
                let mut i: usize = 0;
                while i < args.len()
                    invariant
                        0 <= i <= args.len(),
                        *self == (PathArguments::AngleBracketed { args: *args }),
                        copies.len() == i,
                        forall|j: int| 0 <= j < i ==> copies[j]@ == args[j]@,
                    decreases args.len() - i,
                {
                    assert(decreases_to!(self => args)) by {
                        assert(self->AngleBracketed_args == *args);
                    }
                    assert(decreases_to!(args => args[i as int]));
                    let copy = args[i].duplicate();
                    copies.push(copy);
                    i = i + 1;
                }
                let out = PathArguments::AngleBracketed { args: copies };
                proof {
                    assert(out@->AngleBracketed_args =~= self@->AngleBracketed_args);
                }
                out
            },
            PathArguments::Parenthesized { text } => PathArguments::Parenthesized {
                text: text.clone(),
            },
        }
    }
}

impl GenericArgument {
    /// Writes the argument out as source text.
    pub fn render(&self) -> (out: String)
        ensures
            out@ == argument_text(self@),
        decreases self,
    {
        match self {
            GenericArgument::Type { ty } => ty.render(),
            GenericArgument::Other { text } => text.clone(),
        }
    }

    /// A copy of the argument, equal to it in every part.
    pub fn duplicate(&self) -> (out: GenericArgument)
        ensures
            out@ == self@,
        decreases self,
    {
        match self {
            GenericArgument::Type { ty } => GenericArgument::Type { ty: ty.duplicate() },
            GenericArgument::Other { text } => GenericArgument::Other { text: text.clone() },
        }
    }
}

} // verus!
