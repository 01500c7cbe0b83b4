//! The text of a declared type, and the joining of pieces of text.

use crate::declaration::{
    GenericArgument, GenericArgumentView, PathArguments, PathArgumentsView, PathSegment,
    PathSegmentView, SelfQualifierView, TypeExpr, TypeExprView, TypePath, TypePathView,
};
use vstd::prelude::*;
use vstd::string::*;

verus! {

/// The texts that a sequence of strings holds.
pub open spec fn texts(parts: Seq<String>) -> Seq<Seq<char>> {
    parts.map_values(|p: String| p@)
}

/// The pieces in order, with the separator between each two neighbours.
pub open spec fn join(parts: Seq<Seq<char>>, sep: Seq<char>) -> Seq<char>
    decreases parts.len(),
{
    if parts.len() == 0 {
        Seq::empty()
    } else if parts.len() == 1 {
        parts[0]
    } else {
        join(parts.drop_last(), sep) + sep + parts.last()
    }
}

/// The text of one generic argument: what was written.
pub open spec fn argument_text(a: GenericArgumentView) -> Seq<char> {
    match a {
        GenericArgumentView::Type(t) => t,
        GenericArgumentView::Lifetime(t) => t,
        GenericArgumentView::Const(t) => t,
        GenericArgumentView::Binding(t) => t,
    }
}

/// The texts of the generic arguments, in order.
pub open spec fn argument_texts(args: Seq<GenericArgumentView>) -> Seq<Seq<char>> {
    args.map_values(|a: GenericArgumentView| argument_text(a))
}

/// The text of what follows a segment's name: nothing, the arguments
/// between `<` and `>` with `, ` between them, or the parenthesised form as
/// written.
pub open spec fn arguments_text(a: PathArgumentsView) -> Seq<char> {
    match a {
        PathArgumentsView::Absent => Seq::empty(),
        PathArgumentsView::AngleBracketed(args) => "<"@ + join(argument_texts(args), ", "@)
            + ">"@,
        PathArgumentsView::Parenthesized(t) => t,
    }
}

/// The text of a segment: its name, then its arguments.
pub open spec fn segment_text(s: PathSegmentView) -> Seq<char> {
    s.name + arguments_text(s.arguments)
}

/// The texts of the segments, in order.
pub open spec fn segment_texts(segments: Seq<PathSegmentView>) -> Seq<Seq<char>> {
    segments.map_values(|s: PathSegmentView| segment_text(s))
}

/// What a global path starts with.
pub open spec fn global_prefix(global: bool) -> Seq<char> {
    if global {
        "::"@
    } else {
        Seq::empty()
    }
}

/// How many of the leading segments belong to the trait inside the
/// qualifier: the qualifier's position, and at most all segments.
pub open spec fn trait_length(q: SelfQualifierView, segments: int) -> int {
    if q.position <= segments {
        q.position as int
    } else {
        segments
    }
}

/// The text of a qualified path whose segments have the given texts.
///
/// Where the qualifier names a trait, the trait's segments stand behind
/// `as`, and the other segments behind the closing `>`, each with `::`
/// before it. Where it names none, the segments follow the closing `>`
/// as those of an unqualified path would.
pub open spec fn qualified_text(q: SelfQualifierView, global: bool, parts: Seq<Seq<char>>) -> Seq<
    char,
> {
    let inside = trait_length(q, parts.len() as int);
    if inside == 0 {
        "<"@ + q.self_type + ">"@ + global_prefix(global) + join(parts, "::"@)
    } else if inside == parts.len() {
        "<"@ + q.self_type + " as "@ + global_prefix(global) + join(parts, "::"@) + ">"@
    } else {
        "<"@ + q.self_type + " as "@ + global_prefix(global) + join(parts.take(inside), "::"@)
            + ">"@ + "::"@ + join(parts.skip(inside), "::"@)
    }
}

/// The text of a path: its segments with `::` between them, behind `::`
/// where the path is global, or around the qualifier where it has one.
pub open spec fn path_text(p: TypePathView) -> Seq<char> {
    match p.qualifier {
        None => global_prefix(p.global) + join(segment_texts(p.segments), "::"@),
        Some(q) => qualified_text(q, p.global, segment_texts(p.segments)),
    }
}

/// The text of a declared type.
pub open spec fn type_text(t: TypeExprView) -> Seq<char> {
    match t {
        TypeExprView::Path(p) => path_text(p),
        TypeExprView::Other(text) => text,
    }
}

/// The text of a sequence without its last element, followed by the
/// separator where something stands before it, and by the last element,
/// is the text of the sequence.
pub proof fn lemma_join_push(parts: Seq<Seq<char>>, sep: Seq<char>, last: Seq<char>)
    ensures
        join(parts.push(last), sep) == if parts.len() == 0 {
            last
        } else {
            join(parts, sep) + sep + last
        },
{
    let all = parts.push(last);
    assert(all.drop_last() =~= parts);
    assert(all.last() == last);
}

/// Joins the pieces with the separator between each two neighbours.
pub fn join_text(parts: &Vec<String>, sep: &str) -> (out: String)
    ensures
        out@ == join(texts(parts@), sep@),
{
    let mut out = String::new();
    let mut i: usize = 0;
    while i < parts.len()
        invariant
            i <= parts.len(),
            out@ == join(texts(parts@).take(i as int), sep@),
        decreases parts.len() - i,
    {
        proof {
            let all = texts(parts@);
            assert(all.take(i as int + 1) =~= all.take(i as int).push(all[i as int]));
            lemma_join_push(all.take(i as int), sep@, all[i as int]);
        }
        if i > 0 {
            out.append(sep);
        }
        out.append(parts[i].as_str());
        i += 1;
    }
    proof {
        let all = texts(parts@);
        assert(all.take(i as int) =~= all);
    }
    out
}

/// Puts the pieces one after the other.
pub fn concat_text(parts: &Vec<String>) -> (out: String)
    ensures
        out@ == texts(parts@).flatten(),
{
    let mut out = String::new();
    let mut i: usize = 0;
    while i < parts.len()
        invariant
            i <= parts.len(),
            out@ == texts(parts@).take(i as int).flatten(),
        decreases parts.len() - i,
    {
        proof {
            let all = texts(parts@);
            assert(all.take(i as int + 1) =~= all.take(i as int).push(all[i as int]));
            all.take(i as int).lemma_flatten_push(all[i as int]);
        }
        out.append(parts[i].as_str());
        i += 1;
    }
    proof {
        let all = texts(parts@);
        assert(all.take(i as int) =~= all);
    }
    out
}

impl GenericArgument {
    /// The argument as written.
    pub fn text(&self) -> (out: String)
        ensures
            out@ == argument_text(self@),
    {
        match self {
            GenericArgument::Type(t) => t.clone(),
            GenericArgument::Lifetime(t) => t.clone(),
            GenericArgument::Const(t) => t.clone(),
            GenericArgument::Binding(t) => t.clone(),
        }
    }
}

impl PathArguments {
    /// The arguments as they stand behind a segment's name.
    pub fn text(&self) -> (out: String)
        ensures
            out@ == arguments_text(self@),
    {
        match self {
            PathArguments::Absent => String::new(),
            PathArguments::AngleBracketed(args) => {
                let mut parts: Vec<String> = Vec::new();
                let mut i: usize = 0;
                while i < args.len()
                    invariant
                        i <= args.len(),
                        texts(parts@) == argument_texts(
                            args@.map_values(|a: GenericArgument| a@),
                        ).take(i as int),
                    decreases args.len() - i,
                {
                    let piece = args[i].text();
                    proof {
                        let all = argument_texts(args@.map_values(|a: GenericArgument| a@));
                        assert(all.take(i as int + 1) =~= all.take(i as int).push(all[i as int]));
                        assert(texts(parts@.push(piece)) =~= texts(parts@).push(piece@));
                    }
                    parts.push(piece);
                    i += 1;
                }
                proof {
                    let all = argument_texts(args@.map_values(|a: GenericArgument| a@));
                    assert(all.take(i as int) =~= all);
                }
                let mut out = "<".to_owned();
                let inner = join_text(&parts, ", ");
                out.append(inner.as_str());
                out.append(">");
                out
            },
            PathArguments::Parenthesized(t) => t.clone(),
        }
    }
}

impl PathSegment {
    /// The segment as it stands in a path.
    pub fn text(&self) -> (out: String)
        ensures
            out@ == segment_text(self@),
    {
        let mut out = self.name.clone();
        let arguments = self.arguments.text();
        out.append(arguments.as_str());
        out
    }
}

/// The pieces from `from` up to `to`, in order.
fn pieces_between(parts: &Vec<String>, from: usize, to: usize) -> (out: Vec<String>)
    requires
        from <= to <= parts.len(),
    ensures
        texts(out@) == texts(parts@).subrange(from as int, to as int),
{
    let mut out: Vec<String> = Vec::new();
    let mut i: usize = from;
    while i < to
        invariant
            from <= i <= to <= parts.len(),
            texts(out@) == texts(parts@).subrange(from as int, i as int),
        decreases to - i,
    {
        let piece = parts[i].clone();
        proof {
            let all = texts(parts@);
            assert(all.subrange(from as int, i as int + 1) =~= all.subrange(
                from as int,
                i as int,
            ).push(all[i as int]));
            assert(texts(out@.push(piece)) =~= texts(out@).push(piece@));
        }
        out.push(piece);
        i += 1;
    }
    out
}

impl TypePath {
    /// The texts of the segments, in order.
    fn segment_pieces(&self) -> (parts: Vec<String>)
        ensures
            texts(parts@) == segment_texts(self@.segments),
    {
        let mut parts: Vec<String> = Vec::new();
        let mut i: usize = 0;
        while i < self.segments.len()
            invariant
                i <= self.segments.len(),
                texts(parts@) == segment_texts(self@.segments).take(i as int),
            decreases self.segments.len() - i,
        {
            let piece = self.segments[i].text();
            proof {
                let all = segment_texts(self@.segments);
                assert(all.take(i as int + 1) =~= all.take(i as int).push(all[i as int]));
                assert(texts(parts@.push(piece)) =~= texts(parts@).push(piece@));
            }
            parts.push(piece);
            i += 1;
        }
        proof {
            let all = segment_texts(self@.segments);
            assert(all.take(i as int) =~= all);
        }
        parts
    }

    /// The path as it stands in code.
    pub fn text(&self) -> (out: String)
        ensures
            out@ == path_text(self@),
    {
        let parts = self.segment_pieces();
        let prefix = if self.global {
            "::".to_owned()
        } else {
            String::new()
        };
        match &self.qualifier {
            None => {
                let mut out = prefix;
                let inner = join_text(&parts, "::");
                out.append(inner.as_str());
                out
            },
            Some(q) => {
                let inside = if q.position <= parts.len() {
                    q.position
                } else {
                    parts.len()
                };
                assert(inside == trait_length(q@, texts(parts@).len() as int));
                let mut out = "<".to_owned();
                out.append(q.self_type.as_str());
                if inside == 0 {
                    out.append(">");
                    out.append(prefix.as_str());
                    let inner = join_text(&parts, "::");
                    out.append(inner.as_str());
                } else if inside == parts.len() {
                    out.append(" as ");
                    out.append(prefix.as_str());
                    let inner = join_text(&parts, "::");
                    out.append(inner.as_str());
                    out.append(">");
                } else {
                    let of_trait = pieces_between(&parts, 0, inside);
                    let behind = pieces_between(&parts, inside, parts.len());
                    out.append(" as ");
                    out.append(prefix.as_str());
                    let inner = join_text(&of_trait, "::");
                    out.append(inner.as_str());
                    out.append(">");
                    out.append("::");
                    let rest = join_text(&behind, "::");
                    out.append(rest.as_str());
                }
                out
            },
        }
    }
}

impl TypeExpr {
    /// The type as it stands in code.
    pub fn text(&self) -> (out: String)
        ensures
            out@ == type_text(self@),
    {
        match self {
            TypeExpr::Path(p) => p.text(),
            TypeExpr::Other(t) => t.clone(),
        }
    }
}

} // verus!
