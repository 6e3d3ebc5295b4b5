//! Type shape descriptors and the optional-wrapper classifier.

use vstd::prelude::*;

verus! {

broadcast use
    vstd::std_specs::vec::axiom_vec_index_decreases,
    vstd::std_specs::vec::axiom_vec_decreases_to_view,
    vstd::seq::axiom_seq_index_decreases,
    vstd::seq::axiom_seq_subrange_decreases;

/// Structural description of a type as written in the source.
///
/// A path type `a::b::C<T1, T2>` is `Named`; `segments` holds the path
/// identifiers in order and `args` the generic type arguments of the final
/// segment. Every other shape is carried verbatim as `Opaque` text and is
/// never inspected.
#[derive(PartialEq, Eq, Debug)]
pub enum TypeShape {
    Named { segments: Vec<String>, args: Vec<TypeShape> },
    Opaque { text: String },
}

/// Mathematical image of a [`TypeShape`]: identifiers as character sequences.
#[verifier::ext_equal]
pub enum ShapeModel {
    Named { segments: Seq<Seq<char>>, args: Seq<ShapeModel> },
    Opaque { text: Seq<char> },
}

/// The model of a shape: each identifier replaced by its character sequence.
pub open spec fn shape_model(t: TypeShape) -> ShapeModel
    decreases t, 1int,
{
    match t {
        TypeShape::Named { segments, args } => ShapeModel::Named {
            segments: Seq::new(segments@.len(), |i: int| segments@[i]@),
            args: shapes_model(args@),
        },
        TypeShape::Opaque { text } => ShapeModel::Opaque { text: text@ },
    }
}

/// The models of a sequence of shapes, in order.
pub open spec fn shapes_model(s: Seq<TypeShape>) -> Seq<ShapeModel>
    decreases s, 0int,
{
    if s.len() == 0 {
        Seq::empty()
    } else {
        seq![shape_model(s[0])] + shapes_model(s.drop_first())
    }
}

/// [`shapes_model`] maps [`shape_model`] over the sequence, element by element.
pub broadcast proof fn lemma_shapes_model(s: Seq<TypeShape>)
    ensures
        (#[trigger] shapes_model(s)).len() == s.len(),
        forall|i: int| 0 <= i < s.len() ==> shapes_model(s)[i] == shape_model(s[i]),
    decreases s.len(),
{
    if s.len() > 0 {
        lemma_shapes_model(s.drop_first());
    }
}

impl View for TypeShape {
    type V = ShapeModel;

    open spec fn view(&self) -> ShapeModel {
        shape_model(*self)
    }
}

/// A shape is an optional wrapper iff it is a named path whose final
/// segment's identifier is textually `Option` and which carries exactly one
/// generic type argument. The match is unqualified and purely textual: a
/// user-defined type that happens to use the same final identifier is
/// indistinguishable from the standard optional type.
pub open spec fn spec_is_optional(m: ShapeModel) -> bool {
    match m {
        ShapeModel::Named { segments, args } => {
            &&& segments.len() > 0
            &&& segments.last() == "Option"@
            &&& args.len() == 1
        },
        ShapeModel::Opaque { .. } => false,
    }
}

/// Decides [`spec_is_optional`] on a concrete shape.
pub fn is_optional(t: &TypeShape) -> (r: bool)
    ensures
        r == spec_is_optional(t@),
{
    match t {
        TypeShape::Named { segments, args } => {
            proof {
                lemma_shapes_model(args@);
                assert(*t == TypeShape::Named { segments: *segments, args: *args });
                assert(t@ matches ShapeModel::Named { segments: s, args: a }
                    && s.len() == segments@.len()
                    && a.len() == args@.len()
                    && (segments@.len() > 0 ==> s.last() == segments@[segments@.len() - 1]@));
            }
            if segments.len() > 0 && args.len() == 1 {
                let marker = String::from_str("Option");
                let last: &String = &segments[segments.len() - 1];
                *last == marker
            } else {
                false
            }
        },
        TypeShape::Opaque { .. } => false,
    }
}

/// The inner type of an optional wrapper; any other shape is returned
/// unchanged (identity fallback).
pub open spec fn spec_strip_optional(m: ShapeModel) -> ShapeModel {
    match m {
        ShapeModel::Named { segments, args } => if spec_is_optional(m) {
            args[0]
        } else {
            m
        },
        ShapeModel::Opaque { .. } => m,
    }
}

/// Computes [`spec_strip_optional`]: the single generic argument of an
/// optional wrapper, or the shape itself.
pub fn strip_optional(t: &TypeShape) -> (r: &TypeShape)
    ensures
        r@ == spec_strip_optional(t@),
{
    if is_optional(t) {
        match t {
            TypeShape::Named { segments, args } => {
                proof {
                    lemma_shapes_model(args@);
                    assert(*t == TypeShape::Named { segments: *segments, args: *args });
                }
                &args[0]
            },
            TypeShape::Opaque { .. } => t,
        }
    } else {
        t
    }
}

/// The item type of a collection shape: the first generic type argument of
/// the final path segment when there is one; the shape itself otherwise.
pub open spec fn spec_item_type(m: ShapeModel) -> ShapeModel {
    match m {
        ShapeModel::Named { segments, args } => if args.len() > 0 {
            args[0]
        } else {
            m
        },
        ShapeModel::Opaque { .. } => m,
    }
}

/// Computes [`spec_item_type`] on a concrete shape.
pub fn item_type(t: &TypeShape) -> (r: &TypeShape)
    ensures
        r@ == spec_item_type(t@),
{
    match t {
        TypeShape::Named { segments, args } => {
            proof {
                lemma_shapes_model(args@);
                assert(*t == TypeShape::Named { segments: *segments, args: *args });
            }
            if args.len() > 0 {
                &args[0]
            } else {
                t
            }
        },
        TypeShape::Opaque { .. } => t,
    }
}

impl TypeShape {
    /// Structural copy: the copy has the same model as the source value.
    pub fn duplicate(&self) -> (r: TypeShape)
        ensures
            r@ == self@,
        decreases *self,
    {
        match self {
            TypeShape::Opaque { text } => TypeShape::Opaque { text: text.clone() },
            TypeShape::Named { segments, args } => {
                proof {
                    assert(*self == TypeShape::Named { segments: *segments, args: *args });
                }
                let mut segs: Vec<String> = Vec::new();
                let mut i: usize = 0;
                while i < segments.len()
                    invariant
                        i <= segments@.len(),
                        segs@.len() == i as int,
                        forall|k: int| 0 <= k < i ==> segs@[k] == segments@[k],
                    decreases segments@.len() - i,
                {
                    segs.push(segments[i].clone());
                    i += 1;
                }
                let mut rest: Vec<TypeShape> = Vec::new();
                let mut j: usize = 0;
                while j < args.len()
                    invariant
                        *self == (TypeShape::Named { segments: *segments, args: *args }),
                        j <= args@.len(),
                        rest@.len() == j as int,
                        forall|k: int| 0 <= k < j
                            ==> shape_model(#[trigger] rest@[k]) == shape_model(args@[k]),
                    decreases args@.len() - j,
                {
                    proof {
                        assert(decreases_to!(*self => self->Named_args));
                        assert(decreases_to!(self->Named_args => self->Named_args@));
                        assert(decreases_to!(self->Named_args@ => self->Named_args@[j as int]));
                        assert(decreases_to!(*self => args@[j as int]));
                    }
                    let copy = args[j].duplicate();
                    rest.push(copy);
                    j += 1;
                }
                let out = TypeShape::Named { segments: segs, args: rest };
                proof {
                    lemma_shapes_model(rest@);
                    lemma_shapes_model(args@);
                    assert(segs@ =~= segments@);
                    assert(shapes_model(rest@) =~= shapes_model(args@));
                    assert(out@ =~= self@);
                }
                out
            },
        }
    }
}

} // verus!
