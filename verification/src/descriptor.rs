//! The static description of one annotated structure definition.
//!
//! The generation core never parses raw source text: it consumes a
//! structure definition already tokenized by the host toolchain's own
//! parser, reduced to the plain values the generation logic reads — names,
//! type and visibility source text, annotation paths.  This module holds
//! those descriptors, the recognition rules for the two field-level
//! control markers, and the laws of bit index assignment.
//!
//! Conventions for the source-text fields:
//!
//! * a visibility (`vis`) is either empty, for inherited visibility, or
//!   the qualifier followed by one space (`"pub "`, `"pub(crate) "`);
//! * bounds (`bounds`) are either empty or start with the colon, as in
//!   `": std::fmt::Debug"`;
//! * a where-clause (`where_clause`) is either empty or the whole clause,
//!   starting with the `where` keyword;
//! * annotation arguments (`args`) are either empty or the whole argument
//!   group, delimiters included, as in `"(Default)"`.

use vstd::prelude::*;

verus! {

/// One annotation attached to a field or to the structure itself: the
/// segments of its path (for example `["tracker", "no_eq"]`) and its
/// argument tokens.
pub struct Annotation {
    /// The segments of the annotation's path, in order.
    pub segments: Vec<String>,
    /// The annotation's argument tokens as source text, delimiters
    /// included, or empty when the annotation has none.
    pub args: String,
}

/// One named field of the annotated structure.
pub struct FieldDescriptor {
    /// The field's name.
    pub name: String,
    /// The field's declared type, as source text.
    pub ty: String,
    /// The field's visibility (see the module conventions).
    pub vis: String,
    /// The field's annotations, in source order.
    pub attrs: Vec<Annotation>,
}

/// One generic parameter of the structure.
pub enum GenericParamDesc {
    /// A lifetime parameter: its name (`"'a"`) and its bounds.
    Lifetime { name: String, bounds: String },
    /// A type parameter: its name, its bounds, and its default type
    /// (empty when it has none).
    Type { name: String, bounds: String, default_ty: String },
    /// A const parameter: its name, its type, and its default value
    /// (empty when it has none).
    Const { name: String, ty: String, default_val: String },
}

/// The shape of the structure's field list.  Only named fields can be
/// tracked; the other two shapes are rejected.
pub enum StructFields {
    /// Named fields, in declaration order.
    Named(Vec<FieldDescriptor>),
    /// Tuple form.
    Tuple,
    /// Unit form.
    Unit,
}

/// The annotated structure definition, as handed over by the host
/// toolchain's parser.
pub struct StructDescriptor {
    /// The structure's name.
    pub name: String,
    /// The structure's visibility (see the module conventions).
    pub vis: String,
    /// The structure's own annotations, which pass through unchanged.
    pub attrs: Vec<Annotation>,
    /// The generic parameter list, in order.
    pub generics: Vec<GenericParamDesc>,
    /// The where-clause (see the module conventions).
    pub where_clause: String,
    /// The field list.
    pub fields: StructFields,
}

/// Whether an annotation path spells the given marker: exactly one
/// segment equal to the marker name, or exactly two segments of which the
/// first is the `tracker` namespace and the second the marker name.
pub open spec fn is_marker_path(segments: Seq<String>, marker: Seq<char>) -> bool {
    ||| (segments.len() == 1 && segments[0]@ == marker)
    ||| (segments.len() == 2 && segments[0]@ == "tracker"@ && segments[1]@ == marker)
}

/// Whether an annotation is the `no_eq` marker, in either spelling.
pub open spec fn attr_is_no_eq(a: Annotation) -> bool {
    is_marker_path(a.segments@, "no_eq"@)
}

/// Whether an annotation is the `do_not_track` marker, in either
/// spelling.
pub open spec fn attr_is_do_not_track(a: Annotation) -> bool {
    is_marker_path(a.segments@, "do_not_track"@)
}

/// Whether an annotation is one of the two recognized control markers.
pub open spec fn attr_is_marker(a: Annotation) -> bool {
    attr_is_no_eq(a) || attr_is_do_not_track(a)
}

/// Whether an annotation list carries the `no_eq` marker.
pub open spec fn has_no_eq(attrs: Seq<Annotation>) -> bool {
    exists|i: int| 0 <= i < attrs.len() && attr_is_no_eq(#[trigger] attrs[i])
}

/// Whether an annotation list carries the `do_not_track` marker.
pub open spec fn has_do_not_track(attrs: Seq<Annotation>) -> bool {
    exists|i: int| 0 <= i < attrs.len() && attr_is_do_not_track(#[trigger] attrs[i])
}

/// An annotation list with the two recognized markers removed; all other
/// annotations pass through unchanged, in original order.
pub open spec fn scanned_attrs(attrs: Seq<Annotation>) -> Seq<Annotation> {
    attrs.filter(|a: Annotation| !attr_is_marker(a))
}

/// Whether a field's setter skips the equality comparison.
pub open spec fn field_no_eq(f: FieldDescriptor) -> bool {
    has_no_eq(f.attrs@)
}

/// Whether a field is excluded from tracking entirely.
pub open spec fn field_excluded(f: FieldDescriptor) -> bool {
    has_do_not_track(f.attrs@)
}

/// The tracked field list: the subsequence of fields not marked
/// `do_not_track`, in declaration order.  A tracked field's position in
/// this list is its permanent bit index.
pub open spec fn tracked_fields(fields: Seq<FieldDescriptor>) -> Seq<FieldDescriptor> {
    fields.filter(|f: FieldDescriptor| !field_excluded(f))
}

/// The bit index that falls to the field at position `p` of the original
/// field list: the number of tracked fields strictly before it.
pub open spec fn bit_index_at(fields: Seq<FieldDescriptor>, p: int) -> int {
    tracked_fields(fields.take(p)).len() as int
}

/// Filtering a sequence extended by one element keeps the filtered prefix
/// and appends the new element exactly when it passes.
pub proof fn lemma_filter_push<A>(s: Seq<A>, pred: spec_fn(A) -> bool, x: A)
    ensures
        s.push(x).filter(pred) == if pred(x) {
            s.filter(pred).push(x)
        } else {
            s.filter(pred)
        },
{
    reveal(Seq::filter);
    assert(s.push(x).drop_last() =~= s);
    assert(s.push(x).last() == x);
}

/// Extending an annotation list by one annotation adds that annotation's
/// markers, and nothing else, to the markers the list carries.
pub proof fn lemma_has_marker_push(s: Seq<Annotation>, a: Annotation)
    ensures
        has_no_eq(s.push(a)) == (has_no_eq(s) || attr_is_no_eq(a)),
        has_do_not_track(s.push(a)) == (has_do_not_track(s) || attr_is_do_not_track(a)),
{
    let t = s.push(a);
    assert(t[s.len() as int] == a);
    assert forall|i: int| 0 <= i < s.len() implies t[i] == s[i] by {}
    if has_no_eq(s) {
        let i = choose|i: int| 0 <= i < s.len() && attr_is_no_eq(#[trigger] s[i]);
        assert(attr_is_no_eq(t[i]));
    }
    if has_no_eq(t) {
        let i = choose|i: int| 0 <= i < t.len() && attr_is_no_eq(#[trigger] t[i]);
        if i < s.len() {
            assert(attr_is_no_eq(s[i]));
        }
    }
    if has_do_not_track(s) {
        let i = choose|i: int| 0 <= i < s.len() && attr_is_do_not_track(#[trigger] s[i]);
        assert(attr_is_do_not_track(t[i]));
    }
    if has_do_not_track(t) {
        let i = choose|i: int| 0 <= i < t.len() && attr_is_do_not_track(#[trigger] t[i]);
        if i < s.len() {
            assert(attr_is_do_not_track(s[i]));
        }
    }
}

/// Law: bit index stability.  The bit index assigned to a tracked field
/// is its ordinal position among tracked fields only: the field at
/// position `p` of the original list, if it is tracked, stands in the
/// tracked field list exactly at position `bit_index_at(fields, p)`,
/// the count of tracked fields before it.  Excluded fields consume no
/// bit and shift no later field's index.
pub proof fn lemma_bit_index_stability(fields: Seq<FieldDescriptor>, p: int)
    requires
        0 <= p < fields.len(),
        !field_excluded(fields[p]),
    ensures
        0 <= bit_index_at(fields, p) < tracked_fields(fields).len(),
        tracked_fields(fields)[bit_index_at(fields, p)] == fields[p],
{
    let pred = |f: FieldDescriptor| !field_excluded(f);
    let pre = fields.take(p);
    let post = fields.skip(p + 1);
    assert(fields =~= pre + seq![fields[p]] + post);
    Seq::<FieldDescriptor>::filter_distributes_over_add(pre + seq![fields[p]], post, pred);
    Seq::<FieldDescriptor>::filter_distributes_over_add(pre, seq![fields[p]], pred);
    lemma_filter_push(Seq::<FieldDescriptor>::empty(), pred, fields[p]);
    assert(Seq::<FieldDescriptor>::empty().push(fields[p]) =~= seq![fields[p]]);
    assert(Seq::<FieldDescriptor>::empty().filter(pred) =~= Seq::<FieldDescriptor>::empty()) by {
        reveal(Seq::filter);
    }
    assert(seq![fields[p]].filter(pred) =~= seq![fields[p]]);
    assert(tracked_fields(fields) =~= tracked_fields(pre) + seq![fields[p]] + tracked_fields(post));
    assert(tracked_fields(fields)[tracked_fields(pre).len() as int] == fields[p]);
}

/// Law: exclusion correctness.  Removing a field marked `do_not_track`
/// from the field list leaves the tracked field list unchanged: such a
/// field consumes no bit, shifts no other field's bit index, and — since
/// the integer width is chosen from the tracked field count alone — does
/// not affect the chosen width.
pub proof fn lemma_excluded_field_invisible(fields: Seq<FieldDescriptor>, p: int)
    requires
        0 <= p < fields.len(),
        field_excluded(fields[p]),
    ensures
        tracked_fields(fields) == tracked_fields(fields.remove(p)),
{
    let pred = |f: FieldDescriptor| !field_excluded(f);
    let pre = fields.take(p);
    let post = fields.skip(p + 1);
    assert(fields =~= pre + seq![fields[p]] + post);
    assert(fields.remove(p) =~= pre + post);
    Seq::<FieldDescriptor>::filter_distributes_over_add(pre + seq![fields[p]], post, pred);
    Seq::<FieldDescriptor>::filter_distributes_over_add(pre, seq![fields[p]], pred);
    Seq::<FieldDescriptor>::filter_distributes_over_add(pre, post, pred);
    lemma_filter_push(Seq::<FieldDescriptor>::empty(), pred, fields[p]);
    assert(Seq::<FieldDescriptor>::empty().push(fields[p]) =~= seq![fields[p]]);
    assert(Seq::<FieldDescriptor>::empty().filter(pred) =~= Seq::<FieldDescriptor>::empty()) by {
        reveal(Seq::filter);
    }
    assert(seq![fields[p]].filter(pred) =~= Seq::<FieldDescriptor>::empty());
    assert(tracked_fields(fields) =~= tracked_fields(pre) + tracked_fields(post));
    assert(tracked_fields(fields.remove(p)) =~= tracked_fields(pre) + tracked_fields(post));
}

} // verus!
