//! Attribute Scanner: recognition and removal of the two field-level
//! control markers.
//!
//! A marker is spelled either short (`no_eq`, `do_not_track`) or
//! namespaced (`tracker::no_eq`, `tracker::do_not_track`).  Both
//! spellings set the same flag, duplicates are harmless, and every
//! recognized marker is stripped from the annotation list so that it does
//! not leak into the emitted field; all other annotations pass through
//! unchanged, in original order.

use vstd::prelude::*;
use crate::descriptor::{
    attr_is_do_not_track, attr_is_marker, attr_is_no_eq, field_excluded, field_no_eq, has_do_not_track,
    has_no_eq, is_marker_path, lemma_filter_push, lemma_has_marker_push, scanned_attrs, Annotation,
    FieldDescriptor,
};

verus! {

/// The two marker names differ.
proof fn lemma_markers_distinct()
    ensures
        "no_eq"@ != "do_not_track"@,
{
    reveal_strlit("no_eq");
    reveal_strlit("do_not_track");
    assert("no_eq"@.len() == 5);
    assert("do_not_track"@.len() == 12);
}

/// Whether the annotation's path spells the given marker name, short or
/// namespaced under `tracker`.
fn attr_matches(a: &Annotation, marker: &String) -> (r: bool)
    ensures
        r == is_marker_path(a.segments@, marker@),
{
    let n: usize = a.segments.len();
    if n == 1 {
        a.segments[0] == *marker
    } else if n == 2 {
        let namespace: String = "tracker".to_owned();
        a.segments[0] == namespace && a.segments[1] == *marker
    } else {
        false
    }
}

/// Whether this annotation is the `no_eq` marker, in either spelling.
pub fn annotation_is_no_eq(a: &Annotation) -> (r: bool)
    ensures
        r == attr_is_no_eq(*a),
{
    let marker: String = "no_eq".to_owned();
    attr_matches(a, &marker)
}

/// Whether this annotation is the `do_not_track` marker, in either
/// spelling.
pub fn annotation_is_do_not_track(a: &Annotation) -> (r: bool)
    ensures
        r == attr_is_do_not_track(*a),
{
    let marker: String = "do_not_track".to_owned();
    attr_matches(a, &marker)
}

/// Whether the field carries the `do_not_track` marker and is excluded
/// from tracking.
pub fn field_is_excluded(f: &FieldDescriptor) -> (r: bool)
    ensures
        r == field_excluded(*f),
{
    let mut i: usize = 0;
    let mut found = false;
    while i < f.attrs.len()
        invariant
            i <= f.attrs@.len(),
            found == (exists|j: int|
                0 <= j < i && attr_is_do_not_track(#[trigger] f.attrs@[j])),
        decreases f.attrs@.len() - i,
    {
        if annotation_is_do_not_track(&f.attrs[i]) {
            found = true;
        }
        i += 1;
    }
    found
}

/// Whether the field carries the `no_eq` marker, so that its setter skips
/// the equality comparison.
pub fn field_uses_no_eq(f: &FieldDescriptor) -> (r: bool)
    ensures
        r == field_no_eq(*f),
{
    let mut i: usize = 0;
    let mut found = false;
    while i < f.attrs.len()
        invariant
            i <= f.attrs@.len(),
            found == (exists|j: int| 0 <= j < i && attr_is_no_eq(#[trigger] f.attrs@[j])),
        decreases f.attrs@.len() - i,
    {
        if annotation_is_no_eq(&f.attrs[i]) {
            found = true;
        }
        i += 1;
    }
    found
}

/// Attribute Scanner: walks a field's annotation list, removes the two
/// recognized control markers in place, and returns the pair of flags
/// `(do_not_track, no_eq)`.  Every other annotation stays, in original
/// order.
pub fn parse_field_attrs(attrs: &mut Vec<Annotation>) -> (flags: (bool, bool))
    ensures
        final(attrs)@ == scanned_attrs(old(attrs)@),
        flags.0 == has_do_not_track(old(attrs)@),
        flags.1 == has_no_eq(old(attrs)@),
{
    let ghost orig = attrs@;
    let original_len: usize = attrs.len();
    let mut kept: Vec<Annotation> = Vec::new();
    let mut do_not_track = false;
    let mut no_eq = false;
    let mut k: usize = 0;
    while attrs.len() > 0
        invariant
            attrs@ == orig.skip(k as int),
            orig.len() == original_len,
            k <= orig.len(),
            kept@ == scanned_attrs(orig.take(k as int)),
            do_not_track == has_do_not_track(orig.take(k as int)),
            no_eq == has_no_eq(orig.take(k as int)),
        decreases attrs@.len(),
    {
        proof {
            assert(orig.skip(k as int)[0] == orig[k as int]);
            assert(orig.skip(k as int).remove(0) =~= orig.skip(k as int + 1));
            assert(orig.take(k as int + 1) =~= orig.take(k as int).push(orig[k as int]));
            lemma_filter_push(
                orig.take(k as int),
                |x: Annotation| !attr_is_marker(x),
                orig[k as int],
            );
            lemma_has_marker_push(orig.take(k as int), orig[k as int]);
            lemma_markers_distinct();
        }
        let a = attrs.remove(0);
        if annotation_is_no_eq(&a) {
            no_eq = true;
        } else if annotation_is_do_not_track(&a) {
            do_not_track = true;
        } else {
            kept.push(a);
        }
        k = k + 1;
    }
    proof {
        assert(orig.skip(k as int).len() == 0);
        assert(orig.take(k as int) =~= orig);
    }
    *attrs = kept;
    (do_not_track, no_eq)
}

} // verus!
