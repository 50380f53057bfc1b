//! Structure Rewriter: re-emits the structure definition with the
//! bitmask field appended, followed by one implementation block carrying
//! every synthesized method.
//!
//! The implementation block is parameterized over the structure's full
//! generic-parameter list with default values stripped (defaults are
//! legal on a type definition but not on an implementation-block header)
//! and carries parameter names only in the type's argument list; the
//! original where-clause is reattached to both.

use vstd::prelude::*;
use crate::attrs::{annotation_is_do_not_track, annotation_is_no_eq, field_is_excluded};
use crate::descriptor::{
    attr_is_marker, field_excluded, lemma_filter_push, scanned_attrs, tracked_fields, Annotation,
    FieldDescriptor, GenericParamDesc, StructDescriptor, StructFields,
};
use crate::error::TrackError;
use crate::synth::{render_methods, render_methods_exec, render_struct_methods, render_struct_methods_exec};
use crate::width::{tracker_type, width_for, IntWidth};

verus! {

/// The path of an annotation, segments joined by `::`.
pub open spec fn path_seq(segments: Seq<String>) -> Seq<char>
    decreases segments.len(),
{
    if segments.len() == 0 {
        Seq::<char>::empty()
    } else if segments.len() == 1 {
        segments[0]@
    } else {
        path_seq(segments.drop_last()) + "::"@ + segments.last()@
    }
}

/// One annotation as source text.
pub open spec fn render_attr(a: Annotation) -> Seq<char> {
    "#["@ + path_seq(a.segments@) + a.args@ + "]"@
}

/// A list of annotations, one per line, each behind the given indent.
pub open spec fn render_attr_lines(attrs: Seq<Annotation>, indent: Seq<char>) -> Seq<char>
    decreases attrs.len(),
{
    if attrs.len() == 0 {
        Seq::<char>::empty()
    } else {
        render_attr_lines(attrs.drop_last(), indent) + indent + render_attr(attrs.last()) + "\n"@
    }
}

/// One field as re-emitted into the structure definition: its remaining
/// annotations (the two control markers stripped), then its declaration.
pub open spec fn render_field_decl(f: FieldDescriptor) -> Seq<char> {
    render_attr_lines(scanned_attrs(f.attrs@), "    "@) + "    "@ + f.vis@ + f.name@ + ": "@ + f.ty@
        + ",\n"@
}

/// All original fields, in original order.
pub open spec fn render_fields(fields: Seq<FieldDescriptor>) -> Seq<char>
    decreases fields.len(),
{
    if fields.len() == 0 {
        Seq::<char>::empty()
    } else {
        render_fields(fields.drop_last()) + render_field_decl(fields.last())
    }
}

/// One generic parameter as declared; default values are kept only for
/// the structure definition itself, never for the implementation-block
/// header.
pub open spec fn render_param_decl(p: GenericParamDesc, keep_defaults: bool) -> Seq<char> {
    match p {
        GenericParamDesc::Lifetime { name, bounds } => name@ + bounds@,
        GenericParamDesc::Type { name, bounds, default_ty } => name@ + bounds@ + (
        if keep_defaults && default_ty@.len() > 0 {
            " = "@ + default_ty@
        } else {
            Seq::<char>::empty()
        }),
        GenericParamDesc::Const { name, ty, default_val } => "const "@ + name@ + ": "@ + ty@ + (
        if keep_defaults && default_val@.len() > 0 {
            " = "@ + default_val@
        } else {
            Seq::<char>::empty()
        }),
    }
}

/// The generic parameter declarations, joined by commas.
pub open spec fn render_params(ps: Seq<GenericParamDesc>, keep_defaults: bool) -> Seq<char>
    decreases ps.len(),
{
    if ps.len() == 0 {
        Seq::<char>::empty()
    } else if ps.len() == 1 {
        render_param_decl(ps[0], keep_defaults)
    } else {
        render_params(ps.drop_last(), keep_defaults) + ", "@ + render_param_decl(
            ps.last(),
            keep_defaults,
        )
    }
}

/// The angle-bracketed generic parameter list, or nothing when the
/// structure has no generic parameters.
pub open spec fn render_generics(ps: Seq<GenericParamDesc>, keep_defaults: bool) -> Seq<char> {
    if ps.len() == 0 {
        Seq::<char>::empty()
    } else {
        "<"@ + render_params(ps, keep_defaults) + ">"@
    }
}

/// The bare name of a generic parameter.
pub open spec fn param_name(p: GenericParamDesc) -> Seq<char> {
    match p {
        GenericParamDesc::Lifetime { name, .. } => name@,
        GenericParamDesc::Type { name, .. } => name@,
        GenericParamDesc::Const { name, .. } => name@,
    }
}

/// The generic parameter names, joined by commas.
pub open spec fn render_arg_names(ps: Seq<GenericParamDesc>) -> Seq<char>
    decreases ps.len(),
{
    if ps.len() == 0 {
        Seq::<char>::empty()
    } else if ps.len() == 1 {
        param_name(ps[0])
    } else {
        render_arg_names(ps.drop_last()) + ", "@ + param_name(ps.last())
    }
}

/// The angle-bracketed argument list of the implementation block's type:
/// parameter names only, never bounds or default bindings.
pub open spec fn render_generic_args(ps: Seq<GenericParamDesc>) -> Seq<char> {
    if ps.len() == 0 {
        Seq::<char>::empty()
    } else {
        "<"@ + render_arg_names(ps) + ">"@
    }
}

/// The where-clause, behind one space, or nothing.
pub open spec fn render_where(wc: Seq<char>) -> Seq<char> {
    if wc.len() == 0 {
        Seq::<char>::empty()
    } else {
        " "@ + wc
    }
}

/// The named fields of the structure.
pub open spec fn fields_of(item: StructDescriptor) -> Seq<FieldDescriptor> {
    item.fields->Named_0@
}

/// The integer width chosen for the structure: the smallest that covers
/// its tracked field count.
pub open spec fn chosen_width(item: StructDescriptor) -> IntWidth {
    width_for(tracked_fields(fields_of(item)).len())
}

/// The re-emitted structure definition: its own annotations and header
/// unchanged, all original fields in original order with the control
/// markers stripped, and the bitmask field appended.
pub open spec fn render_struct_def(item: StructDescriptor, w: IntWidth) -> Seq<char> {
    render_attr_lines(item.attrs@, ""@) + item.vis@ + "struct "@ + item.name@ + render_generics(
        item.generics@,
        true,
    ) + render_where(item.where_clause@) + " {\n"@ + render_fields(fields_of(item))
        + "    tracker: "@ + w.spec_name() + ",\n}\n"@
}

/// The implementation block carrying all synthesized methods.
pub open spec fn render_impl(item: StructDescriptor, w: IntWidth) -> Seq<char> {
    "impl"@ + render_generics(item.generics@, false) + " "@ + item.name@ + render_generic_args(
        item.generics@,
    ) + render_where(item.where_clause@) + " {\n"@ + render_methods(
        tracked_fields(fields_of(item)),
        w,
    ) + render_struct_methods(item.vis@, w) + "}\n"@
}

/// The whole emitted text: the rewritten structure definition, a blank
/// line, and the implementation block.
pub open spec fn track_output(item: StructDescriptor) -> Seq<char>
    recommends
        item.fields is Named,
        tracked_fields(fields_of(item)).len() <= 128,
{
    render_struct_def(item, chosen_width(item)) + "\n"@ + render_impl(item, chosen_width(item))
}

fn render_path_exec(segments: &Vec<String>) -> (r: String)
    ensures
        r@ == path_seq(segments@),
{
    let mut s = String::new();
    let mut i: usize = 0;
    while i < segments.len()
        invariant
            i <= segments@.len(),
            s@ == path_seq(segments@.take(i as int)),
        decreases segments@.len() - i,
    {
        proof {
            assert(segments@.take(i as int + 1).drop_last() =~= segments@.take(i as int));
            assert(segments@.take(i as int + 1).last() == segments@[i as int]);
        }
        if i > 0 {
            s.append("::");
        }
        s.append(segments[i].as_str());
        proof {
            assert(s@ =~= path_seq(segments@.take(i as int + 1)));
        }
        i += 1;
    }
    proof {
        assert(segments@.take(segments@.len() as int) =~= segments@);
    }
    s
}

fn render_attr_exec(a: &Annotation) -> (r: String)
    ensures
        r@ == render_attr(*a),
{
    let mut s: String = "#[".to_owned();
    let path = render_path_exec(&a.segments);
    s.append(path.as_str());
    s.append(a.args.as_str());
    s.append("]");
    s
}

/// Renders a whole annotation list, one annotation per line behind the
/// given indent; used for the structure's own annotations, which pass
/// through unfiltered.
fn render_attr_lines_exec(attrs: &Vec<Annotation>, indent: &str) -> (r: String)
    ensures
        r@ == render_attr_lines(attrs@, indent@),
{
    let mut s = String::new();
    let mut i: usize = 0;
    while i < attrs.len()
        invariant
            i <= attrs@.len(),
            s@ == render_attr_lines(attrs@.take(i as int), indent@),
        decreases attrs@.len() - i,
    {
        proof {
            assert(attrs@.take(i as int + 1).drop_last() =~= attrs@.take(i as int));
            assert(attrs@.take(i as int + 1).last() == attrs@[i as int]);
        }
        s.append(indent);
        let one = render_attr_exec(&attrs[i]);
        s.append(one.as_str());
        s.append("\n");
        i += 1;
    }
    proof {
        assert(attrs@.take(attrs@.len() as int) =~= attrs@);
    }
    s
}

/// Renders a field's annotation list with the two control markers left
/// out, as the Attribute Scanner strips them.
fn render_scanned_attr_lines_exec(attrs: &Vec<Annotation>) -> (r: String)
    ensures
        r@ == render_attr_lines(scanned_attrs(attrs@), "    "@),
{
    let mut s = String::new();
    let mut i: usize = 0;
    while i < attrs.len()
        invariant
            i <= attrs@.len(),
            s@ == render_attr_lines(scanned_attrs(attrs@.take(i as int)), "    "@),
        decreases attrs@.len() - i,
    {
        proof {
            assert(attrs@.take(i as int + 1).drop_last() =~= attrs@.take(i as int));
            assert(attrs@.take(i as int + 1) =~= attrs@.take(i as int).push(attrs@[i as int]));
            lemma_filter_push(
                attrs@.take(i as int),
                |x: Annotation| !attr_is_marker(x),
                attrs@[i as int],
            );
        }
        let a = &attrs[i];
        let marker = annotation_is_no_eq(a) || annotation_is_do_not_track(a);
        if !marker {
            s.append("    ");
            let one = render_attr_exec(a);
            s.append(one.as_str());
            s.append("\n");
            proof {
                let scanned_next = scanned_attrs(attrs@.take(i as int + 1));
                assert(scanned_next.drop_last() =~= scanned_attrs(attrs@.take(i as int)));
                assert(scanned_next.last() == attrs@[i as int]);
            }
        }
        i += 1;
    }
    proof {
        assert(attrs@.take(attrs@.len() as int) =~= attrs@);
    }
    s
}

/// Renders one field's re-emitted declaration.
fn render_field_decl_exec(f: &FieldDescriptor) -> (r: String)
    ensures
        r@ == render_field_decl(*f),
{
    let mut s = render_scanned_attr_lines_exec(&f.attrs);
    s.append("    ");
    s.append(f.vis.as_str());
    s.append(f.name.as_str());
    s.append(": ");
    s.append(f.ty.as_str());
    s.append(",\n");
    s
}

fn render_param_decl_exec(p: &GenericParamDesc, keep_defaults: bool) -> (r: String)
    ensures
        r@ == render_param_decl(*p, keep_defaults),
{
    match p {
        GenericParamDesc::Lifetime { name, bounds } => {
            let mut s = name.clone();
            s.append(bounds.as_str());
            s
        },
        GenericParamDesc::Type { name, bounds, default_ty } => {
            let mut s = name.clone();
            s.append(bounds.as_str());
            if keep_defaults && !default_ty.as_str().is_empty() {
                s.append(" = ");
                s.append(default_ty.as_str());
            }
            proof {
                assert(s@ =~= render_param_decl(*p, keep_defaults));
            }
            s
        },
        GenericParamDesc::Const { name, ty, default_val } => {
            let mut s: String = "const ".to_owned();
            s.append(name.as_str());
            s.append(": ");
            s.append(ty.as_str());
            if keep_defaults && !default_val.as_str().is_empty() {
                s.append(" = ");
                s.append(default_val.as_str());
            }
            proof {
                assert(s@ =~= render_param_decl(*p, keep_defaults));
            }
            s
        },
    }
}

fn render_generics_exec(ps: &Vec<GenericParamDesc>, keep_defaults: bool) -> (r: String)
    ensures
        r@ == render_generics(ps@, keep_defaults),
{
    if ps.len() == 0 {
        let s = String::new();
        proof {
            assert(s@ =~= render_generics(ps@, keep_defaults));
        }
        return s;
    }
    let mut s: String = "<".to_owned();
    let mut i: usize = 0;
    while i < ps.len()
        invariant
            i <= ps@.len(),
            s@ == "<"@ + render_params(ps@.take(i as int), keep_defaults),
        decreases ps@.len() - i,
    {
        proof {
            assert(ps@.take(i as int + 1).drop_last() =~= ps@.take(i as int));
            assert(ps@.take(i as int + 1).last() == ps@[i as int]);
            assert(ps@.take(1int)[0] == ps@[0]);
        }
        if i > 0 {
            s.append(", ");
        }
        let one = render_param_decl_exec(&ps[i], keep_defaults);
        s.append(one.as_str());
        proof {
            assert(s@ =~= "<"@ + render_params(ps@.take(i as int + 1), keep_defaults));
        }
        i += 1;
    }
    s.append(">");
    proof {
        assert(ps@.take(ps@.len() as int) =~= ps@);
        assert(s@ =~= render_generics(ps@, keep_defaults));
    }
    s
}

fn param_name_exec(p: &GenericParamDesc) -> (r: &str)
    ensures
        r@ == param_name(*p),
{
    match p {
        GenericParamDesc::Lifetime { name, .. } => name.as_str(),
        GenericParamDesc::Type { name, .. } => name.as_str(),
        GenericParamDesc::Const { name, .. } => name.as_str(),
    }
}

fn render_generic_args_exec(ps: &Vec<GenericParamDesc>) -> (r: String)
    ensures
        r@ == render_generic_args(ps@),
{
    if ps.len() == 0 {
        let s = String::new();
        proof {
            assert(s@ =~= render_generic_args(ps@));
        }
        return s;
    }
    let mut s: String = "<".to_owned();
    let mut i: usize = 0;
    while i < ps.len()
        invariant
            i <= ps@.len(),
            s@ == "<"@ + render_arg_names(ps@.take(i as int)),
        decreases ps@.len() - i,
    {
        proof {
            assert(ps@.take(i as int + 1).drop_last() =~= ps@.take(i as int));
            assert(ps@.take(i as int + 1).last() == ps@[i as int]);
            assert(ps@.take(1int)[0] == ps@[0]);
        }
        if i > 0 {
            s.append(", ");
        }
        s.append(param_name_exec(&ps[i]));
        proof {
            assert(s@ =~= "<"@ + render_arg_names(ps@.take(i as int + 1)));
        }
        i += 1;
    }
    s.append(">");
    proof {
        assert(ps@.take(ps@.len() as int) =~= ps@);
        assert(s@ =~= render_generic_args(ps@));
    }
    s
}

/// Walks the field list once: renders every field's re-emitted
/// declaration, and keeps the tracked fields, in order.
fn split_fields(fs: Vec<FieldDescriptor>) -> (r: (String, Vec<FieldDescriptor>))
    ensures
        r.0@ == render_fields(fs@),
        r.1@ == tracked_fields(fs@),
{
    let ghost orig_fs = fs@;
    let n_fields: usize = fs.len();
    let mut rest = fs;
    let mut fields_text = String::new();
    let mut tracked_list: Vec<FieldDescriptor> = Vec::new();
    let mut k: usize = 0;
    while rest.len() > 0
        invariant
            rest@ == orig_fs.skip(k as int),
            orig_fs.len() == n_fields,
            k <= orig_fs.len(),
            fields_text@ == render_fields(orig_fs.take(k as int)),
            tracked_list@ == tracked_fields(orig_fs.take(k as int)),
        decreases rest@.len(),
    {
        proof {
            assert(orig_fs.skip(k as int)[0] == orig_fs[k as int]);
            assert(orig_fs.skip(k as int).remove(0) =~= orig_fs.skip(k as int + 1));
            assert(orig_fs.take(k as int + 1).drop_last() =~= orig_fs.take(k as int));
            assert(orig_fs.take(k as int + 1) =~= orig_fs.take(k as int).push(orig_fs[k as int]));
            lemma_filter_push(
                orig_fs.take(k as int),
                |f: FieldDescriptor| !field_excluded(f),
                orig_fs[k as int],
            );
        }
        let f = rest.remove(0);
        let decl = render_field_decl_exec(&f);
        fields_text.append(decl.as_str());
        if !field_is_excluded(&f) {
            tracked_list.push(f);
        }
        k += 1;
    }
    proof {
        assert(orig_fs.take(k as int) =~= orig_fs);
    }
    (fields_text, tracked_list)
}

/// Renders the where-clause part of a header: the clause behind one
/// space, or nothing.
fn render_where_exec(wc: &String) -> (r: String)
    ensures
        r@ == render_where(wc@),
{
    if wc.as_str().is_empty() {
        let s = String::new();
        proof {
            assert(s@ =~= render_where(wc@));
        }
        s
    } else {
        let mut s: String = " ".to_owned();
        s.append(wc.as_str());
        s
    }
}

/// Concatenates the rendered parts into the rewritten structure
/// definition.
fn assemble_struct_def(
    attrs_text: &String,
    vis: &String,
    name: &String,
    generics_decl: &String,
    where_text: &String,
    fields_text: &String,
    w: IntWidth,
    Ghost(item): Ghost<StructDescriptor>,
) -> (r: String)
    requires
        attrs_text@ == render_attr_lines(item.attrs@, ""@),
        vis@ == item.vis@,
        name@ == item.name@,
        generics_decl@ == render_generics(item.generics@, true),
        where_text@ == render_where(item.where_clause@),
        fields_text@ == render_fields(fields_of(item)),
    ensures
        r@ == render_struct_def(item, w),
{
    let mut out = attrs_text.clone();
    out.append(vis.as_str());
    out.append("struct ");
    out.append(name.as_str());
    out.append(generics_decl.as_str());
    out.append(where_text.as_str());
    out.append(" {\n");
    out.append(fields_text.as_str());
    out.append("    tracker: ");
    out.append(w.name());
    out.append(",\n}\n");
    out
}

/// Concatenates the rendered parts into the implementation block.
fn assemble_impl(
    vis: &String,
    name: &String,
    impl_generics: &String,
    generic_args: &String,
    where_text: &String,
    methods: &String,
    w: IntWidth,
    Ghost(item): Ghost<StructDescriptor>,
) -> (r: String)
    requires
        vis@ == item.vis@,
        name@ == item.name@,
        impl_generics@ == render_generics(item.generics@, false),
        generic_args@ == render_generic_args(item.generics@),
        where_text@ == render_where(item.where_clause@),
        methods@ == render_methods(tracked_fields(fields_of(item)), w),
    ensures
        r@ == render_impl(item, w),
{
    let mut out: String = "impl".to_owned();
    out.append(impl_generics.as_str());
    out.append(" ");
    out.append(name.as_str());
    out.append(generic_args.as_str());
    out.append(where_text.as_str());
    out.append(" {\n");
    out.append(methods.as_str());
    let struct_methods = render_struct_methods_exec(vis, w);
    out.append(struct_methods.as_str());
    out.append("}\n");
    out
}

/// Processes one annotated structure definition: scans every field's
/// annotations, assigns bit indices, selects the bitmask width, and
/// emits the rewritten structure definition together with the
/// implementation block of all synthesized methods.
///
/// `args` is the argument text handed to the entry annotation, which
/// accepts none: any argument is a usage error.  A structure whose
/// fields are not in named form, or with more than 128 tracked fields,
/// is rejected; there is no partial output.
pub fn track(args: &str, item: StructDescriptor) -> (r: Result<String, TrackError>)
    ensures
        args@.len() != 0 ==> r == Err::<String, TrackError>(TrackError::UnexpectedArguments),
        args@.len() == 0 && !(item.fields is Named) ==> r == Err::<String, TrackError>(
            TrackError::NotNamedFields,
        ),
        args@.len() == 0 && item.fields is Named && tracked_fields(fields_of(item)).len() > 128
            ==> r == Err::<String, TrackError>(TrackError::TooManyTrackedFields),
        args@.len() == 0 && item.fields is Named && tracked_fields(fields_of(item)).len() <= 128
            ==> (r matches Ok(out) && out@ == track_output(item)),
{
    if !args.is_empty() {
        return Err(TrackError::UnexpectedArguments);
    }
    let StructDescriptor { name, vis, attrs, generics, where_clause, fields } = item;
    let fs = match fields {
        StructFields::Named(fs) => fs,
        StructFields::Tuple => {
            return Err(TrackError::NotNamedFields);
        },
        StructFields::Unit => {
            return Err(TrackError::NotNamedFields);
        },
    };
    let (fields_text, tracked_list) = split_fields(fs);
    let w = match tracker_type(tracked_list.len()) {
        Ok(w) => w,
        Err(e) => {
            return Err(e);
        },
    };
    let methods = render_methods_exec(&tracked_list, w);
    let generics_decl = render_generics_exec(&generics, true);
    let impl_generics = render_generics_exec(&generics, false);
    let generic_args = render_generic_args_exec(&generics);
    let attrs_text = render_attr_lines_exec(&attrs, "");
    let where_text = render_where_exec(&where_clause);
    let mut out = assemble_struct_def(
        &attrs_text,
        &vis,
        &name,
        &generics_decl,
        &where_text,
        &fields_text,
        w,
        Ghost(item),
    );
    out.append("\n");
    let impl_text = assemble_impl(
        &vis,
        &name,
        &impl_generics,
        &generic_args,
        &where_text,
        &methods,
        w,
        Ghost(item),
    );
    out.append(impl_text.as_str());
    Ok(out)
}

} // verus!
