//! Method Synthesizer: the source text of the generated methods.
//!
//! For every tracked field the synthesizer emits a read accessor, a
//! mutable accessor that marks the field changed, a closure-based
//! updater, a per-field change query, an associated bit-mask accessor,
//! and a setter whose marking is gated on equality unless the field is
//! marked `no_eq`.  For the structure as a whole it emits the all-fields
//! mask accessor, mark-all, the masked and the any-change queries, and
//! reset.  Each spec function below is the template of one emitted
//! method; the executable functions produce exactly that text.

use vstd::prelude::*;
use crate::attrs::field_uses_no_eq;
use crate::descriptor::{field_no_eq, FieldDescriptor};
use crate::numerals::{dec_seq, dec_string};
use crate::width::IntWidth;

verus! {

/// The read accessor: returns an immutable reference, never marks.
pub open spec fn render_get(f: FieldDescriptor) -> Seq<char> {
    "    "@ + f.vis@ + "fn get_"@ + f.name@ + "(&self) -> &"@ + f.ty@ + " {\n        &self."@
        + f.name@ + "\n    }\n"@
}

/// The mutable accessor: marks the field changed unconditionally, then
/// returns a mutable reference.
pub open spec fn render_get_mut(f: FieldDescriptor) -> Seq<char> {
    "    "@ + f.vis@ + "fn get_mut_"@ + f.name@ + "(&mut self) -> &mut "@ + f.ty@
        + " {\n        self.tracker |= Self::"@ + f.name@ + "();\n        &mut self."@ + f.name@
        + "\n    }\n"@
}

/// The closure-based updater: marks the field changed unconditionally,
/// then applies the caller's closure to the field.
pub open spec fn render_update(f: FieldDescriptor) -> Seq<char> {
    "    "@ + f.vis@ + "fn update_"@ + f.name@ + "<F: FnOnce(&mut "@ + f.ty@
        + ")>(&mut self, f: F) {\n        self.tracker |= Self::"@ + f.name@
        + "();\n        f(&mut self."@ + f.name@ + ");\n    }\n"@
}

/// The per-field change query: the masked query under this field's bit.
pub open spec fn render_changed(f: FieldDescriptor) -> Seq<char> {
    "    "@ + f.vis@ + "fn changed_"@ + f.name@ + "(&self) -> bool {\n        self.changed(Self::"@
        + f.name@ + "())\n    }\n"@
}

/// The associated bit-mask accessor: one shifted bit at the field's bit
/// index.
pub open spec fn render_bit_accessor(f: FieldDescriptor, bit: nat, w: IntWidth) -> Seq<char> {
    "    "@ + f.vis@ + "fn "@ + f.name@ + "() -> "@ + w.spec_name() + " {\n        1 << "@
        + dec_seq(bit) + "\n    }\n"@
}

/// The setter.  With `no_eq` it marks the field changed and overwrites
/// unconditionally; otherwise it marks only when the new value differs
/// from the stored one, and overwrites either way.
pub open spec fn render_set(f: FieldDescriptor) -> Seq<char> {
    if field_no_eq(f) {
        "    "@ + f.vis@ + "fn set_"@ + f.name@ + "(&mut self, value: "@ + f.ty@
            + ") {\n        self.tracker |= Self::"@ + f.name@ + "();\n        self."@ + f.name@
            + " = value;\n    }\n"@
    } else {
        "    "@ + f.vis@ + "fn set_"@ + f.name@ + "(&mut self, value: "@ + f.ty@
            + ") {\n        if self."@ + f.name@ + " != value {\n            self.tracker |= Self::"@
            + f.name@ + "();\n        }\n        self."@ + f.name@ + " = value;\n    }\n"@
    }
}

/// All methods of one tracked field, in emission order.
pub open spec fn render_field_methods(f: FieldDescriptor, bit: nat, w: IntWidth) -> Seq<char> {
    render_get(f) + render_get_mut(f) + render_update(f) + render_changed(f) + render_bit_accessor(
        f,
        bit,
        w,
    ) + render_set(f)
}

/// The methods of all tracked fields: the field at position `i` of the
/// tracked field list gets bit index `i`.
pub open spec fn render_methods(tfs: Seq<FieldDescriptor>, w: IntWidth) -> Seq<char>
    decreases tfs.len(),
{
    if tfs.len() == 0 {
        Seq::<char>::empty()
    } else {
        render_methods(tfs.drop_last(), w) + render_field_methods(
            tfs.last(),
            (tfs.len() - 1) as nat,
            w,
        )
    }
}

/// The structure-level methods: all-fields mask, mark-all, masked query,
/// any-change query, reset.
pub open spec fn render_struct_methods(vis: Seq<char>, w: IntWidth) -> Seq<char> {
    "    "@ + vis + "fn track_all() -> "@ + w.spec_name() + " {\n        "@ + w.spec_name()
        + "::MAX\n    }\n"@ + "    "@ + vis + "fn mark_all_changed(&mut self) {\n        self.tracker = "@
        + w.spec_name() + "::MAX;\n    }\n"@ + "    "@ + vis + "fn changed(&self, mask: "@
        + w.spec_name() + ") -> bool {\n        self.tracker & mask != 0\n    }\n"@ + "    "@ + vis
        + "fn changed_any(&self) -> bool {\n        self.tracker != 0\n    }\n"@ + "    "@ + vis
        + "fn reset(&mut self) {\n        self.tracker = 0;\n    }\n"@
}

fn render_get_exec(f: &FieldDescriptor) -> (r: String)
    ensures
        r@ == render_get(*f),
{
    let mut s: String = "    ".to_owned();
    s.append(f.vis.as_str());
    s.append("fn get_");
    s.append(f.name.as_str());
    s.append("(&self) -> &");
    s.append(f.ty.as_str());
    s.append(" {\n        &self.");
    s.append(f.name.as_str());
    s.append("\n    }\n");
    s
}

fn render_get_mut_exec(f: &FieldDescriptor) -> (r: String)
    ensures
        r@ == render_get_mut(*f),
{
    let mut s: String = "    ".to_owned();
    s.append(f.vis.as_str());
    s.append("fn get_mut_");
    s.append(f.name.as_str());
    s.append("(&mut self) -> &mut ");
    s.append(f.ty.as_str());
    s.append(" {\n        self.tracker |= Self::");
    s.append(f.name.as_str());
    s.append("();\n        &mut self.");
    s.append(f.name.as_str());
    s.append("\n    }\n");
    s
}

fn render_update_exec(f: &FieldDescriptor) -> (r: String)
    ensures
        r@ == render_update(*f),
{
    let mut s: String = "    ".to_owned();
    s.append(f.vis.as_str());
    s.append("fn update_");
    s.append(f.name.as_str());
    s.append("<F: FnOnce(&mut ");
    s.append(f.ty.as_str());
    s.append(")>(&mut self, f: F) {\n        self.tracker |= Self::");
    s.append(f.name.as_str());
    s.append("();\n        f(&mut self.");
    s.append(f.name.as_str());
    s.append(");\n    }\n");
    s
}

fn render_changed_exec(f: &FieldDescriptor) -> (r: String)
    ensures
        r@ == render_changed(*f),
{
    let mut s: String = "    ".to_owned();
    s.append(f.vis.as_str());
    s.append("fn changed_");
    s.append(f.name.as_str());
    s.append("(&self) -> bool {\n        self.changed(Self::");
    s.append(f.name.as_str());
    s.append("())\n    }\n");
    s
}

fn render_bit_accessor_exec(f: &FieldDescriptor, bit: usize, w: IntWidth) -> (r: String)
    ensures
        r@ == render_bit_accessor(*f, bit as nat, w),
{
    let mut s: String = "    ".to_owned();
    s.append(f.vis.as_str());
    s.append("fn ");
    s.append(f.name.as_str());
    s.append("() -> ");
    s.append(w.name());
    s.append(" {\n        1 << ");
    let numeral = dec_string(bit);
    s.append(numeral.as_str());
    s.append("\n    }\n");
    s
}

fn render_set_exec(f: &FieldDescriptor) -> (r: String)
    ensures
        r@ == render_set(*f),
{
    let mut s: String = "    ".to_owned();
    s.append(f.vis.as_str());
    s.append("fn set_");
    s.append(f.name.as_str());
    s.append("(&mut self, value: ");
    s.append(f.ty.as_str());
    if field_uses_no_eq(f) {
        s.append(") {\n        self.tracker |= Self::");
        s.append(f.name.as_str());
        s.append("();\n        self.");
        s.append(f.name.as_str());
        s.append(" = value;\n    }\n");
    } else {
        s.append(") {\n        if self.");
        s.append(f.name.as_str());
        s.append(" != value {\n            self.tracker |= Self::");
        s.append(f.name.as_str());
        s.append("();\n        }\n        self.");
        s.append(f.name.as_str());
        s.append(" = value;\n    }\n");
    }
    s
}

/// Renders all methods of one tracked field at the given bit index.
pub fn render_field_methods_exec(f: &FieldDescriptor, bit: usize, w: IntWidth) -> (r: String)
    ensures
        r@ == render_field_methods(*f, bit as nat, w),
{
    let mut s = render_get_exec(f);
    let part = render_get_mut_exec(f);
    s.append(part.as_str());
    let part = render_update_exec(f);
    s.append(part.as_str());
    let part = render_changed_exec(f);
    s.append(part.as_str());
    let part = render_bit_accessor_exec(f, bit, w);
    s.append(part.as_str());
    let part = render_set_exec(f);
    s.append(part.as_str());
    s
}

/// Renders the methods of all tracked fields, assigning the field at
/// position `i` of the tracked field list bit index `i`.
pub fn render_methods_exec(tfs: &Vec<FieldDescriptor>, w: IntWidth) -> (r: String)
    ensures
        r@ == render_methods(tfs@, w),
{
    let mut s = String::new();
    let mut i: usize = 0;
    while i < tfs.len()
        invariant
            i <= tfs@.len(),
            s@ == render_methods(tfs@.take(i as int), w),
        decreases tfs@.len() - i,
    {
        let part = render_field_methods_exec(&tfs[i], i, w);
        s.append(part.as_str());
        proof {
            assert(tfs@.take(i as int + 1).drop_last() =~= tfs@.take(i as int));
            assert(tfs@.take(i as int + 1).last() == tfs@[i as int]);
        }
        i += 1;
    }
    proof {
        assert(tfs@.take(tfs@.len() as int) =~= tfs@);
    }
    s
}

/// Renders the structure-level methods with the structure's own
/// visibility.
pub fn render_struct_methods_exec(vis: &String, w: IntWidth) -> (r: String)
    ensures
        r@ == render_struct_methods(vis@, w),
{
    let mut s: String = "    ".to_owned();
    s.append(vis.as_str());
    s.append("fn track_all() -> ");
    s.append(w.name());
    s.append(" {\n        ");
    s.append(w.name());
    s.append("::MAX\n    }\n");
    s.append("    ");
    s.append(vis.as_str());
    s.append("fn mark_all_changed(&mut self) {\n        self.tracker = ");
    s.append(w.name());
    s.append("::MAX;\n    }\n");
    s.append("    ");
    s.append(vis.as_str());
    s.append("fn changed(&self, mask: ");
    s.append(w.name());
    s.append(") -> bool {\n        self.tracker & mask != 0\n    }\n");
    s.append("    ");
    s.append(vis.as_str());
    s.append("fn changed_any(&self) -> bool {\n        self.tracker != 0\n    }\n");
    s.append("    ");
    s.append(vis.as_str());
    s.append("fn reset(&mut self) {\n        self.tracker = 0;\n    }\n");
    proof {
        assert(s@ =~= render_struct_methods(vis@, w));
    }
    s
}

} // verus!
