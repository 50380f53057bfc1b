//! Tests of the generation step: width selection, attribute scanning,
//! bit index assignment, and the emitted source text.

use struct_tracker::descriptor::{
    Annotation, FieldDescriptor, GenericParamDesc, StructDescriptor, StructFields,
};
use struct_tracker::{parse_field_attrs, track, tracker_type, IntWidth, TrackError};

fn attr(segments: &[&str], args: &str) -> Annotation {
    Annotation {
        segments: segments.iter().map(|s| String::from(*s)).collect(),
        args: String::from(args),
    }
}

fn field(name: &str, ty: &str) -> FieldDescriptor {
    FieldDescriptor {
        name: String::from(name),
        ty: String::from(ty),
        vis: String::new(),
        attrs: Vec::new(),
    }
}

fn field_with(name: &str, ty: &str, attrs: Vec<Annotation>) -> FieldDescriptor {
    FieldDescriptor {
        name: String::from(name),
        ty: String::from(ty),
        vis: String::new(),
        attrs,
    }
}

fn plain_struct(name: &str, fields: Vec<FieldDescriptor>) -> StructDescriptor {
    StructDescriptor {
        name: String::from(name),
        vis: String::new(),
        attrs: Vec::new(),
        generics: Vec::new(),
        where_clause: String::new(),
        fields: StructFields::Named(fields),
    }
}

#[test]
fn width_buckets() {
    for n in 0..=128usize {
        let expected = if n <= 8 {
            8
        } else if n <= 16 {
            16
        } else if n <= 32 {
            32
        } else if n <= 64 {
            64
        } else {
            128
        };
        let w = tracker_type(n).unwrap();
        assert_eq!(w.bits(), expected);
    }
}

#[test]
fn width_rejects_over_128() {
    for n in 129..=200usize {
        assert_eq!(tracker_type(n), Err(TrackError::TooManyTrackedFields));
    }
}

#[test]
fn width_names() {
    assert_eq!(tracker_type(0).unwrap().name(), "u8");
    assert_eq!(tracker_type(8).unwrap().name(), "u8");
    assert_eq!(tracker_type(9).unwrap().name(), "u16");
    assert_eq!(tracker_type(17).unwrap().name(), "u32");
    assert_eq!(tracker_type(33).unwrap().name(), "u64");
    assert_eq!(tracker_type(65).unwrap().name(), "u128");
    assert_eq!(IntWidth::W16.all_ones(), 0xffff);
    assert_eq!(IntWidth::W128.all_ones(), u128::MAX);
}

#[test]
fn scanner_recognizes_both_spellings() {
    let mut attrs = vec![attr(&["no_eq"], "")];
    assert_eq!(parse_field_attrs(&mut attrs), (false, true));
    assert!(attrs.is_empty());

    let mut attrs = vec![attr(&["tracker", "no_eq"], "")];
    assert_eq!(parse_field_attrs(&mut attrs), (false, true));
    assert!(attrs.is_empty());

    let mut attrs = vec![attr(&["do_not_track"], "")];
    assert_eq!(parse_field_attrs(&mut attrs), (true, false));
    assert!(attrs.is_empty());

    let mut attrs = vec![attr(&["tracker", "do_not_track"], "")];
    assert_eq!(parse_field_attrs(&mut attrs), (true, false));
    assert!(attrs.is_empty());
}

#[test]
fn scanner_duplicates_are_harmless() {
    let mut attrs = vec![
        attr(&["no_eq"], ""),
        attr(&["tracker", "no_eq"], ""),
        attr(&["do_not_track"], ""),
        attr(&["tracker", "do_not_track"], ""),
    ];
    assert_eq!(parse_field_attrs(&mut attrs), (true, true));
    assert!(attrs.is_empty());
}

#[test]
fn scanner_passes_other_annotations_through_in_order() {
    let mut attrs = vec![
        attr(&["serde"], "(skip)"),
        attr(&["no_eq"], ""),
        attr(&["derive"], "(Default)"),
        attr(&["tracker"], ""),
        attr(&["tracker", "extra", "deep"], ""),
    ];
    assert_eq!(parse_field_attrs(&mut attrs), (false, true));
    assert_eq!(attrs.len(), 4);
    assert_eq!(attrs[0].segments, vec![String::from("serde")]);
    assert_eq!(attrs[0].args, "(skip)");
    assert_eq!(attrs[1].segments, vec![String::from("derive")]);
    assert_eq!(attrs[2].segments, vec![String::from("tracker")]);
    assert_eq!(attrs[3].segments.len(), 3);
}

#[test]
fn track_rejects_entry_arguments() {
    let item = plain_struct("Test", vec![field("x", "u8")]);
    assert_eq!(track("(debug)", item), Err(TrackError::UnexpectedArguments));
}

#[test]
fn track_rejects_unnamed_fields() {
    let tuple = StructDescriptor {
        name: String::from("Pair"),
        vis: String::new(),
        attrs: Vec::new(),
        generics: Vec::new(),
        where_clause: String::new(),
        fields: StructFields::Tuple,
    };
    assert_eq!(track("", tuple), Err(TrackError::NotNamedFields));
    let unit = StructDescriptor {
        name: String::from("Marker"),
        vis: String::new(),
        attrs: Vec::new(),
        generics: Vec::new(),
        where_clause: String::new(),
        fields: StructFields::Unit,
    };
    assert_eq!(track("", unit), Err(TrackError::NotNamedFields));
}

#[test]
fn track_rejects_over_128_tracked_fields() {
    let mut fields = Vec::new();
    for i in 0..129 {
        fields.push(field(&format!("f{}", i), "u8"));
    }
    let item = plain_struct("Big", fields);
    assert_eq!(track("", item), Err(TrackError::TooManyTrackedFields));
}

#[test]
fn track_accepts_exactly_128_tracked_fields() {
    let mut fields = Vec::new();
    for i in 0..128 {
        fields.push(field(&format!("f{}", i), "u8"));
    }
    let item = plain_struct("Big", fields);
    let out = track("", item).unwrap();
    assert!(out.contains("tracker: u128,"));
    assert!(out.contains("1 << 127"));
}

#[test]
fn track_emits_exact_text_for_two_fields() {
    let item = plain_struct("Test", vec![field("x", "u8"), field("y", "u64")]);
    let out = track("", item).unwrap();
    let mut expected = String::new();
    expected.push_str("struct Test {\n");
    expected.push_str("    x: u8,\n");
    expected.push_str("    y: u64,\n");
    expected.push_str("    tracker: u8,\n");
    expected.push_str("}\n");
    expected.push_str("\n");
    expected.push_str("impl Test {\n");
    expected.push_str("    fn get_x(&self) -> &u8 {\n");
    expected.push_str("        &self.x\n");
    expected.push_str("    }\n");
    expected.push_str("    fn get_mut_x(&mut self) -> &mut u8 {\n");
    expected.push_str("        self.tracker |= Self::x();\n");
    expected.push_str("        &mut self.x\n");
    expected.push_str("    }\n");
    expected.push_str("    fn update_x<F: FnOnce(&mut u8)>(&mut self, f: F) {\n");
    expected.push_str("        self.tracker |= Self::x();\n");
    expected.push_str("        f(&mut self.x);\n");
    expected.push_str("    }\n");
    expected.push_str("    fn changed_x(&self) -> bool {\n");
    expected.push_str("        self.changed(Self::x())\n");
    expected.push_str("    }\n");
    expected.push_str("    fn x() -> u8 {\n");
    expected.push_str("        1 << 0\n");
    expected.push_str("    }\n");
    expected.push_str("    fn set_x(&mut self, value: u8) {\n");
    expected.push_str("        if self.x != value {\n");
    expected.push_str("            self.tracker |= Self::x();\n");
    expected.push_str("        }\n");
    expected.push_str("        self.x = value;\n");
    expected.push_str("    }\n");
    expected.push_str("    fn get_y(&self) -> &u64 {\n");
    expected.push_str("        &self.y\n");
    expected.push_str("    }\n");
    expected.push_str("    fn get_mut_y(&mut self) -> &mut u64 {\n");
    expected.push_str("        self.tracker |= Self::y();\n");
    expected.push_str("        &mut self.y\n");
    expected.push_str("    }\n");
    expected.push_str("    fn update_y<F: FnOnce(&mut u64)>(&mut self, f: F) {\n");
    expected.push_str("        self.tracker |= Self::y();\n");
    expected.push_str("        f(&mut self.y);\n");
    expected.push_str("    }\n");
    expected.push_str("    fn changed_y(&self) -> bool {\n");
    expected.push_str("        self.changed(Self::y())\n");
    expected.push_str("    }\n");
    expected.push_str("    fn y() -> u8 {\n");
    expected.push_str("        1 << 1\n");
    expected.push_str("    }\n");
    expected.push_str("    fn set_y(&mut self, value: u64) {\n");
    expected.push_str("        if self.y != value {\n");
    expected.push_str("            self.tracker |= Self::y();\n");
    expected.push_str("        }\n");
    expected.push_str("        self.y = value;\n");
    expected.push_str("    }\n");
    expected.push_str("    fn track_all() -> u8 {\n");
    expected.push_str("        u8::MAX\n");
    expected.push_str("    }\n");
    expected.push_str("    fn mark_all_changed(&mut self) {\n");
    expected.push_str("        self.tracker = u8::MAX;\n");
    expected.push_str("    }\n");
    expected.push_str("    fn changed(&self, mask: u8) -> bool {\n");
    expected.push_str("        self.tracker & mask != 0\n");
    expected.push_str("    }\n");
    expected.push_str("    fn changed_any(&self) -> bool {\n");
    expected.push_str("        self.tracker != 0\n");
    expected.push_str("    }\n");
    expected.push_str("    fn reset(&mut self) {\n");
    expected.push_str("        self.tracker = 0;\n");
    expected.push_str("    }\n");
    expected.push_str("}\n");
    assert_eq!(out, expected);
}

#[test]
fn excluded_field_consumes_no_bit_and_gets_no_methods() {
    // Mirrors a field list x, a (do_not_track), b: b's bit index must be 1,
    // and a must get no accessor, mutator, setter or bit-mask method.
    let item = plain_struct(
        "Test",
        vec![
            field("x", "u8"),
            field_with("a", "u8", vec![attr(&["tracker", "do_not_track"], "")]),
            field("b", "u8"),
        ],
    );
    let out = track("", item).unwrap();
    assert!(out.contains("    fn x() -> u8 {\n        1 << 0\n    }\n"));
    assert!(out.contains("    fn b() -> u8 {\n        1 << 1\n    }\n"));
    assert!(!out.contains("fn get_a"));
    assert!(!out.contains("fn get_mut_a"));
    assert!(!out.contains("fn update_a"));
    assert!(!out.contains("fn set_a"));
    assert!(!out.contains("fn changed_a("));
    // The field itself is still emitted, unmodified and unannotated.
    assert!(out.contains("    a: u8,\n"));
    assert!(!out.contains("do_not_track"));
}

#[test]
fn excluded_fields_do_not_affect_width() {
    // Nine fields, one excluded: eight tracked bits still fit u8.
    let mut fields = Vec::new();
    for i in 0..8 {
        fields.push(field(&format!("f{}", i), "u8"));
    }
    fields.push(field_with("skip", "u8", vec![attr(&["do_not_track"], "")]));
    let item = plain_struct("Test", fields);
    let out = track("", item).unwrap();
    assert!(out.contains("tracker: u8,"));
}

#[test]
fn no_eq_field_gets_unconditional_setter() {
    let item = plain_struct(
        "Test",
        vec![field_with("c", "u8", vec![attr(&["no_eq"], "")]), field("d", "u8")],
    );
    let out = track("", item).unwrap();
    assert!(out.contains(
        "    fn set_c(&mut self, value: u8) {\n        self.tracker |= Self::c();\n        self.c = value;\n    }\n"
    ));
    assert!(out.contains(
        "    fn set_d(&mut self, value: u8) {\n        if self.d != value {\n"
    ));
    assert!(!out.contains("no_eq"));
}

#[test]
fn other_annotations_survive_on_fields_and_struct() {
    let mut item = plain_struct(
        "Test",
        vec![field_with(
            "c",
            "u8",
            vec![attr(&["serde"], "(skip)"), attr(&["tracker", "no_eq"], "")],
        )],
    );
    item.attrs = vec![attr(&["derive"], "(Default)")];
    let out = track("", item).unwrap();
    assert!(out.starts_with("#[derive(Default)]\nstruct Test {\n"));
    assert!(out.contains("    #[serde(skip)]\n    c: u8,\n"));
    assert!(!out.contains("no_eq"));
}

#[test]
fn generics_defaults_are_stripped_from_impl_header() {
    let item = StructDescriptor {
        name: String::from("Holder"),
        vis: String::from("pub "),
        attrs: Vec::new(),
        generics: vec![
            GenericParamDesc::Lifetime { name: String::from("'a"), bounds: String::new() },
            GenericParamDesc::Type {
                name: String::from("Config"),
                bounds: String::from(": ?Sized + std::fmt::Debug"),
                default_ty: String::new(),
            },
            GenericParamDesc::Type {
                name: String::from("Allocator"),
                bounds: String::new(),
                default_ty: String::from("NoCopy"),
            },
            GenericParamDesc::Const {
                name: String::from("N"),
                ty: String::from("usize"),
                default_val: String::from("4"),
            },
        ],
        where_clause: String::from("where Config: Clone"),
        fields: StructFields::Named(vec![field("value", "u8")]),
    };
    let out = track("", item).unwrap();
    assert!(out.contains(
        "pub struct Holder<'a, Config: ?Sized + std::fmt::Debug, Allocator = NoCopy, const N: usize = 4> where Config: Clone {\n"
    ));
    assert!(out.contains(
        "impl<'a, Config: ?Sized + std::fmt::Debug, Allocator, const N: usize> Holder<'a, Config, Allocator, N> where Config: Clone {\n"
    ));
    // The structure's visibility carries to the structure-level methods.
    assert!(out.contains("    pub fn track_all() -> u8 {\n"));
    // The field's inherited visibility carries to its accessors.
    assert!(out.contains("    fn get_value(&self) -> &u8 {\n"));
}

#[test]
fn field_visibility_is_preserved() {
    let mut f = field("x", "u8");
    f.vis = String::from("pub(crate) ");
    let item = plain_struct("Test", vec![f]);
    let out = track("", item).unwrap();
    assert!(out.contains("    pub(crate) x: u8,\n"));
    assert!(out.contains("    pub(crate) fn get_x(&self) -> &u8 {\n"));
    assert!(out.contains("    pub(crate) fn set_x(&mut self, value: u8) {\n"));
}

#[test]
fn empty_struct_still_gets_structure_methods() {
    let item = plain_struct("Empty", Vec::new());
    let out = track("", item).unwrap();
    assert!(out.contains("struct Empty {\n    tracker: u8,\n}\n"));
    assert!(out.contains("    fn track_all() -> u8 {\n"));
    assert!(out.contains("    fn reset(&mut self) {\n"));
    assert!(!out.contains("fn get_"));
}
