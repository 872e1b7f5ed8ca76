//! The shape analyzer: given the declared field list of a target record type
//! (names, declared types, per-field annotations) and the optional type-level
//! naming-convention directive, determine for each field the resolved source
//! column name, whether the field is required or optional, and whether its
//! text needs an ownership conversion.  A mapping implementation for the
//! record is then assembled from these descriptors with the helpers in
//! [`crate::fetch`].

use vstd::prelude::*;

use crate::row::ScalarKind;

verus! {

/// The declared type of one record field: a scalar, or the optional wrapper
/// around one.
#[derive(Clone, Copy, PartialEq, Eq, Structural, Debug)]
pub enum DeclaredType {
    Plain(ScalarKind),
    Optional(ScalarKind),
}

impl DeclaredType {
    /// Whether the declared type is the optional wrapper.
    pub open spec fn is_optional(self) -> bool {
        self is Optional
    }

    /// The scalar inspected after unwrapping an optional declared type.
    pub open spec fn base_kind(self) -> ScalarKind {
        match self {
            DeclaredType::Plain(k) => k,
            DeclaredType::Optional(k) => k,
        }
    }
}

/// Whether a declared type is the optional wrapper around some inner type.
pub fn is_option_type(ty: &DeclaredType) -> (r: bool)
    ensures
        r == ty.is_optional(),
{
    match ty {
        DeclaredType::Plain(_) => false,
        DeclaredType::Optional(_) => true,
    }
}

/// Whether a declared type is the text type, inspecting the inner type of an
/// optional wrapper.
pub fn is_string(ty: &DeclaredType) -> (r: bool)
    ensures
        r == (ty.base_kind() == ScalarKind::Text),
{
    match ty {
        DeclaredType::Plain(k) => *k == ScalarKind::Text,
        DeclaredType::Optional(k) => *k == ScalarKind::Text,
    }
}

/// An ASCII lowercase letter turned into its uppercase form; any other
/// character is kept as it is.
pub open spec fn upper_char(c: char) -> char {
    if 'a' <= c <= 'z' {
        (((c as u32) - 32) as u8) as char
    } else {
        c
    }
}

/// The capitalized-word-boundary form of a name, read left to right:
/// underscores delimit words and are removed, the first character of each
/// word is uppercased, and every other character is kept as it is.
/// `at_start` says whether the next character begins a word.
pub open spec fn pascal_rec(s: Seq<char>, at_start: bool) -> Seq<char>
    decreases s.len(),
{
    if s.len() == 0 {
        Seq::<char>::empty()
    } else if s[0] == '_' {
        pascal_rec(s.drop_first(), true)
    } else if at_start {
        seq![upper_char(s[0])] + pascal_rec(s.drop_first(), false)
    } else {
        seq![s[0]] + pascal_rec(s.drop_first(), false)
    }
}

/// The capitalized-word-boundary form of a field name: the first letter of
/// each underscore-delimited word uppercased, with the delimiters removed.
pub open spec fn pascal_of(s: Seq<char>) -> Seq<char> {
    pascal_rec(s, true)
}

/// Relies on `String::push`: appends the given character at the end of the
/// string.
#[verifier::external_body]
fn push_char(s: &mut String, c: char)
    ensures
        final(s)@ == old(s)@.push(c),
{
    s.push(c);
}

/// Turn a field name into its capitalized-word-boundary form, as
/// [`pascal_of`] describes.
pub fn pascal_case(s: &str) -> (r: String)
    ensures
        r@ == pascal_of(s@),
{
    let n = s.unicode_len();
    let mut out = String::new();
    let mut at_start = true;
    let mut i: usize = 0;
    proof {
        assert(s@.skip(0) =~= s@);
    }
    while i < n
        invariant
            n == s@.len(),
            i <= n,
            pascal_of(s@) == out@ + pascal_rec(s@.skip(i as int), at_start),
        decreases n - i,
    {
        proof {
            assert(s@.skip(i as int)[0] == s@[i as int]);
            assert(s@.skip(i as int).drop_first() =~= s@.skip(i as int + 1));
        }
        let c = s.get_char(i);
        if c == '_' {
            at_start = true;
        } else if at_start {
            let up = if c >= 'a' && c <= 'z' {
                (((c as u32) - 32) as u8) as char
            } else {
                c
            };
            assert(up == upper_char(c));
            push_char(&mut out, up);
            at_start = false;
            proof {
                assert(out@ =~= out@.subrange(0, out@.len() - 1) + seq![up]);
            }
        } else {
            push_char(&mut out, c);
            at_start = false;
        }
        i += 1;
        proof {
            assert(out@ + pascal_rec(s@.skip(i as int), at_start) =~= pascal_of(s@));
        }
    }
    proof {
        assert(s@.skip(n as int) =~= Seq::<char>::empty());
        assert(out@ =~= out@ + pascal_rec(s@.skip(n as int), at_start));
    }
    out
}

/// The resolved source column name of a field, in this exact precedence: an
/// explicit per-field override wins unconditionally; otherwise the
/// type-level convention directive turns the field name into its
/// capitalized-word-boundary form; otherwise the field name is used
/// verbatim.
pub open spec fn spec_resolve(
    field_name: Seq<char>,
    override_name: Option<Seq<char>>,
    to_pascal: bool,
) -> Seq<char> {
    match override_name {
        Some(o) => o,
        None => if to_pascal {
            pascal_of(field_name)
        } else {
            field_name
        },
    }
}

/// Resolve the source column name of one field from its name, its optional
/// per-field override annotation, and the type-level convention directive.
pub fn resolve_column_name(field_name: &str, override_name: Option<&str>, to_pascal: bool) -> (r:
    String)
    ensures
        r@ == spec_resolve(field_name@, override_name.deep_view(), to_pascal),
        override_name matches Some(o) ==> r@ == o@,
        override_name is None && to_pascal ==> r@ == pascal_of(field_name@),
        override_name is None && !to_pascal ==> r@ == field_name@,
{
    match override_name {
        Some(o) => o.to_owned(),
        None => if to_pascal {
            pascal_case(field_name)
        } else {
            field_name.to_owned()
        },
    }
}

/// One field of a target record type, as declared: its identifier, its
/// declared type, and the optional per-field column-name override.
#[derive(Debug)]
pub struct FieldShape {
    pub name: String,
    pub ty: DeclaredType,
    pub override_name: Option<String>,
}

/// What the analyzer derives for one field: the resolved source column name,
/// whether the field is required, the scalar kind to narrow the cell to, and
/// whether the text needs an ownership conversion.  Computed once per field
/// and never changed afterwards.
#[derive(Debug)]
pub struct FieldDescriptor {
    pub field_name: String,
    pub resolved_column_name: String,
    pub required: bool,
    pub kind: ScalarKind,
    pub needs_text_ownership_conversion: bool,
}

/// The descriptor `d` is exactly what analyzing the field `f` under the
/// given convention directive yields.
pub open spec fn descriptor_for(d: FieldDescriptor, f: FieldShape, to_pascal: bool) -> bool {
    &&& d.field_name@ == f.name@
    &&& d.resolved_column_name@ == spec_resolve(f.name@, f.override_name.deep_view(), to_pascal)
    &&& d.required == !f.ty.is_optional()
    &&& d.kind == f.ty.base_kind()
    &&& d.needs_text_ownership_conversion == (f.ty.base_kind() == ScalarKind::Text)
}

/// Analyze one field of a target record type.
pub fn analyze_field(f: &FieldShape, to_pascal: bool) -> (d: FieldDescriptor)
    ensures
        descriptor_for(d, *f, to_pascal),
{
    let resolved = match &f.override_name {
        Some(o) => resolve_column_name(f.name.as_str(), Some(o.as_str()), to_pascal),
        None => resolve_column_name(f.name.as_str(), None, to_pascal),
    };
    FieldDescriptor {
        field_name: f.name.clone(),
        resolved_column_name: resolved,
        required: !is_option_type(&f.ty),
        kind: match f.ty {
            DeclaredType::Plain(k) => k,
            DeclaredType::Optional(k) => k,
        },
        needs_text_ownership_conversion: is_string(&f.ty),
    }
}

/// A target record type as declared: its name, whether it carries the
/// type-level convention directive, and its ordered field list.
#[derive(Debug)]
pub struct RecordShape {
    pub name: String,
    pub to_pascal: bool,
    pub fields: Vec<FieldShape>,
}

/// The declared shape of a mapping target: only a plain composite record is
/// supported; a tagged union or an opaque type is rejected.
#[derive(Debug)]
pub enum TargetShape {
    Record(RecordShape),
    TaggedUnion { name: String },
    Opaque { name: String },
}

impl TargetShape {
    /// The name of the declared type.
    pub open spec fn spec_name(self) -> Seq<char> {
        match self {
            TargetShape::Record(r) => r.name@,
            TargetShape::TaggedUnion { name } => name@,
            TargetShape::Opaque { name } => name@,
        }
    }
}

/// The rejection of an unsupported target shape, naming the offending type.
#[derive(Debug)]
pub struct ShapeError {
    pub name: String,
}

impl ShapeError {
    /// A descriptive message identifying the rejected type.
    pub fn message(&self) -> (r: String)
        ensures
            r@ == "the mapping contract can only be derived for plain record types, not for "@
                + self.name@,
    {
        String::from_str("the mapping contract can only be derived for plain record types, not for ").concat(
            self.name.as_str(),
        )
    }
}

/// Analyze a whole target type: a plain composite record yields one
/// descriptor per field, in field order; any other shape is rejected with an
/// error naming the type.
pub fn analyze_target(t: &TargetShape) -> (r: Result<Vec<FieldDescriptor>, ShapeError>)
    ensures
        match r {
            Ok(ds) => t matches TargetShape::Record(rec) && ds@.len() == rec.fields@.len()
                && forall|i: int|
                0 <= i < ds@.len() ==> descriptor_for(ds@[i], rec.fields@[i], rec.to_pascal),
            Err(e) => !(t is Record) && e.name@ == t.spec_name(),
        },
{
    match t {
        TargetShape::Record(rec) => {
            let mut ds: Vec<FieldDescriptor> = Vec::new();
            let n = rec.fields.len();
            let mut i: usize = 0;
            while i < n
                invariant
                    n == rec.fields@.len(),
                    i <= n,
                    ds@.len() == i,
                    forall|j: int|
                        0 <= j < i ==> descriptor_for(ds@[j], rec.fields@[j], rec.to_pascal),
                decreases n - i,
            {
                let d = analyze_field(&rec.fields[i], rec.to_pascal);
                ds.push(d);
                i += 1;
            }
            Ok(ds)
        },
        TargetShape::TaggedUnion { name } => Err(ShapeError { name: name.clone() }),
        TargetShape::Opaque { name } => Err(ShapeError { name: name.clone() }),
    }
}

} // verus!
