//! The rules by which the driver's types are declared: how an enum's raw
//! value is checked and looked up, how a flag set is checked and walked, and
//! what a struct declaration adds (its layout, its derives, the field that
//! holds its version word or that it inherits from, its padding).
//!
//! A declaration is given as a model of what these rules read: its
//! attributes, its fields and their kinds, its variants' values.
use vstd::prelude::*;
use vstd::string::StringExecFns;
use crate::status::ArgumentRangeError;

verus! {

/// Why a declaration is refused.
#[derive(Copy, Clone, Debug, PartialEq, Eq, Structural, Hash)]
pub enum MacroError {
    /// A marker attribute was given arguments.
    AttributeTakesNoArguments,
    /// The arguments of an attribute do not parse.
    InvalidAttributeArguments,
    /// More than one field is marked.
    MultipleFieldsSpecified,
    /// No field is marked as the inherited one, and there is not exactly one field.
    InheritFieldMissing,
    /// No field holds the version word.
    VersionFieldMissing,
    /// A padding attribute stands on a field that is not an array.
    PaddingNotByteArray,
    /// An enum of driver values has no `repr`.
    ReprRequired,
    /// A `repr` attribute is not a list.
    ReprListRequired,
    /// A `repr` list does not start with a type name.
    InvalidRepr,
    /// The C name of an enum or of one of its variants is missing.
    SymbolRequired,
    /// A declaration does not follow its grammar.
    UnexpectedToken,
}

// ---------------------------------------------------------------------------
// Enum value tables.

/// Whether no value before `n` equals `raw`.
pub open spec fn absent_before(values: Seq<i64>, raw: i64, n: int) -> bool {
    forall|j: int| 0 <= j < n ==> #[trigger] values[j] != raw
}

/// The index of the variant whose value is `raw` (`from_raw`, `from_repr`).
pub fn enum_from_raw(values: &Vec<i64>, raw: i64) -> (r: Result<usize, ArgumentRangeError>)
    ensures
        match r {
            Ok(i) => i < values@.len() && values@[i as int] == raw && absent_before(values@, raw, i as int),
            Err(_) => absent_before(values@, raw, values@.len() as int),
        },
{
    let mut i: usize = 0;
    while i < values.len()
        invariant
            i <= values@.len(),
            absent_before(values@, raw, i as int),
        decreases values@.len() - i,
    {
        if values[i] == raw {
            return Ok(i);
        }
        i += 1;
    }
    Err(ArgumentRangeError)
}

// ---------------------------------------------------------------------------
// Flag sets.

/// All the bits of the declared flags.
pub open spec fn all_bits(flags: Seq<u64>) -> u64
    decreases flags.len(),
{
    if flags.len() == 0 { 0 } else { all_bits(flags.drop_last()) | flags.last() }
}

/// The union of the declared flags.
pub fn flags_all(flags: &Vec<u64>) -> (r: u64)
    ensures
        r == all_bits(flags@),
{
    let mut acc: u64 = 0;
    let mut i: usize = 0;
    while i < flags.len()
        invariant
            i <= flags@.len(),
            acc == all_bits(flags@.subrange(0, i as int)),
        decreases flags@.len() - i,
    {
        assert(flags@.subrange(0, i as int + 1).drop_last() =~= flags@.subrange(0, i as int));
        acc = acc | flags[i];
        i += 1;
    }
    assert(flags@.subrange(0, flags@.len() as int) =~= flags@);
    acc
}

/// Whether `set` holds all the bits of `flag`.
pub open spec fn contains_bits(set: u64, flag: u64) -> bool {
    set & flag == flag
}

// ---------------------------------------------------------------------------
// Attributes of declarations.

/// The arguments of a padding attribute: the bits it aligns and the type it
/// aligns to.
#[derive(Debug)]
pub struct AlignArgs {
    pub bit_align: usize,
    pub ty: String,
}

impl AlignArgs {
    /// A copy of the arguments.
    pub fn copy(&self) -> (r: AlignArgs)
        ensures
            r == *self,
    {
        AlignArgs { bit_align: self.bit_align, ty: self.ty.clone() }
    }
}

/// An attribute of a field, as the rules read it.
#[derive(Debug)]
pub enum FieldAttr {
    /// `#[nv_inherit]`, with or without (refused) arguments.
    Inherit { has_args: bool },
    /// `#[nv_version_field]`, with or without (refused) arguments.
    VersionField { has_args: bool },
    /// `#[nv_align(bits, Type)]`; `None` where its arguments do not parse.
    Align(Option<AlignArgs>),
    /// Any other attribute.
    Other,
}

/// A field of a struct declaration.
#[derive(Debug)]
pub struct FieldModel {
    /// Whether the field has a name (else it is reached by its index).
    pub named: bool,
    pub attrs: Vec<FieldAttr>,
    /// Whether its type is a path ending in `NvVersion`.
    pub ty_is_nv_version: bool,
    /// Whether its type is an array.
    pub ty_is_array: bool,
}

/// A path in a `derive` list, by its last segment.
#[derive(Copy, Clone, Debug, PartialEq, Eq, Structural, Hash)]
pub enum DerivePath {
    VersionedStructField,
    NvInherit,
    Other,
}

/// The arguments of a `repr` attribute.
#[derive(Debug)]
pub enum ReprArgs {
    /// `#[repr]` or `#[repr = ..]`: not a list.
    NotList,
    /// `#[repr(..)]`, with its first token if that is a name.
    List(Option<String>),
}

/// An attribute of a struct, an enum or a variant, as the rules read it.
#[derive(Debug)]
pub enum ItemAttr {
    Repr(ReprArgs),
    /// `#[derive(..)]` with its paths.
    Derive(Vec<DerivePath>),
    /// `#[nv_value_symbol(Name)]`; `None` where its argument does not parse.
    Symbol(Option<String>),
    Other,
}

/// A struct declaration.
#[derive(Debug)]
pub struct StructModel {
    pub attrs: Vec<ItemAttr>,
    pub fields: Vec<FieldModel>,
}

// ---------------------------------------------------------------------------
// Field attributes.

/// Whether a field carries the attribute `a`.
pub open spec fn has_field_attr(attrs: Seq<FieldAttr>, a: FieldAttr) -> bool {
    exists|i: int| 0 <= i < attrs.len() && attrs[i] == a
}

/// Whether a field carries `#[nv_version_field]` in any form.
pub open spec fn has_version_field_attr(attrs: Seq<FieldAttr>) -> bool {
    exists|i: int| 0 <= i < attrs.len() && attrs[i] is VersionField
}

/// Whether a field carries `#[nv_inherit]` in any form.
pub open spec fn has_inherit_attr(attrs: Seq<FieldAttr>) -> bool {
    exists|i: int| 0 <= i < attrs.len() && attrs[i] is Inherit
}

/// Whether a field is marked with `#[nv_inherit]`: an error where the marker
/// is given arguments.
pub open spec fn field_inherit(f: FieldModel) -> Result<bool, MacroError> {
    if has_field_attr(f.attrs@, FieldAttr::Inherit { has_args: true }) {
        Err(MacroError::AttributeTakesNoArguments)
    } else {
        Ok(has_field_attr(f.attrs@, FieldAttr::Inherit { has_args: false }))
    }
}

/// Whether a field is marked with `#[nv_version_field]`: an error where the
/// marker is given arguments.
pub open spec fn field_version(f: FieldModel) -> Result<bool, MacroError> {
    if has_field_attr(f.attrs@, FieldAttr::VersionField { has_args: true }) {
        Err(MacroError::AttributeTakesNoArguments)
    } else {
        Ok(has_field_attr(f.attrs@, FieldAttr::VersionField { has_args: false }))
    }
}

/// What a scan of a field's attributes found.
struct AttrScan {
    inherit_bad: bool,
    inherit_ok: bool,
    version_bad: bool,
    version_ok: bool,
}

fn scan_field_attrs(attrs: &Vec<FieldAttr>) -> (r: AttrScan)
    ensures
        r.inherit_bad == has_field_attr(attrs@, FieldAttr::Inherit { has_args: true }),
        r.inherit_ok == has_field_attr(attrs@, FieldAttr::Inherit { has_args: false }),
        r.version_bad == has_field_attr(attrs@, FieldAttr::VersionField { has_args: true }),
        r.version_ok == has_field_attr(attrs@, FieldAttr::VersionField { has_args: false }),
{
    let mut sc = AttrScan { inherit_bad: false, inherit_ok: false, version_bad: false, version_ok: false };
    let mut i: usize = 0;
    while i < attrs.len()
        invariant
            i <= attrs@.len(),
            sc.inherit_bad == (exists|j: int| 0 <= j < i && attrs@[j] == FieldAttr::Inherit { has_args: true }),
            sc.inherit_ok == (exists|j: int| 0 <= j < i && attrs@[j] == FieldAttr::Inherit { has_args: false }),
            sc.version_bad == (exists|j: int| 0 <= j < i && attrs@[j] == FieldAttr::VersionField { has_args: true }),
            sc.version_ok == (exists|j: int| 0 <= j < i && attrs@[j] == FieldAttr::VersionField { has_args: false }),
        decreases attrs@.len() - i,
    {
        match &attrs[i] {
            FieldAttr::Inherit { has_args } => {
                if *has_args { sc.inherit_bad = true; } else { sc.inherit_ok = true; }
            },
            FieldAttr::VersionField { has_args } => {
                if *has_args { sc.version_bad = true; } else { sc.version_ok = true; }
            },
            _ => {},
        }
        i += 1;
    }
    sc
}

/// The indices below `n` of the fields marked with `#[nv_inherit]`.
pub open spec fn inherit_marked(fields: Seq<FieldModel>, n: nat) -> Seq<usize>
    decreases n,
{
    if n == 0 {
        seq![]
    } else {
        let p = inherit_marked(fields, (n - 1) as nat);
        if field_inherit(fields[n - 1]) == Ok::<bool, MacroError>(true) { p.push((n - 1) as usize) } else { p }
    }
}

/// The indices below `n` of the fields marked with `#[nv_version_field]`.
pub open spec fn version_marked(fields: Seq<FieldModel>, n: nat) -> Seq<usize>
    decreases n,
{
    if n == 0 {
        seq![]
    } else {
        let p = version_marked(fields, (n - 1) as nat);
        if field_version(fields[n - 1]) == Ok::<bool, MacroError>(true) { p.push((n - 1) as usize) } else { p }
    }
}

/// The indices below `n` of the fields whose type is `NvVersion`.
pub open spec fn version_typed(fields: Seq<FieldModel>, n: nat) -> Seq<usize>
    decreases n,
{
    if n == 0 {
        seq![]
    } else {
        let p = version_typed(fields, (n - 1) as nat);
        if fields[n - 1].ty_is_nv_version { p.push((n - 1) as usize) } else { p }
    }
}

/// The field a struct dereferences to (`derive(NvInherit)`): the field marked
/// `#[nv_inherit]`, else the only field; refused where a marker has arguments,
/// where several fields are marked, or where none is and there is not exactly
/// one field.
pub open spec fn spec_derive_inherit(s: StructModel) -> Result<usize, MacroError> {
    let f = s.fields@;
    if exists|i: int| 0 <= i < f.len() && field_inherit(#[trigger] f[i]) is Err {
        Err(MacroError::AttributeTakesNoArguments)
    } else {
        let m = inherit_marked(f, f.len());
        if m.len() > 1 {
            Err(MacroError::MultipleFieldsSpecified)
        } else if m.len() == 1 {
            Ok(m[0])
        } else if f.len() == 1 {
            Ok(0)
        } else {
            Err(MacroError::InheritFieldMissing)
        }
    }
}

/// The field that holds the version word (`derive(VersionedStructField)`):
/// the one marked `#[nv_version_field]`, else the first of type `NvVersion`;
/// refused where a marker has arguments, where several fields are marked, or
/// where there is no such field.
pub open spec fn spec_derive_versioned_struct(s: StructModel) -> Result<usize, MacroError> {
    let f = s.fields@;
    if exists|i: int| 0 <= i < f.len() && field_version(#[trigger] f[i]) is Err {
        Err(MacroError::AttributeTakesNoArguments)
    } else {
        let m = version_marked(f, f.len());
        let t = version_typed(f, f.len());
        if m.len() > 1 {
            Err(MacroError::MultipleFieldsSpecified)
        } else if m.len() == 1 {
            Ok(m[0])
        } else if t.len() > 0 {
            Ok(t[0])
        } else {
            Err(MacroError::VersionFieldMissing)
        }
    }
}

/// What a scan of the fields found, up to some field.
struct FieldScan {
    inherit_err: bool,
    version_err: bool,
    inherit: Vec<usize>,
    version: Vec<usize>,
    typed: Vec<usize>,
}

fn scan_fields(fields: &Vec<FieldModel>) -> (r: FieldScan)
    ensures
        r.inherit_err == (exists|i: int| 0 <= i < fields@.len() && field_inherit(#[trigger] fields@[i]) is Err),
        r.version_err == (exists|i: int| 0 <= i < fields@.len() && field_version(#[trigger] fields@[i]) is Err),
        r.inherit@ == inherit_marked(fields@, fields@.len()),
        r.version@ == version_marked(fields@, fields@.len()),
        r.typed@ == version_typed(fields@, fields@.len()),
{
    let mut sc = FieldScan { inherit_err: false, version_err: false, inherit: Vec::new(), version: Vec::new(), typed: Vec::new() };
    let mut i: usize = 0;
    while i < fields.len()
        invariant
            i <= fields@.len(),
            sc.inherit_err == (exists|j: int| 0 <= j < i && field_inherit(#[trigger] fields@[j]) is Err),
            sc.version_err == (exists|j: int| 0 <= j < i && field_version(#[trigger] fields@[j]) is Err),
            sc.inherit@ == inherit_marked(fields@, i as nat),
            sc.version@ == version_marked(fields@, i as nat),
            sc.typed@ == version_typed(fields@, i as nat),
        decreases fields@.len() - i,
    {
        let a = scan_field_attrs(&fields[i].attrs);
        if a.inherit_bad {
            sc.inherit_err = true;
        } else if a.inherit_ok {
            sc.inherit.push(i);
        }
        if a.version_bad {
            sc.version_err = true;
        } else if a.version_ok {
            sc.version.push(i);
        }
        if fields[i].ty_is_nv_version {
            sc.typed.push(i);
        }
        proof {
            assert(field_inherit(fields@[i as int]) is Err == a.inherit_bad);
            assert(field_version(fields@[i as int]) is Err == a.version_bad);
        }
        i += 1;
    }
    sc
}

/// The field a struct dereferences to (see `spec_derive_inherit`).
pub fn derive_inherit(s: &StructModel) -> (r: Result<usize, MacroError>)
    ensures
        r == spec_derive_inherit(*s),
{
    let sc = scan_fields(&s.fields);
    if sc.inherit_err {
        Err(MacroError::AttributeTakesNoArguments)
    } else if sc.inherit.len() > 1 {
        Err(MacroError::MultipleFieldsSpecified)
    } else if sc.inherit.len() == 1 {
        Ok(sc.inherit[0])
    } else if s.fields.len() == 1 {
        Ok(0)
    } else {
        Err(MacroError::InheritFieldMissing)
    }
}

/// The field that holds the version word (see `spec_derive_versioned_struct`).
pub fn derive_versioned_struct(s: &StructModel) -> (r: Result<usize, MacroError>)
    ensures
        r == spec_derive_versioned_struct(*s),
{
    let sc = scan_fields(&s.fields);
    if sc.version_err {
        Err(MacroError::AttributeTakesNoArguments)
    } else if sc.version.len() > 1 {
        Err(MacroError::MultipleFieldsSpecified)
    } else if sc.version.len() == 1 {
        Ok(sc.version[0])
    } else if sc.typed.len() > 0 {
        Ok(sc.typed[0])
    } else {
        Err(MacroError::VersionFieldMissing)
    }
}

// ---------------------------------------------------------------------------
// Struct layout, derives and padding (`nvstruct!`).

/// Whether an item carries a `repr` attribute.
pub open spec fn has_repr(attrs: Seq<ItemAttr>) -> bool {
    exists|i: int| 0 <= i < attrs.len() && attrs[i] is Repr
}

/// Whether an attribute is a `derive` list naming `d`.
pub open spec fn derive_names(a: ItemAttr, d: DerivePath) -> bool {
    match a {
        ItemAttr::Derive(l) => exists|j: int| 0 <= j < l@.len() && l@[j] == d,
        _ => false,
    }
}

/// Whether an item derives `d`.
pub open spec fn derives(attrs: Seq<ItemAttr>, d: DerivePath) -> bool {
    exists|i: int| 0 <= i < attrs.len() && derive_names(#[trigger] attrs[i], d)
}

/// The derives a struct declaration adds: `VersionedStructField` where a field
/// is marked `#[nv_version_field]`, `NvInherit` where a field is marked
/// `#[nv_inherit]`, then `VersionedStructField` where a field has type
/// `NvVersion`; each only where the struct does not derive it already.
pub open spec fn spec_added_derives(s: StructModel) -> Seq<DerivePath> {
    let f = s.fields@;
    let vsf = derives(s.attrs@, DerivePath::VersionedStructField);
    let ni = derives(s.attrs@, DerivePath::NvInherit);
    let version_attr = exists|i: int| 0 <= i < f.len() && has_version_field_attr(#[trigger] f[i].attrs@);
    let inherit_attr = exists|i: int| 0 <= i < f.len() && has_inherit_attr(#[trigger] f[i].attrs@);
    let version_type = exists|i: int| 0 <= i < f.len() && (#[trigger] f[i]).ty_is_nv_version;
    (if version_attr && !vsf { seq![DerivePath::VersionedStructField] } else { seq![] })
        + (if inherit_attr && !ni { seq![DerivePath::NvInherit] } else { seq![] })
        + (if version_type && !vsf { seq![DerivePath::VersionedStructField] } else { seq![] })
}

/// A padding rewrite: the field, the index of its `nv_align` attribute, and
/// the attribute's arguments (the field's array becomes as long as the bytes
/// that pad to the alignment of the type).
pub struct PaddingRewrite {
    pub field: usize,
    pub attr: usize,
    pub args: AlignArgs,
}

/// What a struct declaration adds and rewrites.
pub struct StructPlan {
    /// Whether `#[repr(C)]` is added (the struct has no `repr` of its own).
    pub add_repr_c: bool,
    pub derives: Vec<DerivePath>,
    pub padding: Vec<PaddingRewrite>,
}

/// The padding attributes of one field's attributes below `k`, in order.
pub open spec fn field_align_attrs(field: usize, attrs: Seq<FieldAttr>, k: nat) -> Seq<(usize, usize, Option<AlignArgs>)>
    decreases k,
{
    if k == 0 {
        seq![]
    } else {
        let p = field_align_attrs(field, attrs, (k - 1) as nat);
        match attrs[k - 1] {
            FieldAttr::Align(a) => p.push((field, (k - 1) as usize, a)),
            _ => p,
        }
    }
}

/// The padding attributes of the fields below `n`, in field and attribute order.
pub open spec fn align_attrs(fields: Seq<FieldModel>, n: nat) -> Seq<(usize, usize, Option<AlignArgs>)>
    decreases n,
{
    if n == 0 {
        seq![]
    } else {
        align_attrs(fields, (n - 1) as nat)
            + field_align_attrs((n - 1) as usize, fields[n - 1].attrs@, fields[n - 1].attrs@.len())
    }
}

/// The plan of a struct declaration: refused where a padding attribute's
/// arguments do not parse, then where a padded field is not an array.
pub open spec fn spec_nvstruct(s: StructModel) -> Result<(bool, Seq<DerivePath>, Seq<(usize, usize, AlignArgs)>), MacroError> {
    let a = align_attrs(s.fields@, s.fields@.len());
    if exists|i: int| 0 <= i < a.len() && (#[trigger] a[i]).2 is None {
        Err(MacroError::InvalidAttributeArguments)
    } else if exists|i: int| 0 <= i < a.len() && !s.fields@[(#[trigger] a[i]).0 as int].ty_is_array {
        Err(MacroError::PaddingNotByteArray)
    } else {
        Ok((!has_repr(s.attrs@), spec_added_derives(s), a.map_values(|e: (usize, usize, Option<AlignArgs>)| (e.0, e.1, e.2->0))))
    }
}

/// The plan as the spec tuple.
pub open spec fn plan_view(p: StructPlan) -> (bool, Seq<DerivePath>, Seq<(usize, usize, AlignArgs)>) {
    (p.add_repr_c, p.derives@, p.padding@.map_values(|r: PaddingRewrite| (r.field, r.attr, r.args)))
}

fn list_has(l: &Vec<DerivePath>, d: DerivePath) -> (r: bool)
    ensures
        r == (exists|j: int| 0 <= j < l@.len() && l@[j] == d),
{
    let mut i: usize = 0;
    while i < l.len()
        invariant
            i <= l@.len(),
            forall|j: int| 0 <= j < i ==> l@[j] != d,
        decreases l@.len() - i,
    {
        if l[i] == d {
            return true;
        }
        i += 1;
    }
    false
}

/// What a scan of an item's attributes found: a `repr`, and the derives.
struct ItemScan {
    repr: bool,
    vsf: bool,
    ni: bool,
}

fn scan_item_attrs(attrs: &Vec<ItemAttr>) -> (r: ItemScan)
    ensures
        r.repr == has_repr(attrs@),
        r.vsf == derives(attrs@, DerivePath::VersionedStructField),
        r.ni == derives(attrs@, DerivePath::NvInherit),
{
    let mut sc = ItemScan { repr: false, vsf: false, ni: false };
    let mut i: usize = 0;
    while i < attrs.len()
        invariant
            i <= attrs@.len(),
            sc.repr == (exists|k: int| 0 <= k < i && attrs@[k] is Repr),
            sc.vsf == (exists|k: int| 0 <= k < i && derive_names(#[trigger] attrs@[k], DerivePath::VersionedStructField)),
            sc.ni == (exists|k: int| 0 <= k < i && derive_names(#[trigger] attrs@[k], DerivePath::NvInherit)),
        decreases attrs@.len() - i,
    {
        match &attrs[i] {
            ItemAttr::Repr(..) => { sc.repr = true; },
            ItemAttr::Derive(l) => {
                if list_has(l, DerivePath::VersionedStructField) { sc.vsf = true; }
                if list_has(l, DerivePath::NvInherit) { sc.ni = true; }
            },
            _ => {},
        }
        i += 1;
    }
    sc
}

fn field_any_attrs(attrs: &Vec<FieldAttr>) -> (r: (bool, bool))
    ensures
        r.0 == has_version_field_attr(attrs@),
        r.1 == has_inherit_attr(attrs@),
{
    let mut v = false;
    let mut n = false;
    let mut i: usize = 0;
    while i < attrs.len()
        invariant
            i <= attrs@.len(),
            v == (exists|k: int| 0 <= k < i && attrs@[k] is VersionField),
            n == (exists|k: int| 0 <= k < i && attrs@[k] is Inherit),
        decreases attrs@.len() - i,
    {
        match &attrs[i] {
            FieldAttr::VersionField { .. } => { v = true; },
            FieldAttr::Inherit { .. } => { n = true; },
            _ => {},
        }
        i += 1;
    }
    (v, n)
}

fn copy_align(a: &Option<AlignArgs>) -> (r: Option<AlignArgs>)
    ensures
        r == *a,
{
    match a {
        Some(x) => Some(x.copy()),
        None => None,
    }
}

/// The padding attributes of all fields, in order.
fn collect_align_attrs(fields: &Vec<FieldModel>) -> (r: Vec<(usize, usize, Option<AlignArgs>)>)
    ensures
        r@ == align_attrs(fields@, fields@.len()),
{
    let mut all: Vec<(usize, usize, Option<AlignArgs>)> = Vec::new();
    let mut i: usize = 0;
    while i < fields.len()
        invariant
            i <= fields@.len(),
            all@ == align_attrs(fields@, i as nat),
        decreases fields@.len() - i,
    {
        let attrs = &fields[i].attrs;
        let mut k: usize = 0;
        while k < attrs.len()
            invariant
                i < fields@.len(),
                *attrs == fields@[i as int].attrs,
                k <= attrs@.len(),
                all@ == align_attrs(fields@, i as nat) + field_align_attrs(i, attrs@, k as nat),
            decreases attrs@.len() - k,
        {
            match &attrs[k] {
                FieldAttr::Align(a) => {
                    all.push((i, k, copy_align(a)));
                },
                _ => {},
            }
            proof {
                assert(all@ =~= align_attrs(fields@, i as nat) + field_align_attrs(i, attrs@, (k + 1) as nat));
            }
            k += 1;
        }
        proof {
            assert(align_attrs(fields@, (i + 1) as nat) == align_attrs(fields@, i as nat)
                + field_align_attrs(i, fields@[i as int].attrs@, fields@[i as int].attrs@.len()));
        }
        i += 1;
    }
    all
}

/// The plan of a struct declaration (`nvstruct!`, see `spec_nvstruct`).
#[allow(non_snake_case)]
pub fn NvStruct(s: &StructModel) -> (r: Result<StructPlan, MacroError>)
    ensures
        match r {
            Ok(p) => spec_nvstruct(*s) == Ok::<(bool, Seq<DerivePath>, Seq<(usize, usize, AlignArgs)>), MacroError>(plan_view(p)),
            Err(e) => spec_nvstruct(*s) == Err::<(bool, Seq<DerivePath>, Seq<(usize, usize, AlignArgs)>), MacroError>(e),
        },
{
    let items = scan_item_attrs(&s.attrs);
    let fields = &s.fields;
    let mut version_attr = false;
    let mut inherit_attr = false;
    let mut version_type = false;
    let mut i: usize = 0;
    while i < fields.len()
        invariant
            *fields == s.fields,
            i <= fields@.len(),
            version_attr == (exists|j: int| 0 <= j < i && has_version_field_attr(#[trigger] fields@[j].attrs@)),
            inherit_attr == (exists|j: int| 0 <= j < i && has_inherit_attr(#[trigger] fields@[j].attrs@)),
            version_type == (exists|j: int| 0 <= j < i && (#[trigger] fields@[j]).ty_is_nv_version),
        decreases fields@.len() - i,
    {
        let (v, n) = field_any_attrs(&fields[i].attrs);
        if v { version_attr = true; }
        if n { inherit_attr = true; }
        if fields[i].ty_is_nv_version { version_type = true; }
        i += 1;
    }
    let mut added: Vec<DerivePath> = Vec::new();
    if version_attr && !items.vsf { added.push(DerivePath::VersionedStructField); }
    if inherit_attr && !items.ni { added.push(DerivePath::NvInherit); }
    if version_type && !items.vsf { added.push(DerivePath::VersionedStructField); }
    assert(added@ =~= spec_added_derives(*s));

    let all = collect_align_attrs(fields);
    let mut j: usize = 0;
    while j < all.len()
        invariant
            *fields == s.fields,
            all@ == align_attrs(fields@, fields@.len()),
            j <= all@.len(),
            forall|m: int| 0 <= m < j ==> (#[trigger] all@[m]).2 is Some,
        decreases all@.len() - j,
    {
        if all[j].2.is_none() {
            return Err(MacroError::InvalidAttributeArguments);
        }
        j += 1;
    }
    let mut j: usize = 0;
    while j < all.len()
        invariant
            *fields == s.fields,
            all@ == align_attrs(fields@, fields@.len()),
            j <= all@.len(),
            forall|m: int| 0 <= m < all@.len() ==> (#[trigger] all@[m]).2 is Some,
            forall|m: int| 0 <= m < j ==> fields@[(#[trigger] all@[m]).0 as int].ty_is_array,
        decreases all@.len() - j,
    {
        let f = all[j].0;
        if f >= fields.len() || !fields[f].ty_is_array {
            proof { lemma_align_attrs_fields(fields@, fields@.len()); }
            return Err(MacroError::PaddingNotByteArray);
        }
        j += 1;
    }
    let mut padding: Vec<PaddingRewrite> = Vec::new();
    let mut j: usize = 0;
    while j < all.len()
        invariant
            j <= all@.len(),
            forall|m: int| 0 <= m < all@.len() ==> (#[trigger] all@[m]).2 is Some,
            padding@.len() == j,
            forall|m: int| 0 <= m < j ==> (#[trigger] padding@[m]).field == all@[m].0
                && padding@[m].attr == all@[m].1 && padding@[m].args == all@[m].2->0,
        decreases all@.len() - j,
    {
        let args = match &all[j].2 {
            Some(a) => a.copy(),
            None => { return Err(MacroError::InvalidAttributeArguments); },
        };
        padding.push(PaddingRewrite { field: all[j].0, attr: all[j].1, args });
        j += 1;
    }
    proof {
        assert(padding@.map_values(|r: PaddingRewrite| (r.field, r.attr, r.args))
            =~= all@.map_values(|e: (usize, usize, Option<AlignArgs>)| (e.0, e.1, e.2->0)));
    }
    Ok(StructPlan { add_repr_c: !items.repr, derives: added, padding })
}

/// Every padding attribute stands on one of the fields it was collected from.
proof fn lemma_align_attrs_fields(fields: Seq<FieldModel>, n: nat)
    requires
        n <= fields.len(),
    ensures
        forall|m: int| 0 <= m < align_attrs(fields, n).len() ==> (#[trigger] align_attrs(fields, n)[m]).0 < n,
    decreases n,
{
    if n > 0 {
        lemma_align_attrs_fields(fields, (n - 1) as nat);
        lemma_field_align_attrs_field((n - 1) as usize, fields[n - 1].attrs@, fields[n - 1].attrs@.len());
        let p = align_attrs(fields, (n - 1) as nat);
        let q = field_align_attrs((n - 1) as usize, fields[n - 1].attrs@, fields[n - 1].attrs@.len());
        assert forall|m: int| 0 <= m < align_attrs(fields, n).len() implies (#[trigger] align_attrs(fields, n)[m]).0 < n by {
            if m < p.len() {
                assert(align_attrs(fields, n)[m] == p[m]);
            } else {
                assert(align_attrs(fields, n)[m] == q[m - p.len()]);
            }
        }
    }
}

proof fn lemma_field_align_attrs_field(field: usize, attrs: Seq<FieldAttr>, k: nat)
    requires
        k <= attrs.len(),
    ensures
        forall|m: int| 0 <= m < field_align_attrs(field, attrs, k).len() ==> (#[trigger] field_align_attrs(field, attrs, k)[m]).0 == field,
    decreases k,
{
    if k > 0 {
        lemma_field_align_attrs_field(field, attrs, (k - 1) as nat);
        let p = field_align_attrs(field, attrs, (k - 1) as nat);
        assert forall|m: int| 0 <= m < field_align_attrs(field, attrs, k).len() implies (#[trigger] field_align_attrs(field, attrs, k)[m]).0 == field by {
            if m < p.len() {
                assert(field_align_attrs(field, attrs, k)[m] == p[m]);
            }
        }
    }
}

// ---------------------------------------------------------------------------
// Enum declarations (`nvenum!`, `derive(NvValueData)`) and flag sets (`nvbits!`).

/// The `repr` of an item: that of its first `repr` attribute, where there is one.
pub open spec fn spec_attrs_repr(attrs: Seq<ItemAttr>) -> Result<Option<String>, MacroError>
    decreases attrs.len(),
{
    if attrs.len() == 0 {
        Ok(None)
    } else {
        match attrs[0] {
            ItemAttr::Repr(ReprArgs::NotList) => Err(MacroError::ReprListRequired),
            ItemAttr::Repr(ReprArgs::List(None)) => Err(MacroError::InvalidRepr),
            ItemAttr::Repr(ReprArgs::List(Some(t))) => Ok(Some(t)),
            _ => spec_attrs_repr(attrs.drop_first()),
        }
    }
}

/// The `repr` of an item (see `spec_attrs_repr`).
pub fn attrs_repr(attrs: &Vec<ItemAttr>) -> (r: Result<Option<String>, MacroError>)
    ensures
        r == spec_attrs_repr(attrs@),
{
    let mut i: usize = 0;
    assert(attrs@.skip(0) =~= attrs@);
    while i < attrs.len()
        invariant
            i <= attrs@.len(),
            spec_attrs_repr(attrs@) == spec_attrs_repr(attrs@.skip(i as int)),
        decreases attrs@.len() - i,
    {
        assert(attrs@.skip(i as int).drop_first() =~= attrs@.skip(i as int + 1));
        match &attrs[i] {
            ItemAttr::Repr(ReprArgs::NotList) => { return Err(MacroError::ReprListRequired); },
            ItemAttr::Repr(ReprArgs::List(None)) => { return Err(MacroError::InvalidRepr); },
            ItemAttr::Repr(ReprArgs::List(Some(t))) => { return Ok(Some(t.clone())); },
            _ => {},
        }
        i += 1;
    }
    Ok(None)
}

/// The `repr` an enum of driver values must have.
pub open spec fn spec_attrs_require_repr(attrs: Seq<ItemAttr>) -> Result<String, MacroError> {
    match spec_attrs_repr(attrs) {
        Ok(Some(t)) => Ok(t),
        Ok(None) => Err(MacroError::ReprRequired),
        Err(e) => Err(e),
    }
}

/// The `repr` an enum of driver values must have (see `spec_attrs_require_repr`).
pub fn attrs_require_repr(attrs: &Vec<ItemAttr>) -> (r: Result<String, MacroError>)
    ensures
        r == spec_attrs_require_repr(attrs@),
{
    match attrs_repr(attrs) {
        Ok(Some(t)) => Ok(t),
        Ok(None) => Err(MacroError::ReprRequired),
        Err(e) => Err(e),
    }
}

/// The C name of an item: that of its last `nv_value_symbol` attribute, an
/// error where one of them does not parse, none where there is none.
pub open spec fn spec_symbol(attrs: Seq<ItemAttr>) -> Result<Option<String>, MacroError>
    decreases attrs.len(),
{
    if attrs.len() == 0 {
        Ok(None)
    } else {
        let prev = spec_symbol(attrs.drop_last());
        match attrs.last() {
            ItemAttr::Symbol(None) => Err(MacroError::InvalidAttributeArguments),
            ItemAttr::Symbol(Some(n)) => match prev {
                Err(e) => Err(e),
                Ok(_) => Ok(Some(n)),
            },
            _ => prev,
        }
    }
}

/// The C name an item must have.
pub open spec fn spec_require_symbol(attrs: Seq<ItemAttr>) -> Result<String, MacroError> {
    match spec_symbol(attrs) {
        Ok(Some(n)) => Ok(n),
        Ok(None) => Err(MacroError::SymbolRequired),
        Err(e) => Err(e),
    }
}

/// The C name an item must have (see `spec_require_symbol`).
pub fn require_symbol(attrs: &Vec<ItemAttr>) -> (r: Result<String, MacroError>)
    ensures
        r == spec_require_symbol(attrs@),
{
    let mut cur: Result<Option<String>, MacroError> = Ok(None);
    let mut i: usize = 0;
    while i < attrs.len()
        invariant
            i <= attrs@.len(),
            cur == spec_symbol(attrs@.subrange(0, i as int)),
        decreases attrs@.len() - i,
    {
        assert(attrs@.subrange(0, i as int + 1).drop_last() =~= attrs@.subrange(0, i as int));
        match &attrs[i] {
            ItemAttr::Symbol(None) => { cur = Err(MacroError::InvalidAttributeArguments); },
            ItemAttr::Symbol(Some(n)) => {
                if cur.is_ok() {
                    cur = Ok(Some(n.clone()));
                }
            },
            _ => {},
        }
        i += 1;
    }
    assert(attrs@.subrange(0, attrs@.len() as int) =~= attrs@);
    match cur {
        Ok(Some(n)) => Ok(n),
        Ok(None) => Err(MacroError::SymbolRequired),
        Err(e) => Err(e),
    }
}

/// One variant of an enum of driver values: its attributes and its value.
pub struct VariantModel {
    pub attrs: Vec<ItemAttr>,
    pub value: i64,
}

/// An enum of driver values (`derive(NvValueData)`).
pub struct EnumModel {
    pub attrs: Vec<ItemAttr>,
    pub variants: Vec<VariantModel>,
}

/// What `derive(NvValueData)` defines: the `repr`, the enum's C name, each
/// variant's C name, and the values in declaration order (`all_values`, and
/// the table `from_repr` looks a raw value up in, see `enum_from_raw`).
pub struct ValueDataPlan {
    pub repr: String,
    pub c_name: String,
    pub symbols: Vec<String>,
    pub values: Vec<i64>,
}

/// Whether some variant below `n` lacks a usable C name.
pub open spec fn symbols_fail_before(vs: Seq<VariantModel>, n: int) -> bool {
    exists|i: int| 0 <= i < n && spec_require_symbol((#[trigger] vs[i]).attrs@) is Err
}

/// The first failing variant's error below `n` (where there is one).
pub open spec fn first_symbol_error(vs: Seq<VariantModel>, n: nat) -> MacroError
    decreases n,
{
    if n == 0 {
        MacroError::SymbolRequired
    } else if symbols_fail_before(vs, (n - 1) as int) {
        first_symbol_error(vs, (n - 1) as nat)
    } else {
        spec_require_symbol(vs[n - 1].attrs@)->Err_0
    }
}

/// The plan of `derive(NvValueData)`: refused without a `repr`, without the
/// enum's C name, or at the first variant without one.
pub open spec fn spec_derive_value_data(e: EnumModel) -> Result<(String, String, Seq<String>, Seq<i64>), MacroError> {
    let vs = e.variants@;
    match spec_attrs_require_repr(e.attrs@) {
        Err(err) => Err(err),
        Ok(repr) => match spec_require_symbol(e.attrs@) {
            Err(err) => Err(err),
            Ok(c_name) => if symbols_fail_before(vs, vs.len() as int) {
                Err(first_symbol_error(vs, vs.len()))
            } else {
                Ok((repr, c_name,
                    vs.map_values(|v: VariantModel| spec_require_symbol(v.attrs@)->Ok_0),
                    vs.map_values(|v: VariantModel| v.value)))
            },
        },
    }
}

/// The plan of `derive(NvValueData)` (see `spec_derive_value_data`).
pub fn derive_value_data(e: &EnumModel) -> (r: Result<ValueDataPlan, MacroError>)
    ensures
        match r {
            Ok(p) => spec_derive_value_data(*e) == Ok::<(String, String, Seq<String>, Seq<i64>), MacroError>((p.repr, p.c_name, p.symbols@, p.values@)),
            Err(err) => spec_derive_value_data(*e) == Err::<(String, String, Seq<String>, Seq<i64>), MacroError>(err),
        },
{
    let repr = match attrs_require_repr(&e.attrs) {
        Ok(r) => r,
        Err(err) => { return Err(err); },
    };
    let c_name = match require_symbol(&e.attrs) {
        Ok(n) => n,
        Err(err) => { return Err(err); },
    };
    let vs = &e.variants;
    let mut symbols: Vec<String> = Vec::new();
    let mut values: Vec<i64> = Vec::new();
    let mut i: usize = 0;
    while i < vs.len()
        invariant
            *vs == e.variants,
            spec_attrs_require_repr(e.attrs@) == Ok::<String, MacroError>(repr),
            spec_require_symbol(e.attrs@) == Ok::<String, MacroError>(c_name),
            i <= vs@.len(),
            !symbols_fail_before(vs@, i as int),
            symbols@ == vs@.subrange(0, i as int).map_values(|v: VariantModel| spec_require_symbol(v.attrs@)->Ok_0),
            values@ == vs@.subrange(0, i as int).map_values(|v: VariantModel| v.value),
        decreases vs@.len() - i,
    {
        match require_symbol(&vs[i].attrs) {
            Ok(n) => {
                symbols.push(n);
                values.push(vs[i].value);
                proof {
                    assert(symbols@ =~= vs@.subrange(0, i as int + 1).map_values(|v: VariantModel| spec_require_symbol(v.attrs@)->Ok_0));
                    assert(values@ =~= vs@.subrange(0, i as int + 1).map_values(|v: VariantModel| v.value));
                    assert forall|k: int| 0 <= k < i + 1 implies spec_require_symbol((#[trigger] vs@[k]).attrs@) is Ok by {
                        if k < i {
                            assert(!(spec_require_symbol(vs@[k].attrs@) is Err));
                        }
                    }
                }
            },
            Err(err) => {
                proof {
                    assert(spec_require_symbol(vs@[i as int].attrs@) is Err);
                    assert(symbols_fail_before(vs@, vs@.len() as int));
                    lemma_first_symbol_error(vs@, i as nat, vs@.len());
                }
                return Err(err);
            },
        }
        i += 1;
    }
    proof {
        assert(vs@.subrange(0, vs@.len() as int) =~= vs@);
    }
    Ok(ValueDataPlan { repr, c_name, symbols, values })
}

/// Where variant `i` is the first without a C name, its error is the first error.
proof fn lemma_first_symbol_error(vs: Seq<VariantModel>, i: nat, n: nat)
    requires
        i < n <= vs.len(),
        !symbols_fail_before(vs, i as int),
        spec_require_symbol(vs[i as int].attrs@) is Err,
    ensures
        first_symbol_error(vs, n) == spec_require_symbol(vs[i as int].attrs@)->Err_0,
    decreases n,
{
    if n > i + 1 {
        assert(symbols_fail_before(vs, (n - 1) as int));
        lemma_first_symbol_error(vs, i, (n - 1) as nat);
    }
}

/// One value of an `nvenum!` declaration: its C name, its name, its value.
pub struct NvEnumValue {
    pub symbol: String,
    pub ident: String,
    pub value: i64,
}

/// An `nvenum!` declaration: the `repr` of its raw values and its values in
/// declaration order.
pub struct NvEnumBody {
    pub repr: String,
    pub variants: Vec<NvEnumValue>,
}

/// The values of a declaration, in declaration order.
pub open spec fn enum_values(vs: Seq<NvEnumValue>) -> Seq<i64> {
    vs.map_values(|v: NvEnumValue| v.value)
}

/// The `repr` of a declaration: the `repr` attribute's type, else `default`.
pub open spec fn spec_repr_or(attrs: Seq<ItemAttr>, default: Seq<char>) -> Result<Seq<char>, MacroError> {
    match spec_attrs_repr(attrs) {
        Ok(Some(t)) => Ok(t@),
        Ok(None) => Ok(default),
        Err(e) => Err(e),
    }
}

/// An `nvenum!` declaration with its attributes read: the raw type is the
/// `repr` given, else `i32`.
pub fn nvenum(attrs: &Vec<ItemAttr>, variants: Vec<NvEnumValue>) -> (r: Result<NvEnumBody, MacroError>)
    ensures
        match r {
            Ok(b) => spec_repr_or(attrs@, "i32"@) == Ok::<Seq<char>, MacroError>(b.repr@) && b.variants@ == variants@,
            Err(e) => spec_repr_or(attrs@, "i32"@) == Err::<Seq<char>, MacroError>(e),
        },
{
    let repr = match attrs_repr(attrs) {
        Ok(Some(t)) => t,
        Ok(None) => String::from_str("i32"),
        Err(e) => { return Err(e); },
    };
    Ok(NvEnumBody { repr, variants })
}

impl NvEnumBody {
    /// The values, in declaration order (`values()`).
    pub fn values(&self) -> (r: Vec<i64>)
        ensures
            r@ == enum_values(self.variants@),
    {
        let mut out: Vec<i64> = Vec::new();
        let mut i: usize = 0;
        while i < self.variants.len()
            invariant
                i <= self.variants@.len(),
                out@ == enum_values(self.variants@.subrange(0, i as int)),
            decreases self.variants@.len() - i,
        {
            out.push(self.variants[i].value);
            i += 1;
            assert(out@ =~= enum_values(self.variants@.subrange(0, i as int)));
        }
        assert(self.variants@.subrange(0, self.variants@.len() as int) =~= self.variants@);
        out
    }

    /// The variant of a raw value (`from_raw`, `TryFrom`): the one with that
    /// value, else an out-of-range error.
    pub fn from_raw(&self, raw: i64) -> (r: Result<usize, ArgumentRangeError>)
        ensures
            match r {
                Ok(i) => i < self.variants@.len() && self.variants@[i as int].value == raw
                    && absent_before(enum_values(self.variants@), raw, i as int),
                Err(_) => absent_before(enum_values(self.variants@), raw, self.variants@.len() as int),
            },
    {
        let values = self.values();
        enum_from_raw(&values, raw)
    }

    /// The raw value of a variant (`raw`, `Into`).
    pub fn raw(&self, variant: usize) -> (r: i64)
        requires
            variant < self.variants@.len(),
        ensures
            r == self.variants@[variant as int].value,
    {
        self.variants[variant].value
    }
}

/// One flag of an `nvbits!` declaration: its C name, its name, its bits.
pub struct NvBitsValue {
    pub symbol: String,
    pub ident: String,
    pub value: u64,
}

/// An `nvbits!` declaration: the `repr` of its raw values and its flags in
/// declaration order.
pub struct NvBitsBody {
    pub repr: String,
    pub flags: Vec<NvBitsValue>,
}

/// The bits of each flag, in declaration order.
pub open spec fn flag_values(fs: Seq<NvBitsValue>) -> Seq<u64> {
    fs.map_values(|f: NvBitsValue| f.value)
}

/// An `nvbits!` declaration with its attributes read: the raw type is the
/// `repr` given, else `u32`.
pub fn nvbits(attrs: &Vec<ItemAttr>, flags: Vec<NvBitsValue>) -> (r: Result<NvBitsBody, MacroError>)
    ensures
        match r {
            Ok(b) => spec_repr_or(attrs@, "u32"@) == Ok::<Seq<char>, MacroError>(b.repr@) && b.flags@ == flags@,
            Err(e) => spec_repr_or(attrs@, "u32"@) == Err::<Seq<char>, MacroError>(e),
        },
{
    let repr = match attrs_repr(attrs) {
        Ok(Some(t)) => t,
        Ok(None) => String::from_str("u32"),
        Err(e) => { return Err(e); },
    };
    Ok(NvBitsBody { repr, flags })
}

/// The first flag below `n` that `set` holds all the bits of, where there is one.
pub open spec fn first_contained(values: Seq<u64>, set: u64, i: int) -> bool {
    0 <= i < values.len() && contains_bits(set, values[i])
        && forall|j: int| 0 <= j < i ==> !contains_bits(set, #[trigger] values[j])
}

impl NvBitsBody {
    /// The bits of each flag, in declaration order.
    pub fn values(&self) -> (r: Vec<u64>)
        ensures
            r@ == flag_values(self.flags@),
    {
        let mut out: Vec<u64> = Vec::new();
        let mut i: usize = 0;
        while i < self.flags.len()
            invariant
                i <= self.flags@.len(),
                out@ == flag_values(self.flags@.subrange(0, i as int)),
            decreases self.flags@.len() - i,
        {
            out.push(self.flags[i].value);
            i += 1;
            assert(out@ =~= flag_values(self.flags@.subrange(0, i as int)));
        }
        assert(self.flags@.subrange(0, self.flags@.len() as int) =~= self.flags@);
        out
    }

    /// All the declared bits (`all()`).
    pub fn all(&self) -> (r: u64)
        ensures
            r == all_bits(flag_values(self.flags@)),
    {
        let values = self.values();
        flags_all(&values)
    }

    /// The flag set of a raw value (`TryFrom`, `from_bits`): refused where it
    /// holds a bit that no flag declares.
    pub fn try_from(&self, value: u64) -> (r: Result<u64, ArgumentRangeError>)
        ensures
            value & !all_bits(flag_values(self.flags@)) == 0 ==> r == Ok::<u64, ArgumentRangeError>(value),
            value & !all_bits(flag_values(self.flags@)) != 0 ==> r == Err::<u64, ArgumentRangeError>(ArgumentRangeError),
    {
        let all = self.all();
        if value & !all == 0 { Ok(value) } else { Err(ArgumentRangeError) }
    }

    /// One step of walking a flag set (`Iterator::next`): the first declared
    /// flag whose bits the set holds all of, and the set without those bits;
    /// none, and the set unchanged, where there is no such flag.
    pub fn next(&self, set: u64) -> (r: (Option<usize>, u64))
        ensures
            match r.0 {
                Some(i) => first_contained(flag_values(self.flags@), set, i as int)
                    && r.1 == set & !flag_values(self.flags@)[i as int],
                None => r.1 == set && forall|j: int| 0 <= j < self.flags@.len()
                    ==> !contains_bits(set, #[trigger] flag_values(self.flags@)[j]),
            },
    {
        let values = self.values();
        let mut i: usize = 0;
        while i < values.len()
            invariant
                values@ == flag_values(self.flags@),
                i <= values@.len(),
                forall|j: int| 0 <= j < i ==> !contains_bits(set, #[trigger] values@[j]),
            decreases values@.len() - i,
        {
            if set & values[i] == values[i] {
                return (Some(i), set & !values[i]);
            }
            i += 1;
        }
        (None, set)
    }
}

/// A raw value read from a variant leads back to that variant, where the
/// variants' values are distinct: no other index meets `from_raw`'s answer.
pub proof fn lemma_enum_raw_roundtrip(values: Seq<i64>, i: int, k: int)
    requires
        0 <= i < values.len(),
        forall|a: int, b: int| 0 <= a < b < values.len() ==> values[a] != values[b],
        0 <= k < values.len(),
        values[k] == values[i],
        absent_before(values, values[i], k),
    ensures
        k == i,
{
    if k < i {
        assert(values[k] != values[i]);
    } else if k > i {
        assert(values[i] != values[i]);
    }
}

/// The set of all declared flags, and any set of them, is accepted: it holds
/// no undeclared bit.
pub proof fn lemma_declared_bits_accepted(all: u64, value: u64)
    requires
        value & all == value,
    ensures
        value & !all == 0,
{
    assert(value & all == value ==> value & !all == 0) by (bit_vector);
}
// ---------------------------------------------------------------------------
// Function declarations (`nvapi!`).

/// A token of an `nvapi!` declaration: keywords and punctuation, names,
/// string literals, types (as the type parser hands them on), and delimited
/// groups with their tokens.
pub enum Tok {
    Pub,
    Crate,
    Super,
    In,
    SelfValue,
    Type,
    Eq,
    Extern,
    Fn,
    Unsafe,
    Impl,
    Arrow,
    Semi,
    Colon,
    Comma,
    Pound,
    Ident(String),
    Str(String),
    Ty(String),
    Paren(Vec<Tok>),
    Brace(Vec<Tok>),
    Bracket(Vec<Tok>),
    Other,
}

/// A visibility.
#[derive(Copy, Clone, Debug, PartialEq, Eq, Structural)]
pub enum Vis {
    Inherited,
    Public,
    /// `pub(crate)`, `pub(self)`, `pub(super)` or `pub(in path)`.
    Restricted,
}

/// One argument of a declared function: its name and type.
pub struct NvApiArg {
    pub ident: String,
    pub ty: String,
}

/// A declared driver function: the function type it names first (its name
/// and ABI) where there is one, its attribute count, visibility, whether it
/// is unsafe, its name, arguments and result type, and the method it also
/// declares on its first argument's type (`impl self { .. fn Name; }`).
pub struct NvApiBody {
    pub fn_type: Option<(String, String)>,
    pub attrs: usize,
    pub vis: Vis,
    pub is_unsafe: bool,
    pub ident: String,
    pub args: Vec<NvApiArg>,
    pub result: Option<String>,
    pub self_ident: Option<(Vis, String)>,
}

/// A declared function, as its tokens give it.
pub struct NvApiBodyView {
    pub fn_type: Option<(String, String)>,
    pub attrs: nat,
    pub vis: Vis,
    pub is_unsafe: bool,
    pub ident: String,
    pub args: Seq<(String, String)>,
    pub result: Option<String>,
    pub self_ident: Option<(Vis, String)>,
}

impl NvApiBody {
    pub open spec fn view(&self) -> NvApiBodyView {
        NvApiBodyView {
            fn_type: self.fn_type,
            attrs: self.attrs as nat,
            vis: self.vis,
            is_unsafe: self.is_unsafe,
            ident: self.ident,
            args: self.args@.map_values(|a: NvApiArg| (a.ident, a.ty)),
            result: self.result,
            self_ident: self.self_ident,
        }
    }
}

/// Whether a parenthesized group restricts a visibility: `crate`, `self`,
/// `super`, or `in` and a path.
pub open spec fn restricts(c: Seq<Tok>) -> bool {
    (c.len() == 1 && (c[0] is Crate || c[0] is SelfValue || c[0] is Super)) || (c.len() >= 1 && c[0] is In)
}

/// The visibility at `i` and where it ends (none, `pub`, or `pub` and a
/// restriction).
pub open spec fn vis_at(t: Seq<Tok>, i: int) -> (Vis, int) {
    if 0 <= i < t.len() && t[i] is Pub {
        if i + 1 < t.len() && (t[i + 1] matches Tok::Paren(c) && restricts(c@)) {
            (Vis::Restricted, i + 2)
        } else {
            (Vis::Public, i + 1)
        }
    } else {
        (Vis::Inherited, i)
    }
}

/// The number of outer attributes (`#` and a bracketed group) from `i`, and
/// where they end.
pub open spec fn attrs_at(t: Seq<Tok>, i: int) -> (nat, int)
    decreases t.len() - i,
{
    if 0 <= i && i + 1 < t.len() && t[i] is Pound && t[i + 1] is Bracket {
        let (n, j) = attrs_at(t, i + 2);
        (n + 1, j)
    } else {
        (0, i)
    }
}

/// The arguments of a group's tokens from `i`: `name: Type`, separated by
/// commas, a trailing comma allowed.
pub open spec fn args_from(c: Seq<Tok>, i: int) -> Option<Seq<(String, String)>>
    decreases c.len() - i,
{
    if i < 0 || i > c.len() {
        None
    } else if i == c.len() {
        Some(seq![])
    } else if i + 2 < c.len() && c[i] is Ident && c[i + 1] is Colon && c[i + 2] is Ty {
        let a = (c[i]->Ident_0, c[i + 2]->Ty_0);
        if i + 3 == c.len() {
            Some(seq![a])
        } else if c[i + 3] is Comma {
            match args_from(c, i + 4) {
                Some(rest) => Some(seq![a] + rest),
                None => None,
            }
        } else {
            None
        }
    } else {
        None
    }
}

/// The result type at `i`, where there is one (`->` and a type), and where
/// it ends; `None` where `->` is not followed by a type.
pub open spec fn result_at(t: Seq<Tok>, i: int) -> Option<(Option<String>, int)> {
    if 0 <= i < t.len() && t[i] is Arrow {
        if i + 1 < t.len() && t[i + 1] is Ty { Some((Some(t[i + 1]->Ty_0), i + 2)) } else { None }
    } else {
        Some((None, i))
    }
}

/// The method declared in an `impl self` group: a visibility, `fn`, a name
/// and `;`, and nothing more.
pub open spec fn self_method(b: Seq<Tok>) -> Option<(Vis, String)> {
    let (v, q) = vis_at(b, 0);
    if q + 3 == b.len() && b[q] is Fn && b[q + 1] is Ident && b[q + 2] is Semi {
        Some((v, b[q + 1]->Ident_0))
    } else {
        None
    }
}

/// The end of a declaration at `p`: `;`, then optionally `impl self { .. }`,
/// then nothing.
pub open spec fn tail_at(t: Seq<Tok>, p: int) -> Option<Option<(Vis, String)>> {
    if !(0 <= p < t.len() && t[p] is Semi) {
        None
    } else if p + 2 < t.len() && t[p + 1] is Impl && t[p + 2] is SelfValue {
        if p + 4 == t.len() && (t[p + 3] matches Tok::Brace(b) && self_method(b@) is Some) {
            Some(self_method(t[p + 3]->Brace_0@))
        } else {
            None
        }
    } else if p + 1 == t.len() {
        Some(None)
    } else {
        None
    }
}

/// The function part at `i`: attributes, a visibility, `unsafe` where it is
/// unsafe, `fn` and a name; the attribute count, visibility, unsafety, name
/// and where it ends.
pub open spec fn fn_head_at(t: Seq<Tok>, i: int) -> Option<(nat, Vis, bool, String, int)> {
    let (n, j) = attrs_at(t, i);
    let (v, k) = vis_at(t, j);
    let u = 0 <= k < t.len() && t[k] is Unsafe;
    let f = if u { k + 1 } else { k };
    if 0 <= f && f + 1 < t.len() && t[f] is Fn && t[f + 1] is Ident {
        Some((n, v, u, t[f + 1]->Ident_0, f + 2))
    } else {
        None
    }
}

/// A declaration of a driver function (`NvApiBody::parse`): either a
/// function type `pub type Name = extern "abi" fn(args) -> Result;` followed
/// by the function (attributes, visibility, `unsafe`, `fn Name`), or the
/// function with its arguments and result; then `;`, then optionally a
/// method declared on the first argument's type.
pub open spec fn spec_nvapi_body(t: Seq<Tok>) -> Option<NvApiBodyView> {
    if t.len() >= 2 && t[0] is Pub && t[1] is Type {
        if t.len() > 7 && t[2] is Ident && t[3] is Eq && t[4] is Extern && t[5] is Str && t[6] is Fn && t[7] is Paren {
            match result_at(t, 8) {
                None => None,
                Some((res, k)) => if k < t.len() && t[k] is Semi {
                    match (fn_head_at(t, k + 1), args_from(t[7]->Paren_0@, 0)) {
                        (Some((n, v, u, name, p)), Some(args)) => match tail_at(t, p) {
                            Some(si) => Some(NvApiBodyView {
                                fn_type: Some((t[2]->Ident_0, t[5]->Str_0)),
                                attrs: n, vis: v, is_unsafe: u, ident: name, args, result: res, self_ident: si,
                            }),
                            None => None,
                        },
                        _ => None,
                    }
                } else {
                    None
                },
            }
        } else {
            None
        }
    } else {
        match fn_head_at(t, 0) {
            None => None,
            Some((n, v, u, name, p0)) => if p0 < t.len() && t[p0] is Paren {
                match (result_at(t, p0 + 1), args_from(t[p0]->Paren_0@, 0)) {
                    (Some((res, p)), Some(args)) => match tail_at(t, p) {
                        Some(si) => Some(NvApiBodyView {
                            fn_type: None, attrs: n, vis: v, is_unsafe: u, ident: name, args, result: res, self_ident: si,
                        }),
                        None => None,
                    },
                    _ => None,
                }
            } else {
                None
            },
        }
    }
}

fn restricts_exec(c: &Vec<Tok>) -> (r: bool)
    ensures
        r == restricts(c@),
{
    if c.len() == 1 {
        match &c[0] {
            Tok::Crate | Tok::SelfValue | Tok::Super | Tok::In => true,
            _ => false,
        }
    } else if c.len() >= 1 {
        match &c[0] {
            Tok::In => true,
            _ => false,
        }
    } else {
        false
    }
}

fn vis_at_exec(t: &Vec<Tok>, i: usize) -> (r: (Vis, usize))
    requires
        i <= t@.len(),
    ensures
        (r.0, r.1 as int) == vis_at(t@, i as int),
        r.1 <= t@.len(),
{
    if i < t.len() {
        match &t[i] {
            Tok::Pub => {
                if i + 1 < t.len() {
                    match &t[i + 1] {
                        Tok::Paren(c) => if restricts_exec(c) { return (Vis::Restricted, i + 2); },
                        _ => {},
                    }
                }
                (Vis::Public, i + 1)
            },
            _ => (Vis::Inherited, i),
        }
    } else {
        (Vis::Inherited, i)
    }
}

fn attrs_at_exec(t: &Vec<Tok>, i: usize) -> (r: (usize, usize))
    requires
        i <= t@.len(),
    ensures
        (r.0 as nat, r.1 as int) == attrs_at(t@, i as int),
        r.1 <= t@.len(),
{
    let mut n: usize = 0;
    let mut j: usize = i;
    while t.len() - j > 1
        invariant
            i <= j <= t@.len(),
            n <= j,
            attrs_at(t@, i as int) == ((n + attrs_at(t@, j as int).0) as nat, attrs_at(t@, j as int).1),
        decreases t@.len() - j,
    {
        let attr = match (&t[j], &t[j + 1]) {
            (Tok::Pound, Tok::Bracket(..)) => true,
            _ => false,
        };
        if !attr {
            return (n, j);
        }
        n = n + 1;
        j = j + 2;
    }
    (n, j)
}

fn args_exec(c: &Vec<Tok>) -> (r: Option<Vec<NvApiArg>>)
    ensures
        match r {
            Some(v) => args_from(c@, 0) == Some(v@.map_values(|a: NvApiArg| (a.ident, a.ty))),
            None => args_from(c@, 0) is None,
        },
{
    let mut acc: Vec<NvApiArg> = Vec::new();
    let mut i: usize = 0;
    assert(seq![] + Seq::<(String, String)>::empty() =~= Seq::<(String, String)>::empty());
    loop
        invariant
            i <= c@.len(),
            args_from(c@, 0) == (match args_from(c@, i as int) {
                Some(rest) => Some(acc@.map_values(|a: NvApiArg| (a.ident, a.ty)) + rest),
                None => None,
            }),
        decreases c@.len() - i,
    {
        if i == c.len() {
            assert(acc@.map_values(|a: NvApiArg| (a.ident, a.ty)) + seq![] =~= acc@.map_values(|a: NvApiArg| (a.ident, a.ty)));
            return Some(acc);
        }
        if c.len() - i <= 2 {
            return None;
        }
        let (ident, ty) = match (&c[i], &c[i + 1], &c[i + 2]) {
            (Tok::Ident(n), Tok::Colon, Tok::Ty(t)) => (n.clone(), t.clone()),
            _ => { return None; },
        };
        let ghost before = acc@.map_values(|a: NvApiArg| (a.ident, a.ty));
        acc.push(NvApiArg { ident, ty });
        assert(acc@.map_values(|a: NvApiArg| (a.ident, a.ty)) =~= before + seq![(c@[i as int]->Ident_0, c@[i as int + 2]->Ty_0)]);
        if i + 3 == c.len() {
            assert(before + seq![(c@[i as int]->Ident_0, c@[i as int + 2]->Ty_0)] + seq![]
                =~= before + seq![(c@[i as int]->Ident_0, c@[i as int + 2]->Ty_0)]);
            return Some(acc);
        }
        match &c[i + 3] {
            Tok::Comma => {},
            _ => { return None; },
        }
        proof {
            match args_from(c@, i as int + 4) {
                Some(rest) => {
                    assert(before + (seq![(c@[i as int]->Ident_0, c@[i as int + 2]->Ty_0)] + rest)
                        =~= acc@.map_values(|a: NvApiArg| (a.ident, a.ty)) + rest);
                },
                None => {},
            }
        }
        i = i + 4;
    }
}

fn result_at_exec(t: &Vec<Tok>, i: usize) -> (r: Option<(Option<String>, usize)>)
    requires
        i <= t@.len(),
    ensures
        match r {
            Some((res, k)) => result_at(t@, i as int) == Some((res, k as int)) && k <= t@.len(),
            None => result_at(t@, i as int) is None,
        },
{
    if i < t.len() {
        match &t[i] {
            Tok::Arrow => {
                if i + 1 < t.len() {
                    match &t[i + 1] {
                        Tok::Ty(ty) => Some((Some(ty.clone()), i + 2)),
                        _ => None,
                    }
                } else {
                    None
                }
            },
            _ => Some((None, i)),
        }
    } else {
        Some((None, i))
    }
}

fn self_method_exec(b: &Vec<Tok>) -> (r: Option<(Vis, String)>)
    ensures
        r == self_method(b@),
{
    let (v, q) = vis_at_exec(b, 0);
    if q + 3 == b.len() {
        match (&b[q], &b[q + 1], &b[q + 2]) {
            (Tok::Fn, Tok::Ident(n), Tok::Semi) => Some((v, n.clone())),
            _ => None,
        }
    } else {
        None
    }
}

fn tail_at_exec(t: &Vec<Tok>, p: usize) -> (r: Option<Option<(Vis, String)>>)
    requires
        p <= t@.len(),
    ensures
        r == tail_at(t@, p as int),
{
    if p >= t.len() {
        return None;
    }
    match &t[p] {
        Tok::Semi => {},
        _ => { return None; },
    }
    let is_impl_self = if t.len() - p > 2 {
        match (&t[p + 1], &t[p + 2]) {
            (Tok::Impl, Tok::SelfValue) => true,
            _ => false,
        }
    } else {
        false
    };
    if is_impl_self {
        if t.len() - p == 4 {
            match &t[p + 3] {
                Tok::Brace(b) => match self_method_exec(b) {
                    Some(m) => Some(Some(m)),
                    None => None,
                },
                _ => None,
            }
        } else {
            None
        }
    } else if p + 1 == t.len() {
        Some(None)
    } else {
        None
    }
}

fn fn_head_exec(t: &Vec<Tok>, i: usize) -> (r: Option<(usize, Vis, bool, String, usize)>)
    requires
        i <= t@.len(),
    ensures
        match r {
            Some((n, v, u, name, p)) => fn_head_at(t@, i as int) == Some((n as nat, v, u, name, p as int)) && p <= t@.len(),
            None => fn_head_at(t@, i as int) is None,
        },
{
    let (n, j) = attrs_at_exec(t, i);
    let (v, k) = vis_at_exec(t, j);
    let u = k < t.len() && match &t[k] { Tok::Unsafe => true, _ => false };
    let f = if u { k + 1 } else { k };
    if f < t.len() && t.len() - f > 1 {
        match (&t[f], &t[f + 1]) {
            (Tok::Fn, Tok::Ident(name)) => Some((n, v, u, name.clone(), f + 2)),
            _ => None,
        }
    } else {
        None
    }
}

impl NvApiBody {
    /// Reads a driver function declaration (see `spec_nvapi_body`).
    pub fn parse(t: &Vec<Tok>) -> (r: Result<NvApiBody, MacroError>)
        ensures
            match r {
                Ok(b) => spec_nvapi_body(t@) == Some(b.view()),
                Err(e) => spec_nvapi_body(t@) is None && e == MacroError::UnexpectedToken,
            },
    {
        let fn_type_form = t.len() >= 2 && match (&t[0], &t[1]) { (Tok::Pub, Tok::Type) => true, _ => false };
        if fn_type_form {
            if t.len() <= 7 {
                return Err(MacroError::UnexpectedToken);
            }
            let (tn, abi, c) = match (&t[2], &t[3], &t[4], &t[5], &t[6], &t[7]) {
                (Tok::Ident(tn), Tok::Eq, Tok::Extern, Tok::Str(abi), Tok::Fn, Tok::Paren(c)) => (tn.clone(), abi.clone(), c),
                _ => { return Err(MacroError::UnexpectedToken); },
            };
            let (res, k) = match result_at_exec(t, 8) {
                Some(x) => x,
                None => { return Err(MacroError::UnexpectedToken); },
            };
            if k >= t.len() {
                return Err(MacroError::UnexpectedToken);
            }
            match &t[k] {
                Tok::Semi => {},
                _ => { return Err(MacroError::UnexpectedToken); },
            }
            let (n, v, u, name, p) = match fn_head_exec(t, k + 1) {
                Some(h) => h,
                None => { return Err(MacroError::UnexpectedToken); },
            };
            let args = match args_exec(c) {
                Some(a) => a,
                None => { return Err(MacroError::UnexpectedToken); },
            };
            let si = match tail_at_exec(t, p) {
                Some(si) => si,
                None => { return Err(MacroError::UnexpectedToken); },
            };
            Ok(NvApiBody { fn_type: Some((tn, abi)), attrs: n, vis: v, is_unsafe: u, ident: name, args, result: res, self_ident: si })
        } else {
            let (n, v, u, name, p0) = match fn_head_exec(t, 0) {
                Some(h) => h,
                None => { return Err(MacroError::UnexpectedToken); },
            };
            if p0 >= t.len() {
                return Err(MacroError::UnexpectedToken);
            }
            let c = match &t[p0] {
                Tok::Paren(c) => c,
                _ => { return Err(MacroError::UnexpectedToken); },
            };
            let (res, p) = match result_at_exec(t, p0 + 1) {
                Some(x) => x,
                None => { return Err(MacroError::UnexpectedToken); },
            };
            let args = match args_exec(c) {
                Some(a) => a,
                None => { return Err(MacroError::UnexpectedToken); },
            };
            let si = match tail_at_exec(t, p) {
                Some(si) => si,
                None => { return Err(MacroError::UnexpectedToken); },
            };
            Ok(NvApiBody { fn_type: None, attrs: n, vis: v, is_unsafe: u, ident: name, args, result: res, self_ident: si })
        }
    }
}

} // verus!
