use nvapi::declare::{
    AlignArgs, DerivePath, EnumModel, FieldAttr, FieldModel, ItemAttr, MacroError, NvBitsValue, NvEnumValue,
    ReprArgs, StructModel, VariantModel, NvStruct, derive_inherit, derive_value_data, derive_versioned_struct,
    nvbits, nvenum, enum_from_raw, attrs_repr, attrs_require_repr, require_symbol, flags_all,
    Tok, Vis, NvApiBody,
};
use nvapi::status::ArgumentRangeError;

fn field(named: bool, attrs: Vec<FieldAttr>, version: bool, array: bool) -> FieldModel {
    FieldModel { named, attrs, ty_is_nv_version: version, ty_is_array: array }
}

fn plain(version: bool) -> FieldModel {
    field(true, vec![], version, false)
}

#[test]
fn versioned_struct_plan() {
    // `version: NvVersion` and three plain fields, deriving Copy only.
    let s = StructModel {
        attrs: vec![ItemAttr::Derive(vec![DerivePath::Other])],
        fields: vec![plain(true), plain(false), plain(false), plain(false)],
    };
    let p = NvStruct(&s).unwrap();
    assert!(p.add_repr_c);
    assert_eq!(p.derives, vec![DerivePath::VersionedStructField]);
    assert!(p.padding.is_empty());
    assert_eq!(derive_versioned_struct(&s), Ok(0));
    assert_eq!(derive_inherit(&s), Err(MacroError::InheritFieldMissing));

    // Already deriving it, with a repr of its own: nothing is added.
    let d = StructModel {
        attrs: vec![ItemAttr::Repr(ReprArgs::List(Some(String::from("C")))), ItemAttr::Derive(vec![DerivePath::VersionedStructField])],
        fields: vec![plain(true)],
    };
    let p = NvStruct(&d).unwrap();
    assert!(!p.add_repr_c);
    assert!(p.derives.is_empty());
}

#[test]
fn inherit_and_version_markers() {
    // `#[nv_inherit] v1: V1` then another field.
    let s = StructModel {
        attrs: vec![],
        fields: vec![field(true, vec![FieldAttr::Inherit { has_args: false }], false, false), plain(false)],
    };
    assert_eq!(derive_inherit(&s), Ok(0));
    assert_eq!(NvStruct(&s).unwrap().derives, vec![DerivePath::NvInherit]);
    // A single unmarked field is inherited.
    let one = StructModel { attrs: vec![], fields: vec![field(false, vec![], false, false)] };
    assert_eq!(derive_inherit(&one), Ok(0));
    let two = StructModel {
        attrs: vec![],
        fields: vec![
            field(true, vec![FieldAttr::Inherit { has_args: false }], false, false),
            field(true, vec![FieldAttr::Inherit { has_args: false }], false, false),
        ],
    };
    assert_eq!(derive_inherit(&two), Err(MacroError::MultipleFieldsSpecified));
    let args = StructModel { attrs: vec![], fields: vec![field(true, vec![FieldAttr::Inherit { has_args: true }], false, false)] };
    assert_eq!(derive_inherit(&args), Err(MacroError::AttributeTakesNoArguments));

    // An explicit version field wins over a field of type NvVersion.
    let v = StructModel {
        attrs: vec![],
        fields: vec![plain(true), field(true, vec![FieldAttr::VersionField { has_args: false }], false, false)],
    };
    assert_eq!(derive_versioned_struct(&v), Ok(1));
    assert_eq!(
        NvStruct(&v).unwrap().derives,
        vec![DerivePath::VersionedStructField, DerivePath::VersionedStructField],
    );
    let none = StructModel { attrs: vec![], fields: vec![plain(false)] };
    assert_eq!(derive_versioned_struct(&none), Err(MacroError::VersionFieldMissing));
    let many = StructModel {
        attrs: vec![],
        fields: vec![
            field(true, vec![FieldAttr::VersionField { has_args: false }], false, false),
            field(true, vec![FieldAttr::VersionField { has_args: false }], false, false),
        ],
    };
    assert_eq!(derive_versioned_struct(&many), Err(MacroError::MultipleFieldsSpecified));
}

#[test]
fn padding_rewrites() {
    let align = |ty: &str| FieldAttr::Align(Some(AlignArgs { bit_align: 32, ty: String::from(ty) }));
    let s = StructModel {
        attrs: vec![],
        fields: vec![plain(false), field(true, vec![FieldAttr::Other, align("u64")], false, true)],
    };
    let p = NvStruct(&s).unwrap();
    assert_eq!(p.padding.len(), 1);
    assert_eq!((p.padding[0].field, p.padding[0].attr, p.padding[0].args.bit_align), (1, 1, 32));
    assert_eq!(p.padding[0].args.ty, "u64");
    let not_array = StructModel { attrs: vec![], fields: vec![field(true, vec![align("u64")], false, false)] };
    assert_eq!(NvStruct(&not_array).err(), Some(MacroError::PaddingNotByteArray));
    let bad = StructModel { attrs: vec![], fields: vec![field(true, vec![FieldAttr::Align(None)], false, false)] };
    assert_eq!(NvStruct(&bad).err(), Some(MacroError::InvalidAttributeArguments));
}

fn sym(n: &str) -> ItemAttr {
    ItemAttr::Symbol(Some(String::from(n)))
}

#[test]
fn value_data_plan() {
    let e = EnumModel {
        attrs: vec![ItemAttr::Repr(ReprArgs::List(Some(String::from("i32")))), sym("NV_GPU_CLOCK_LOCK_MODE")],
        variants: vec![
            VariantModel { attrs: vec![sym("NVAPI_GPU_CLOCK_LOCK_NONE")], value: 0 },
            VariantModel { attrs: vec![sym("NVAPI_GPU_CLOCK_LOCK_MANUAL_FREQUENCY")], value: 2 },
        ],
    };
    let p = derive_value_data(&e).unwrap();
    assert_eq!(p.repr, "i32");
    assert_eq!(p.c_name, "NV_GPU_CLOCK_LOCK_MODE");
    assert_eq!(p.symbols, vec![String::from("NVAPI_GPU_CLOCK_LOCK_NONE"), String::from("NVAPI_GPU_CLOCK_LOCK_MANUAL_FREQUENCY")]);
    assert_eq!(p.values, vec![0, 2]);
    assert_eq!(enum_from_raw(&p.values, 2), Ok(1));
    assert_eq!(enum_from_raw(&p.values, 1), Err(ArgumentRangeError));

    let no_repr = EnumModel { attrs: vec![sym("X")], variants: vec![] };
    assert_eq!(derive_value_data(&no_repr).err(), Some(MacroError::ReprRequired));
    let no_symbol = EnumModel {
        attrs: vec![ItemAttr::Repr(ReprArgs::List(Some(String::from("u32")))), sym("X")],
        variants: vec![VariantModel { attrs: vec![], value: 1 }],
    };
    assert_eq!(derive_value_data(&no_symbol).err(), Some(MacroError::SymbolRequired));
    assert_eq!(attrs_repr(&vec![ItemAttr::Repr(ReprArgs::NotList)]), Err(MacroError::ReprListRequired));
    assert_eq!(attrs_require_repr(&vec![ItemAttr::Repr(ReprArgs::List(None))]), Err(MacroError::InvalidRepr));
    assert_eq!(require_symbol(&vec![sym("A"), sym("B")]), Ok(String::from("B")));
    assert_eq!(require_symbol(&vec![sym("A"), ItemAttr::Symbol(None)]), Err(MacroError::InvalidAttributeArguments));
}

#[test]
fn enum_and_flag_declarations() {
    let v = |s: &str, i: &str, value: i64| NvEnumValue { symbol: String::from(s), ident: String::from(i), value };
    let e = nvenum(&vec![], vec![v("NONE", "None", 0), v("FREQ", "ManualFrequency", 2), v("VOLT", "ManualVoltage", 3)]).unwrap();
    assert_eq!(e.repr, "i32");
    assert_eq!(e.values(), vec![0, 2, 3]);
    assert_eq!(e.from_raw(3), Ok(2));
    assert_eq!(e.from_raw(1), Err(ArgumentRangeError));
    assert_eq!(e.raw(1), 2);

    let f = |s: &str, i: &str, value: u64| NvBitsValue { symbol: String::from(s), ident: String::from(i), value };
    let b = nvbits(&vec![ItemAttr::Repr(ReprArgs::List(Some(String::from("u8"))))], vec![f("A", "A", 1), f("B", "B", 2), f("C", "C", 4)]).unwrap();
    assert_eq!(b.repr, "u8");
    assert_eq!(b.all(), 7);
    assert_eq!(b.try_from(5), Ok(5));
    assert_eq!(b.try_from(8), Err(ArgumentRangeError));
    assert_eq!(b.next(6), (Some(1), 4));
    assert_eq!(b.next(4), (Some(2), 0));
    assert_eq!(b.next(0).0, None);
    assert_eq!(nvbits(&vec![], vec![]).unwrap().repr, "u32");
    assert_eq!(flags_all(&vec![8, 1]), 9);
}

fn id(s: &str) -> Tok {
    Tok::Ident(String::from(s))
}

fn ty(s: &str) -> Tok {
    Tok::Ty(String::from(s))
}

#[test]
fn nvapi_declaration_with_fn_type_and_method() {
    let t = vec![
        Tok::Pub, Tok::Type, id("GPU_GetFullNameFn"), Tok::Eq, Tok::Extern, Tok::Str(String::from("C")), Tok::Fn,
        Tok::Paren(vec![id("hPhysicalGPU"), Tok::Colon, ty("NvPhysicalGpuHandle"), Tok::Comma, id("szName"), Tok::Colon, ty("*mut NvAPI_ShortString")]),
        Tok::Arrow, ty("NvAPI_Status"), Tok::Semi,
        Tok::Pound, Tok::Bracket(vec![Tok::Other]),
        Tok::Pub, Tok::Fn, id("NvAPI_GPU_GetFullName"), Tok::Semi,
        Tok::Impl, Tok::SelfValue, Tok::Brace(vec![Tok::Pub, Tok::Fn, id("GetFullName"), Tok::Semi]),
    ];
    let b = NvApiBody::parse(&t).ok().unwrap();
    assert_eq!(b.fn_type, Some((String::from("GPU_GetFullNameFn"), String::from("C"))));
    assert_eq!(b.attrs, 1);
    assert_eq!(b.vis, Vis::Public);
    assert!(!b.is_unsafe);
    assert_eq!(b.ident, "NvAPI_GPU_GetFullName");
    assert_eq!(b.args.len(), 2);
    assert_eq!((b.args[1].ident.as_str(), b.args[1].ty.as_str()), ("szName", "*mut NvAPI_ShortString"));
    assert_eq!(b.result, Some(String::from("NvAPI_Status")));
    assert_eq!(b.self_ident, Some((Vis::Public, String::from("GetFullName"))));
}

#[test]
fn nvapi_declaration_plain_and_refused() {
    let plain = || vec![
        Tok::Pub, Tok::Paren(vec![Tok::Crate]), Tok::Unsafe, Tok::Fn, id("NvAPI_GPU_ClockClientClkDomainsGetInfo"),
        Tok::Paren(vec![id("hPhysicalGPU"), Tok::Colon, ty("NvPhysicalGpuHandle"), Tok::Comma]),
        Tok::Semi,
    ];
    let b = NvApiBody::parse(&plain()).ok().unwrap();
    assert_eq!(b.vis, Vis::Restricted);
    assert!(b.is_unsafe && b.fn_type.is_none() && b.result.is_none() && b.self_ident.is_none());
    assert_eq!(b.args.len(), 1);

    let mut extra = plain();
    extra.push(Tok::Other);
    assert_eq!(NvApiBody::parse(&extra).err(), Some(MacroError::UnexpectedToken));
    let mut no_semi = plain();
    no_semi.pop();
    assert_eq!(NvApiBody::parse(&no_semi).err(), Some(MacroError::UnexpectedToken));
    let bad_arg = vec![Tok::Fn, id("f"), Tok::Paren(vec![id("a"), ty("u32")]), Tok::Semi];
    assert_eq!(NvApiBody::parse(&bad_arg).err(), Some(MacroError::UnexpectedToken));
    let no_args = vec![Tok::Fn, id("f"), Tok::Paren(vec![]), Tok::Arrow, ty("i32"), Tok::Semi];
    assert!(NvApiBody::parse(&no_args).ok().unwrap().args.is_empty());
}
