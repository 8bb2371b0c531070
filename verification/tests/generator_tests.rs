//! Tests for the marker-type generator: the Color scenario, the naming
//! attribute's grammar, every generation-time failure, and determinism.

use optionally_const::generator::AttrKind;
use optionally_const::generator::AttrModel;
use optionally_const::generator::DataModel;
use optionally_const::generator::DeriveInputModel;
use optionally_const::generator::FieldsModel;
use optionally_const::generator::GenError;
use optionally_const::generator::MacroToken;
use optionally_const::generator::VariantModel;
use optionally_const::generator::assert_fieldless_enum;
use optionally_const::generator::const_type_syntax;
use optionally_const::generator::derive_fieldless_enum_const_type;
use optionally_const::generator::find_const_type_attr;

fn const_type_attr(tokens: Vec<MacroToken>) -> AttrModel {
    AttrModel {
        path: "const_type".to_string(),
        kind: AttrKind::List(tokens),
    }
}

fn unit_variant(name: &str) -> VariantModel {
    VariantModel {
        ident: name.to_string(),
        fields: FieldsModel::Unit,
    }
}

fn color_input() -> DeriveInputModel {
    DeriveInputModel {
        attrs: vec![const_type_attr(vec![MacroToken::Ident(
            "ColorConst".to_string(),
        )])],
        vis: "pub".to_string(),
        ident: "Color".to_string(),
        data: DataModel::EnumData(vec![
            unit_variant("Red"),
            unit_variant("Green"),
            unit_variant("Blue"),
        ]),
    }
}

#[test]
fn color_scenario_generates_tagged_family() {
    let out = derive_fieldless_enum_const_type(&color_input()).unwrap();
    assert_eq!(out.name, "ColorConst");
    assert_eq!(out.enum_ident, "Color");
    assert_eq!(out.vis, "pub");
    assert!(out.attrs.is_empty());
    assert_eq!(out.markers.len(), 3);
    assert_eq!(out.markers[0].variant_ident, "Red");
    assert_eq!(out.markers[0].discriminant, 0);
    assert_eq!(out.markers[1].variant_ident, "Green");
    assert_eq!(out.markers[1].discriminant, 1);
    assert_eq!(out.markers[2].variant_ident, "Blue");
    assert_eq!(out.markers[2].discriminant, 2);
}

#[test]
fn generation_is_deterministic() {
    let first = derive_fieldless_enum_const_type(&color_input());
    let second = derive_fieldless_enum_const_type(&color_input());
    assert_eq!(first, second);
}

#[test]
fn verbatim_annotations_are_kept_in_order() {
    let input = DeriveInputModel {
        attrs: vec![const_type_attr(vec![
            MacroToken::Pound,
            MacroToken::Bracketed("derive(Clone, Copy)".to_string()),
            MacroToken::Pound,
            MacroToken::Bracketed("non_exhaustive".to_string()),
            MacroToken::Ident("ConstTypeName".to_string()),
        ])],
        vis: String::new(),
        ident: "FieldlessEnum".to_string(),
        data: DataModel::EnumData(vec![unit_variant("A")]),
    };
    let out = derive_fieldless_enum_const_type(&input).unwrap();
    assert_eq!(out.attrs, vec!["derive(Clone, Copy)", "non_exhaustive"]);
    assert_eq!(out.name, "ConstTypeName");
}

#[test]
fn empty_enumeration_generates_an_empty_family() {
    let mut input = color_input();
    input.data = DataModel::EnumData(Vec::new());
    let out = derive_fieldless_enum_const_type(&input).unwrap();
    assert_eq!(out.name, "ColorConst");
    assert!(out.markers.is_empty());
}

#[test]
fn missing_naming_attribute_is_reported() {
    let mut input = color_input();
    input.attrs = vec![AttrModel {
        path: "derive".to_string(),
        kind: AttrKind::List(vec![MacroToken::Ident("Debug".to_string())]),
    }];
    assert_eq!(
        derive_fieldless_enum_const_type(&input),
        Err(GenError::MissingConstTypeAttr)
    );
}

#[test]
fn non_list_naming_attribute_is_reported() {
    let mut input = color_input();
    input.attrs = vec![AttrModel {
        path: "const_type".to_string(),
        kind: AttrKind::Plain,
    }];
    assert_eq!(
        derive_fieldless_enum_const_type(&input),
        Err(GenError::ConstTypeAttrNotAList)
    );

    input.attrs = vec![AttrModel {
        path: "const_type".to_string(),
        kind: AttrKind::NameValue("ColorConst".to_string()),
    }];
    assert_eq!(
        derive_fieldless_enum_const_type(&input),
        Err(GenError::ConstTypeAttrNotAList)
    );
}

#[test]
fn malformed_naming_attribute_is_reported() {
    // empty argument list
    let mut input = color_input();
    input.attrs = vec![const_type_attr(vec![])];
    assert_eq!(
        derive_fieldless_enum_const_type(&input),
        Err(GenError::MalformedConstTypeSyntax)
    );

    // two identifiers instead of one
    input.attrs = vec![const_type_attr(vec![
        MacroToken::Ident("ColorConst".to_string()),
        MacroToken::Ident("Extra".to_string()),
    ])];
    assert_eq!(
        derive_fieldless_enum_const_type(&input),
        Err(GenError::MalformedConstTypeSyntax)
    );

    // an annotation with no identifier after it
    input.attrs = vec![const_type_attr(vec![
        MacroToken::Pound,
        MacroToken::Bracketed("derive(Clone)".to_string()),
    ])];
    assert_eq!(
        derive_fieldless_enum_const_type(&input),
        Err(GenError::MalformedConstTypeSyntax)
    );

    // something that is neither an annotation nor an identifier
    input.attrs = vec![const_type_attr(vec![MacroToken::Other(",".to_string())])];
    assert_eq!(
        derive_fieldless_enum_const_type(&input),
        Err(GenError::MalformedConstTypeSyntax)
    );
}

#[test]
fn non_enum_input_is_reported() {
    let mut input = color_input();
    input.data = DataModel::StructData;
    assert_eq!(
        derive_fieldless_enum_const_type(&input),
        Err(GenError::NotAnEnum)
    );

    input.data = DataModel::UnionData;
    assert_eq!(
        derive_fieldless_enum_const_type(&input),
        Err(GenError::NotAnEnum)
    );
}

#[test]
fn first_variant_with_data_is_named() {
    let mut input = color_input();
    input.data = DataModel::EnumData(vec![
        unit_variant("Red"),
        VariantModel {
            ident: "Green".to_string(),
            fields: FieldsModel::Unnamed { count: 1 },
        },
        VariantModel {
            ident: "Blue".to_string(),
            fields: FieldsModel::Named { count: 2 },
        },
    ]);
    assert_eq!(
        derive_fieldless_enum_const_type(&input),
        Err(GenError::NonFieldlessVariant("Green".to_string()))
    );
}

#[test]
fn find_takes_the_first_naming_attribute() {
    let attrs = vec![
        AttrModel {
            path: "derive".to_string(),
            kind: AttrKind::List(vec![MacroToken::Ident("Debug".to_string())]),
        },
        const_type_attr(vec![MacroToken::Ident("First".to_string())]),
        const_type_attr(vec![MacroToken::Ident("Second".to_string())]),
    ];
    assert_eq!(find_const_type_attr(&attrs), Some(1));
    assert_eq!(find_const_type_attr(&Vec::new()), None);
}

#[test]
fn syntax_of_the_naming_attribute() {
    let attr = const_type_attr(vec![
        MacroToken::Pound,
        MacroToken::Bracketed("doc = \"family\"".to_string()),
        MacroToken::Ident("ColorConst".to_string()),
    ]);
    let parsed = const_type_syntax(&attr).unwrap();
    assert_eq!(parsed.attrs, vec!["doc = \"family\""]);
    assert_eq!(parsed.name, "ColorConst");
}

#[test]
fn fieldless_check_accepts_unit_variants_only() {
    let good = vec![unit_variant("Red"), unit_variant("Green")];
    assert_eq!(assert_fieldless_enum(&good), Ok(()));

    let bad = vec![
        unit_variant("Red"),
        VariantModel {
            ident: "Green".to_string(),
            fields: FieldsModel::Unnamed { count: 3 },
        },
    ];
    assert_eq!(
        assert_fieldless_enum(&bad),
        Err(GenError::NonFieldlessVariant("Green".to_string()))
    );
}
