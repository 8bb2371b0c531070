//! The marker-type generator: given the shape of a derive input — its
//! attributes, visibility, name and data — it validates that the input is a
//! closed enumeration of data-less variants carrying a well-formed naming
//! attribute, and describes the marker-type family to emit: one constant
//! specialization per variant, tagged with the variant's own ordinal, plus
//! the tagged conversion operation on the enumeration itself.
//!
//! The input and output are held as plain data. A thin unverified shell can
//! read a real derive input into [`DeriveInputModel`] and print the items
//! that a [`GeneratedConstType`] describes; everything between — validation,
//! the grammar of the naming attribute, and the assignment of tags — is
//! decided here.

use vstd::prelude::*;

verus! {

/// One token of an attribute's argument list, as the naming-attribute
/// grammar reads it: a `#` sign, a bracketed group held verbatim, an
/// identifier, or anything else.
#[derive(Debug, PartialEq, Eq)]
pub enum MacroToken {
    /// The `#` sign that opens an outer annotation.
    Pound,
    /// A `[`-delimited group; its contents are kept verbatim.
    Bracketed(String),
    /// A single identifier.
    Ident(String),
    /// Any other token; never accepted by the naming-attribute grammar.
    Other(String),
}

/// The ghost shape of a [`MacroToken`].
#[verifier::ext_equal]
pub ghost enum MacroTokenView {
    Pound,
    Bracketed(Seq<char>),
    Ident(Seq<char>),
    Other(Seq<char>),
}

impl View for MacroToken {
    type V = MacroTokenView;

    open spec fn view(&self) -> MacroTokenView {
        match self {
            MacroToken::Pound => MacroTokenView::Pound,
            MacroToken::Bracketed(s) => MacroTokenView::Bracketed(s@),
            MacroToken::Ident(s) => MacroTokenView::Ident(s@),
            MacroToken::Other(s) => MacroTokenView::Other(s@),
        }
    }
}

/// How an attribute is written: a bare path, a path with a parenthesized
/// argument list, or a `path = value` pair.
#[derive(Debug, PartialEq, Eq)]
pub enum AttrKind {
    /// A bare path, as in a plain marker attribute.
    Plain,
    /// A path followed by a delimited argument list, given as its tokens.
    List(Vec<MacroToken>),
    /// A `path = value` pair; the value is kept verbatim.
    NameValue(String),
}

/// The ghost shape of an [`AttrKind`].
#[verifier::ext_equal]
pub ghost enum AttrKindView {
    Plain,
    List(Seq<MacroTokenView>),
    NameValue(Seq<char>),
}

/// The elementwise view of a token sequence.
pub open spec fn tokens_view(tokens: Seq<MacroToken>) -> Seq<MacroTokenView> {
    tokens.map(|i: int, t: MacroToken| t@)
}

impl View for AttrKind {
    type V = AttrKindView;

    open spec fn view(&self) -> AttrKindView {
        match self {
            AttrKind::Plain => AttrKindView::Plain,
            AttrKind::List(tokens) => AttrKindView::List(tokens_view(tokens@)),
            AttrKind::NameValue(s) => AttrKindView::NameValue(s@),
        }
    }
}

/// One attribute of the derive input: its path, written as text, and its
/// kind. A path that is not a single identifier never names the attribute
/// the generator looks for.
#[derive(Debug, PartialEq, Eq)]
pub struct AttrModel {
    pub path: String,
    pub kind: AttrKind,
}

/// The ghost shape of an [`AttrModel`].
#[verifier::ext_equal]
pub ghost struct AttrView {
    pub path: Seq<char>,
    pub kind: AttrKindView,
}

impl View for AttrModel {
    type V = AttrView;

    open spec fn view(&self) -> AttrView {
        AttrView { path: self.path@, kind: self.kind@ }
    }
}

/// The elementwise view of an attribute sequence.
pub open spec fn attr_models_view(attrs: Seq<AttrModel>) -> Seq<AttrView> {
    attrs.map(|i: int, a: AttrModel| a@)
}

/// The field shape of one enumeration variant.
#[derive(Debug, Clone, Copy, PartialEq, Eq, Structural)]
pub enum FieldsModel {
    /// No fields at all: a data-less variant.
    Unit,
    /// `count` named fields in braces.
    Named { count: usize },
    /// `count` unnamed fields in parentheses.
    Unnamed { count: usize },
}

/// One variant of the input enumeration: its identifier and field shape.
#[derive(Debug, PartialEq, Eq)]
pub struct VariantModel {
    pub ident: String,
    pub fields: FieldsModel,
}

/// The ghost shape of a [`VariantModel`].
#[verifier::ext_equal]
pub ghost struct VariantView {
    pub ident: Seq<char>,
    pub fields: FieldsModel,
}

impl View for VariantModel {
    type V = VariantView;

    open spec fn view(&self) -> VariantView {
        VariantView { ident: self.ident@, fields: self.fields }
    }
}

/// The data of the derive input: a struct, an enumeration with its
/// variants, or a union.
#[derive(Debug, PartialEq, Eq)]
pub enum DataModel {
    StructData,
    EnumData(Vec<VariantModel>),
    UnionData,
}

/// The ghost shape of a [`DataModel`].
#[verifier::ext_equal]
pub ghost enum DataView {
    StructData,
    EnumData(Seq<VariantView>),
    UnionData,
}

/// The elementwise view of a variant sequence.
pub open spec fn variants_view(variants: Seq<VariantModel>) -> Seq<VariantView> {
    variants.map(|i: int, v: VariantModel| v@)
}

impl View for DataModel {
    type V = DataView;

    open spec fn view(&self) -> DataView {
        match self {
            DataModel::StructData => DataView::StructData,
            DataModel::EnumData(variants) => DataView::EnumData(variants_view(variants@)),
            DataModel::UnionData => DataView::UnionData,
        }
    }
}

/// Everything the generator reads of a derive input: its outer attributes,
/// its visibility kept verbatim, its identifier, and its data.
#[derive(Debug, PartialEq, Eq)]
pub struct DeriveInputModel {
    pub attrs: Vec<AttrModel>,
    pub vis: String,
    pub ident: String,
    pub data: DataModel,
}

/// The ghost shape of a [`DeriveInputModel`].
#[verifier::ext_equal]
pub ghost struct DeriveInputView {
    pub attrs: Seq<AttrView>,
    pub vis: Seq<char>,
    pub ident: Seq<char>,
    pub data: DataView,
}

impl View for DeriveInputModel {
    type V = DeriveInputView;

    open spec fn view(&self) -> DeriveInputView {
        DeriveInputView {
            attrs: attr_models_view(self.attrs@),
            vis: self.vis@,
            ident: self.ident@,
            data: self.data@,
        }
    }
}

/// The elementwise view of a sequence of strings.
pub open spec fn strings_view(strings: Seq<String>) -> Seq<Seq<char>> {
    strings.map(|i: int, s: String| s@)
}

/// The parsed arguments of the naming attribute: the verbatim annotations to
/// place on the generated family type, and the family type's name.
#[derive(Debug, PartialEq, Eq)]
pub struct ConstTypeSyntax {
    pub attrs: Vec<String>,
    pub name: String,
}

/// The ghost shape of a [`ConstTypeSyntax`].
#[verifier::ext_equal]
pub ghost struct ConstTypeSyntaxView {
    pub attrs: Seq<Seq<char>>,
    pub name: Seq<char>,
}

impl View for ConstTypeSyntax {
    type V = ConstTypeSyntaxView;

    open spec fn view(&self) -> ConstTypeSyntaxView {
        ConstTypeSyntaxView { attrs: strings_view(self.attrs@), name: self.name@ }
    }
}

/// A generation-time failure. Generation either fully succeeds or fails with
/// one of these, with no partial output.
#[derive(Debug, PartialEq, Eq)]
pub enum GenError {
    /// No `const_type` attribute stands on the input.
    MissingConstTypeAttr,
    /// The `const_type` attribute is not written as a list of arguments.
    ConstTypeAttrNotAList,
    /// The attribute's arguments are not outer annotations followed by a
    /// single identifier.
    MalformedConstTypeSyntax,
    /// The input is not an enumeration.
    NotAnEnum,
    /// A variant carries data; the offending variant is named.
    NonFieldlessVariant(String),
}

/// The ghost shape of a [`GenError`].
#[verifier::ext_equal]
pub ghost enum GenErrorView {
    MissingConstTypeAttr,
    ConstTypeAttrNotAList,
    MalformedConstTypeSyntax,
    NotAnEnum,
    NonFieldlessVariant(Seq<char>),
}

impl View for GenError {
    type V = GenErrorView;

    open spec fn view(&self) -> GenErrorView {
        match self {
            GenError::MissingConstTypeAttr => GenErrorView::MissingConstTypeAttr,
            GenError::ConstTypeAttrNotAList => GenErrorView::ConstTypeAttrNotAList,
            GenError::MalformedConstTypeSyntax => GenErrorView::MalformedConstTypeSyntax,
            GenError::NotAnEnum => GenErrorView::NotAnEnum,
            GenError::NonFieldlessVariant(s) => GenErrorView::NonFieldlessVariant(s@),
        }
    }
}

/// One generated specialization of the marker-type family: the family member
/// at tag `discriminant` stands for the variant `variant_ident`, and
/// implements both interfaces with that variant as its constant.
#[derive(Debug, PartialEq, Eq)]
pub struct MarkerSpecialization {
    pub variant_ident: String,
    pub discriminant: usize,
}

/// The ghost shape of a [`MarkerSpecialization`].
#[verifier::ext_equal]
pub ghost struct MarkerSpecializationView {
    pub variant_ident: Seq<char>,
    pub discriminant: int,
}

impl View for MarkerSpecialization {
    type V = MarkerSpecializationView;

    open spec fn view(&self) -> MarkerSpecializationView {
        MarkerSpecializationView {
            variant_ident: self.variant_ident@,
            discriminant: self.discriminant as int,
        }
    }
}

/// The elementwise view of a marker sequence.
pub open spec fn markers_view(markers: Seq<MarkerSpecialization>) -> Seq<
    MarkerSpecializationView,
> {
    markers.map(|i: int, m: MarkerSpecialization| m@)
}

/// The generated output, fully determined by the input: the family type —
/// named `name`, carrying the verbatim annotations `attrs` and the
/// visibility of the enumeration — one marker specialization per variant in
/// declaration order, and the tagged conversion operation on the enumeration
/// `enum_ident`.
#[derive(Debug, PartialEq, Eq)]
pub struct GeneratedConstType {
    pub attrs: Vec<String>,
    pub vis: String,
    pub name: String,
    pub enum_ident: String,
    pub markers: Vec<MarkerSpecialization>,
}

/// The ghost shape of a [`GeneratedConstType`].
#[verifier::ext_equal]
pub ghost struct GeneratedConstTypeView {
    pub attrs: Seq<Seq<char>>,
    pub vis: Seq<char>,
    pub name: Seq<char>,
    pub enum_ident: Seq<char>,
    pub markers: Seq<MarkerSpecializationView>,
}

impl View for GeneratedConstType {
    type V = GeneratedConstTypeView;

    open spec fn view(&self) -> GeneratedConstTypeView {
        GeneratedConstTypeView {
            attrs: strings_view(self.attrs@),
            vis: self.vis@,
            name: self.name@,
            enum_ident: self.enum_ident@,
            markers: markers_view(self.markers@),
        }
    }
}

/// Whether an attribute is the naming attribute the generator looks for.
pub open spec fn is_const_type_attr(a: AttrView) -> bool {
    a.path == "const_type"@
}

/// The index of the first naming attribute at or after position `i`, if any.
pub open spec fn find_attr_from(attrs: Seq<AttrView>, i: int) -> Option<int>
    decreases attrs.len() - i,
        when 0 <= i
{
    if i >= attrs.len() {
        Option::None
    } else if is_const_type_attr(attrs[i]) {
        Option::Some(i)
    } else {
        find_attr_from(attrs, i + 1)
    }
}

/// The grammar of the naming attribute's arguments: zero or more outer
/// annotations — a `#` sign, then a bracketed group — followed by exactly
/// one identifier.
pub open spec fn syntax_valid(tokens: Seq<MacroTokenView>) -> bool {
    &&& tokens.len() % 2 == 1
    &&& (forall|i: int|
        0 <= i < tokens.len() - 1 && i % 2 == 0 ==> (#[trigger] tokens[i]) is Pound)
    &&& (forall|i: int|
        0 <= i < tokens.len() - 1 && i % 2 == 1 ==> (#[trigger] tokens[i]) is Bracketed)
    &&& tokens[tokens.len() - 1] is Ident
}

/// What a well-formed argument list parses to: the bracketed groups, in
/// order, and the final identifier.
pub open spec fn parsed_syntax(tokens: Seq<MacroTokenView>) -> ConstTypeSyntaxView
    recommends
        syntax_valid(tokens),
{
    ConstTypeSyntaxView {
        attrs: Seq::new(((tokens.len() - 1) / 2) as nat, |j: int| tokens[2 * j + 1]->Bracketed_0),
        name: tokens[tokens.len() - 1]->Ident_0,
    }
}

/// The index of the first variant at or after position `i` that carries
/// data, if any.
pub open spec fn first_non_unit_from(variants: Seq<VariantView>, i: int) -> Option<int>
    decreases variants.len() - i,
        when 0 <= i
{
    if i >= variants.len() {
        Option::None
    } else if !(variants[i].fields is Unit) {
        Option::Some(i)
    } else {
        first_non_unit_from(variants, i + 1)
    }
}

/// The whole generation, as a function of the input alone.
///
/// The input is validated in order: the naming attribute must be present,
/// must be an argument list, and must parse under the grammar; the data must
/// be an enumeration; every variant must be data-less, else the first
/// offender is named. On success the output carries the parsed annotations
/// and family name, the input's visibility and identifier, and one marker
/// per variant whose tag is the variant's own ordinal.
pub open spec fn generate_model(input: DeriveInputView) -> Result<
    GeneratedConstTypeView,
    GenErrorView,
> {
    match find_attr_from(input.attrs, 0) {
        Option::None => Result::Err(GenErrorView::MissingConstTypeAttr),
        Option::Some(ai) => match input.attrs[ai].kind {
            AttrKindView::List(tokens) => if syntax_valid(tokens) {
                match input.data {
                    DataView::EnumData(variants) => match first_non_unit_from(variants, 0) {
                        Option::Some(vi) => Result::Err(
                            GenErrorView::NonFieldlessVariant(variants[vi].ident),
                        ),
                        Option::None => Result::Ok(
                            GeneratedConstTypeView {
                                attrs: parsed_syntax(tokens).attrs,
                                vis: input.vis,
                                name: parsed_syntax(tokens).name,
                                enum_ident: input.ident,
                                markers: Seq::new(
                                    variants.len(),
                                    |i: int| MarkerSpecializationView {
                                        variant_ident: variants[i].ident,
                                        discriminant: i,
                                    },
                                ),
                            },
                        ),
                    },
                    _ => Result::Err(GenErrorView::NotAnEnum),
                }
            } else {
                Result::Err(GenErrorView::MalformedConstTypeSyntax)
            },
            _ => Result::Err(GenErrorView::ConstTypeAttrNotAList),
        },
    }
}

/// The view of an exec generation result.
pub open spec fn generation_result_view(r: Result<GeneratedConstType, GenError>) -> Result<
    GeneratedConstTypeView,
    GenErrorView,
> {
    match r {
        Result::Ok(g) => Result::Ok(g@),
        Result::Err(e) => Result::Err(e@),
    }
}

/// The contract of the exec generator: its result is exactly what
/// [`generate_model`] describes for the input.
pub open spec fn generation_post(
    input: DeriveInputView,
    r: Result<GeneratedConstType, GenError>,
) -> bool {
    generation_result_view(r) == generate_model(input)
}

/// Finds the first naming attribute among the input's outer attributes:
/// the first one whose path is the single identifier `const_type`.
pub fn find_const_type_attr(attrs: &Vec<AttrModel>) -> (r: Option<usize>)
    ensures
        r matches Option::Some(i) ==> i < attrs@.len() && find_attr_from(
            attr_models_view(attrs@),
            0,
        ) == Option::Some(i as int),
        r is None ==> find_attr_from(attr_models_view(attrs@), 0) is None,
{
    let key: String = "const_type".to_string();
    let n = attrs.len();
    let mut i: usize = 0;
    while i < n
        invariant
            i <= n,
            n == attrs@.len(),
            key@ == "const_type"@,
            find_attr_from(attr_models_view(attrs@), 0) == find_attr_from(
                attr_models_view(attrs@),
                i as int,
            ),
        decreases n - i,
    {
        if attrs[i].path == key {
            assert(is_const_type_attr(attr_models_view(attrs@)[i as int]));
            return Option::Some(i);
        }
        assert(!is_const_type_attr(attr_models_view(attrs@)[i as int]));
        i = i + 1;
    }
    Option::None
}

/// Parses the naming attribute's argument tokens under the grammar: zero or
/// more outer annotations — a `#` sign, then a bracketed group — followed
/// by exactly one identifier, which names the family type.
fn parse_syntax_tokens(tokens: &Vec<MacroToken>) -> (r: Result<ConstTypeSyntax, GenError>)
    ensures
        syntax_valid(tokens_view(tokens@)) ==> (r matches Result::Ok(s) && s@ == parsed_syntax(
            tokens_view(tokens@),
        )),
        !syntax_valid(tokens_view(tokens@)) ==> r == Result::<ConstTypeSyntax, GenError>::Err(
            GenError::MalformedConstTypeSyntax,
        ),
{
    let ghost tv = tokens_view(tokens@);
    let n = tokens.len();
    if n % 2 == 0 {
        return Result::Err(GenError::MalformedConstTypeSyntax);
    }
    let mut out_attrs: Vec<String> = Vec::new();
    let mut i: usize = 0;
    while i < n - 1
        invariant
            tv == tokens_view(tokens@),
            n == tokens@.len(),
            n % 2 == 1,
            i % 2 == 0,
            i <= n - 1,
            out_attrs@.len() * 2 == i,
            forall|k: int|
                0 <= k < i ==> (if k % 2 == 0 {
                    (#[trigger] tv[k]) is Pound
                } else {
                    tv[k] is Bracketed
                }),
            forall|k: int|
                0 <= k < out_attrs@.len() ==> (#[trigger] out_attrs@[k])@ == tv[2 * k
                    + 1]->Bracketed_0,
        decreases n - i,
    {
        assert(tv[i as int] == tokens@[i as int]@);
        match &tokens[i] {
            MacroToken::Pound => {},
            _ => {
                assert(!syntax_valid(tv));
                return Result::Err(GenError::MalformedConstTypeSyntax);
            },
        }
        assert(tv[(i + 1) as int] == tokens@[(i + 1) as int]@);
        match &tokens[i + 1] {
            MacroToken::Bracketed(s) => {
                out_attrs.push(s.clone());
            },
            _ => {
                assert(i + 1 < n - 1);
                assert(!syntax_valid(tv));
                return Result::Err(GenError::MalformedConstTypeSyntax);
            },
        }
        i = i + 2;
    }
    assert(tv[(n - 1) as int] == tokens@[(n - 1) as int]@);
    match &tokens[n - 1] {
        MacroToken::Ident(name) => {
            let s = ConstTypeSyntax { attrs: out_attrs, name: name.clone() };
            proof {
                assert(syntax_valid(tv));
                assert(s@.attrs.len() == parsed_syntax(tv).attrs.len());
                assert(s@.attrs =~= parsed_syntax(tv).attrs);
                assert(s@ =~= parsed_syntax(tv));
            }
            Result::Ok(s)
        },
        _ => {
            assert(!syntax_valid(tv));
            Result::Err(GenError::MalformedConstTypeSyntax)
        },
    }
}

/// Reads the parsed arguments out of the naming attribute: the attribute
/// must be written as an argument list, and its tokens must parse under the
/// naming-attribute grammar.
pub fn const_type_syntax(attr: &AttrModel) -> (r: Result<ConstTypeSyntax, GenError>)
    ensures
        match attr@.kind {
            AttrKindView::List(tokens) => if syntax_valid(tokens) {
                r matches Result::Ok(s) && s@ == parsed_syntax(tokens)
            } else {
                r == Result::<ConstTypeSyntax, GenError>::Err(GenError::MalformedConstTypeSyntax)
            },
            _ => r == Result::<ConstTypeSyntax, GenError>::Err(GenError::ConstTypeAttrNotAList),
        },
{
    match &attr.kind {
        AttrKind::List(tokens) => parse_syntax_tokens(tokens),
        _ => Result::Err(GenError::ConstTypeAttrNotAList),
    }
}

/// Checks that every variant of the enumeration is data-less; on the first
/// variant that carries data, fails and names it.
pub fn assert_fieldless_enum(variants: &Vec<VariantModel>) -> (r: Result<(), GenError>)
    ensures
        match first_non_unit_from(variants_view(variants@), 0) {
            Option::None => r == Result::<(), GenError>::Ok(()),
            Option::Some(vi) => (r matches Result::Err(e) && e@ == GenErrorView::NonFieldlessVariant(
                variants_view(variants@)[vi].ident,
            )),
        },
{
    let n = variants.len();
    let mut i: usize = 0;
    while i < n
        invariant
            i <= n,
            n == variants@.len(),
            first_non_unit_from(variants_view(variants@), 0) == first_non_unit_from(
                variants_view(variants@),
                i as int,
            ),
        decreases n - i,
    {
        assert(variants_view(variants@)[i as int] == variants@[i as int]@);
        match &variants[i].fields {
            FieldsModel::Unit => {},
            _ => {
                return Result::Err(GenError::NonFieldlessVariant(variants[i].ident.clone()));
            },
        }
        i = i + 1;
    }
    Result::Ok(())
}

/// Builds one marker specialization per variant, in declaration order, each
/// tagged with its variant's own ordinal.
fn build_markers(variants: &Vec<VariantModel>) -> (markers: Vec<MarkerSpecialization>)
    ensures
        markers@.len() == variants@.len(),
        forall|k: int|
            0 <= k < markers@.len() ==> (#[trigger] markers@[k]).variant_ident@
                == variants@[k].ident@ && markers@[k].discriminant == k,
{
    let n = variants.len();
    let mut markers: Vec<MarkerSpecialization> = Vec::new();
    let mut i: usize = 0;
    while i < n
        invariant
            i <= n,
            n == variants@.len(),
            markers@.len() == i,
            forall|k: int|
                0 <= k < i ==> (#[trigger] markers@[k]).variant_ident@ == variants@[k].ident@
                    && markers@[k].discriminant == k,
        decreases n - i,
    {
        markers.push(
            MarkerSpecialization { variant_ident: variants[i].ident.clone(), discriminant: i },
        );
        i = i + 1;
    }
    markers
}

/// The generator: validates the input's shape and derives the marker-type
/// family for it.
///
/// The input must carry a `const_type` attribute written as an argument
/// list that parses as verbatim annotations followed by one identifier; it
/// must be an enumeration; and every variant must be data-less. On success
/// the output names the family after the attribute's identifier, carries
/// the annotations and the input's visibility, and holds one marker per
/// variant, tagged with the variant's own ordinal in declaration order. On
/// failure nothing is emitted and the error names the first offence, as
/// [`generate_model`] lays down.
pub fn derive_fieldless_enum_const_type(input: &DeriveInputModel) -> (r: Result<
    GeneratedConstType,
    GenError,
>)
    ensures
        generation_post(input@, r),
{
    let ai: usize = match find_const_type_attr(&input.attrs) {
        Option::Some(i) => i,
        Option::None => {
            return Result::Err(GenError::MissingConstTypeAttr);
        },
    };
    assert(input@.attrs[ai as int] == input.attrs@[ai as int]@);
    let stx: ConstTypeSyntax = match const_type_syntax(&input.attrs[ai]) {
        Result::Ok(s) => s,
        Result::Err(e) => {
            return Result::Err(e);
        },
    };
    let variants: &Vec<VariantModel> = match &input.data {
        DataModel::EnumData(vs) => vs,
        _ => {
            return Result::Err(GenError::NotAnEnum);
        },
    };
    match assert_fieldless_enum(variants) {
        Result::Ok(_) => {},
        Result::Err(e) => {
            return Result::Err(e);
        },
    }
    let markers: Vec<MarkerSpecialization> = build_markers(variants);
    let g = GeneratedConstType {
        attrs: stx.attrs,
        vis: input.vis.clone(),
        name: stx.name,
        enum_ident: input.ident.clone(),
        markers,
    };
    proof {
        let m = generate_model(input@)->Ok_0;
        assert(markers_view(g.markers@) =~= m.markers);
        assert(g@ =~= m);
    }
    Result::Ok(g)
}

/// Generation is deterministic: two runs over the same input produce
/// structurally identical output, success or failure alike.
pub proof fn lemma_generation_deterministic(
    input: DeriveInputView,
    r1: Result<GeneratedConstType, GenError>,
    r2: Result<GeneratedConstType, GenError>,
)
    requires
        generation_post(input, r1),
        generation_post(input, r2),
    ensures
        generation_result_view(r1) == generation_result_view(r2),
{
}

} // verus!
