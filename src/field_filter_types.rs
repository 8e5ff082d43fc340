//! The filter input types that a query offers on a scalar field.

use crate::mysql_connector::ConnectorCapability;
use crate::text::str_eq;
use vstd::prelude::*;
use vstd::string::*;

verus! {

/// The type of a scalar field, as the query schema knows it.
#[derive(Debug)]
pub enum TypeIdentifier {
    String,
    Int,
    BigInt,
    Float,
    Decimal,
    Boolean,
    Enum(String),
    UUID,
    Json,
    Xml,
    DateTime,
    Bytes,
}

pub enum TypeIdentifierView {
    String,
    Int,
    BigInt,
    Float,
    Decimal,
    Boolean,
    Enum(Seq<char>),
    UUID,
    Json,
    Xml,
    DateTime,
    Bytes,
}

impl View for TypeIdentifier {
    type V = TypeIdentifierView;

    open spec fn view(&self) -> TypeIdentifierView {
        match self {
            TypeIdentifier::String => TypeIdentifierView::String,
            TypeIdentifier::Int => TypeIdentifierView::Int,
            TypeIdentifier::BigInt => TypeIdentifierView::BigInt,
            TypeIdentifier::Float => TypeIdentifierView::Float,
            TypeIdentifier::Decimal => TypeIdentifierView::Decimal,
            TypeIdentifier::Boolean => TypeIdentifierView::Boolean,
            TypeIdentifier::Enum(name) => TypeIdentifierView::Enum(name@),
            TypeIdentifier::UUID => TypeIdentifierView::UUID,
            TypeIdentifier::Json => TypeIdentifierView::Json,
            TypeIdentifier::Xml => TypeIdentifierView::Xml,
            TypeIdentifier::DateTime => TypeIdentifierView::DateTime,
            TypeIdentifier::Bytes => TypeIdentifierView::Bytes,
        }
    }
}

impl TypeIdentifier {
    /// A copy of the identifier.
    pub fn copy_value(&self) -> (r: TypeIdentifier)
        ensures
            r@ == self@,
    {
        match self {
            TypeIdentifier::String => TypeIdentifier::String,
            TypeIdentifier::Int => TypeIdentifier::Int,
            TypeIdentifier::BigInt => TypeIdentifier::BigInt,
            TypeIdentifier::Float => TypeIdentifier::Float,
            TypeIdentifier::Decimal => TypeIdentifier::Decimal,
            TypeIdentifier::Boolean => TypeIdentifier::Boolean,
            TypeIdentifier::Enum(name) => TypeIdentifier::Enum(name.clone()),
            TypeIdentifier::UUID => TypeIdentifier::UUID,
            TypeIdentifier::Json => TypeIdentifier::Json,
            TypeIdentifier::Xml => TypeIdentifier::Xml,
            TypeIdentifier::DateTime => TypeIdentifier::DateTime,
            TypeIdentifier::Bytes => TypeIdentifier::Bytes,
        }
    }

    /// Whether values of the type can be summed and averaged.
    pub fn is_numeric(&self) -> (r: bool)
        ensures
            r == (self@ is Int || self@ is BigInt || self@ is Float || self@ is Decimal),
    {
        match self {
            TypeIdentifier::Int | TypeIdentifier::BigInt | TypeIdentifier::Float
            | TypeIdentifier::Decimal => true,
            _ => false,
        }
    }
}

/// The type of an input value.
#[derive(Debug)]
pub enum InputType {
    Scalar(TypeIdentifier),
    List(Box<InputType>),
    Object(String),
    Enum(String),
    Null,
}

pub enum InputTypeView {
    Scalar(TypeIdentifierView),
    List(Box<InputTypeView>),
    Object(Seq<char>),
    Enum(Seq<char>),
    Null,
}

impl View for InputType {
    type V = InputTypeView;

    open spec fn view(&self) -> InputTypeView
        decreases self,
    {
        match self {
            InputType::Scalar(t) => InputTypeView::Scalar(t@),
            InputType::List(inner) => InputTypeView::List(Box::new((**inner).view())),
            InputType::Object(name) => InputTypeView::Object(name@),
            InputType::Enum(name) => InputTypeView::Enum(name@),
            InputType::Null => InputTypeView::Null,
        }
    }
}

impl InputType {
    /// A copy of the type.
    pub fn copy_value(&self) -> (r: InputType)
        ensures
            r@ == self@,
        decreases self,
    {
        match self {
            InputType::Scalar(t) => InputType::Scalar(t.copy_value()),
            InputType::List(inner) => InputType::List(Box::new((**inner).copy_value())),
            InputType::Object(name) => InputType::Object(name.clone()),
            InputType::Enum(name) => InputType::Enum(name.clone()),
            InputType::Null => InputType::Null,
        }
    }

    /// A list of values of `inner`.
    pub fn list(inner: InputType) -> (r: InputType)
        ensures
            r@ == InputTypeView::List(Box::new(inner@)),
    {
        InputType::List(Box::new(inner))
    }
}

/// A field of an input object: its name, the types it accepts, and whether
/// it must be given.
#[derive(Debug)]
pub struct InputField {
    pub name: String,
    pub field_types: Vec<InputType>,
    pub default_value: Option<String>,
    pub is_required: bool,
}

pub struct InputFieldView {
    pub name: Seq<char>,
    pub field_types: Seq<InputTypeView>,
    pub default_value: Option<Seq<char>>,
    pub is_required: bool,
}

impl View for InputField {
    type V = InputFieldView;

    open spec fn view(&self) -> InputFieldView {
        InputFieldView {
            name: self.name@,
            field_types: self.field_types@.map_values(|t: InputType| t@),
            default_value: match self.default_value {
                Some(v) => Some(v@),
                None => None,
            },
            is_required: self.is_required,
        }
    }
}

/// A required field named `name` that accepts `field_type`, with an
/// optional default.
pub fn input_field(name: &str, field_type: InputType, default_value: Option<String>) -> (r:
    InputField)
    ensures
        r@ == (InputFieldView {
            name: name@,
            field_types: seq![field_type@],
            default_value: match default_value {
                Some(v) => Some(v@),
                None => None,
            },
            is_required: true,
        }),
{
    let mut field_types: Vec<InputType> = Vec::new();
    field_types.push(field_type);
    let r = InputField {
        name: String::from_str(name),
        field_types,
        default_value,
        is_required: true,
    };
    assert(r@.field_types =~= seq![field_type@]);
    r
}

impl InputField {
    /// The field, no longer required.
    pub fn optional(self) -> (r: InputField)
        ensures
            r@ == (InputFieldView { is_required: false, ..self@ }),
    {
        InputField { is_required: false, ..self }
    }

    /// The field, accepting null too when `condition` holds.
    pub fn nullable_if(self, condition: bool) -> (r: InputField)
        ensures
            r@ == (InputFieldView {
                field_types: if condition {
                    self@.field_types.push(InputTypeView::Null)
                } else {
                    self@.field_types
                },
                ..self@
            }),
    {
        let mut s = self;
        if condition {
            s.field_types.push(InputType::Null);
            assert(s@.field_types =~= self@.field_types.push(InputTypeView::Null));
        }
        s
    }
}

/// An optional filter named `name` that accepts `t`, and null when
/// `nullable` holds.
pub open spec fn filter(name: Seq<char>, t: InputTypeView, nullable: bool) -> InputFieldView {
    InputFieldView {
        name,
        field_types: if nullable {
            seq![t, InputTypeView::Null]
        } else {
            seq![t]
        },
        default_value: None,
        is_required: false,
    }
}

pub open spec fn fields_view(fields: Seq<InputField>) -> Seq<InputFieldView> {
    fields.map_values(|f: InputField| f@)
}

/// The `equals` filter.
pub open spec fn equality_spec(t: InputTypeView, nullable: bool) -> Seq<InputFieldView> {
    seq![filter("equals"@, t, nullable)]
}

/// The `in` and `notIn` filters, over lists of the type.
pub open spec fn inclusion_spec(t: InputTypeView, nullable: bool) -> Seq<InputFieldView> {
    seq![
        filter("in"@, InputTypeView::List(Box::new(t)), nullable),
        filter("notIn"@, InputTypeView::List(Box::new(t)), nullable),
    ]
}

/// The `lt`, `lte`, `gt` and `gte` filters.
pub open spec fn alphanumeric_spec(t: InputTypeView) -> Seq<InputFieldView> {
    seq![filter("lt"@, t, false), filter("lte"@, t, false), filter("gt"@, t, false), filter("gte"@, t, false)]
}

/// The `contains`, `startsWith` and `endsWith` filters.
pub open spec fn string_spec(t: InputTypeView) -> Seq<InputFieldView> {
    seq![filter("contains"@, t, false), filter("startsWith"@, t, false), filter("endsWith"@, t, false)]
}

/// An optional filter that accepts null too when `nullable` holds.
fn nullable_filter(name: &str, t: InputType, nullable: bool) -> (r: InputField)
    ensures
        r@ == filter(name@, t@, nullable),
{
    let ghost v = t@;
    let r = input_field(name, t, None).optional().nullable_if(nullable);
    if nullable {
        assert(r@.field_types =~= seq![v, InputTypeView::Null]);
    } else {
        assert(r@.field_types =~= seq![v]);
    }
    r
}

/// `equals`.
pub fn equality_filters(mapped_type: InputType, nullable: bool) -> (r: Vec<InputField>)
    ensures
        fields_view(r@) == equality_spec(mapped_type@, nullable),
{
    let ghost t = mapped_type@;
    let mut r: Vec<InputField> = Vec::new();
    r.push(nullable_filter("equals", mapped_type, nullable));
    assert(fields_view(r@) =~= seq![filter("equals"@, t, nullable)]);
    r
}

/// `in` and `notIn`, over lists of the type.
pub fn inclusion_filters(mapped_type: InputType, nullable: bool) -> (r: Vec<InputField>)
    ensures
        fields_view(r@) == inclusion_spec(mapped_type@, nullable),
{
    let ghost t = InputTypeView::List(Box::new(mapped_type@));
    let typ = InputType::list(mapped_type);
    let mut r: Vec<InputField> = Vec::new();
    r.push(nullable_filter("in", typ.copy_value(), nullable));
    r.push(nullable_filter("notIn", typ, nullable));
    assert(fields_view(r@) =~= seq![filter("in"@, t, nullable), filter("notIn"@, t, nullable)]);
    r
}

/// `lt`, `lte`, `gt` and `gte`.
pub fn alphanumeric_filters(mapped_type: InputType) -> (r: Vec<InputField>)
    ensures
        fields_view(r@) == alphanumeric_spec(mapped_type@),
{
    let ghost t = mapped_type@;
    let mut r: Vec<InputField> = Vec::new();
    r.push(input_field("lt", mapped_type.copy_value(), None).optional());
    r.push(input_field("lte", mapped_type.copy_value(), None).optional());
    r.push(input_field("gt", mapped_type.copy_value(), None).optional());
    r.push(input_field("gte", mapped_type, None).optional());
    assert(fields_view(r@) =~= seq![
        filter("lt"@, t, false),
        filter("lte"@, t, false),
        filter("gt"@, t, false),
        filter("gte"@, t, false),
    ]);
    r
}

/// `contains`, `startsWith` and `endsWith`.
pub fn string_filters(mapped_type: InputType) -> (r: Vec<InputField>)
    ensures
        fields_view(r@) == string_spec(mapped_type@),
{
    let ghost t = mapped_type@;
    let mut r: Vec<InputField> = Vec::new();
    r.push(input_field("contains", mapped_type.copy_value(), None).optional());
    r.push(input_field("startsWith", mapped_type.copy_value(), None).optional());
    r.push(input_field("endsWith", mapped_type, None).optional());
    assert(fields_view(r@) =~= seq![
        filter("contains"@, t, false),
        filter("startsWith"@, t, false),
        filter("endsWith"@, t, false),
    ]);
    r
}

/// The word that a filter's name gives for a type.
pub open spec fn type_word(typ: TypeIdentifierView) -> Seq<char> {
    match typ {
        TypeIdentifierView::UUID => "Uuid"@,
        TypeIdentifierView::String => "String"@,
        TypeIdentifierView::Int => "Int"@,
        TypeIdentifierView::BigInt => "BigInt"@,
        TypeIdentifierView::Float => "Float"@,
        TypeIdentifierView::Decimal => "Decimal"@,
        TypeIdentifierView::Boolean => "Bool"@,
        TypeIdentifierView::DateTime => "DateTime"@,
        TypeIdentifierView::Json => "Json"@,
        TypeIdentifierView::Enum(e) => "Enum"@ + e,
        TypeIdentifierView::Xml => "Xml"@,
        TypeIdentifierView::Bytes => "Bytes"@,
    }
}

pub open spec fn word_if(condition: bool, word: Seq<char>) -> Seq<char> {
    if condition {
        word
    } else {
        Seq::empty()
    }
}

/// The name of a scalar filter type, such as `NestedIntNullableListFilter`.
pub open spec fn scalar_filter_name_spec(
    typ: TypeIdentifierView,
    list: bool,
    nullable: bool,
    nested: bool,
    include_aggregates: bool,
) -> Seq<char> {
    word_if(nested, "Nested"@) + type_word(typ) + word_if(nullable, "Nullable"@) + word_if(
        list,
        "List"@,
    ) + word_if(include_aggregates, "WithAggregates"@) + "Filter"@
}

/// The name of the filter type for a scalar field.
pub fn scalar_filter_name(
    typ: &TypeIdentifier,
    list: bool,
    nullable: bool,
    nested: bool,
    include_aggregates: bool,
) -> (r: String)
    ensures
        r@ == scalar_filter_name_spec(typ@, list, nullable, nested, include_aggregates),
{
    let mut r = String::new();
    if nested {
        r.append("Nested");
    }
    match typ {
        TypeIdentifier::UUID => r.append("Uuid"),
        TypeIdentifier::String => r.append("String"),
        TypeIdentifier::Int => r.append("Int"),
        TypeIdentifier::BigInt => r.append("BigInt"),
        TypeIdentifier::Float => r.append("Float"),
        TypeIdentifier::Decimal => r.append("Decimal"),
        TypeIdentifier::Boolean => r.append("Bool"),
        TypeIdentifier::DateTime => r.append("DateTime"),
        TypeIdentifier::Json => r.append("Json"),
        TypeIdentifier::Enum(e) => {
            r.append("Enum");
            r.append(e.as_str());
        },
        TypeIdentifier::Xml => r.append("Xml"),
        TypeIdentifier::Bytes => r.append("Bytes"),
    }
    if nullable {
        r.append("Nullable");
    }
    if list {
        r.append("List");
    }
    if include_aggregates {
        r.append("WithAggregates");
    }
    r.append("Filter");
    assert(r@ =~= scalar_filter_name_spec(typ@, list, nullable, nested, include_aggregates));
    r
}

/// The type of an average: integers and floats average to a float.
pub open spec fn avg_type_spec(typ: TypeIdentifierView) -> TypeIdentifierView {
    match typ {
        TypeIdentifierView::Int | TypeIdentifierView::BigInt | TypeIdentifierView::Float =>
            TypeIdentifierView::Float,
        _ => typ,
    }
}

/// The type of the average of values of `typ`.
pub fn map_avg_type_ident(typ: TypeIdentifier) -> (r: TypeIdentifier)
    ensures
        r@ == avg_type_spec(typ@),
{
    match &typ {
        TypeIdentifier::Int | TypeIdentifier::BigInt | TypeIdentifier::Float => TypeIdentifier::Float,
        _ => typ,
    }
}

/// An input object type: its name and its fields.
#[derive(Debug)]
pub struct InputObjectType {
    pub name: String,
    pub fields: Vec<InputField>,
}

pub struct InputObjectTypeView {
    pub name: Seq<char>,
    pub fields: Seq<InputFieldView>,
}

impl View for InputObjectType {
    type V = InputObjectTypeView;

    open spec fn view(&self) -> InputObjectTypeView {
        InputObjectTypeView { name: self.name@, fields: fields_view(self.fields@) }
    }
}

/// What the schema builder knows while it works: what the database can do,
/// and the input object types built so far, each under its own name.
#[derive(Debug)]
pub struct BuilderContext {
    pub capabilities: Vec<ConnectorCapability>,
    pub input_types: Vec<InputObjectType>,
}

/// A scalar field of a model.
#[derive(Debug)]
pub struct ScalarField {
    pub name: String,
    pub type_identifier: TypeIdentifier,
    pub is_list: bool,
    pub is_required: bool,
}

impl BuilderContext {
    pub open spec fn types_view(&self) -> Seq<InputObjectTypeView> {
        self.input_types@.map_values(|t: InputObjectType| t@)
    }

    /// Whether a type of this name was built already.
    pub open spec fn has_input_type(&self, name: Seq<char>) -> bool {
        exists|i: int| 0 <= i < self.input_types@.len() && (#[trigger] self.input_types@[i]).name@ == name
    }

    /// Whether the database filters strings without regard to case.
    pub open spec fn insensitive_filters(&self) -> bool {
        self.capabilities@.contains(ConnectorCapability::InsensitiveFilters)
    }

    /// Whether a type of this name was built already.
    pub fn get_input_type(&self, name: &str) -> (r: bool)
        ensures
            r == self.has_input_type(name@),
    {
        let mut i: usize = 0;
        while i < self.input_types.len()
            invariant
                i <= self.input_types.len(),
                forall|j: int| 0 <= j < i ==> (#[trigger] self.input_types@[j]).name@ != name@,
            decreases self.input_types.len() - i,
        {
            if str_eq(self.input_types[i].name.as_str(), name) {
                return true;
            }
            i = i + 1;
        }
        false
    }

    /// Whether the database can do `capability`.
    pub fn has_capability(&self, capability: ConnectorCapability) -> (r: bool)
        ensures
            r == self.capabilities@.contains(capability),
    {
        let mut i: usize = 0;
        while i < self.capabilities.len()
            invariant
                i <= self.capabilities.len(),
                forall|j: int| 0 <= j < i ==> self.capabilities@[j] != capability,
            decreases self.capabilities.len() - i,
        {
            if self.capabilities[i] == capability {
                assert(self.capabilities@[i as int] == capability);
                return true;
            }
            i = i + 1;
        }
        false
    }
}

/// The input type of a scalar value of `typ`, or of a list of them.
pub open spec fn scalar_input_spec(typ: TypeIdentifierView, list: bool) -> InputTypeView {
    if list {
        InputTypeView::List(Box::new(InputTypeView::Scalar(typ)))
    } else {
        InputTypeView::Scalar(typ)
    }
}

/// The input type of a scalar value of `typ`, or of a list of them.
pub fn map_scalar_input_type(typ: &TypeIdentifier, list: bool) -> (r: InputType)
    ensures
        r@ == scalar_input_spec(typ@, list),
{
    let scalar = InputType::Scalar(typ.copy_value());
    if list {
        InputType::list(scalar)
    } else {
        scalar
    }
}

/// The `mode` field, offered on the topmost filter level where the
/// database filters without regard to case.
pub open spec fn query_mode_spec(nested: bool, insensitive: bool) -> Seq<InputFieldView> {
    if !nested && insensitive {
        seq![
            InputFieldView {
                name: "mode"@,
                field_types: seq![InputTypeView::Enum("QueryMode"@)],
                default_value: Some("default"@),
                is_required: false,
            },
        ]
    } else {
        Seq::empty()
    }
}

/// The `mode` field of string filters, where it applies.
pub fn query_mode_field(ctx: &BuilderContext, nested: bool) -> (r: Vec<InputField>)
    ensures
        fields_view(r@) == query_mode_spec(nested, ctx.insensitive_filters()),
{
    let mut r: Vec<InputField> = Vec::new();
    if !nested && ctx.has_capability(ConnectorCapability::InsensitiveFilters) {
        let field = input_field(
            "mode",
            InputType::Enum(String::from_str("QueryMode")),
            Some(String::from_str("default")),
        ).optional();
        r.push(field);
    }
    assert(fields_view(r@) =~= query_mode_spec(nested, ctx.insensitive_filters()));
    r
}

/// A field named `name` that accepts the object type `object`.
pub open spec fn object_field(name: Seq<char>, object: Seq<char>) -> InputFieldView {
    InputFieldView {
        name,
        field_types: seq![InputTypeView::Object(object)],
        default_value: None,
        is_required: false,
    }
}

/// The fields that compare a value directly, by type.
pub open spec fn base_filters_spec(
    typ: TypeIdentifierView,
    t: InputTypeView,
    nullable: bool,
    nested: bool,
    insensitive: bool,
) -> Seq<InputFieldView> {
    match typ {
        TypeIdentifierView::String | TypeIdentifierView::UUID => equality_spec(t, nullable)
            + inclusion_spec(t, nullable) + alphanumeric_spec(t) + string_spec(t) + query_mode_spec(
            nested,
            insensitive,
        ),
        TypeIdentifierView::Int | TypeIdentifierView::BigInt | TypeIdentifierView::Float
        | TypeIdentifierView::DateTime | TypeIdentifierView::Decimal => equality_spec(t, nullable)
            + inclusion_spec(t, nullable) + alphanumeric_spec(t),
        TypeIdentifierView::Enum(_) => equality_spec(t, nullable) + inclusion_spec(t, nullable),
        _ => equality_spec(t, nullable),
    }
}

/// The `not` field: the value itself, or, but for JSON, the nested filter.
pub open spec fn not_field_spec(
    typ: TypeIdentifierView,
    list: bool,
    nullable: bool,
    include_aggregates: bool,
) -> InputFieldView {
    let t = scalar_input_spec(typ, list);
    let types = if typ is Json {
        seq![t]
    } else {
        seq![t, InputTypeView::Object(scalar_filter_name_spec(typ, list, nullable, true, include_aggregates))]
    };
    InputFieldView {
        name: "not"@,
        field_types: if nullable {
            types.push(InputTypeView::Null)
        } else {
            types
        },
        default_value: None,
        is_required: false,
    }
}

pub open spec fn is_numeric_spec(typ: TypeIdentifierView) -> bool {
    typ is Int || typ is BigInt || typ is Float || typ is Decimal
}

/// The aggregate filters: a count, an average and a sum of numbers, and a
/// minimum and a maximum of single values.
pub open spec fn aggregate_fields_spec(typ: TypeIdentifierView, list: bool, nullable: bool) -> Seq<InputFieldView> {
    seq![object_field("count"@, scalar_filter_name_spec(TypeIdentifierView::Int, list, nullable, true, false))]
        + (if is_numeric_spec(typ) {
        seq![
            object_field("avg"@, scalar_filter_name_spec(avg_type_spec(typ), list, nullable, true, false)),
            object_field("sum"@, scalar_filter_name_spec(typ, list, nullable, true, false)),
        ]
    } else {
        Seq::empty()
    }) + (if !list {
        seq![
            object_field("min"@, scalar_filter_name_spec(typ, list, nullable, true, false)),
            object_field("max"@, scalar_filter_name_spec(typ, list, nullable, true, false)),
        ]
    } else {
        Seq::empty()
    })
}

/// The fields of the filter type of a scalar field.
pub open spec fn scalar_filter_fields_spec(
    typ: TypeIdentifierView,
    list: bool,
    nullable: bool,
    nested: bool,
    include_aggregates: bool,
    insensitive: bool,
) -> Seq<InputFieldView> {
    base_filters_spec(typ, scalar_input_spec(typ, list), nullable, nested, insensitive).push(
        not_field_spec(typ, list, nullable, include_aggregates),
    ) + (if include_aggregates {
        aggregate_fields_spec(typ, list, nullable)
    } else {
        Seq::empty()
    })
}

/// How building a type may change the context: the capabilities stay,
/// the types built before stay, and a type of the name is there afterwards;
/// when it was not there before, it is the last one, with `fields`.
pub open spec fn builds_type(
    before: BuilderContext,
    after: BuilderContext,
    name: Seq<char>,
    fields: Seq<InputFieldView>,
) -> bool {
    &&& after.capabilities@ == before.capabilities@
    &&& if before.has_input_type(name) {
        after.types_view() == before.types_view()
    } else {
        &&& after.types_view().len() > before.types_view().len()
        &&& after.types_view().subrange(0, before.types_view().len() as int) == before.types_view()
        &&& after.types_view().last() == (InputObjectTypeView { name, fields })
    }
}

/// The building keeps what was there.
pub open spec fn extends(before: BuilderContext, after: BuilderContext) -> bool {
    &&& after.capabilities@ == before.capabilities@
    &&& after.types_view().len() >= before.types_view().len()
    &&& after.types_view().subrange(0, before.types_view().len() as int) == before.types_view()
}

proof fn lemma_extends_trans(a: BuilderContext, b: BuilderContext, c: BuilderContext)
    requires
        extends(a, b),
        extends(b, c),
    ensures
        extends(a, c),
{
    assert(c.types_view().subrange(0, a.types_view().len() as int) =~= b.types_view().subrange(
        0,
        a.types_view().len() as int,
    ));
}

/// Appends `more` to `fields`.
fn append_fields(fields: &mut Vec<InputField>, more: Vec<InputField>)
    ensures
        fields_view(final(fields)@) == fields_view(old(fields)@) + fields_view(more@),
{
    let mut more = more;
    let ghost before = fields@;
    let ghost added = more@;
    fields.append(&mut more);
    assert(fields_view(fields@) =~= fields_view(before) + fields_view(added));
}

/// Adds the type `name` with `fields` to the context.
fn add_input_type(ctx: &mut BuilderContext, name: String, fields: Vec<InputField>)
    ensures
        final(ctx).capabilities@ == old(ctx).capabilities@,
        final(ctx).types_view() == old(ctx).types_view().push(
            InputObjectTypeView { name: name@, fields: fields_view(fields@) },
        ),
{
    let ghost before = ctx.types_view();
    let object = InputObjectType { name, fields };
    ctx.input_types.push(object);
    assert(ctx.types_view() =~= before.push(object@));
}

/// A field named `aggregation` whose value is the nested filter of `typ`.
pub fn aggregate_filter_field(
    ctx: &mut BuilderContext,
    aggregation: &str,
    typ: &TypeIdentifier,
    nullable: bool,
    list: bool,
) -> (r: InputField)
    ensures
        r@ == object_field(aggregation@, scalar_filter_name_spec(typ@, list, nullable, true, false)),
        builds_type(
            *old(ctx),
            *final(ctx),
            scalar_filter_name_spec(typ@, list, nullable, true, false),
            scalar_filter_fields_spec(
                typ@,
                list,
                nullable,
                true,
                false,
                old(ctx).insensitive_filters(),
            ),
        ),
        extends(*old(ctx), *final(ctx)),
    decreases 1int,
{
    let filters = full_scalar_filter_type(ctx, typ, list, nullable, true, false);
    input_field(aggregation, InputType::Object(filters), None).optional()
}

/// The fields that compare a value directly.
fn base_filters(
    ctx: &BuilderContext,
    typ: &TypeIdentifier,
    mapped: &InputType,
    nullable: bool,
    nested: bool,
) -> (r: Vec<InputField>)
    ensures
        fields_view(r@) == base_filters_spec(typ@, mapped@, nullable, nested, ctx.insensitive_filters()),
{
    let ghost insensitive = ctx.insensitive_filters();
    let ghost t = mapped@;
    let mut fields = equality_filters(mapped.copy_value(), nullable);
    match typ {
        TypeIdentifier::String | TypeIdentifier::UUID => {
            append_fields(&mut fields, inclusion_filters(mapped.copy_value(), nullable));
            append_fields(&mut fields, alphanumeric_filters(mapped.copy_value()));
            append_fields(&mut fields, string_filters(mapped.copy_value()));
            append_fields(&mut fields, query_mode_field(ctx, nested));
        },
        TypeIdentifier::Int | TypeIdentifier::BigInt | TypeIdentifier::Float
        | TypeIdentifier::DateTime | TypeIdentifier::Decimal => {
            append_fields(&mut fields, inclusion_filters(mapped.copy_value(), nullable));
            append_fields(&mut fields, alphanumeric_filters(mapped.copy_value()));
        },
        TypeIdentifier::Enum(_) => {
            append_fields(&mut fields, inclusion_filters(mapped.copy_value(), nullable));
        },
        _ => {},
    }
    assert(fields_view(fields@) =~= base_filters_spec(typ@, t, nullable, nested, insensitive));
    fields
}

/// The aggregate filters of a scalar value of `typ`.
fn aggregate_filters(
    ctx: &mut BuilderContext,
    typ: &TypeIdentifier,
    nullable: bool,
    list: bool,
) -> (r: Vec<InputField>)
    ensures
        fields_view(r@) == aggregate_fields_spec(typ@, list, nullable),
        extends(*old(ctx), *final(ctx)),
    decreases 3int,
{
    let ghost start = *ctx;
    let ghost insensitive = ctx.insensitive_filters();
    assert(ctx.types_view().subrange(0, start.types_view().len() as int) =~= start.types_view());
    let mut aggs: Vec<InputField> = Vec::new();
    let ghost before = *ctx;
    aggs.push(aggregate_filter_field(ctx, "count", &TypeIdentifier::Int, nullable, list));
    proof {
        lemma_extends_trans(start, before, *ctx);
    }
    if typ.is_numeric() {
        let avg_type = map_avg_type_ident(typ.copy_value());
        let ghost before = *ctx;
        aggs.push(aggregate_filter_field(ctx, "avg", &avg_type, nullable, list));
        proof {
            lemma_extends_trans(start, before, *ctx);
        }
        let ghost before = *ctx;
        aggs.push(aggregate_filter_field(ctx, "sum", typ, nullable, list));
        proof {
            lemma_extends_trans(start, before, *ctx);
        }
    }
    if !list {
        let ghost before = *ctx;
        aggs.push(aggregate_filter_field(ctx, "min", typ, nullable, list));
        proof {
            lemma_extends_trans(start, before, *ctx);
        }
        let ghost before = *ctx;
        aggs.push(aggregate_filter_field(ctx, "max", typ, nullable, list));
        proof {
            lemma_extends_trans(start, before, *ctx);
        }
    }
    assert(fields_view(aggs@) =~= aggregate_fields_spec(typ@, list, nullable));
    aggs
}

/// Builds the filter type of a scalar value of `typ`, unless one of its name
/// was built already, and returns its name.
pub fn full_scalar_filter_type(
    ctx: &mut BuilderContext,
    typ: &TypeIdentifier,
    list: bool,
    nullable: bool,
    nested: bool,
    include_aggregates: bool,
) -> (r: String)
    ensures
        r@ == scalar_filter_name_spec(typ@, list, nullable, nested, include_aggregates),
        builds_type(
            *old(ctx),
            *final(ctx),
            r@,
            scalar_filter_fields_spec(
                typ@,
                list,
                nullable,
                nested,
                include_aggregates,
                old(ctx).insensitive_filters(),
            ),
        ),
        extends(*old(ctx), *final(ctx)),
    decreases (if include_aggregates { 4int } else { 0int }) + (if nested { 0int } else { 2int }),
{
    let ident = scalar_filter_name(typ, list, nullable, nested, include_aggregates);
    if ctx.get_input_type(ident.as_str()) {
        assert(ctx.types_view().subrange(0, ctx.types_view().len() as int) =~= ctx.types_view());
        return ident;
    }
    let ghost start = *ctx;
    let ghost insensitive = ctx.insensitive_filters();
    let mapped = map_scalar_input_type(typ, list);
    let mut fields = base_filters(ctx, typ, &mapped, nullable, nested);
    let mut not_types: Vec<InputType> = Vec::new();
    not_types.push(mapped);
    if !matches!(typ, TypeIdentifier::Json) {
        let nested_filter = if nested {
            ident.clone()
        } else {
            let n = full_scalar_filter_type(ctx, typ, list, nullable, true, include_aggregates);
            proof {
            }
            n
        };
        not_types.push(InputType::Object(nested_filter));
    }
    if nullable {
        not_types.push(InputType::Null);
    }
    let not_field = InputField {
        name: String::from_str("not"),
        field_types: not_types,
        default_value: None,
        is_required: false,
    };
    assert(not_field@.field_types =~= not_field_spec(typ@, list, nullable, include_aggregates).field_types);
    let ghost base = fields_view(fields@);
    fields.push(not_field);
    assert(fields_view(fields@) =~= base.push(not_field_spec(typ@, list, nullable, include_aggregates)));
    proof {
        if nested || typ@ is Json {
            assert(ctx.types_view().subrange(0, start.types_view().len() as int) =~= start.types_view());
        }
    }
    if include_aggregates {
        let ghost before = *ctx;
        let aggs = aggregate_filters(ctx, typ, nullable, list);
        proof {
            lemma_extends_trans(start, before, *ctx);
        }
        append_fields(&mut fields, aggs);
    }
    assert(fields_view(fields@) =~= scalar_filter_fields_spec(
        typ@,
        list,
        nullable,
        nested,
        include_aggregates,
        insensitive,
    ));
    let ghost built = *ctx;
    add_input_type(ctx, ident.clone(), fields);
    let ghost len = start.types_view().len() as int;
    assert(ctx.types_view().subrange(0, len) =~= built.types_view().subrange(0, len));
    ident
}

/// Builds the filter type of a scalar list field, unless one of its name
/// was built already, and returns its name.
pub fn scalar_list_filter_type(ctx: &mut BuilderContext, sf: &ScalarField) -> (r: String)
    ensures
        r@ == scalar_filter_name_spec(sf.type_identifier@, true, !sf.is_required, false, false),
        builds_type(
            *old(ctx),
            *final(ctx),
            r@,
            equality_spec(scalar_input_spec(sf.type_identifier@, sf.is_list), !sf.is_required),
        ),
{
    let ident = scalar_filter_name(&sf.type_identifier, true, !sf.is_required, false, false);
    if ctx.get_input_type(ident.as_str()) {
        return ident;
    }
    let mapped_type = map_scalar_input_type(&sf.type_identifier, sf.is_list);
    let fields = equality_filters(mapped_type, !sf.is_required);
    let ghost before = *ctx;
    add_input_type(ctx, ident.clone(), fields);
    assert(ctx.types_view().subrange(0, before.types_view().len() as int) =~= before.types_view());
    ident
}

pub open spec fn input_types_view(types: Seq<InputType>) -> Seq<InputTypeView> {
    types.map_values(|t: InputType| t@)
}

/// The types that a filter on a scalar field accepts: the filter object
/// first, then, but for JSON, the value itself as a shorthand for `equals`,
/// and null where the field is optional. A list field accepts its list
/// filter alone.
pub open spec fn field_filter_types_spec(sf: ScalarField, include_aggregates: bool) -> Seq<
    InputTypeView,
> {
    let typ = sf.type_identifier@;
    if sf.is_list {
        seq![InputTypeView::Object(scalar_filter_name_spec(typ, true, !sf.is_required, false, false))]
    } else {
        let head = seq![
            InputTypeView::Object(
                scalar_filter_name_spec(typ, false, !sf.is_required, false, include_aggregates),
            ),
        ];
        if typ is Json {
            head
        } else if sf.is_required {
            head.push(scalar_input_spec(typ, false))
        } else {
            head.push(scalar_input_spec(typ, false)).push(InputTypeView::Null)
        }
    }
}

/// Builds the filter types of a scalar field.
pub fn get_field_filter_types(ctx: &mut BuilderContext, sf: &ScalarField, include_aggregates: bool) -> (r:
    Vec<InputType>)
    ensures
        input_types_view(r@) == field_filter_types_spec(*sf, include_aggregates),
        sf.is_list ==> builds_type(
            *old(ctx),
            *final(ctx),
            scalar_filter_name_spec(sf.type_identifier@, true, !sf.is_required, false, false),
            equality_spec(scalar_input_spec(sf.type_identifier@, true), !sf.is_required),
        ),
        !sf.is_list ==> builds_type(
            *old(ctx),
            *final(ctx),
            scalar_filter_name_spec(
                sf.type_identifier@,
                false,
                !sf.is_required,
                false,
                include_aggregates,
            ),
            scalar_filter_fields_spec(
                sf.type_identifier@,
                false,
                !sf.is_required,
                false,
                include_aggregates,
                old(ctx).insensitive_filters(),
            ),
        ),
{
    let mut types: Vec<InputType> = Vec::new();
    if sf.is_list {
        let name = scalar_list_filter_type(ctx, sf);
        types.push(InputType::Object(name));
    } else {
        let name = full_scalar_filter_type(
            ctx,
            &sf.type_identifier,
            sf.is_list,
            !sf.is_required,
            false,
            include_aggregates,
        );
        types.push(InputType::Object(name));
        if !matches!(sf.type_identifier, TypeIdentifier::Json) {
            types.push(map_scalar_input_type(&sf.type_identifier, sf.is_list));
            if !sf.is_required {
                types.push(InputType::Null);
            }
        }
    }
    assert(input_types_view(types@) =~= field_filter_types_spec(*sf, include_aggregates));
    types
}

} // verus!
