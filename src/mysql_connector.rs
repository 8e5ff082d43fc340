//! The MySQL connector: its native-type constructors, and the checks that
//! fields and models must pass before any migration work begins.

use crate::connector_error::{result_view, unit_result_view, ConnectorError, ErrorView};
use crate::native_types::{
    constructor_at, constructor_at_exec, constructor_name, constructor_position,
    is_constructor_name, lemma_constructor_names, lemma_parse_type_round_trip, name_and_args,
    parse_type, parse_type_spec, type_args, InstanceView, MySqlType, NativeTypeConstructor,
    NativeTypeInstance, ScalarType, MYSQL_CONSTRUCTOR_COUNT, ConstructorView, lemma_parsed_type_name,
};
use crate::text::{str_eq, strings_view};
use vstd::prelude::*;
use vstd::string::*;

verus! {

/// What a database can do, as far as the schema rules care.
#[derive(Clone, Copy, Debug, PartialEq, Eq, Structural)]
pub enum ConnectorCapability {
    RelationsOverNonUniqueCriteria,
    Enums,
    Json,
    MultipleIndexesWithSameName,
    AutoIncrementAllowedOnNonId,
    RelationFieldsInArbitraryOrder,
    InsensitiveFilters,
}

/// The type of a model field.
#[derive(Debug)]
pub enum FieldType {
    Base(ScalarType),
    Enum(String),
    NativeType(ScalarType, NativeTypeInstance),
}

/// A field of a model.
#[derive(Debug)]
pub struct Field {
    pub name: String,
    pub field_type: FieldType,
    pub is_unique: bool,
    pub is_id: bool,
}

#[derive(Clone, Copy, Debug, PartialEq, Eq, Structural)]
pub enum IndexType {
    Unique,
    Normal,
}

/// An index over fields of a model, by field name.
#[derive(Debug)]
pub struct IndexDefinition {
    pub name: Option<String>,
    pub fields: Vec<String>,
    pub tpe: IndexType,
}

/// A model: its fields, its indexes and the fields of its primary key.
#[derive(Debug)]
pub struct Model {
    pub name: String,
    pub fields: Vec<Field>,
    pub indices: Vec<IndexDefinition>,
    pub id_fields: Vec<String>,
}

/// The first field from position `i` on that carries `name`.
pub open spec fn find_field_from(fields: Seq<Field>, name: Seq<char>, i: int) -> Option<Field>
    decreases fields.len() - i,
{
    if i < 0 || i >= fields.len() {
        None
    } else if fields[i].name@ == name {
        Some(fields[i])
    } else {
        find_field_from(fields, name, i + 1)
    }
}

pub open spec fn find_field_spec(fields: Seq<Field>, name: Seq<char>) -> Option<Field> {
    find_field_from(fields, name, 0)
}

impl Model {
    /// The first field that carries `name`.
    pub fn find_field(&self, name: &str) -> (r: Option<&Field>)
        ensures
            match r {
                Some(f) => find_field_spec(self.fields@, name@) == Some(*f),
                None => find_field_spec(self.fields@, name@) is None,
            },
    {
        let mut i: usize = 0;
        while i < self.fields.len()
            invariant
                i <= self.fields.len(),
                find_field_spec(self.fields@, name@) == find_field_from(self.fields@, name@, i as int),
            decreases self.fields.len() - i,
        {
            if str_eq(self.fields[i].name.as_str(), name) {
                return Some(&self.fields[i]);
            }
            i = i + 1;
        }
        None
    }

    /// Every field that an index or the primary key names exists.
    pub open spec fn references_resolve(&self) -> bool {
        &&& forall|i: int, j: int|
            0 <= i < self.indices@.len() && 0 <= j < self.indices@[i].fields@.len()
                ==> find_field_spec(self.fields@, #[trigger] self.indices@[i].fields@[j]@) is Some
        &&& forall|k: int|
            0 <= k < self.id_fields@.len() ==> find_field_spec(
                self.fields@,
                #[trigger] self.id_fields@[k]@,
            ) is Some
    }
}

/// The native types that cannot take part in a key: text and blob types.
pub open spec fn is_large_object(name: Seq<char>) -> bool {
    name == "Text"@ || name == "LongText"@ || name == "MediumText"@ || name == "TinyText"@ || name
        == "Blob"@ || name == "TinyBlob"@ || name == "MediumBlob"@ || name == "LongBlob"@
}

pub open spec fn precision_and_scale(t: MySqlType) -> Option<(u32, u32)> {
    match t {
        MySqlType::Decimal(x) => x,
        MySqlType::Numeric(x) => x,
        _ => None,
    }
}

pub open spec fn out_of_range(message: Seq<char>, name: Seq<char>) -> ErrorView {
    ErrorView::ArgumentOutOfRange { message, native_type: name, connector_name: "MySQL"@ }
}

/// What checking a native type named `name`, decoded as `t`, on a field
/// that is unique or part of the primary key, gives.
pub open spec fn native_type_check(name: Seq<char>, t: MySqlType, unique: bool, id: bool) -> Result<
    (),
    ErrorView,
> {
    match precision_and_scale(t) {
        Some((precision, scale)) => if scale > precision {
            Err(ErrorView::ScaleLargerThanPrecision { native_type: name, connector_name: "MySQL"@ })
        } else if precision < 1 || precision > 65 {
            Err(out_of_range("Precision can range from 1 to 65."@, name))
        } else if scale > 30 {
            Err(out_of_range("Scale can range from 0 to 30."@, name))
        } else {
            length_and_key_check(name, t, unique, id)
        },
        None => length_and_key_check(name, t, unique, id),
    }
}

/// The checks that follow those of precision and scale.
pub open spec fn length_and_key_check(name: Seq<char>, t: MySqlType, unique: bool, id: bool) -> Result<
    (),
    ErrorView,
> {
    if t matches MySqlType::Bit(l) && (l == 0 || l > 64) {
        Err(out_of_range("M can range from 1 to 64."@, name))
    } else if t matches MySqlType::Char(l) && l > 255 {
        Err(out_of_range("M can range from 0 to 255."@, name))
    } else if t matches MySqlType::VarChar(l) && l > 65535 {
        Err(out_of_range("M can range from 0 to 65,535."@, name))
    } else if unique && is_large_object(name) {
        Err(
            ErrorView::IncompatibleNativeTypeWithUnique {
                native_type: name,
                connector_name: "MySQL"@,
            },
        )
    } else if id && is_large_object(name) {
        Err(ErrorView::IncompatibleNativeTypeWithId { native_type: name, connector_name: "MySQL"@ })
    } else {
        Ok(())
    }
}

/// What validating a field gives.
pub open spec fn validate_field_spec(field: Field) -> Result<(), ErrorView> {
    match field.field_type {
        FieldType::NativeType(_, instance) => native_type_check(
            instance.name@,
            instance.native_type,
            field.is_unique,
            field.is_id,
        ),
        _ => Ok(()),
    }
}

/// The large-object type of the field that `name` finds, if it has one.
pub open spec fn large_object_of(model: Model, name: Seq<char>) -> Option<Seq<char>> {
    match find_field_spec(model.fields@, name) {
        Some(f) => match f.field_type {
            FieldType::NativeType(_, instance) => if is_large_object(instance.name@) {
                Some(instance.name@)
            } else {
                None
            },
            _ => None,
        },
        None => None,
    }
}

/// The error for the first field of `index`, from position `j` on, that has
/// a large-object type.
pub open spec fn index_error_from(model: Model, index: IndexDefinition, j: int) -> Option<ErrorView>
    decreases index.fields@.len() - j,
{
    if j < 0 || j >= index.fields@.len() {
        None
    } else {
        match large_object_of(model, index.fields@[j]@) {
            Some(name) => Some(
                if index.tpe == IndexType::Unique {
                    ErrorView::IncompatibleNativeTypeWithUnique {
                        native_type: name,
                        connector_name: "MySQL"@,
                    }
                } else {
                    ErrorView::IncompatibleNativeTypeWithIndex {
                        native_type: name,
                        connector_name: "MySQL"@,
                    }
                },
            ),
            None => index_error_from(model, index, j + 1),
        }
    }
}

/// The first index error, from the index at position `i` on.
pub open spec fn indices_error_from(model: Model, i: int) -> Option<ErrorView>
    decreases model.indices@.len() - i,
{
    if i < 0 || i >= model.indices@.len() {
        None
    } else {
        match index_error_from(model, model.indices@[i], 0) {
            Some(e) => Some(e),
            None => indices_error_from(model, i + 1),
        }
    }
}

/// The first primary-key error, from the key field at position `k` on.
pub open spec fn id_error_from(model: Model, k: int) -> Option<ErrorView>
    decreases model.id_fields@.len() - k,
{
    if k < 0 || k >= model.id_fields@.len() {
        None
    } else {
        match large_object_of(model, model.id_fields@[k]@) {
            Some(name) => Some(
                ErrorView::IncompatibleNativeTypeWithId { native_type: name, connector_name: "MySQL"@ },
            ),
            None => id_error_from(model, k + 1),
        }
    }
}

/// What validating a model gives: the first index error, else the first
/// primary-key error, else success.
pub open spec fn validate_model_spec(model: Model) -> Result<(), ErrorView> {
    match indices_error_from(model, 0) {
        Some(e) => Err(e),
        None => match id_error_from(model, 0) {
            Some(e) => Err(e),
            None => Ok(()),
        },
    }
}

/// The name and the decoded type of a field's native type, if it has one.
pub open spec fn field_native_type(field: Field) -> Option<(Seq<char>, MySqlType)> {
    match field.field_type {
        FieldType::NativeType(_, instance) => Some((instance.name@, instance.native_type)),
        _ => None,
    }
}

/// The instance that a type is read back as.
pub open spec fn instance_of(t: MySqlType) -> InstanceView {
    InstanceView { name: constructor_name(t), args: type_args(t), native_type: t }
}

/// What parsing `name` with `args` gives.
pub open spec fn parse_native_type_spec(name: Seq<char>, args: Seq<Seq<char>>) -> Result<
    InstanceView,
    ErrorView,
> {
    match parse_type_spec(name, args) {
        Ok(t) => Ok(InstanceView { name, args, native_type: t }),
        Err(e) => Err(e),
    }
}

pub open spec fn mysql_capabilities() -> Seq<ConnectorCapability> {
    seq![
        ConnectorCapability::RelationsOverNonUniqueCriteria,
        ConnectorCapability::Enums,
        ConnectorCapability::Json,
        ConnectorCapability::MultipleIndexesWithSameName,
        ConnectorCapability::AutoIncrementAllowedOnNonId,
        ConnectorCapability::RelationFieldsInArbitraryOrder,
    ]
}

fn is_large_object_name(name: &str) -> (r: bool)
    ensures
        r == is_large_object(name@),
{
    str_eq(name, "Text") || str_eq(name, "LongText") || str_eq(name, "MediumText") || str_eq(
        name,
        "TinyText",
    ) || str_eq(name, "Blob") || str_eq(name, "TinyBlob") || str_eq(name, "MediumBlob") || str_eq(
        name,
        "LongBlob",
    )
}

fn out_of_range_error(message: &str, name: &str) -> (e: ConnectorError)
    ensures
        e@ == out_of_range(message@, name@),
{
    ConnectorError::ArgumentOutOfRange {
        message: String::from_str(message),
        native_type: String::from_str(name),
        connector_name: String::from_str("MySQL"),
    }
}

fn check_native_type(name: &str, t: MySqlType, unique: bool, id: bool) -> (r: Result<
    (),
    ConnectorError,
>)
    ensures
        unit_result_view(r) == native_type_check(name@, t, unique, id),
{
    let ps = match t {
        MySqlType::Decimal(x) => x,
        MySqlType::Numeric(x) => x,
        _ => None,
    };
    if let Some((precision, scale)) = ps {
        if scale > precision {
            return Err(
                ConnectorError::ScaleLargerThanPrecision {
                    native_type: String::from_str(name),
                    connector_name: String::from_str("MySQL"),
                },
            );
        }
        if precision < 1 || precision > 65 {
            return Err(out_of_range_error("Precision can range from 1 to 65.", name));
        }
        if scale > 30 {
            return Err(out_of_range_error("Scale can range from 0 to 30.", name));
        }
    }
    match t {
        MySqlType::Bit(length) => {
            if length == 0 || length > 64 {
                return Err(out_of_range_error("M can range from 1 to 64.", name));
            }
        },
        MySqlType::Char(length) => {
            if length > 255 {
                return Err(out_of_range_error("M can range from 0 to 255.", name));
            }
        },
        MySqlType::VarChar(length) => {
            if length > 65535 {
                return Err(out_of_range_error("M can range from 0 to 65,535.", name));
            }
        },
        _ => {},
    }
    if unique && is_large_object_name(name) {
        return Err(
            ConnectorError::IncompatibleNativeTypeWithUnique {
                native_type: String::from_str(name),
                connector_name: String::from_str("MySQL"),
            },
        );
    }
    if id && is_large_object_name(name) {
        return Err(
            ConnectorError::IncompatibleNativeTypeWithId {
                native_type: String::from_str(name),
                connector_name: String::from_str("MySQL"),
            },
        );
    }
    Ok(())
}

/// The MySQL connector: what MySQL can do, and its native types.
pub struct MySqlDatamodelConnector {
    capabilities: Vec<ConnectorCapability>,
    constructors: Vec<NativeTypeConstructor>,
}

impl MySqlDatamodelConnector {
    /// The connector holds the MySQL capabilities and constructors.
    pub open spec fn wf(&self) -> bool {
        &&& self.capabilities_view() == mysql_capabilities()
        &&& self.constructors_view().len() == MYSQL_CONSTRUCTOR_COUNT
        &&& forall|i: int|
            0 <= i < MYSQL_CONSTRUCTOR_COUNT ==> #[trigger] self.constructors_view()[i]
                == constructor_at(i)
    }

    /// What the connector holds as its capabilities.
    pub closed spec fn capabilities_view(&self) -> Seq<ConnectorCapability> {
        self.capabilities@
    }

    /// What the connector holds as its constructors.
    pub closed spec fn constructors_view(&self) -> Seq<ConstructorView> {
        self.constructors@.map_values(|c: NativeTypeConstructor| c@)
    }

    pub fn new() -> (r: MySqlDatamodelConnector)
        ensures
            r.wf(),
    {
        let mut capabilities: Vec<ConnectorCapability> = Vec::new();
        capabilities.push(ConnectorCapability::RelationsOverNonUniqueCriteria);
        capabilities.push(ConnectorCapability::Enums);
        capabilities.push(ConnectorCapability::Json);
        capabilities.push(ConnectorCapability::MultipleIndexesWithSameName);
        capabilities.push(ConnectorCapability::AutoIncrementAllowedOnNonId);
        capabilities.push(ConnectorCapability::RelationFieldsInArbitraryOrder);
        assert(capabilities@ =~= mysql_capabilities());
        let mut constructors: Vec<NativeTypeConstructor> = Vec::new();
        let mut i: usize = 0;
        while i < MYSQL_CONSTRUCTOR_COUNT
            invariant
                i <= MYSQL_CONSTRUCTOR_COUNT,
                constructors@.len() == i,
                forall|j: int| 0 <= j < i ==> (#[trigger] constructors@[j])@ == constructor_at(j),
            decreases MYSQL_CONSTRUCTOR_COUNT - i,
        {
            constructors.push(constructor_at_exec(i));
            i = i + 1;
        }
        let r = MySqlDatamodelConnector { capabilities, constructors };
        assert forall|i: int| 0 <= i < MYSQL_CONSTRUCTOR_COUNT implies #[trigger] r.constructors_view()[i]
            == constructor_at(i) by {
            assert(r.constructors_view()[i] == r.constructors@[i]@);
        }
        r
    }

    pub fn capabilities(&self) -> (r: &Vec<ConnectorCapability>)
        requires
            self.wf(),
        ensures
            r@ == mysql_capabilities(),
    {
        &self.capabilities
    }

    pub fn available_native_type_constructors(&self) -> (r: &Vec<NativeTypeConstructor>)
        requires
            self.wf(),
        ensures
            r@.len() == MYSQL_CONSTRUCTOR_COUNT,
            forall|i: int| 0 <= i < MYSQL_CONSTRUCTOR_COUNT ==> (#[trigger] r@[i])@ == constructor_at(i),
    {
        assert forall|i: int| 0 <= i < MYSQL_CONSTRUCTOR_COUNT implies (#[trigger] self.constructors@[i])@
            == constructor_at(i) by {
            assert(self.constructors_view()[i] == self.constructors@[i]@);
        }
        &self.constructors
    }

    /// The first constructor that carries `name`.
    pub fn find_native_type_constructor(&self, name: &str) -> (r: Option<&NativeTypeConstructor>)
        requires
            self.wf(),
        ensures
            match r {
                Some(c) => c.name@ == name@ && exists|i: int|
                    0 <= i < MYSQL_CONSTRUCTOR_COUNT && constructor_at(i) == c@,
                None => forall|i: int|
                    0 <= i < MYSQL_CONSTRUCTOR_COUNT ==> #[trigger] constructor_at(i).name != name@,
            },
    {
        let mut i: usize = 0;
        while i < self.constructors.len()
            invariant
                self.wf(),
                i <= self.constructors.len(),
                forall|j: int| 0 <= j < i ==> #[trigger] constructor_at(j).name != name@,
            decreases self.constructors.len() - i,
        {
            assert(self.constructors_view()[i as int] == self.constructors@[i as int]@);
            if str_eq(self.constructors[i].name.as_str(), name) {
                return Some(&self.constructors[i]);
            }
            i = i + 1;
        }
        None
    }

    /// Checks the bounds of a field's native type, and that a unique or
    /// primary-key field does not use a large-object type.
    pub fn validate_field(&self, field: &Field) -> (r: Result<(), ConnectorError>)
        ensures
            unit_result_view(r) == validate_field_spec(*field),
    {
        match &field.field_type {
            FieldType::NativeType(_, instance) => check_native_type(
                instance.name.as_str(),
                instance.native_type,
                field.is_unique,
                field.is_id,
            ),
            _ => Ok(()),
        }
    }

    /// Checks that no index and no primary key of the model covers a field
    /// of a large-object type.
    pub fn validate_model(&self, model: &Model) -> (r: Result<(), ConnectorError>)
        requires
            model.references_resolve(),
        ensures
            unit_result_view(r) == validate_model_spec(*model),
    {
        let mut i: usize = 0;
        while i < model.indices.len()
            invariant
                model.references_resolve(),
                i <= model.indices.len(),
                indices_error_from(*model, 0) == indices_error_from(*model, i as int),
            decreases model.indices.len() - i,
        {
            let index = &model.indices[i];
            let mut j: usize = 0;
            while j < index.fields.len()
                invariant
                    model.references_resolve(),
                    i < model.indices.len(),
                    *index == model.indices@[i as int],
                    j <= index.fields.len(),
                    indices_error_from(*model, 0) == indices_error_from(*model, i as int),
                    index_error_from(*model, *index, 0) == index_error_from(*model, *index, j as int),
                decreases index.fields.len() - j,
            {
                assert(find_field_spec(model.fields@, model.indices@[i as int].fields@[j as int]@) is Some);
                let found = model.find_field(index.fields[j].as_str());
                if let Some(f) = found {
                    if let FieldType::NativeType(_, instance) = &f.field_type {
                        let name = instance.name.as_str();
                        if is_large_object_name(name) {
                            if index.tpe == IndexType::Unique {
                                return Err(
                                    ConnectorError::IncompatibleNativeTypeWithUnique {
                                        native_type: String::from_str(name),
                                        connector_name: String::from_str("MySQL"),
                                    },
                                );
                            } else {
                                return Err(
                                    ConnectorError::IncompatibleNativeTypeWithIndex {
                                        native_type: String::from_str(name),
                                        connector_name: String::from_str("MySQL"),
                                    },
                                );
                            }
                        }
                    }
                }
                j = j + 1;
            }
            i = i + 1;
        }
        let mut k: usize = 0;
        while k < model.id_fields.len()
            invariant
                model.references_resolve(),
                k <= model.id_fields.len(),
                indices_error_from(*model, 0) is None,
                id_error_from(*model, 0) == id_error_from(*model, k as int),
            decreases model.id_fields.len() - k,
        {
            assert(find_field_spec(model.fields@, model.id_fields@[k as int]@) is Some);
            let found = model.find_field(model.id_fields[k].as_str());
            if let Some(f) = found {
                if let FieldType::NativeType(_, instance) = &f.field_type {
                    let name = instance.name.as_str();
                    if is_large_object_name(name) {
                        return Err(
                            ConnectorError::IncompatibleNativeTypeWithId {
                                native_type: String::from_str(name),
                                connector_name: String::from_str("MySQL"),
                            },
                        );
                    }
                }
            }
            k = k + 1;
        }
        Ok(())
    }

    /// Reads a native type from its constructor's name and its arguments,
    /// which the instance keeps as given.
    pub fn parse_native_type(&self, name: &str, args: Vec<String>) -> (r: Result<
        NativeTypeInstance,
        ConnectorError,
    >)
        requires
            is_constructor_name(name@),
        ensures
            result_view(r) == parse_native_type_spec(name@, strings_view(args@)),
            r matches Ok(instance) ==> instance.wf(),
    {
        proof {
            lemma_parsed_type_name(name@, strings_view(args@));
        }
        match parse_type(name, &args) {
            Ok(t) => Ok(NativeTypeInstance::new(name, args, &t)),
            Err(e) => Err(e),
        }
    }

    /// Writes a decoded native type back as its constructor's name and
    /// arguments.
    pub fn introspect_native_type(&self, native_type: MySqlType) -> (r: Result<
        NativeTypeInstance,
        ConnectorError,
    >)
        requires
            self.wf(),
        ensures
            result_view(r) == Ok::<InstanceView, ErrorView>(instance_of(native_type)),
    {
        let (constructor, args) = name_and_args(&native_type);
        assert(constructor_at(constructor_position(native_type)).name == constructor_name(native_type));
        match self.find_native_type_constructor(constructor) {
            Some(c) => Ok(NativeTypeInstance::new(c.name.as_str(), args, &native_type)),
            None => Err(
                ConnectorError::NativeTypeNameUnknown {
                    native_type: String::from_str(constructor),
                    connector_name: String::from_str("Mysql"),
                },
            ),
        }
    }
}

impl Default for MySqlDatamodelConnector {
    fn default() -> (r: Self)
        ensures
            r.wf(),
    {
        Self::new()
    }
}


/// Parsing the name and the arguments that introspection gives for a type
/// yields the very instance that introspection gave.
pub proof fn lemma_introspect_then_parse(t: MySqlType)
    ensures
        is_constructor_name(instance_of(t).name),
        parse_native_type_spec(instance_of(t).name, instance_of(t).args) == Ok::<
            InstanceView,
            ErrorView,
        >(instance_of(t)),
{
    lemma_parse_type_round_trip(t);
}

/// A decimal or numeric type fails validation when its scale exceeds its
/// precision, its precision is 0 or exceeds 65, or its scale exceeds 30, and passes
/// with a precision from 1 to 65 and a scale from 0 to 30 no larger than it.
pub proof fn lemma_decimal_bounds(field: Field, t: MySqlType, p: u32, s: u32)
    requires
        precision_and_scale(t) == Some((p, s)),
        field_native_type(field) == Some((constructor_name(t), t)),
    ensures
        s > p ==> validate_field_spec(field) is Err,
        p == 0 ==> validate_field_spec(field) is Err,
        p > 65 ==> validate_field_spec(field) is Err,
        s > 30 ==> validate_field_spec(field) is Err,
        1 <= p <= 65 && s <= 30 && s <= p ==> validate_field_spec(field) is Ok,
{
    lemma_constructor_names();
}

/// A bit type fails validation with a length of 0 or above 64 and passes
/// with a length from 1 to 64.
pub proof fn lemma_bit_length_bounds(field: Field, length: u32)
    requires
        field_native_type(field) == Some((constructor_name(MySqlType::Bit(length)), MySqlType::Bit(length))),
    ensures
        validate_field_spec(field) is Ok <==> 1 <= length <= 64,
{
    lemma_constructor_names();
}

/// A fixed-length character type fails validation with a length above 255
/// and passes with any other length.
pub proof fn lemma_char_length_bounds(field: Field, length: u32)
    requires
        field_native_type(field) == Some((constructor_name(MySqlType::Char(length)), MySqlType::Char(length))),
    ensures
        validate_field_spec(field) is Ok <==> length <= 255,
{
    lemma_constructor_names();
}

/// A variable-length character type fails validation with a length above
/// 65 535 and passes with any other length.
pub proof fn lemma_varchar_length_bounds(field: Field, length: u32)
    requires
        field_native_type(field) == Some(
            (constructor_name(MySqlType::VarChar(length)), MySqlType::VarChar(length)),
        ),
    ensures
        validate_field_spec(field) is Ok <==> length <= 65535,
{
    lemma_constructor_names();
}

/// A field of a large-object type fails validation when it is unique or part
/// of the primary key, and passes when it is neither.
pub proof fn lemma_large_object_field(field: Field, t: MySqlType)
    requires
        field_native_type(field) == Some((constructor_name(t), t)),
        is_large_object(constructor_name(t)),
    ensures
        validate_field_spec(field) is Ok <==> !field.is_unique && !field.is_id,
{
    lemma_constructor_names();
}

proof fn lemma_index_error_found(model: Model, index: IndexDefinition, j: int, from: int)
    requires
        0 <= from <= j < index.fields@.len(),
        large_object_of(model, index.fields@[j]@) is Some,
    ensures
        index_error_from(model, index, from) is Some,
    decreases j - from,
{
    if from < j {
        lemma_index_error_found(model, index, j, from + 1);
    }
}

proof fn lemma_indices_error_found(model: Model, i: int, j: int, from: int)
    requires
        0 <= from <= i < model.indices@.len(),
        0 <= j < model.indices@[i].fields@.len(),
        large_object_of(model, model.indices@[i].fields@[j]@) is Some,
    ensures
        indices_error_from(model, from) is Some,
    decreases i - from,
{
    if from < i {
        lemma_indices_error_found(model, i, j, from + 1);
    } else {
        lemma_index_error_found(model, model.indices@[i], j, 0);
    }
}

proof fn lemma_id_error_found(model: Model, k: int, from: int)
    requires
        0 <= from <= k < model.id_fields@.len(),
        large_object_of(model, model.id_fields@[k]@) is Some,
    ensures
        id_error_from(model, from) is Some,
    decreases k - from,
{
    if from < k {
        lemma_id_error_found(model, k, from + 1);
    }
}

/// A model fails validation when one of its indexes covers a field of a
/// large-object type.
pub proof fn lemma_large_object_in_index(model: Model, i: int, j: int)
    requires
        0 <= i < model.indices@.len(),
        0 <= j < model.indices@[i].fields@.len(),
        large_object_of(model, model.indices@[i].fields@[j]@) is Some,
    ensures
        validate_model_spec(model) is Err,
{
    lemma_indices_error_found(model, i, j, 0);
}

/// A model fails validation when its primary key covers a field of a
/// large-object type.
pub proof fn lemma_large_object_in_key(model: Model, k: int)
    requires
        0 <= k < model.id_fields@.len(),
        large_object_of(model, model.id_fields@[k]@) is Some,
    ensures
        validate_model_spec(model) is Err,
{
    if indices_error_from(model, 0) is None {
        lemma_id_error_found(model, k, 0);
    }
}

proof fn lemma_no_index_error(model: Model, index: IndexDefinition, from: int)
    requires
        forall|j: int|
            0 <= j < index.fields@.len() ==> large_object_of(model, #[trigger] index.fields@[j]@) is None,
    ensures
        index_error_from(model, index, from) is None,
    decreases index.fields@.len() - from,
{
    if 0 <= from < index.fields@.len() {
        lemma_no_index_error(model, index, from + 1);
    }
}

proof fn lemma_no_indices_error(model: Model, from: int)
    requires
        forall|i: int, j: int|
            0 <= i < model.indices@.len() && 0 <= j < model.indices@[i].fields@.len()
                ==> large_object_of(model, #[trigger] model.indices@[i].fields@[j]@) is None,
    ensures
        indices_error_from(model, from) is None,
    decreases model.indices@.len() - from,
{
    if 0 <= from < model.indices@.len() {
        let index = model.indices@[from];
        assert forall|j: int| 0 <= j < index.fields@.len() implies large_object_of(
            model,
            #[trigger] index.fields@[j]@,
        ) is None by {
            assert(large_object_of(model, model.indices@[from].fields@[j]@) is None);
        }
        lemma_no_index_error(model, index, 0);
        lemma_no_indices_error(model, from + 1);
    }
}

proof fn lemma_no_id_error(model: Model, from: int)
    requires
        forall|k: int|
            0 <= k < model.id_fields@.len() ==> large_object_of(model, #[trigger] model.id_fields@[k]@) is None,
    ensures
        id_error_from(model, from) is None,
    decreases model.id_fields@.len() - from,
{
    if 0 <= from < model.id_fields@.len() {
        lemma_no_id_error(model, from + 1);
    }
}

/// A model passes validation when none of its indexes and not its primary
/// key covers a field of a large-object type.
pub proof fn lemma_no_large_object_in_keys(model: Model)
    requires
        forall|i: int, j: int|
            0 <= i < model.indices@.len() && 0 <= j < model.indices@[i].fields@.len()
                ==> large_object_of(model, #[trigger] model.indices@[i].fields@[j]@) is None,
        forall|k: int|
            0 <= k < model.id_fields@.len() ==> large_object_of(model, #[trigger] model.id_fields@[k]@) is None,
    ensures
        validate_model_spec(model) is Ok,
{
    lemma_no_indices_error(model, 0);
    lemma_no_id_error(model, 0);
}

} // verus!
