//! The native types of MySQL: their constructors, and how a type is read
//! from a name with arguments and written back.

use crate::connector_error::{ConnectorError, ErrorView};
use crate::text::{
    decimal, lemma_parse_decimal, parse_u32, parse_u32_spec, str_eq,
    strings_view, u64_to_decimal,
};
use vstd::prelude::*;
use vstd::string::*;

verus! {

/// The portable scalar types that a native type can back.
#[derive(Clone, Copy, Debug, PartialEq, Eq, Structural)]
pub enum ScalarType {
    Int,
    BigInt,
    Float,
    Boolean,
    String,
    DateTime,
    Json,
    Bytes,
    Decimal,
}

/// A MySQL column type with its decoded arguments.
#[derive(Clone, Copy, Debug, PartialEq, Eq)]
pub enum MySqlType {
    Int,
    UnsignedInt,
    SmallInt,
    UnsignedSmallInt,
    TinyInt,
    UnsignedTinyInt,
    MediumInt,
    UnsignedMediumInt,
    BigInt,
    UnsignedBigInt,
    Decimal(Option<(u32, u32)>),
    Numeric(Option<(u32, u32)>),
    Float,
    Double,
    Bit(u32),
    Char(u32),
    VarChar(u32),
    Binary(u32),
    VarBinary(u32),
    TinyBlob,
    Blob,
    MediumBlob,
    LongBlob,
    TinyText,
    Text,
    MediumText,
    LongText,
    Date,
    Time(Option<u32>),
    DateTime(Option<u32>),
    Timestamp(Option<u32>),
    Year,
    JSON,
}

/// A constructor of native types: its name, how many arguments it takes and
/// which scalar types it can back.
#[derive(Debug)]
pub struct NativeTypeConstructor {
    pub name: String,
    pub number_of_args: usize,
    pub number_of_optional_args: usize,
    pub prisma_types: Vec<ScalarType>,
}

/// The mathematical value of a [`NativeTypeConstructor`].
pub struct ConstructorView {
    pub name: Seq<char>,
    pub number_of_args: nat,
    pub number_of_optional_args: nat,
    pub prisma_types: Seq<ScalarType>,
}

impl View for NativeTypeConstructor {
    type V = ConstructorView;

    open spec fn view(&self) -> ConstructorView {
        ConstructorView {
            name: self.name@,
            number_of_args: self.number_of_args as nat,
            number_of_optional_args: self.number_of_optional_args as nat,
            prisma_types: self.prisma_types@,
        }
    }
}

impl NativeTypeConstructor {
    /// A constructor that takes no argument.
    pub fn without_args(name: &str, prisma_types: Vec<ScalarType>) -> (r: NativeTypeConstructor)
        ensures
            r@ == (ConstructorView {
                name: name@,
                number_of_args: 0,
                number_of_optional_args: 0,
                prisma_types: prisma_types@,
            }),
    {
        NativeTypeConstructor {
            name: String::from_str(name),
            number_of_args: 0,
            number_of_optional_args: 0,
            prisma_types,
        }
    }

    /// A constructor that takes exactly `number_of_args` arguments.
    pub fn with_args(name: &str, number_of_args: usize, prisma_types: Vec<ScalarType>) -> (r:
        NativeTypeConstructor)
        ensures
            r@ == (ConstructorView {
                name: name@,
                number_of_args: number_of_args as nat,
                number_of_optional_args: 0,
                prisma_types: prisma_types@,
            }),
    {
        NativeTypeConstructor {
            name: String::from_str(name),
            number_of_args,
            number_of_optional_args: 0,
            prisma_types,
        }
    }

    /// A constructor that takes up to `number_of_optional_args` arguments.
    pub fn with_optional_args(
        name: &str,
        number_of_optional_args: usize,
        prisma_types: Vec<ScalarType>,
    ) -> (r: NativeTypeConstructor)
        ensures
            r@ == (ConstructorView {
                name: name@,
                number_of_args: 0,
                number_of_optional_args: number_of_optional_args as nat,
                prisma_types: prisma_types@,
            }),
    {
        NativeTypeConstructor {
            name: String::from_str(name),
            number_of_args: 0,
            number_of_optional_args,
            prisma_types,
        }
    }
}

/// A native type as written on a field: the constructor's name, the
/// arguments as given, and the decoded type.
#[derive(Debug)]
pub struct NativeTypeInstance {
    pub name: String,
    pub args: Vec<String>,
    pub native_type: MySqlType,
}

/// The mathematical value of a [`NativeTypeInstance`].
pub struct InstanceView {
    pub name: Seq<char>,
    pub args: Seq<Seq<char>>,
    pub native_type: MySqlType,
}

impl View for NativeTypeInstance {
    type V = InstanceView;

    open spec fn view(&self) -> InstanceView {
        InstanceView {
            name: self.name@,
            args: strings_view(self.args@),
            native_type: self.native_type,
        }
    }
}

impl NativeTypeInstance {
    pub fn new(name: &str, args: Vec<String>, native_type: &MySqlType) -> (r: NativeTypeInstance)
        ensures
            r@ == (InstanceView { name: name@, args: strings_view(args@), native_type: *native_type }),
    {
        NativeTypeInstance { name: String::from_str(name), args, native_type: *native_type }
    }

    /// Whether the name is the one of the decoded type.
    pub open spec fn wf(&self) -> bool {
        self.name@ == constructor_name(self.native_type)
    }
}

/// The name of the constructor of `t`.
pub open spec fn constructor_name(t: MySqlType) -> Seq<char> {
    match t {
        MySqlType::Int => "Int"@,
        MySqlType::UnsignedInt => "UnsignedInt"@,
        MySqlType::SmallInt => "SmallInt"@,
        MySqlType::UnsignedSmallInt => "UnsignedSmallInt"@,
        MySqlType::TinyInt => "TinyInt"@,
        MySqlType::UnsignedTinyInt => "UnsignedTinyInt"@,
        MySqlType::MediumInt => "MediumInt"@,
        MySqlType::UnsignedMediumInt => "UnsignedMediumInt"@,
        MySqlType::BigInt => "BigInt"@,
        MySqlType::UnsignedBigInt => "UnsignedBigInt"@,
        MySqlType::Decimal(_) => "Decimal"@,
        MySqlType::Numeric(_) => "Numeric"@,
        MySqlType::Float => "Float"@,
        MySqlType::Double => "Double"@,
        MySqlType::Bit(_) => "Bit"@,
        MySqlType::Char(_) => "Char"@,
        MySqlType::VarChar(_) => "VarChar"@,
        MySqlType::Binary(_) => "Binary"@,
        MySqlType::VarBinary(_) => "VarBinary"@,
        MySqlType::TinyBlob => "TinyBlob"@,
        MySqlType::Blob => "Blob"@,
        MySqlType::MediumBlob => "MediumBlob"@,
        MySqlType::LongBlob => "LongBlob"@,
        MySqlType::TinyText => "TinyText"@,
        MySqlType::Text => "Text"@,
        MySqlType::MediumText => "MediumText"@,
        MySqlType::LongText => "LongText"@,
        MySqlType::Date => "Date"@,
        MySqlType::Time(_) => "Time"@,
        MySqlType::DateTime(_) => "Datetime"@,
        MySqlType::Timestamp(_) => "Timestamp"@,
        MySqlType::Year => "Year"@,
        MySqlType::JSON => "JSON"@,
    }
}

/// The arguments of `t`, written in decimal.
pub open spec fn type_args(t: MySqlType) -> Seq<Seq<char>> {
    match t {
        MySqlType::Decimal(x) | MySqlType::Numeric(x) => match x {
            Some((p, s)) => seq![decimal(p as nat), decimal(s as nat)],
            None => Seq::empty(),
        },
        MySqlType::Bit(x) | MySqlType::Char(x) | MySqlType::VarChar(x) | MySqlType::Binary(x)
        | MySqlType::VarBinary(x) => seq![decimal(x as nat)],
        MySqlType::Time(x) | MySqlType::DateTime(x) | MySqlType::Timestamp(x) => match x {
            Some(p) => seq![decimal(p as nat)],
            None => Seq::empty(),
        },
        _ => Seq::empty(),
    }
}

/// Whether `name` names one of the MySQL constructors.
pub open spec fn is_constructor_name(name: Seq<char>) -> bool {
    name == "Int"@
    || name == "UnsignedInt"@
    || name == "SmallInt"@
    || name == "UnsignedSmallInt"@
    || name == "TinyInt"@
    || name == "UnsignedTinyInt"@
    || name == "MediumInt"@
    || name == "UnsignedMediumInt"@
    || name == "BigInt"@
    || name == "UnsignedBigInt"@
    || name == "Decimal"@
    || name == "Numeric"@
    || name == "Float"@
    || name == "Double"@
    || name == "Bit"@
    || name == "Char"@
    || name == "VarChar"@
    || name == "Binary"@
    || name == "VarBinary"@
    || name == "TinyBlob"@
    || name == "Blob"@
    || name == "MediumBlob"@
    || name == "LongBlob"@
    || name == "TinyText"@
    || name == "Text"@
    || name == "MediumText"@
    || name == "LongText"@
    || name == "Date"@
    || name == "Time"@
    || name == "Datetime"@
    || name == "Timestamp"@
    || name == "Year"@
    || name == "JSON"@
}

/// The constructors of MySQL, in the order in which the connector lists them.
pub open spec fn constructor_at(i: int) -> ConstructorView {
    if i == 0 {
        ConstructorView {
            name: "Int"@,
            number_of_args: 0,
            number_of_optional_args: 0,
            prisma_types: seq![ScalarType::Int],
        }
    } else if i == 1 {
        ConstructorView {
            name: "UnsignedInt"@,
            number_of_args: 0,
            number_of_optional_args: 0,
            prisma_types: seq![ScalarType::Int],
        }
    } else if i == 2 {
        ConstructorView {
            name: "SmallInt"@,
            number_of_args: 0,
            number_of_optional_args: 0,
            prisma_types: seq![ScalarType::Int],
        }
    } else if i == 3 {
        ConstructorView {
            name: "UnsignedSmallInt"@,
            number_of_args: 0,
            number_of_optional_args: 0,
            prisma_types: seq![ScalarType::Int],
        }
    } else if i == 4 {
        ConstructorView {
            name: "TinyInt"@,
            number_of_args: 0,
            number_of_optional_args: 0,
            prisma_types: seq![ScalarType::Boolean, ScalarType::Int],
        }
    } else if i == 5 {
        ConstructorView {
            name: "UnsignedTinyInt"@,
            number_of_args: 0,
            number_of_optional_args: 0,
            prisma_types: seq![ScalarType::Int],
        }
    } else if i == 6 {
        ConstructorView {
            name: "MediumInt"@,
            number_of_args: 0,
            number_of_optional_args: 0,
            prisma_types: seq![ScalarType::Int],
        }
    } else if i == 7 {
        ConstructorView {
            name: "UnsignedMediumInt"@,
            number_of_args: 0,
            number_of_optional_args: 0,
            prisma_types: seq![ScalarType::Int],
        }
    } else if i == 8 {
        ConstructorView {
            name: "BigInt"@,
            number_of_args: 0,
            number_of_optional_args: 0,
            prisma_types: seq![ScalarType::BigInt],
        }
    } else if i == 9 {
        ConstructorView {
            name: "UnsignedBigInt"@,
            number_of_args: 0,
            number_of_optional_args: 0,
            prisma_types: seq![ScalarType::BigInt],
        }
    } else if i == 10 {
        ConstructorView {
            name: "Decimal"@,
            number_of_args: 0,
            number_of_optional_args: 2,
            prisma_types: seq![ScalarType::Decimal],
        }
    } else if i == 11 {
        ConstructorView {
            name: "Numeric"@,
            number_of_args: 0,
            number_of_optional_args: 2,
            prisma_types: seq![ScalarType::Decimal],
        }
    } else if i == 12 {
        ConstructorView {
            name: "Float"@,
            number_of_args: 0,
            number_of_optional_args: 0,
            prisma_types: seq![ScalarType::Float],
        }
    } else if i == 13 {
        ConstructorView {
            name: "Double"@,
            number_of_args: 0,
            number_of_optional_args: 0,
            prisma_types: seq![ScalarType::Float],
        }
    } else if i == 14 {
        ConstructorView {
            name: "Bit"@,
            number_of_args: 1,
            number_of_optional_args: 0,
            prisma_types: seq![ScalarType::Bytes],
        }
    } else if i == 15 {
        ConstructorView {
            name: "Char"@,
            number_of_args: 1,
            number_of_optional_args: 0,
            prisma_types: seq![ScalarType::String],
        }
    } else if i == 16 {
        ConstructorView {
            name: "VarChar"@,
            number_of_args: 1,
            number_of_optional_args: 0,
            prisma_types: seq![ScalarType::String],
        }
    } else if i == 17 {
        ConstructorView {
            name: "Binary"@,
            number_of_args: 1,
            number_of_optional_args: 0,
            prisma_types: seq![ScalarType::Bytes],
        }
    } else if i == 18 {
        ConstructorView {
            name: "VarBinary"@,
            number_of_args: 1,
            number_of_optional_args: 0,
            prisma_types: seq![ScalarType::Bytes],
        }
    } else if i == 19 {
        ConstructorView {
            name: "TinyBlob"@,
            number_of_args: 0,
            number_of_optional_args: 0,
            prisma_types: seq![ScalarType::Bytes],
        }
    } else if i == 20 {
        ConstructorView {
            name: "Blob"@,
            number_of_args: 0,
            number_of_optional_args: 0,
            prisma_types: seq![ScalarType::Bytes],
        }
    } else if i == 21 {
        ConstructorView {
            name: "MediumBlob"@,
            number_of_args: 0,
            number_of_optional_args: 0,
            prisma_types: seq![ScalarType::Bytes],
        }
    } else if i == 22 {
        ConstructorView {
            name: "LongBlob"@,
            number_of_args: 0,
            number_of_optional_args: 0,
            prisma_types: seq![ScalarType::Bytes],
        }
    } else if i == 23 {
        ConstructorView {
            name: "TinyText"@,
            number_of_args: 0,
            number_of_optional_args: 0,
            prisma_types: seq![ScalarType::String],
        }
    } else if i == 24 {
        ConstructorView {
            name: "Text"@,
            number_of_args: 0,
            number_of_optional_args: 0,
            prisma_types: seq![ScalarType::String],
        }
    } else if i == 25 {
        ConstructorView {
            name: "MediumText"@,
            number_of_args: 0,
            number_of_optional_args: 0,
            prisma_types: seq![ScalarType::String],
        }
    } else if i == 26 {
        ConstructorView {
            name: "LongText"@,
            number_of_args: 0,
            number_of_optional_args: 0,
            prisma_types: seq![ScalarType::String],
        }
    } else if i == 27 {
        ConstructorView {
            name: "Date"@,
            number_of_args: 0,
            number_of_optional_args: 0,
            prisma_types: seq![ScalarType::DateTime],
        }
    } else if i == 28 {
        ConstructorView {
            name: "Time"@,
            number_of_args: 0,
            number_of_optional_args: 1,
            prisma_types: seq![ScalarType::DateTime],
        }
    } else if i == 29 {
        ConstructorView {
            name: "Datetime"@,
            number_of_args: 0,
            number_of_optional_args: 1,
            prisma_types: seq![ScalarType::DateTime],
        }
    } else if i == 30 {
        ConstructorView {
            name: "Timestamp"@,
            number_of_args: 0,
            number_of_optional_args: 1,
            prisma_types: seq![ScalarType::DateTime],
        }
    } else if i == 31 {
        ConstructorView {
            name: "Year"@,
            number_of_args: 0,
            number_of_optional_args: 0,
            prisma_types: seq![ScalarType::Int],
        }
    } else {
        ConstructorView {
            name: "JSON"@,
            number_of_args: 0,
            number_of_optional_args: 0,
            prisma_types: seq![ScalarType::Json],
        }
    }
}

/// The number of MySQL constructors.
pub const MYSQL_CONSTRUCTOR_COUNT: usize = 33;

/// The position of the constructor of `t` among the MySQL constructors.
pub open spec fn constructor_position(t: MySqlType) -> int {
    match t {
        MySqlType::Int => 0,
        MySqlType::UnsignedInt => 1,
        MySqlType::SmallInt => 2,
        MySqlType::UnsignedSmallInt => 3,
        MySqlType::TinyInt => 4,
        MySqlType::UnsignedTinyInt => 5,
        MySqlType::MediumInt => 6,
        MySqlType::UnsignedMediumInt => 7,
        MySqlType::BigInt => 8,
        MySqlType::UnsignedBigInt => 9,
        MySqlType::Decimal(_) => 10,
        MySqlType::Numeric(_) => 11,
        MySqlType::Float => 12,
        MySqlType::Double => 13,
        MySqlType::Bit(_) => 14,
        MySqlType::Char(_) => 15,
        MySqlType::VarChar(_) => 16,
        MySqlType::Binary(_) => 17,
        MySqlType::VarBinary(_) => 18,
        MySqlType::TinyBlob => 19,
        MySqlType::Blob => 20,
        MySqlType::MediumBlob => 21,
        MySqlType::LongBlob => 22,
        MySqlType::TinyText => 23,
        MySqlType::Text => 24,
        MySqlType::MediumText => 25,
        MySqlType::LongText => 26,
        MySqlType::Date => 27,
        MySqlType::Time(_) => 28,
        MySqlType::DateTime(_) => 29,
        MySqlType::Timestamp(_) => 30,
        MySqlType::Year => 31,
        MySqlType::JSON => 32,
    }
}

fn scalar_types(a: ScalarType) -> (r: Vec<ScalarType>)
    ensures
        r@ == seq![a],
{
    let mut r = Vec::new();
    r.push(a);
    assert(r@ =~= seq![a]);
    r
}

fn scalar_type_pair(a: ScalarType, b: ScalarType) -> (r: Vec<ScalarType>)
    ensures
        r@ == seq![a, b],
{
    let mut r = Vec::new();
    r.push(a);
    r.push(b);
    assert(r@ =~= seq![a, b]);
    r
}

/// The constructor at position `i`.
pub fn constructor_at_exec(i: usize) -> (r: NativeTypeConstructor)
    requires
        i < MYSQL_CONSTRUCTOR_COUNT,
    ensures
        r@ == constructor_at(i as int),
{
    if i == 0 {
        NativeTypeConstructor::without_args("Int", scalar_types(ScalarType::Int))
    } else if i == 1 {
        NativeTypeConstructor::without_args("UnsignedInt", scalar_types(ScalarType::Int))
    } else if i == 2 {
        NativeTypeConstructor::without_args("SmallInt", scalar_types(ScalarType::Int))
    } else if i == 3 {
        NativeTypeConstructor::without_args("UnsignedSmallInt", scalar_types(ScalarType::Int))
    } else if i == 4 {
        NativeTypeConstructor::without_args("TinyInt", scalar_type_pair(ScalarType::Boolean, ScalarType::Int))
    } else if i == 5 {
        NativeTypeConstructor::without_args("UnsignedTinyInt", scalar_types(ScalarType::Int))
    } else if i == 6 {
        NativeTypeConstructor::without_args("MediumInt", scalar_types(ScalarType::Int))
    } else if i == 7 {
        NativeTypeConstructor::without_args("UnsignedMediumInt", scalar_types(ScalarType::Int))
    } else if i == 8 {
        NativeTypeConstructor::without_args("BigInt", scalar_types(ScalarType::BigInt))
    } else if i == 9 {
        NativeTypeConstructor::without_args("UnsignedBigInt", scalar_types(ScalarType::BigInt))
    } else if i == 10 {
        NativeTypeConstructor::with_optional_args("Decimal", 2, scalar_types(ScalarType::Decimal))
    } else if i == 11 {
        NativeTypeConstructor::with_optional_args("Numeric", 2, scalar_types(ScalarType::Decimal))
    } else if i == 12 {
        NativeTypeConstructor::without_args("Float", scalar_types(ScalarType::Float))
    } else if i == 13 {
        NativeTypeConstructor::without_args("Double", scalar_types(ScalarType::Float))
    } else if i == 14 {
        NativeTypeConstructor::with_args("Bit", 1, scalar_types(ScalarType::Bytes))
    } else if i == 15 {
        NativeTypeConstructor::with_args("Char", 1, scalar_types(ScalarType::String))
    } else if i == 16 {
        NativeTypeConstructor::with_args("VarChar", 1, scalar_types(ScalarType::String))
    } else if i == 17 {
        NativeTypeConstructor::with_args("Binary", 1, scalar_types(ScalarType::Bytes))
    } else if i == 18 {
        NativeTypeConstructor::with_args("VarBinary", 1, scalar_types(ScalarType::Bytes))
    } else if i == 19 {
        NativeTypeConstructor::without_args("TinyBlob", scalar_types(ScalarType::Bytes))
    } else if i == 20 {
        NativeTypeConstructor::without_args("Blob", scalar_types(ScalarType::Bytes))
    } else if i == 21 {
        NativeTypeConstructor::without_args("MediumBlob", scalar_types(ScalarType::Bytes))
    } else if i == 22 {
        NativeTypeConstructor::without_args("LongBlob", scalar_types(ScalarType::Bytes))
    } else if i == 23 {
        NativeTypeConstructor::without_args("TinyText", scalar_types(ScalarType::String))
    } else if i == 24 {
        NativeTypeConstructor::without_args("Text", scalar_types(ScalarType::String))
    } else if i == 25 {
        NativeTypeConstructor::without_args("MediumText", scalar_types(ScalarType::String))
    } else if i == 26 {
        NativeTypeConstructor::without_args("LongText", scalar_types(ScalarType::String))
    } else if i == 27 {
        NativeTypeConstructor::without_args("Date", scalar_types(ScalarType::DateTime))
    } else if i == 28 {
        NativeTypeConstructor::with_optional_args("Time", 1, scalar_types(ScalarType::DateTime))
    } else if i == 29 {
        NativeTypeConstructor::with_optional_args("Datetime", 1, scalar_types(ScalarType::DateTime))
    } else if i == 30 {
        NativeTypeConstructor::with_optional_args("Timestamp", 1, scalar_types(ScalarType::DateTime))
    } else if i == 31 {
        NativeTypeConstructor::without_args("Year", scalar_types(ScalarType::Int))
    } else {
        NativeTypeConstructor::without_args("JSON", scalar_types(ScalarType::Json))
    }
}

/// What reading every argument as a `u32` gives: the numbers, or the first
/// argument that is not one.
pub open spec fn parse_args_spec(args: Seq<Seq<char>>) -> Result<Seq<u32>, Seq<char>>
    decreases args.len(),
{
    if args.len() == 0 {
        Ok(Seq::empty())
    } else {
        match parse_args_spec(args.drop_last()) {
            Err(raw) => Err(raw),
            Ok(values) => match parse_u32_spec(args.last()) {
                Some(v) => Ok(values.push(v)),
                None => Err(args.last()),
            },
        }
    }
}

pub open spec fn parser_error(raw: Seq<char>) -> ErrorView {
    ErrorView::ValueParserError { expected_type: "numeric"@, raw }
}

pub open spec fn count_mismatch(ty: Seq<char>, required: nat, given: nat) -> ErrorView {
    ErrorView::ArgumentCountMismatch { native_type: ty, required_count: required, given_count: given }
}

/// Exactly one numeric argument. The count is checked before the
/// arguments are read.
pub open spec fn one_u32_spec(args: Seq<Seq<char>>, ty: Seq<char>) -> Result<u32, ErrorView> {
    if args.len() != 1 {
        Err(count_mismatch(ty, 1, args.len()))
    } else {
        match parse_args_spec(args) {
            Err(raw) => Err(parser_error(raw)),
            Ok(v) => Ok(v[0]),
        }
    }
}

/// No argument, or one numeric argument. The count is checked before the
/// arguments are read.
pub open spec fn one_opt_u32_spec(args: Seq<Seq<char>>, ty: Seq<char>) -> Result<
    Option<u32>,
    ErrorView,
> {
    if args.len() > 1 {
        Err(count_mismatch(ty, 1, args.len()))
    } else if args.len() == 0 {
        Ok(None)
    } else {
        match parse_args_spec(args) {
            Err(raw) => Err(parser_error(raw)),
            Ok(v) => Ok(Some(v[0])),
        }
    }
}

/// No argument, or two numeric arguments. The count is checked before the
/// arguments are read.
pub open spec fn two_opt_u32_spec(args: Seq<Seq<char>>, ty: Seq<char>) -> Result<
    Option<(u32, u32)>,
    ErrorView,
> {
    if args.len() != 0 && args.len() != 2 {
        Err(count_mismatch(ty, 2, args.len()))
    } else if args.len() == 0 {
        Ok(None)
    } else {
        match parse_args_spec(args) {
            Err(raw) => Err(parser_error(raw)),
            Ok(v) => Ok(Some((v[0], v[1]))),
        }
    }
}

/// A type that takes no argument: given none.
pub open spec fn no_args_spec(args: Seq<Seq<char>>, ty: Seq<char>, t: MySqlType) -> Result<
    MySqlType,
    ErrorView,
> {
    if args.len() == 0 {
        Ok(t)
    } else {
        Err(count_mismatch(ty, 0, args.len()))
    }
}

/// The type that `name` with `args` stands for, or why there is none.
pub open spec fn parse_type_spec(name: Seq<char>, args: Seq<Seq<char>>) -> Result<MySqlType, ErrorView> {
    if name == "Int"@ {
        no_args_spec(args, "Int"@, MySqlType::Int)
    } else if name == "UnsignedInt"@ {
        no_args_spec(args, "UnsignedInt"@, MySqlType::UnsignedInt)
    } else if name == "SmallInt"@ {
        no_args_spec(args, "SmallInt"@, MySqlType::SmallInt)
    } else if name == "UnsignedSmallInt"@ {
        no_args_spec(args, "UnsignedSmallInt"@, MySqlType::UnsignedSmallInt)
    } else if name == "TinyInt"@ {
        no_args_spec(args, "TinyInt"@, MySqlType::TinyInt)
    } else if name == "UnsignedTinyInt"@ {
        no_args_spec(args, "UnsignedTinyInt"@, MySqlType::UnsignedTinyInt)
    } else if name == "MediumInt"@ {
        no_args_spec(args, "MediumInt"@, MySqlType::MediumInt)
    } else if name == "UnsignedMediumInt"@ {
        no_args_spec(args, "UnsignedMediumInt"@, MySqlType::UnsignedMediumInt)
    } else if name == "BigInt"@ {
        no_args_spec(args, "BigInt"@, MySqlType::BigInt)
    } else if name == "UnsignedBigInt"@ {
        no_args_spec(args, "UnsignedBigInt"@, MySqlType::UnsignedBigInt)
    } else if name == "Decimal"@ {
        match two_opt_u32_spec(args, "Decimal"@) {
            Ok(x) => Ok(MySqlType::Decimal(x)),
            Err(e) => Err(e),
        }
    } else if name == "Numeric"@ {
        match two_opt_u32_spec(args, "Numeric"@) {
            Ok(x) => Ok(MySqlType::Numeric(x)),
            Err(e) => Err(e),
        }
    } else if name == "Float"@ {
        no_args_spec(args, "Float"@, MySqlType::Float)
    } else if name == "Double"@ {
        no_args_spec(args, "Double"@, MySqlType::Double)
    } else if name == "Bit"@ {
        match one_u32_spec(args, "Bit"@) {
            Ok(x) => Ok(MySqlType::Bit(x)),
            Err(e) => Err(e),
        }
    } else if name == "Char"@ {
        match one_u32_spec(args, "Char"@) {
            Ok(x) => Ok(MySqlType::Char(x)),
            Err(e) => Err(e),
        }
    } else if name == "VarChar"@ {
        match one_u32_spec(args, "VarChar"@) {
            Ok(x) => Ok(MySqlType::VarChar(x)),
            Err(e) => Err(e),
        }
    } else if name == "Binary"@ {
        match one_u32_spec(args, "Binary"@) {
            Ok(x) => Ok(MySqlType::Binary(x)),
            Err(e) => Err(e),
        }
    } else if name == "VarBinary"@ {
        match one_u32_spec(args, "VarBinary"@) {
            Ok(x) => Ok(MySqlType::VarBinary(x)),
            Err(e) => Err(e),
        }
    } else if name == "TinyBlob"@ {
        no_args_spec(args, "TinyBlob"@, MySqlType::TinyBlob)
    } else if name == "Blob"@ {
        no_args_spec(args, "Blob"@, MySqlType::Blob)
    } else if name == "MediumBlob"@ {
        no_args_spec(args, "MediumBlob"@, MySqlType::MediumBlob)
    } else if name == "LongBlob"@ {
        no_args_spec(args, "LongBlob"@, MySqlType::LongBlob)
    } else if name == "TinyText"@ {
        no_args_spec(args, "TinyText"@, MySqlType::TinyText)
    } else if name == "Text"@ {
        no_args_spec(args, "Text"@, MySqlType::Text)
    } else if name == "MediumText"@ {
        no_args_spec(args, "MediumText"@, MySqlType::MediumText)
    } else if name == "LongText"@ {
        no_args_spec(args, "LongText"@, MySqlType::LongText)
    } else if name == "Date"@ {
        no_args_spec(args, "Date"@, MySqlType::Date)
    } else if name == "Time"@ {
        match one_opt_u32_spec(args, "Time"@) {
            Ok(x) => Ok(MySqlType::Time(x)),
            Err(e) => Err(e),
        }
    } else if name == "Datetime"@ {
        match one_opt_u32_spec(args, "Datetime"@) {
            Ok(x) => Ok(MySqlType::DateTime(x)),
            Err(e) => Err(e),
        }
    } else if name == "Timestamp"@ {
        match one_opt_u32_spec(args, "Timestamp"@) {
            Ok(x) => Ok(MySqlType::Timestamp(x)),
            Err(e) => Err(e),
        }
    } else if name == "Year"@ {
        no_args_spec(args, "Year"@, MySqlType::Year)
    } else {
        no_args_spec(args, "JSON"@, MySqlType::JSON)
    }
}

/// Reads every argument as a `u32`.
pub fn parse_args(args: &Vec<String>) -> (r: Result<Vec<u32>, ConnectorError>)
    ensures
        match r {
            Ok(v) => parse_args_spec(strings_view(args@)) == Ok::<Seq<u32>, Seq<char>>(v@),
            Err(e) => exists|raw: Seq<char>|
                parse_args_spec(strings_view(args@)) == Err::<Seq<u32>, Seq<char>>(raw) && e@
                    == parser_error(raw),
        },
{
    let ghost all = strings_view(args@);
    let mut values: Vec<u32> = Vec::new();
    let mut i: usize = 0;
    while i < args.len()
        invariant
            i <= args.len(),
            all == strings_view(args@),
            parse_args_spec(all.take(i as int)) == Ok::<Seq<u32>, Seq<char>>(values@),
        decreases args.len() - i,
    {
        assert(all.take(i + 1).drop_last() =~= all.take(i as int));
        match parse_u32(args[i].as_str()) {
            Some(v) => {
                values.push(v);
            },
            None => {
                proof {
                    assert(all.take(i + 1).last() == args@[i as int]@);
                    lemma_parse_args_prefix_err(all, i as int + 1);
                    assert(parse_args_spec(all) == Err::<Seq<u32>, Seq<char>>(args@[i as int]@));
                }
                let raw = args[i].clone();
                assert(raw@ == args@[i as int]@);
                let e = ConnectorError::ValueParserError {
                    expected_type: String::from_str("numeric"),
                    raw,
                };
                assert(e@ == parser_error(all[i as int]));
                return Err(e);
            },
        }
        i = i + 1;
    }
    assert(all.take(args.len() as int) =~= all);
    Ok(values)
}

/// A failure on a prefix of the arguments is the failure of all of them.
proof fn lemma_parse_args_prefix_err(args: Seq<Seq<char>>, k: int)
    requires
        0 <= k <= args.len(),
        parse_args_spec(args.take(k)) is Err,
    ensures
        parse_args_spec(args) == parse_args_spec(args.take(k)),
    decreases args.len() - k,
{
    if k < args.len() {
        assert(args.take(k + 1).drop_last() =~= args.take(k));
        lemma_parse_args_prefix_err(args, k + 1);
    } else {
        assert(args.take(k) =~= args);
    }
}

/// Exactly one numeric argument.
pub fn parse_one_u32(args: &Vec<String>, ty: &str) -> (r: Result<u32, ConnectorError>)
    ensures
        match r {
            Ok(v) => one_u32_spec(strings_view(args@), ty@) == Ok::<u32, ErrorView>(v),
            Err(e) => one_u32_spec(strings_view(args@), ty@) == Err::<u32, ErrorView>(e@),
        },
{
    if args.len() != 1 {
        return Err(count_mismatch_error(ty, 1, args.len()));
    }
    let values = parse_args(args)?;
    proof {
        lemma_parse_args_len(strings_view(args@));
    }
    Ok(values[0])
}

/// No argument, or one numeric argument.
pub fn parse_one_opt_u32(args: &Vec<String>, ty: &str) -> (r: Result<Option<u32>, ConnectorError>)
    ensures
        match r {
            Ok(v) => one_opt_u32_spec(strings_view(args@), ty@) == Ok::<Option<u32>, ErrorView>(v),
            Err(e) => one_opt_u32_spec(strings_view(args@), ty@) == Err::<Option<u32>, ErrorView>(e@),
        },
{
    if args.len() > 1 {
        return Err(count_mismatch_error(ty, 1, args.len()));
    }
    if args.len() == 0 {
        return Ok(None);
    }
    let values = parse_args(args)?;
    proof {
        lemma_parse_args_len(strings_view(args@));
    }
    Ok(Some(values[0]))
}

/// No argument, or two numeric arguments.
pub fn parse_two_opt_u32(args: &Vec<String>, ty: &str) -> (r: Result<Option<(u32, u32)>, ConnectorError>)
    ensures
        match r {
            Ok(v) => two_opt_u32_spec(strings_view(args@), ty@) == Ok::<Option<(u32, u32)>, ErrorView>(v),
            Err(e) => two_opt_u32_spec(strings_view(args@), ty@) == Err::<Option<(u32, u32)>, ErrorView>(e@),
        },
{
    if args.len() != 0 && args.len() != 2 {
        return Err(count_mismatch_error(ty, 2, args.len()));
    }
    if args.len() == 0 {
        return Ok(None);
    }
    let values = parse_args(args)?;
    proof {
        lemma_parse_args_len(strings_view(args@));
    }
    Ok(Some((values[0], values[1])))
}

fn count_mismatch_error(ty: &str, required: usize, given: usize) -> (e: ConnectorError)
    ensures
        e@ == count_mismatch(ty@, required as nat, given as nat),
{
    ConnectorError::ArgumentCountMismatch {
        native_type: String::from_str(ty),
        required_count: required,
        given_count: given,
    }
}

/// Reading every argument gives one number per argument.
proof fn lemma_parse_args_len(args: Seq<Seq<char>>)
    ensures
        parse_args_spec(args) matches Ok(v) ==> v.len() == args.len(),
    decreases args.len(),
{
    if args.len() > 0 {
        lemma_parse_args_len(args.drop_last());
    }
}

/// A type that takes no argument: given none.
fn no_args(args: &Vec<String>, ty: &str, t: MySqlType) -> (r: Result<MySqlType, ConnectorError>)
    ensures
        match r {
            Ok(v) => no_args_spec(strings_view(args@), ty@, t) == Ok::<MySqlType, ErrorView>(v),
            Err(e) => no_args_spec(strings_view(args@), ty@, t) == Err::<MySqlType, ErrorView>(e@),
        },
{
    if args.len() == 0 {
        Ok(t)
    } else {
        Err(count_mismatch_error(ty, 0, args.len()))
    }
}

/// Decodes `name` with `args` into a type.
pub fn parse_type(name: &str, args: &Vec<String>) -> (r: Result<MySqlType, ConnectorError>)
    requires
        is_constructor_name(name@),
    ensures
        match r {
            Ok(t) => parse_type_spec(name@, strings_view(args@)) == Ok::<MySqlType, ErrorView>(t),
            Err(e) => parse_type_spec(name@, strings_view(args@)) == Err::<MySqlType, ErrorView>(e@),
        },
{
    if str_eq(name, "Int") {
        no_args(args, "Int", MySqlType::Int)
    } else if str_eq(name, "UnsignedInt") {
        no_args(args, "UnsignedInt", MySqlType::UnsignedInt)
    } else if str_eq(name, "SmallInt") {
        no_args(args, "SmallInt", MySqlType::SmallInt)
    } else if str_eq(name, "UnsignedSmallInt") {
        no_args(args, "UnsignedSmallInt", MySqlType::UnsignedSmallInt)
    } else if str_eq(name, "TinyInt") {
        no_args(args, "TinyInt", MySqlType::TinyInt)
    } else if str_eq(name, "UnsignedTinyInt") {
        no_args(args, "UnsignedTinyInt", MySqlType::UnsignedTinyInt)
    } else if str_eq(name, "MediumInt") {
        no_args(args, "MediumInt", MySqlType::MediumInt)
    } else if str_eq(name, "UnsignedMediumInt") {
        no_args(args, "UnsignedMediumInt", MySqlType::UnsignedMediumInt)
    } else if str_eq(name, "BigInt") {
        no_args(args, "BigInt", MySqlType::BigInt)
    } else if str_eq(name, "UnsignedBigInt") {
        no_args(args, "UnsignedBigInt", MySqlType::UnsignedBigInt)
    } else if str_eq(name, "Decimal") {
        match parse_two_opt_u32(args, "Decimal") {
            Ok(x) => Ok(MySqlType::Decimal(x)),
            Err(e) => Err(e),
        }
    } else if str_eq(name, "Numeric") {
        match parse_two_opt_u32(args, "Numeric") {
            Ok(x) => Ok(MySqlType::Numeric(x)),
            Err(e) => Err(e),
        }
    } else if str_eq(name, "Float") {
        no_args(args, "Float", MySqlType::Float)
    } else if str_eq(name, "Double") {
        no_args(args, "Double", MySqlType::Double)
    } else if str_eq(name, "Bit") {
        match parse_one_u32(args, "Bit") {
            Ok(x) => Ok(MySqlType::Bit(x)),
            Err(e) => Err(e),
        }
    } else if str_eq(name, "Char") {
        match parse_one_u32(args, "Char") {
            Ok(x) => Ok(MySqlType::Char(x)),
            Err(e) => Err(e),
        }
    } else if str_eq(name, "VarChar") {
        match parse_one_u32(args, "VarChar") {
            Ok(x) => Ok(MySqlType::VarChar(x)),
            Err(e) => Err(e),
        }
    } else if str_eq(name, "Binary") {
        match parse_one_u32(args, "Binary") {
            Ok(x) => Ok(MySqlType::Binary(x)),
            Err(e) => Err(e),
        }
    } else if str_eq(name, "VarBinary") {
        match parse_one_u32(args, "VarBinary") {
            Ok(x) => Ok(MySqlType::VarBinary(x)),
            Err(e) => Err(e),
        }
    } else if str_eq(name, "TinyBlob") {
        no_args(args, "TinyBlob", MySqlType::TinyBlob)
    } else if str_eq(name, "Blob") {
        no_args(args, "Blob", MySqlType::Blob)
    } else if str_eq(name, "MediumBlob") {
        no_args(args, "MediumBlob", MySqlType::MediumBlob)
    } else if str_eq(name, "LongBlob") {
        no_args(args, "LongBlob", MySqlType::LongBlob)
    } else if str_eq(name, "TinyText") {
        no_args(args, "TinyText", MySqlType::TinyText)
    } else if str_eq(name, "Text") {
        no_args(args, "Text", MySqlType::Text)
    } else if str_eq(name, "MediumText") {
        no_args(args, "MediumText", MySqlType::MediumText)
    } else if str_eq(name, "LongText") {
        no_args(args, "LongText", MySqlType::LongText)
    } else if str_eq(name, "Date") {
        no_args(args, "Date", MySqlType::Date)
    } else if str_eq(name, "Time") {
        match parse_one_opt_u32(args, "Time") {
            Ok(x) => Ok(MySqlType::Time(x)),
            Err(e) => Err(e),
        }
    } else if str_eq(name, "Datetime") {
        match parse_one_opt_u32(args, "Datetime") {
            Ok(x) => Ok(MySqlType::DateTime(x)),
            Err(e) => Err(e),
        }
    } else if str_eq(name, "Timestamp") {
        match parse_one_opt_u32(args, "Timestamp") {
            Ok(x) => Ok(MySqlType::Timestamp(x)),
            Err(e) => Err(e),
        }
    } else if str_eq(name, "Year") {
        no_args(args, "Year", MySqlType::Year)
    } else if str_eq(name, "JSON") {
        no_args(args, "JSON", MySqlType::JSON)
    } else {
        proof {
            assert(false);
        }
        Ok(MySqlType::Int)
    }
}

fn opt_arg(x: Option<u32>) -> (r: Vec<String>)
    ensures
        strings_view(r@) == match x {
            Some(p) => seq![decimal(p as nat)],
            None => Seq::<Seq<char>>::empty(),
        },
{
    let mut r: Vec<String> = Vec::new();
    if let Some(p) = x {
        r.push(u64_to_decimal(p as u64));
    }
    proof {
        assert(strings_view(r@) =~= match x {
            Some(p) => seq![decimal(p as nat)],
            None => Seq::<Seq<char>>::empty(),
        });
    }
    r
}

fn opt_pair_args(x: Option<(u32, u32)>) -> (r: Vec<String>)
    ensures
        strings_view(r@) == match x {
            Some((p, s)) => seq![decimal(p as nat), decimal(s as nat)],
            None => Seq::<Seq<char>>::empty(),
        },
{
    let mut r: Vec<String> = Vec::new();
    if let Some((p, s)) = x {
        r.push(u64_to_decimal(p as u64));
        r.push(u64_to_decimal(s as u64));
    }
    proof {
        assert(strings_view(r@) =~= match x {
            Some((p, s)) => seq![decimal(p as nat), decimal(s as nat)],
            None => Seq::<Seq<char>>::empty(),
        });
    }
    r
}

/// The constructor name and the arguments that write `t`.
pub fn name_and_args(t: &MySqlType) -> (r: (&'static str, Vec<String>))
    ensures
        r.0@ == constructor_name(*t),
        strings_view(r.1@) == type_args(*t),
{
    let none: Vec<String> = Vec::new();
    proof {
        assert(strings_view(none@) =~= Seq::<Seq<char>>::empty());
    }
    match t {
        MySqlType::Int => ("Int", none),
        MySqlType::UnsignedInt => ("UnsignedInt", none),
        MySqlType::SmallInt => ("SmallInt", none),
        MySqlType::UnsignedSmallInt => ("UnsignedSmallInt", none),
        MySqlType::TinyInt => ("TinyInt", none),
        MySqlType::UnsignedTinyInt => ("UnsignedTinyInt", none),
        MySqlType::MediumInt => ("MediumInt", none),
        MySqlType::UnsignedMediumInt => ("UnsignedMediumInt", none),
        MySqlType::BigInt => ("BigInt", none),
        MySqlType::UnsignedBigInt => ("UnsignedBigInt", none),
        MySqlType::Decimal(x) => ("Decimal", opt_pair_args(*x)),
        MySqlType::Numeric(x) => ("Numeric", opt_pair_args(*x)),
        MySqlType::Float => ("Float", none),
        MySqlType::Double => ("Double", none),
        MySqlType::Bit(x) => ("Bit", opt_arg(Some(*x))),
        MySqlType::Char(x) => ("Char", opt_arg(Some(*x))),
        MySqlType::VarChar(x) => ("VarChar", opt_arg(Some(*x))),
        MySqlType::Binary(x) => ("Binary", opt_arg(Some(*x))),
        MySqlType::VarBinary(x) => ("VarBinary", opt_arg(Some(*x))),
        MySqlType::TinyBlob => ("TinyBlob", none),
        MySqlType::Blob => ("Blob", none),
        MySqlType::MediumBlob => ("MediumBlob", none),
        MySqlType::LongBlob => ("LongBlob", none),
        MySqlType::TinyText => ("TinyText", none),
        MySqlType::Text => ("Text", none),
        MySqlType::MediumText => ("MediumText", none),
        MySqlType::LongText => ("LongText", none),
        MySqlType::Date => ("Date", none),
        MySqlType::Time(x) => ("Time", opt_arg(*x)),
        MySqlType::DateTime(x) => ("Datetime", opt_arg(*x)),
        MySqlType::Timestamp(x) => ("Timestamp", opt_arg(*x)),
        MySqlType::Year => ("Year", none),
        MySqlType::JSON => ("JSON", none),
    }
}


/// Reading back the name and the arguments that a type is written as gives
/// the same type, with the same name and arguments.
pub proof fn lemma_parse_type_round_trip(t: MySqlType)
    ensures
        is_constructor_name(constructor_name(t)),
        parse_type_spec(constructor_name(t), type_args(t)) == Ok::<MySqlType, ErrorView>(t),
{
    lemma_type_args_parse(t);
    lemma_constructor_names();
    match t {
        MySqlType::Decimal(_) => {},
        MySqlType::Numeric(_) => {},
        MySqlType::Bit(_) => {},
        MySqlType::Char(_) => {},
        MySqlType::VarChar(_) => {},
        MySqlType::Binary(_) => {},
        MySqlType::VarBinary(_) => {},
        MySqlType::Time(_) => {},
        MySqlType::DateTime(_) => {},
        MySqlType::Timestamp(_) => {},
        _ => {},
    }
}

/// The numbers among the arguments of a type.
pub open spec fn type_numbers(t: MySqlType) -> Seq<u32> {
    match t {
        MySqlType::Decimal(Some((p, s))) => seq![p, s],
        MySqlType::Numeric(Some((p, s))) => seq![p, s],
        MySqlType::Bit(x) => seq![x],
        MySqlType::Char(x) => seq![x],
        MySqlType::VarChar(x) => seq![x],
        MySqlType::Binary(x) => seq![x],
        MySqlType::VarBinary(x) => seq![x],
        MySqlType::Time(Some(x)) => seq![x],
        MySqlType::DateTime(Some(x)) => seq![x],
        MySqlType::Timestamp(Some(x)) => seq![x],
        _ => Seq::empty(),
    }
}

/// The arguments that a type is written with read back as its numbers.
proof fn lemma_type_args_parse(t: MySqlType)
    ensures
        parse_args_spec(type_args(t)) == Ok::<Seq<u32>, Seq<char>>(type_numbers(t)),
{
    match t {
        MySqlType::Decimal(Some((p, s))) => {
            lemma_pair_args(p, s);
        },
        MySqlType::Numeric(Some((p, s))) => {
            lemma_pair_args(p, s);
        },
        MySqlType::Bit(x) | MySqlType::Char(x) | MySqlType::VarChar(x) | MySqlType::Binary(x)
        | MySqlType::VarBinary(x) | MySqlType::Time(Some(x)) | MySqlType::DateTime(Some(x))
        | MySqlType::Timestamp(Some(x)) => {
            lemma_parse_decimal(x as nat);
            assert(seq![decimal(x as nat)].drop_last() =~= Seq::<Seq<char>>::empty());
            assert(Seq::<u32>::empty().push(x) =~= seq![x]);
        },
        _ => {
            assert(type_args(t) == Seq::<Seq<char>>::empty());
            assert(type_numbers(t) == Seq::<u32>::empty());
            assert(parse_args_spec(Seq::<Seq<char>>::empty()) == Ok::<Seq<u32>, Seq<char>>(
                Seq::empty(),
            ));
        },
    }
}


proof fn lemma_pair_args(p: u32, s: u32)
    ensures
        parse_args_spec(seq![decimal(p as nat), decimal(s as nat)]) == Ok::<Seq<u32>, Seq<char>>(
            seq![p, s],
        ),
{
            lemma_parse_decimal(p as nat);
            lemma_parse_decimal(s as nat);
            let a = seq![decimal(p as nat), decimal(s as nat)];
            assert(a.drop_last() =~= seq![decimal(p as nat)]);
            assert(a.drop_last().drop_last() =~= Seq::<Seq<char>>::empty());
            assert(a.drop_last().last() == decimal(p as nat));
            assert(parse_args_spec(a.drop_last().drop_last()) == Ok::<Seq<u32>, Seq<char>>(
                Seq::empty(),
            ));
            assert(parse_args_spec(a.drop_last()) == Ok::<Seq<u32>, Seq<char>>(
                Seq::<u32>::empty().push(p),
            ));
            assert(a.last() == decimal(s as nat));
            assert(parse_args_spec(a) == Ok::<Seq<u32>, Seq<char>>(
                Seq::<u32>::empty().push(p).push(s),
            ));
            assert(Seq::<u32>::empty().push(p).push(s) =~= seq![p, s]);
        }


/// A type read from a name is one whose constructor carries that name.
pub proof fn lemma_parsed_type_name(name: Seq<char>, args: Seq<Seq<char>>)
    requires
        is_constructor_name(name),
    ensures
        parse_type_spec(name, args) matches Ok(t) ==> constructor_name(t) == name,
{
}

/// The lengths of the constructor names, and a character that tells apart
/// each two names of one length.
pub proof fn lemma_constructor_names()
    ensures
        "Int"@.len() == 3,
        "UnsignedInt"@.len() == 11,
        "SmallInt"@.len() == 8,
        "UnsignedSmallInt"@.len() == 16,
        "TinyInt"@.len() == 7,
        "UnsignedTinyInt"@.len() == 15,
        "MediumInt"@.len() == 9,
        "UnsignedMediumInt"@.len() == 17,
        "BigInt"@.len() == 6,
        "UnsignedBigInt"@.len() == 14,
        "Decimal"@.len() == 7,
        "Numeric"@.len() == 7,
        "Float"@.len() == 5,
        "Double"@.len() == 6,
        "Bit"@.len() == 3,
        "Char"@.len() == 4,
        "VarChar"@.len() == 7,
        "Binary"@.len() == 6,
        "VarBinary"@.len() == 9,
        "TinyBlob"@.len() == 8,
        "Blob"@.len() == 4,
        "MediumBlob"@.len() == 10,
        "LongBlob"@.len() == 8,
        "TinyText"@.len() == 8,
        "Text"@.len() == 4,
        "MediumText"@.len() == 10,
        "LongText"@.len() == 8,
        "Date"@.len() == 4,
        "Time"@.len() == 4,
        "Datetime"@.len() == 8,
        "Timestamp"@.len() == 9,
        "Year"@.len() == 4,
        "JSON"@.len() == 4,
        "Int"@[0] == 'I',
        "Bit"@[0] == 'B',
        "SmallInt"@[0] == 'S',
        "TinyBlob"@[0] == 'T',
        "LongBlob"@[0] == 'L',
        "TinyText"@[0] == 'T',
        "LongText"@[0] == 'L',
        "Datetime"@[0] == 'D',
        "TinyInt"@[0] == 'T',
        "Decimal"@[0] == 'D',
        "Numeric"@[0] == 'N',
        "VarChar"@[0] == 'V',
        "MediumInt"@[0] == 'M',
        "VarBinary"@[0] == 'V',
        "Timestamp"@[0] == 'T',
        "BigInt"@[0] == 'B',
        "Double"@[0] == 'D',
        "BigInt"@[2] == 'g',
        "Binary"@[2] == 'n',
        "Binary"@[0] == 'B',
        "Char"@[0] == 'C',
        "Blob"@[0] == 'B',
        "Text"@[0] == 'T',
        "Date"@[0] == 'D',
        "Time"@[0] == 'T',
        "Year"@[0] == 'Y',
        "JSON"@[0] == 'J',
        "TinyBlob"@[4] == 'B',
        "TinyText"@[4] == 'T',
        "MediumBlob"@[6] == 'B',
        "MediumText"@[6] == 'T',
        "LongBlob"@[4] == 'B',
        "LongText"@[4] == 'T',
        "Text"@[1] == 'e',
        "Time"@[1] == 'i',
{
    reveal_strlit("Int");
    reveal_strlit("UnsignedInt");
    reveal_strlit("SmallInt");
    reveal_strlit("UnsignedSmallInt");
    reveal_strlit("TinyInt");
    reveal_strlit("UnsignedTinyInt");
    reveal_strlit("MediumInt");
    reveal_strlit("UnsignedMediumInt");
    reveal_strlit("BigInt");
    reveal_strlit("UnsignedBigInt");
    reveal_strlit("Decimal");
    reveal_strlit("Numeric");
    reveal_strlit("Float");
    reveal_strlit("Double");
    reveal_strlit("Bit");
    reveal_strlit("Char");
    reveal_strlit("VarChar");
    reveal_strlit("Binary");
    reveal_strlit("VarBinary");
    reveal_strlit("TinyBlob");
    reveal_strlit("Blob");
    reveal_strlit("MediumBlob");
    reveal_strlit("LongBlob");
    reveal_strlit("TinyText");
    reveal_strlit("Text");
    reveal_strlit("MediumText");
    reveal_strlit("LongText");
    reveal_strlit("Date");
    reveal_strlit("Time");
    reveal_strlit("Datetime");
    reveal_strlit("Timestamp");
    reveal_strlit("Year");
    reveal_strlit("JSON");
}

} // verus!
