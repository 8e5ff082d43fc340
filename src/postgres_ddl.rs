//! Typed PostgreSQL statements that write themselves as SQL text.

use crate::text::{
    escape_quotes, escape_string_literal, join, join_strings, strings_view, wrap_each, wrapped,
};
use vstd::prelude::*;
use vstd::string::*;

verus! {

/// A name, alone or qualified by a schema.
#[derive(Debug)]
pub enum PostgresIdentifier {
    Simple(String),
    WithSchema(String, String),
}

/// `name` between double quotes.
pub open spec fn ident_sql(name: Seq<char>) -> Seq<char> {
    "\""@ + name + "\""@
}

pub open spec fn identifier_sql(id: PostgresIdentifier) -> Seq<char> {
    match id {
        PostgresIdentifier::Simple(name) => ident_sql(name@),
        PostgresIdentifier::WithSchema(schema, name) => ident_sql(schema@) + "."@ + ident_sql(name@),
    }
}

impl PostgresIdentifier {
    /// The identifier as SQL text.
    pub fn to_string(&self) -> (r: String)
        ensures
            r@ == identifier_sql(*self),
    {
        match self {
            PostgresIdentifier::Simple(name) => {
                let mut r = String::from_str("\"");
                r.append(name.as_str());
                r.append("\"");
                r
            },
            PostgresIdentifier::WithSchema(schema, name) => {
                let mut r = String::from_str("\"");
                r.append(schema.as_str());
                r.append("\".\"");
                r.append(name.as_str());
                r.append("\"");
                proof {
                    reveal_strlit("\"");
                    reveal_strlit("\".\"");
                    reveal_strlit(".");
                }
                assert(r@ =~= identifier_sql(*self));
                r
            },
        }
    }
}

impl From<&str> for PostgresIdentifier {
    fn from(s: &str) -> PostgresIdentifier {
        PostgresIdentifier::Simple(String::from_str(s))
    }
}

impl vstd::std_specs::convert::FromSpecImpl<&str> for PostgresIdentifier {
    open spec fn obeys_from_spec() -> bool {
        false
    }

    open spec fn from_spec(s: &str) -> PostgresIdentifier {
        arbitrary()
    }
}

impl From<(&str, &str)> for PostgresIdentifier {
    fn from(pair: (&str, &str)) -> PostgresIdentifier {
        PostgresIdentifier::WithSchema(String::from_str(pair.0), String::from_str(pair.1))
    }
}

impl vstd::std_specs::convert::FromSpecImpl<(&str, &str)> for PostgresIdentifier {
    open spec fn obeys_from_spec() -> bool {
        false
    }

    open spec fn from_spec(pair: (&str, &str)) -> PostgresIdentifier {
        arbitrary()
    }
}

/// A `CREATE TYPE ... AS ENUM` statement.
#[derive(Debug)]
pub struct CreateEnum {
    pub enum_name: PostgresIdentifier,
    pub variants: Vec<String>,
}

/// Each variant as a quoted string literal.
pub open spec fn variant_literals(variants: Seq<Seq<char>>) -> Seq<Seq<char>> {
    variants.map_values(|v: Seq<char>| "'"@ + escape_quotes(v) + "'"@)
}

pub open spec fn create_enum_sql(enum_name: PostgresIdentifier, variants: Seq<Seq<char>>) -> Seq<
    char,
> {
    "CREATE TYPE "@ + identifier_sql(enum_name) + " AS ENUM ("@ + join(
        variant_literals(variants),
        ", "@,
    ) + ")"@
}

impl CreateEnum {
    /// The statement as SQL text.
    pub fn to_string(&self) -> (r: String)
        ensures
            r@ == create_enum_sql(self.enum_name, strings_view(self.variants@)),
    {
        let mut literals: Vec<String> = Vec::new();
        let mut i: usize = 0;
        while i < self.variants.len()
            invariant
                i <= self.variants.len(),
                literals@.len() == i,
                forall|j: int|
                    0 <= j < i ==> (#[trigger] literals@[j])@ == "'"@ + escape_quotes(
                        self.variants@[j]@,
                    ) + "'"@,
            decreases self.variants.len() - i,
        {
            let mut lit = String::from_str("'");
            let escaped = escape_string_literal(self.variants[i].as_str());
            lit.append(escaped.as_str());
            lit.append("'");
            literals.push(lit);
            i = i + 1;
        }
        assert(strings_view(literals@) =~= variant_literals(strings_view(self.variants@)));
        let mut r = String::from_str("CREATE TYPE ");
        let name = self.enum_name.to_string();
        r.append(name.as_str());
        r.append(" AS ENUM (");
        let body = join_strings(&literals, ", ");
        r.append(body.as_str());
        r.append(")");
        r
    }
}

/// A `CREATE [UNIQUE] INDEX` statement.
#[derive(Debug)]
pub struct CreateIndex {
    pub index_name: PostgresIdentifier,
    pub is_unique: bool,
    pub table_reference: PostgresIdentifier,
    pub columns: Vec<String>,
}

pub open spec fn create_index_sql(
    index_name: PostgresIdentifier,
    is_unique: bool,
    table_reference: PostgresIdentifier,
    columns: Seq<Seq<char>>,
) -> Seq<char> {
    "CREATE "@ + (if is_unique {
        "UNIQUE "@
    } else {
        Seq::empty()
    }) + "INDEX "@ + identifier_sql(index_name) + " ON "@ + identifier_sql(table_reference) + "("@
        + join(wrapped(columns, "\""@, "\""@), ", "@) + ")"@
}

impl CreateIndex {
    /// The statement as SQL text.
    pub fn to_string(&self) -> (r: String)
        ensures
            r@ == create_index_sql(
                self.index_name,
                self.is_unique,
                self.table_reference,
                strings_view(self.columns@),
            ),
    {
        let mut r = String::from_str("CREATE ");
        if self.is_unique {
            r.append("UNIQUE ");
        }
        r.append("INDEX ");
        let index_name = self.index_name.to_string();
        r.append(index_name.as_str());
        r.append(" ON ");
        let table = self.table_reference.to_string();
        r.append(table.as_str());
        r.append("(");
        let quoted = wrap_each(&self.columns, "\"", "\"");
        let columns = join_strings(&quoted, ", ");
        r.append(columns.as_str());
        r.append(")");
        assert(r@ =~= create_index_sql(
            self.index_name,
            self.is_unique,
            self.table_reference,
            strings_view(self.columns@),
        ));
        r
    }
}

} // verus!
