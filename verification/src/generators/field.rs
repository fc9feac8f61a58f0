//! `name:type[:modifier...]` field specs of auth scaffolds and the source
//! fragments each field contributes.

use vstd::prelude::*;
use crate::session::split_char;
use crate::generators::names::{snake_of, to_snake};
use crate::text::{chars_of, index_of, push_str, slice_chars, str_eq, string_of};

verus! {

/// A generator error and its message.
#[derive(Debug, Clone, PartialEq, Eq)]
pub struct GenError {
    pub message: String,
}

/// Column types of scaffold fields.
#[derive(Debug, Clone, Copy, PartialEq, Eq, Structural)]
pub enum ColumnType {
    String,
    Text,
    Integer,
    BigInteger,
    Float,
    Double,
    Decimal,
    Boolean,
    Timestamp,
    Date,
    Json,
    Uuid,
    Binary,
    References,
}

/// What `str::to_lowercase` returns for `s`.
pub uninterp spec fn lowercase(s: Seq<char>) -> Seq<char>;

/// Unicode lowercase of `s`.
///
/// Calls `str::to_lowercase`. The contract claims the result is the named
/// lowercase form of `s`.
#[verifier::external_body]
fn to_lowercase(s: &str) -> (r: String)
    ensures
        r@ == lowercase(s@),
{
    s.to_lowercase()
}

/// The column type a (lowercased) type token names.
pub open spec fn column_type_named(t: Seq<char>) -> Option<ColumnType> {
    if t == "string"@ {
        Some(ColumnType::String)
    } else if t == "text"@ {
        Some(ColumnType::Text)
    } else if t == "integer"@ || t == "int"@ {
        Some(ColumnType::Integer)
    } else if t == "bigint"@ || t == "biginteger"@ || t == "big_integer"@ || t == "long"@ {
        Some(ColumnType::BigInteger)
    } else if t == "float"@ {
        Some(ColumnType::Float)
    } else if t == "double"@ {
        Some(ColumnType::Double)
    } else if t == "decimal"@ || t == "numeric"@ {
        Some(ColumnType::Decimal)
    } else if t == "boolean"@ || t == "bool"@ {
        Some(ColumnType::Boolean)
    } else if t == "timestamp"@ || t == "datetime"@ {
        Some(ColumnType::Timestamp)
    } else if t == "date"@ {
        Some(ColumnType::Date)
    } else if t == "json"@ || t == "jsonb"@ {
        Some(ColumnType::Json)
    } else if t == "uuid"@ {
        Some(ColumnType::Uuid)
    } else if t == "binary"@ || t == "blob"@ || t == "bytes"@ {
        Some(ColumnType::Binary)
    } else if t == "references"@ || t == "reference"@ || t == "belongs_to"@ {
        Some(ColumnType::References)
    } else {
        None
    }
}

/// What parsing a type token yields: its column type, or the error message.
pub open spec fn column_type_result(token: Seq<char>) -> Result<ColumnType, Seq<char>> {
    match column_type_named(lowercase(token)) {
        Some(t) => Ok(t),
        None => Err("unknown column type `"@ + lowercase(token) + "`"@),
    }
}

/// The schema-builder method of a column type.
pub open spec fn builder_method_spec(t: ColumnType) -> Seq<char> {
    match t {
        ColumnType::String => "string"@,
        ColumnType::Text => "text"@,
        ColumnType::Integer => "integer"@,
        ColumnType::BigInteger => "big_integer"@,
        ColumnType::Float => "float"@,
        ColumnType::Double => "double"@,
        ColumnType::Decimal => "decimal"@,
        ColumnType::Boolean => "boolean"@,
        ColumnType::Timestamp => "timestamp"@,
        ColumnType::Date => "date"@,
        ColumnType::Json => "json"@,
        ColumnType::Uuid => "uuid"@,
        ColumnType::Binary => "binary"@,
        ColumnType::References => "references"@,
    }
}

/// The Rust type of a column type.
pub open spec fn rust_type_spec(t: ColumnType) -> Seq<char> {
    match t {
        ColumnType::String | ColumnType::Text => "String"@,
        ColumnType::Integer => "i32"@,
        ColumnType::BigInteger | ColumnType::References => "i64"@,
        ColumnType::Float => "f32"@,
        ColumnType::Double => "f64"@,
        ColumnType::Decimal => "Decimal"@,
        ColumnType::Boolean => "bool"@,
        ColumnType::Timestamp => "DateTime"@,
        ColumnType::Date => "Date"@,
        ColumnType::Json => "Json"@,
        ColumnType::Uuid => "Uuid"@,
        ColumnType::Binary => "Vec<u8>"@,
    }
}

impl ColumnType {
    /// Parses a type token, compared lowercased.
    pub fn parse(token: &str) -> (r: Result<ColumnType, GenError>)
        ensures
            match r {
                Ok(t) => column_type_result(token@) == Ok::<ColumnType, Seq<char>>(t),
                Err(e) => column_type_result(token@) == Err::<ColumnType, Seq<char>>(e.message@),
            },
    {
        let lower = to_lowercase(token);
        let t = lower.as_str();
        if str_eq(t, "string") {
            Ok(ColumnType::String)
        } else if str_eq(t, "text") {
            Ok(ColumnType::Text)
        } else if str_eq(t, "integer") || str_eq(t, "int") {
            Ok(ColumnType::Integer)
        } else if str_eq(t, "bigint") || str_eq(t, "biginteger") || str_eq(t, "big_integer")
            || str_eq(t, "long") {
            Ok(ColumnType::BigInteger)
        } else if str_eq(t, "float") {
            Ok(ColumnType::Float)
        } else if str_eq(t, "double") {
            Ok(ColumnType::Double)
        } else if str_eq(t, "decimal") || str_eq(t, "numeric") {
            Ok(ColumnType::Decimal)
        } else if str_eq(t, "boolean") || str_eq(t, "bool") {
            Ok(ColumnType::Boolean)
        } else if str_eq(t, "timestamp") || str_eq(t, "datetime") {
            Ok(ColumnType::Timestamp)
        } else if str_eq(t, "date") {
            Ok(ColumnType::Date)
        } else if str_eq(t, "json") || str_eq(t, "jsonb") {
            Ok(ColumnType::Json)
        } else if str_eq(t, "uuid") {
            Ok(ColumnType::Uuid)
        } else if str_eq(t, "binary") || str_eq(t, "blob") || str_eq(t, "bytes") {
            Ok(ColumnType::Binary)
        } else if str_eq(t, "references") || str_eq(t, "reference") || str_eq(t, "belongs_to") {
            Ok(ColumnType::References)
        } else {
            let mut msg = chars_of("unknown column type `");
            push_str(&mut msg, t);
            push_str(&mut msg, "`");
            Err(GenError { message: string_of(&msg) })
        }
    }

    /// The schema-builder method (`t.<method>("name")`).
    pub fn builder_method(self) -> (r: &'static str)
        ensures
            r@ == builder_method_spec(self),
    {
        match self {
            ColumnType::String => "string",
            ColumnType::Text => "text",
            ColumnType::Integer => "integer",
            ColumnType::BigInteger => "big_integer",
            ColumnType::Float => "float",
            ColumnType::Double => "double",
            ColumnType::Decimal => "decimal",
            ColumnType::Boolean => "boolean",
            ColumnType::Timestamp => "timestamp",
            ColumnType::Date => "date",
            ColumnType::Json => "json",
            ColumnType::Uuid => "uuid",
            ColumnType::Binary => "binary",
            ColumnType::References => "references",
        }
    }

    /// The Rust type of the column.
    pub fn rust_type(self) -> (r: &'static str)
        ensures
            r@ == rust_type_spec(self),
    {
        match self {
            ColumnType::String | ColumnType::Text => "String",
            ColumnType::Integer => "i32",
            ColumnType::BigInteger | ColumnType::References => "i64",
            ColumnType::Float => "f32",
            ColumnType::Double => "f64",
            ColumnType::Decimal => "Decimal",
            ColumnType::Boolean => "bool",
            ColumnType::Timestamp => "DateTime",
            ColumnType::Date => "Date",
            ColumnType::Json => "Json",
            ColumnType::Uuid => "Uuid",
            ColumnType::Binary => "Vec<u8>",
        }
    }
}

/// Whether `f` is the field that parsed parts `p` describe (its name
/// snake-cased).
pub open spec fn is_field_of(f: Field, p: ParsedFieldView) -> bool {
    &&& f.raw_name() == snake_of(p.name)
    &&& f.ty() == p.ty
    &&& f.not_null() == p.not_null
    &&& f.unique() == p.unique
    &&& f.wants_index_spec() == p.index
}

/// A field spec split into its parts; `name` is as written, before
/// inflection.
#[derive(Debug, Clone, PartialEq, Eq)]
pub struct ParsedField {
    pub name: String,
    pub ty: ColumnType,
    pub not_null: bool,
    pub unique: bool,
    pub index: bool,
}

/// A scaffold field.
#[derive(Debug, Clone)]
pub struct Field {
    raw_name: String,
    ty: ColumnType,
    not_null: bool,
    unique: bool,
    index: bool,
}

/// The flags a list of (lowercased) modifiers sets, or the first unknown one.
pub open spec fn modifiers_result(mods: Seq<Seq<char>>) -> Result<(bool, bool, bool), Seq<char>>
    decreases mods.len(),
{
    if mods.len() == 0 {
        Ok((false, false, false))
    } else {
        let m = lowercase(mods[0]);
        match modifiers_result(mods.drop_first()) {
            Err(e) => if m == ""@ || m == "not_null"@ || m == "notnull"@ || m == "required"@
                || m == "unique"@ || m == "uniq"@ || m == "index"@ {
                Err(e)
            } else {
                Err(m)
            },
            Ok((n, u, i)) => if m == ""@ {
                Ok((n, u, i))
            } else if m == "not_null"@ || m == "notnull"@ || m == "required"@ {
                Ok((true, u, i))
            } else if m == "unique"@ || m == "uniq"@ {
                Ok((n, true, i))
            } else if m == "index"@ {
                Ok((n, u, true))
            } else {
                Err(m)
            },
        }
    }
}

/// The pieces after the name and the type.
pub open spec fn modifier_parts(parts: Seq<Seq<char>>) -> Seq<Seq<char>> {
    if parts.len() > 2 {
        parts.skip(2)
    } else {
        seq![]
    }
}

/// What parsing a field spec yields.
pub open spec fn parse_spec_result(spec: Seq<char>) -> Result<ParsedFieldView, Seq<char>> {
    let parts = split_char(spec, ':');
    let name = parts[0];
    if name.len() == 0 {
        Err("empty field spec"@)
    } else {
        let ty = if parts.len() > 1 && parts[1].len() > 0 {
            column_type_result(parts[1])
        } else {
            Ok(ColumnType::String)
        };
        match ty {
            Err(e) => Err(e),
            Ok(t) => match modifiers_result(modifier_parts(parts)) {
                Err(m) => Err("unknown modifier `"@ + m + "` in field `"@ + spec + "`"@),
                Ok((n, u, i)) => Ok(
                    ParsedFieldView { name, ty: t, not_null: n, unique: u, index: i },
                ),
            },
        }
    }
}

/// The value of a [`ParsedField`].
pub struct ParsedFieldView {
    pub name: Seq<char>,
    pub ty: ColumnType,
    pub not_null: bool,
    pub unique: bool,
    pub index: bool,
}

impl ParsedFieldView {
    /// The column: `<name>_id` for references, else the name.
    pub open spec fn column(self) -> Seq<char> {
        if self.ty == ColumnType::References {
            self.name + "_id"@
        } else {
            self.name
        }
    }

    /// Required: `not_null` or a reference.
    pub open spec fn required(self) -> bool {
        self.not_null || self.ty == ColumnType::References
    }

    /// The Rust type, wrapped in `Option` unless required.
    pub open spec fn rust_type_of(self) -> Seq<char> {
        if self.required() {
            rust_type_spec(self.ty)
        } else {
            "Option<"@ + rust_type_spec(self.ty) + ">"@
        }
    }

    /// The HTML input type of the column.
    pub open spec fn input_type(self) -> Seq<char> {
        match self.ty {
            ColumnType::Text => "textarea"@,
            ColumnType::Boolean => "checkbox"@,
            ColumnType::Integer | ColumnType::BigInteger | ColumnType::Float | ColumnType::Double
            | ColumnType::Decimal | ColumnType::References => "number"@,
            ColumnType::Date => "date"@,
            ColumnType::Timestamp => "datetime-local"@,
            _ => "text"@,
        }
    }

    /// The `user:references` field.
    pub open spec fn is_user_ref(self) -> bool {
        self.ty == ColumnType::References && self.name == "user"@
    }

    /// The entity struct field.
    pub open spec fn model_text(self) -> Seq<char> {
        "pub "@ + self.column() + ": "@ + self.rust_type_of() + ","@
    }

    /// The form-params struct field.
    pub open spec fn params_text(self) -> Seq<char> {
        if self.ty == ColumnType::Boolean && self.required() {
            "#[serde(default)]\n    pub "@ + self.column() + ": "@ + self.rust_type_of() + ","@
        } else {
            "pub "@ + self.column() + ": "@ + self.rust_type_of() + ","@
        }
    }

    /// The `ActiveModel` initialiser from the form.
    pub open spec fn set_text(self) -> Seq<char> {
        self.column() + ": Set(form."@ + self.column() + "),"@
    }

    /// The `ActiveModel` assignment from the form.
    pub open spec fn assign_text(self) -> Seq<char> {
        "record."@ + self.column() + " = Set(form."@ + self.column() + ");"@
    }
}

/// The parts of a field spec with the name snake-cased, as the field has them.
pub open spec fn inflected(p: ParsedFieldView) -> ParsedFieldView {
    ParsedFieldView { name: snake_of(p.name), ty: p.ty, not_null: p.not_null, unique: p.unique, index: p.index }
}

/// The field the spec `s` parses to (meaningful when it parses).
pub open spec fn spec_field(s: Seq<char>) -> ParsedFieldView {
    inflected(parse_spec_result(s)->Ok_0)
}

/// The `user:references` field.
pub open spec fn user_ref_view() -> ParsedFieldView {
    ParsedFieldView { name: "user"@, ty: ColumnType::References, not_null: false, unique: false, index: false }
}

impl View for Field {
    type V = ParsedFieldView;

    open spec fn view(&self) -> ParsedFieldView {
        ParsedFieldView {
            name: self.raw_name(),
            ty: self.ty(),
            not_null: self.not_null(),
            unique: self.unique(),
            index: self.wants_index_spec(),
        }
    }
}

impl View for ParsedField {
    type V = ParsedFieldView;

    open spec fn view(&self) -> ParsedFieldView {
        ParsedFieldView {
            name: self.name@,
            ty: self.ty,
            not_null: self.not_null,
            unique: self.unique,
            index: self.index,
        }
    }
}

proof fn lemma_split_nonempty(s: Seq<char>, c: char)
    ensures
        split_char(s, c).len() >= 1,
    decreases s.len(),
{
    crate::text::lemma_index_of_bounds(s, c);
    let k = index_of(s, c);
    if k >= 0 {
        lemma_split_nonempty(s.skip(k + 1), c);
    }
}

/// The pieces of `s` between colons.
fn split_colons(s: &str) -> (r: Vec<Vec<char>>)
    ensures
        crate::text::line_views(r@) == split_char(s@, ':'),
{
    let v = chars_of(s);
    let mut out: Vec<Vec<char>> = Vec::new();
    let ghost done: Seq<Seq<char>> = seq![];
    let mut i: usize = 0;
    assert(v@.skip(0) =~= v@);
    loop
        invariant
            i <= v.len(),
            v@ == s@,
            crate::text::line_views(out@) == done,
            split_char(s@, ':') == done + split_char(v@.skip(i as int), ':'),
        decreases v.len() - i,
    {
        let ghost rest = v@.skip(i as int);
        let mut j = i;
        while j < v.len() && v[j] != ':'
            invariant
                i <= j <= v.len(),
                forall|t: int| i <= t < j ==> v@[t] != ':',
            decreases v.len() - j,
        {
            j += 1;
        }
        proof {
            crate::text::lemma_index_of_is(rest, ':', j - i);
            assert(rest.take(j - i) =~= v@.subrange(i as int, j as int));
        }
        let piece = slice_chars(&v, i, j);
        let ghost prev = done;
        proof {
            done = done.push(piece@);
        }
        out.push(piece);
        assert(crate::text::line_views(out@) =~= done);
        if j == v.len() {
            proof {
                assert(rest =~= v@.subrange(i as int, j as int));
                assert(split_char(rest, ':') == seq![rest]);
                assert(prev + seq![rest] =~= done);
            }
            return out;
        }
        proof {
            assert(rest.skip(j - i + 1) =~= v@.skip(j + 1));
            assert(split_char(rest, ':') == seq![rest.take(j - i)] + split_char(v@.skip(j + 1), ':'));
            assert(prev + (seq![piece@] + split_char(v@.skip(j + 1), ':')) =~= done + split_char(v@.skip(j + 1), ':'));
        }
        i = j + 1;
    }
}

impl Field {
    /// Splits a `name:type[:modifier...]` spec. A missing or empty type means
    /// `string`; types and modifiers are compared lowercased.
    pub fn parse_spec(spec: &str) -> (r: Result<ParsedField, GenError>)
        ensures
            match r {
                Ok(p) => parse_spec_result(spec@) == Ok::<ParsedFieldView, Seq<char>>(p@),
                Err(e) => parse_spec_result(spec@) == Err::<ParsedFieldView, Seq<char>>(e.message@),
            },
    {
        let parts = split_colons(spec);
        proof {
            lemma_split_nonempty(spec@, ':');
        }
        let ghost pv = crate::text::line_views(parts@);
        assert(pv[0] == parts@[0]@);
        if parts[0].len() == 0 {
            return Err(GenError { message: "empty field spec".to_owned() });
        }
        let ty = if parts.len() > 1 && parts[1].len() > 0 {
            assert(pv[1] == parts@[1]@);
            match ColumnType::parse(string_of(&parts[1]).as_str()) {
                Ok(t) => t,
                Err(e) => return Err(e),
            }
        } else {
            ColumnType::String
        };
        let mut not_null = false;
        let mut unique = false;
        let mut index = false;
        let mut k: usize = parts.len();
        proof {
            assert(pv.skip(k as int) =~= Seq::<Seq<char>>::empty());
        }
        let mut bad: Option<String> = None;
        while k > 2
            invariant
                2 <= k <= parts@.len() || (parts@.len() < 2 && k == parts@.len()),
                pv == crate::text::line_views(parts@),
                match bad {
                    Some(m) => modifiers_result(pv.skip(k as int)) == Err::<(bool, bool, bool), Seq<char>>(m@),
                    None => modifiers_result(pv.skip(k as int)) == Ok::<(bool, bool, bool), Seq<char>>((not_null, unique, index)),
                },
            decreases k,
        {
            k -= 1;
            let ghost rest = pv.skip(k as int);
            assert(rest.drop_first() =~= pv.skip(k + 1));
            assert(rest[0] == parts@[k as int]@);
            let lower = to_lowercase(string_of(&parts[k]).as_str());
            let m = lower.as_str();
            if str_eq(m, "") {
            } else if str_eq(m, "not_null") || str_eq(m, "notnull") || str_eq(m, "required") {
                not_null = true;
            } else if str_eq(m, "unique") || str_eq(m, "uniq") {
                unique = true;
            } else if str_eq(m, "index") {
                index = true;
            } else {
                bad = Some(m.to_owned());
            }
        }
        proof {
            if parts@.len() > 2 {
                assert(k == 2);
            } else {
                assert(pv.skip(k as int) =~= Seq::<Seq<char>>::empty());
            }
        }
        if let Some(m) = bad {
            let mut msg = chars_of("unknown modifier `");
            push_str(&mut msg, m.as_str());
            push_str(&mut msg, "` in field `");
            push_str(&mut msg, spec);
            push_str(&mut msg, "`");
            return Err(GenError { message: string_of(&msg) });
        }
        Ok(ParsedField { name: string_of(&parts[0]), ty, not_null, unique, index })
    }

    /// The field for parsed parts, named `raw_name` (the inflected name).
    pub fn from_parsed(parsed: ParsedField, raw_name: String) -> (r: Field)
        ensures
            r.raw_name() == raw_name@,
            r.ty() == parsed.ty,
            r.not_null() == parsed.not_null,
            r.unique() == parsed.unique,
            r.wants_index_spec() == parsed.index,
    {
        Field {
            raw_name,
            ty: parsed.ty,
            not_null: parsed.not_null,
            unique: parsed.unique,
            index: parsed.index,
        }
    }

    /// Parses a `name:type[:modifier...]` spec; the name is snake-cased.
    pub fn parse(spec: &str) -> (r: Result<Field, GenError>)
        ensures
            match r {
                Ok(f) => parse_spec_result(spec@) is Ok && is_field_of(
                    f,
                    parse_spec_result(spec@)->Ok_0,
                ),
                Err(e) => parse_spec_result(spec@) == Err::<ParsedFieldView, Seq<char>>(e.message@),
            },
    {
        match Field::parse_spec(spec) {
            Ok(p) => {
                let name = to_snake(p.name.as_str());
                Ok(Field::from_parsed(p, name))
            },
            Err(e) => Err(e),
        }
    }

    /// Parses every spec, failing on the first bad one.
    pub fn parse_all(specs: &[&str]) -> (r: Result<Vec<Field>, GenError>)
        ensures
            match r {
                Ok(v) => v@.len() == specs@.len() && forall|i: int|
                    0 <= i < specs@.len() ==> parse_spec_result(#[trigger] specs@[i]@) is Ok
                        && is_field_of(v@[i], parse_spec_result(specs@[i]@)->Ok_0),
                Err(e) => exists|k: int|
                    0 <= k < specs@.len() && (forall|j: int|
                        0 <= j < k ==> parse_spec_result(#[trigger] specs@[j]@) is Ok)
                        && parse_spec_result(#[trigger] specs@[k]@) == Err::<
                        ParsedFieldView,
                        Seq<char>,
                    >(e.message@),
            },
    {
        let mut out: Vec<Field> = Vec::new();
        let mut i: usize = 0;
        while i < specs.len()
            invariant
                i <= specs@.len(),
                out@.len() == i,
                forall|j: int|
                    0 <= j < i ==> parse_spec_result(#[trigger] specs@[j]@) is Ok && is_field_of(
                        out@[j],
                        parse_spec_result(specs@[j]@)->Ok_0,
                    ),
            decreases specs@.len() - i,
        {
            match Field::parse(specs[i]) {
                Ok(f) => out.push(f),
                Err(e) => {
                    assert(forall|j: int| 0 <= j < i ==> parse_spec_result(#[trigger] specs@[j]@) is Ok);
                    return Err(e);
                },
            }
            i += 1;
        }
        Ok(out)
    }

    /// The `user:references` field scaffolds always get.
    pub fn user_reference() -> (r: Field)
        ensures
            r.raw_name() == "user"@,
            r.ty() == ColumnType::References,
            !r.not_null(),
            !r.unique(),
            !r.wants_index_spec(),
    {
        Field {
            raw_name: "user".to_owned(),
            ty: ColumnType::References,
            not_null: false,
            unique: false,
            index: false,
        }
    }

    pub closed spec fn raw_name(&self) -> Seq<char> {
        self.raw_name@
    }

    pub closed spec fn ty(&self) -> ColumnType {
        self.ty
    }

    pub closed spec fn not_null(&self) -> bool {
        self.not_null
    }

    pub closed spec fn unique(&self) -> bool {
        self.unique
    }

    pub closed spec fn wants_index_spec(&self) -> bool {
        self.index
    }

    /// The column: `<name>_id` for references, else the name.
    pub open spec fn column(&self) -> Seq<char> {
        if self.ty() == ColumnType::References {
            self.raw_name() + "_id"@
        } else {
            self.raw_name()
        }
    }

    /// Required: `not_null` or a reference.
    pub open spec fn required(&self) -> bool {
        self.not_null() || self.ty() == ColumnType::References
    }

    /// The field's Rust type, wrapped in `Option` unless required.
    pub open spec fn rust_type_of(&self) -> Seq<char> {
        if self.required() {
            rust_type_spec(self.ty())
        } else {
            "Option<"@ + rust_type_spec(self.ty()) + ">"@
        }
    }

    /// The HTML input type of a column type.
    pub open spec fn input_type(&self) -> Seq<char> {
        match self.ty() {
            ColumnType::Text => "textarea"@,
            ColumnType::Boolean => "checkbox"@,
            ColumnType::Integer | ColumnType::BigInteger | ColumnType::Float | ColumnType::Double
            | ColumnType::Decimal | ColumnType::References => "number"@,
            ColumnType::Date => "date"@,
            ColumnType::Timestamp => "datetime-local"@,
            _ => "text"@,
        }
    }

    pub fn column_name(&self) -> (r: String)
        ensures
            r@ == self.column(),
    {
        match self.ty {
            ColumnType::References => {
                let mut out = chars_of(self.raw_name.as_str());
                push_str(&mut out, "_id");
                string_of(&out)
            },
            _ => self.raw_name.clone(),
        }
    }

    pub fn is_required(&self) -> (r: bool)
        ensures
            r == self.required(),
    {
        self.not_null || self.ty == ColumnType::References
    }

    pub fn wants_index(&self) -> (r: bool)
        ensures
            r == self.wants_index_spec(),
    {
        self.index
    }

    /// The `user:references` field.
    pub fn is_user_reference(&self) -> (r: bool)
        ensures
            r == (self.ty() == ColumnType::References && self.raw_name() == "user"@),
    {
        self.ty == ColumnType::References && str_eq(self.raw_name.as_str(), "user")
    }

    fn rust_type(&self) -> (r: String)
        ensures
            r@ == self.rust_type_of(),
    {
        let ty = self.ty.rust_type();
        if self.is_required() {
            ty.to_owned()
        } else {
            let mut out = chars_of("Option<");
            push_str(&mut out, ty);
            push_str(&mut out, ">");
            string_of(&out)
        }
    }

    /// The form-params struct field; required booleans default to `false`.
    pub fn params_struct_field(&self) -> (r: String)
        ensures
            r@ == if self.ty() == ColumnType::Boolean && self.required() {
                "#[serde(default)]\n    pub "@ + self.column() + ": "@ + self.rust_type_of() + ","@
            } else {
                "pub "@ + self.column() + ": "@ + self.rust_type_of() + ","@
            },
    {
        let col = self.column_name();
        let ty = self.rust_type();
        let mut out: Vec<char> = Vec::new();
        if self.ty == ColumnType::Boolean && self.is_required() {
            push_str(&mut out, "#[serde(default)]\n    pub ");
        } else {
            push_str(&mut out, "pub ");
        }
        push_str(&mut out, col.as_str());
        push_str(&mut out, ": ");
        push_str(&mut out, ty.as_str());
        push_str(&mut out, ",");
        string_of(&out)
    }

    /// The `ActiveModel` initialiser from the form.
    pub fn active_model_set(&self) -> (r: String)
        ensures
            r@ == self.column() + ": Set(form."@ + self.column() + "),"@,
    {
        let col = self.column_name();
        let mut out = chars_of(col.as_str());
        push_str(&mut out, ": Set(form.");
        push_str(&mut out, col.as_str());
        push_str(&mut out, "),");
        string_of(&out)
    }

    /// The `ActiveModel` assignment from the form.
    pub fn active_model_assign(&self) -> (r: String)
        ensures
            r@ == "record."@ + self.column() + " = Set(form."@ + self.column() + ");"@,
    {
        let col = self.column_name();
        let mut out = chars_of("record.");
        push_str(&mut out, col.as_str());
        push_str(&mut out, " = Set(form.");
        push_str(&mut out, col.as_str());
        push_str(&mut out, ");");
        string_of(&out)
    }

    /// The labelled form control of an edit form, prefilled from `singular`.
    pub open spec fn form_control(&self, singular: Seq<char>) -> Seq<char> {
        let col = self.column();
        let input = self.input_type();
        if input == "textarea"@ {
            "  <label for=\""@ + col + "\">"@ + col + "<br><textarea id=\""@ + col + "\" name=\""@
                + col + "\">{% if "@ + singular + " is defined %}{{ "@ + singular + "."@ + col
                + " | default(value=\"\") }}{% endif %}</textarea></label>\n"@
        } else if input == "checkbox"@ {
            "  <label for=\""@ + col + "\">"@ + col + " <input id=\""@ + col
                + "\" type=\"checkbox\" name=\""@ + col + "\" value=\"true\"{% if "@ + singular
                + " is defined and "@ + singular + "."@ + col + " %} checked{% endif %}></label>\n"@
        } else {
            "  <label for=\""@ + col + "\">"@ + col + "<br><input id=\""@ + col + "\" type=\""@
                + input + "\" name=\""@ + col + "\" value=\"{% if "@ + singular
                + " is defined %}{{ "@ + singular + "."@ + col
                + " | default(value=\"\") }}{% endif %}\"></label>\n"@
        }
    }

    pub fn html_form_control(&self, singular: &str) -> (r: String)
        ensures
            r@ == self.form_control(singular@),
    {
        let col = self.column_name();
        let c = col.as_str();
        let input = self.html_input_type();
        let mut out = chars_of("  <label for=\"");
        push_str(&mut out, c);
        push_str(&mut out, "\">");
        push_str(&mut out, c);
        if str_eq(input, "textarea") {
            push_str(&mut out, "<br><textarea id=\"");
            push_str(&mut out, c);
            push_str(&mut out, "\" name=\"");
            push_str(&mut out, c);
            push_str(&mut out, "\">{% if ");
            push_str(&mut out, singular);
            push_str(&mut out, " is defined %}{{ ");
            push_str(&mut out, singular);
            push_str(&mut out, ".");
            push_str(&mut out, c);
            push_str(&mut out, " | default(value=\"\") }}{% endif %}</textarea></label>\n");
        } else if str_eq(input, "checkbox") {
            push_str(&mut out, " <input id=\"");
            push_str(&mut out, c);
            push_str(&mut out, "\" type=\"checkbox\" name=\"");
            push_str(&mut out, c);
            push_str(&mut out, "\" value=\"true\"{% if ");
            push_str(&mut out, singular);
            push_str(&mut out, " is defined and ");
            push_str(&mut out, singular);
            push_str(&mut out, ".");
            push_str(&mut out, c);
            push_str(&mut out, " %} checked{% endif %}></label>\n");
        } else {
            push_str(&mut out, "<br><input id=\"");
            push_str(&mut out, c);
            push_str(&mut out, "\" type=\"");
            push_str(&mut out, input);
            push_str(&mut out, "\" name=\"");
            push_str(&mut out, c);
            push_str(&mut out, "\" value=\"{% if ");
            push_str(&mut out, singular);
            push_str(&mut out, " is defined %}{{ ");
            push_str(&mut out, singular);
            push_str(&mut out, ".");
            push_str(&mut out, c);
            push_str(&mut out, " | default(value=\"\") }}{% endif %}\"></label>\n");
        }
        string_of(&out)
    }

    pub fn html_input_type(&self) -> (r: &'static str)
        ensures
            r@ == self.input_type(),
    {
        match self.ty {
            ColumnType::Text => "textarea",
            ColumnType::Boolean => "checkbox",
            ColumnType::Integer | ColumnType::BigInteger | ColumnType::Float | ColumnType::Double
            | ColumnType::Decimal | ColumnType::References => "number",
            ColumnType::Date => "date",
            ColumnType::Timestamp => "datetime-local",
            _ => "text",
        }
    }

    /// The migration column line.
    pub fn migration_line(&self) -> (r: String)
        ensures
            r@ == "t."@ + builder_method_spec(self.ty()) + "(\""@ + self.raw_name() + "\")"@ + (
            if self.not_null() && self.ty() != ColumnType::References {
                ".not_null()"@
            } else {
                ""@
            }) + (if self.unique() {
                ".unique_key()"@
            } else {
                ""@
            }) + ";"@,
    {
        let mut line = chars_of("t.");
        push_str(&mut line, self.ty.builder_method());
        push_str(&mut line, "(\"");
        push_str(&mut line, self.raw_name.as_str());
        push_str(&mut line, "\")");
        let ghost base = line@;
        if self.not_null && self.ty != ColumnType::References {
            push_str(&mut line, ".not_null()");
        } else {
            push_str(&mut line, "");
        }
        if self.unique {
            push_str(&mut line, ".unique_key()");
        } else {
            push_str(&mut line, "");
        }
        push_str(&mut line, ";");
        string_of(&line)
    }

    /// The entity struct field.
    pub fn model_field(&self) -> (r: String)
        ensures
            r@ == "pub "@ + self.column() + ": "@ + self.rust_type_of() + ","@,
    {
        let mut out = chars_of("pub ");
        push_str(&mut out, self.column_name().as_str());
        push_str(&mut out, ": ");
        push_str(&mut out, self.rust_type().as_str());
        push_str(&mut out, ",");
        string_of(&out)
    }
}

/// The Rust type that SeaORM's schema-builder method `builder` creates its
/// column for (`integer` is a 32-bit column, `big_integer` and the
/// `references` foreign key 64-bit ones).
pub open spec fn builder_column_rust_type(builder: Seq<char>) -> Seq<char> {
    if builder == "string"@ || builder == "text"@ {
        "String"@
    } else if builder == "integer"@ {
        "i32"@
    } else if builder == "big_integer"@ || builder == "references"@ {
        "i64"@
    } else if builder == "float"@ {
        "f32"@
    } else if builder == "double"@ {
        "f64"@
    } else if builder == "decimal"@ {
        "Decimal"@
    } else if builder == "boolean"@ {
        "bool"@
    } else if builder == "timestamp"@ {
        "DateTime"@
    } else if builder == "date"@ {
        "Date"@
    } else if builder == "json"@ {
        "Json"@
    } else if builder == "uuid"@ {
        "Uuid"@
    } else {
        "Vec<u8>"@
    }
}

/// The entity field of a column has the Rust type of the column that the
/// migration's builder method creates, so a generated model matches its
/// table; in particular 32-bit and 64-bit integer columns get different
/// types.
pub proof fn entity_type_matches_migration_column(t: ColumnType)
    ensures
        rust_type_spec(t) == builder_column_rust_type(builder_method_spec(t)),
        rust_type_spec(ColumnType::Integer) != rust_type_spec(ColumnType::BigInteger),
{
    reveal_strlit("string");
    reveal_strlit("text");
    reveal_strlit("integer");
    reveal_strlit("big_integer");
    reveal_strlit("float");
    reveal_strlit("double");
    reveal_strlit("decimal");
    reveal_strlit("boolean");
    reveal_strlit("timestamp");
    reveal_strlit("date");
    reveal_strlit("json");
    reveal_strlit("uuid");
    reveal_strlit("binary");
    reveal_strlit("references");
    reveal_strlit("i32");
    reveal_strlit("i64");
    reveal_strlit("String");
    reveal_strlit("f32");
    reveal_strlit("f64");
    reveal_strlit("Decimal");
    reveal_strlit("bool");
    reveal_strlit("DateTime");
    reveal_strlit("Date");
    reveal_strlit("Json");
    reveal_strlit("Uuid");
    reveal_strlit("Vec<u8>");
    assert("i32"@[1] != "i64"@[1]);
    match t {
        ColumnType::String => {
            assert(rust_type_spec(t) == builder_column_rust_type(builder_method_spec(t)));
        },
        ColumnType::Text => {
            assert("text"@ != "string"@ ) by { assert("text"@.len() != "string"@.len() || "text"@[0] != "string"@[0] || "text"@[1] != "string"@[1] || "text"@[3] != "string"@[3]); }
            assert(rust_type_spec(t) == builder_column_rust_type(builder_method_spec(t)));
        },
        ColumnType::Integer => {
            assert("integer"@ != "string"@ ) by { assert("integer"@.len() != "string"@.len() || "integer"@[0] != "string"@[0] || "integer"@[1] != "string"@[1] || "integer"@[3] != "string"@[3]); }
            assert("integer"@ != "text"@ ) by { assert("integer"@.len() != "text"@.len() || "integer"@[0] != "text"@[0] || "integer"@[1] != "text"@[1] || "integer"@[3] != "text"@[3]); }
            assert(rust_type_spec(t) == builder_column_rust_type(builder_method_spec(t)));
        },
        ColumnType::BigInteger => {
            assert("big_integer"@ != "string"@ ) by { assert("big_integer"@.len() != "string"@.len() || "big_integer"@[0] != "string"@[0] || "big_integer"@[1] != "string"@[1] || "big_integer"@[3] != "string"@[3]); }
            assert("big_integer"@ != "text"@ ) by { assert("big_integer"@.len() != "text"@.len() || "big_integer"@[0] != "text"@[0] || "big_integer"@[1] != "text"@[1] || "big_integer"@[3] != "text"@[3]); }
            assert("big_integer"@ != "integer"@ ) by { assert("big_integer"@.len() != "integer"@.len() || "big_integer"@[0] != "integer"@[0] || "big_integer"@[1] != "integer"@[1] || "big_integer"@[3] != "integer"@[3]); }
            assert(rust_type_spec(t) == builder_column_rust_type(builder_method_spec(t)));
        },
        ColumnType::Float => {
            assert("float"@ != "string"@ ) by { assert("float"@.len() != "string"@.len() || "float"@[0] != "string"@[0] || "float"@[1] != "string"@[1] || "float"@[3] != "string"@[3]); }
            assert("float"@ != "text"@ ) by { assert("float"@.len() != "text"@.len() || "float"@[0] != "text"@[0] || "float"@[1] != "text"@[1] || "float"@[3] != "text"@[3]); }
            assert("float"@ != "integer"@ ) by { assert("float"@.len() != "integer"@.len() || "float"@[0] != "integer"@[0] || "float"@[1] != "integer"@[1] || "float"@[3] != "integer"@[3]); }
            assert("float"@ != "big_integer"@ ) by { assert("float"@.len() != "big_integer"@.len() || "float"@[0] != "big_integer"@[0] || "float"@[1] != "big_integer"@[1] || "float"@[3] != "big_integer"@[3]); }
            assert("float"@ != "references"@ ) by { assert("float"@.len() != "references"@.len() || "float"@[0] != "references"@[0] || "float"@[1] != "references"@[1] || "float"@[3] != "references"@[3]); }
            assert(rust_type_spec(t) == builder_column_rust_type(builder_method_spec(t)));
        },
        ColumnType::Double => {
            assert("double"@ != "string"@ ) by { assert("double"@.len() != "string"@.len() || "double"@[0] != "string"@[0] || "double"@[1] != "string"@[1] || "double"@[3] != "string"@[3]); }
            assert("double"@ != "text"@ ) by { assert("double"@.len() != "text"@.len() || "double"@[0] != "text"@[0] || "double"@[1] != "text"@[1] || "double"@[3] != "text"@[3]); }
            assert("double"@ != "integer"@ ) by { assert("double"@.len() != "integer"@.len() || "double"@[0] != "integer"@[0] || "double"@[1] != "integer"@[1] || "double"@[3] != "integer"@[3]); }
            assert("double"@ != "big_integer"@ ) by { assert("double"@.len() != "big_integer"@.len() || "double"@[0] != "big_integer"@[0] || "double"@[1] != "big_integer"@[1] || "double"@[3] != "big_integer"@[3]); }
            assert("double"@ != "references"@ ) by { assert("double"@.len() != "references"@.len() || "double"@[0] != "references"@[0] || "double"@[1] != "references"@[1] || "double"@[3] != "references"@[3]); }
            assert("double"@ != "float"@ ) by { assert("double"@.len() != "float"@.len() || "double"@[0] != "float"@[0] || "double"@[1] != "float"@[1] || "double"@[3] != "float"@[3]); }
            assert(rust_type_spec(t) == builder_column_rust_type(builder_method_spec(t)));
        },
        ColumnType::Decimal => {
            assert("decimal"@ != "string"@ ) by { assert("decimal"@.len() != "string"@.len() || "decimal"@[0] != "string"@[0] || "decimal"@[1] != "string"@[1] || "decimal"@[3] != "string"@[3]); }
            assert("decimal"@ != "text"@ ) by { assert("decimal"@.len() != "text"@.len() || "decimal"@[0] != "text"@[0] || "decimal"@[1] != "text"@[1] || "decimal"@[3] != "text"@[3]); }
            assert("decimal"@ != "integer"@ ) by { assert("decimal"@.len() != "integer"@.len() || "decimal"@[0] != "integer"@[0] || "decimal"@[1] != "integer"@[1] || "decimal"@[3] != "integer"@[3]); }
            assert("decimal"@ != "big_integer"@ ) by { assert("decimal"@.len() != "big_integer"@.len() || "decimal"@[0] != "big_integer"@[0] || "decimal"@[1] != "big_integer"@[1] || "decimal"@[3] != "big_integer"@[3]); }
            assert("decimal"@ != "references"@ ) by { assert("decimal"@.len() != "references"@.len() || "decimal"@[0] != "references"@[0] || "decimal"@[1] != "references"@[1] || "decimal"@[3] != "references"@[3]); }
            assert("decimal"@ != "float"@ ) by { assert("decimal"@.len() != "float"@.len() || "decimal"@[0] != "float"@[0] || "decimal"@[1] != "float"@[1] || "decimal"@[3] != "float"@[3]); }
            assert("decimal"@ != "double"@ ) by { assert("decimal"@.len() != "double"@.len() || "decimal"@[0] != "double"@[0] || "decimal"@[1] != "double"@[1] || "decimal"@[3] != "double"@[3]); }
            assert(rust_type_spec(t) == builder_column_rust_type(builder_method_spec(t)));
        },
        ColumnType::Boolean => {
            assert("boolean"@ != "string"@ ) by { assert("boolean"@.len() != "string"@.len() || "boolean"@[0] != "string"@[0] || "boolean"@[1] != "string"@[1] || "boolean"@[3] != "string"@[3]); }
            assert("boolean"@ != "text"@ ) by { assert("boolean"@.len() != "text"@.len() || "boolean"@[0] != "text"@[0] || "boolean"@[1] != "text"@[1] || "boolean"@[3] != "text"@[3]); }
            assert("boolean"@ != "integer"@ ) by { assert("boolean"@.len() != "integer"@.len() || "boolean"@[0] != "integer"@[0] || "boolean"@[1] != "integer"@[1] || "boolean"@[3] != "integer"@[3]); }
            assert("boolean"@ != "big_integer"@ ) by { assert("boolean"@.len() != "big_integer"@.len() || "boolean"@[0] != "big_integer"@[0] || "boolean"@[1] != "big_integer"@[1] || "boolean"@[3] != "big_integer"@[3]); }
            assert("boolean"@ != "references"@ ) by { assert("boolean"@.len() != "references"@.len() || "boolean"@[0] != "references"@[0] || "boolean"@[1] != "references"@[1] || "boolean"@[3] != "references"@[3]); }
            assert("boolean"@ != "float"@ ) by { assert("boolean"@.len() != "float"@.len() || "boolean"@[0] != "float"@[0] || "boolean"@[1] != "float"@[1] || "boolean"@[3] != "float"@[3]); }
            assert("boolean"@ != "double"@ ) by { assert("boolean"@.len() != "double"@.len() || "boolean"@[0] != "double"@[0] || "boolean"@[1] != "double"@[1] || "boolean"@[3] != "double"@[3]); }
            assert("boolean"@ != "decimal"@ ) by { assert("boolean"@.len() != "decimal"@.len() || "boolean"@[0] != "decimal"@[0] || "boolean"@[1] != "decimal"@[1] || "boolean"@[3] != "decimal"@[3]); }
            assert(rust_type_spec(t) == builder_column_rust_type(builder_method_spec(t)));
        },
        ColumnType::Timestamp => {
            assert("timestamp"@ != "string"@ ) by { assert("timestamp"@.len() != "string"@.len() || "timestamp"@[0] != "string"@[0] || "timestamp"@[1] != "string"@[1] || "timestamp"@[3] != "string"@[3]); }
            assert("timestamp"@ != "text"@ ) by { assert("timestamp"@.len() != "text"@.len() || "timestamp"@[0] != "text"@[0] || "timestamp"@[1] != "text"@[1] || "timestamp"@[3] != "text"@[3]); }
            assert("timestamp"@ != "integer"@ ) by { assert("timestamp"@.len() != "integer"@.len() || "timestamp"@[0] != "integer"@[0] || "timestamp"@[1] != "integer"@[1] || "timestamp"@[3] != "integer"@[3]); }
            assert("timestamp"@ != "big_integer"@ ) by { assert("timestamp"@.len() != "big_integer"@.len() || "timestamp"@[0] != "big_integer"@[0] || "timestamp"@[1] != "big_integer"@[1] || "timestamp"@[3] != "big_integer"@[3]); }
            assert("timestamp"@ != "references"@ ) by { assert("timestamp"@.len() != "references"@.len() || "timestamp"@[0] != "references"@[0] || "timestamp"@[1] != "references"@[1] || "timestamp"@[3] != "references"@[3]); }
            assert("timestamp"@ != "float"@ ) by { assert("timestamp"@.len() != "float"@.len() || "timestamp"@[0] != "float"@[0] || "timestamp"@[1] != "float"@[1] || "timestamp"@[3] != "float"@[3]); }
            assert("timestamp"@ != "double"@ ) by { assert("timestamp"@.len() != "double"@.len() || "timestamp"@[0] != "double"@[0] || "timestamp"@[1] != "double"@[1] || "timestamp"@[3] != "double"@[3]); }
            assert("timestamp"@ != "decimal"@ ) by { assert("timestamp"@.len() != "decimal"@.len() || "timestamp"@[0] != "decimal"@[0] || "timestamp"@[1] != "decimal"@[1] || "timestamp"@[3] != "decimal"@[3]); }
            assert("timestamp"@ != "boolean"@ ) by { assert("timestamp"@.len() != "boolean"@.len() || "timestamp"@[0] != "boolean"@[0] || "timestamp"@[1] != "boolean"@[1] || "timestamp"@[3] != "boolean"@[3]); }
            assert(rust_type_spec(t) == builder_column_rust_type(builder_method_spec(t)));
        },
        ColumnType::Date => {
            assert("date"@ != "string"@ ) by { assert("date"@.len() != "string"@.len() || "date"@[0] != "string"@[0] || "date"@[1] != "string"@[1] || "date"@[3] != "string"@[3]); }
            assert("date"@ != "text"@ ) by { assert("date"@.len() != "text"@.len() || "date"@[0] != "text"@[0] || "date"@[1] != "text"@[1] || "date"@[3] != "text"@[3]); }
            assert("date"@ != "integer"@ ) by { assert("date"@.len() != "integer"@.len() || "date"@[0] != "integer"@[0] || "date"@[1] != "integer"@[1] || "date"@[3] != "integer"@[3]); }
            assert("date"@ != "big_integer"@ ) by { assert("date"@.len() != "big_integer"@.len() || "date"@[0] != "big_integer"@[0] || "date"@[1] != "big_integer"@[1] || "date"@[3] != "big_integer"@[3]); }
            assert("date"@ != "references"@ ) by { assert("date"@.len() != "references"@.len() || "date"@[0] != "references"@[0] || "date"@[1] != "references"@[1] || "date"@[3] != "references"@[3]); }
            assert("date"@ != "float"@ ) by { assert("date"@.len() != "float"@.len() || "date"@[0] != "float"@[0] || "date"@[1] != "float"@[1] || "date"@[3] != "float"@[3]); }
            assert("date"@ != "double"@ ) by { assert("date"@.len() != "double"@.len() || "date"@[0] != "double"@[0] || "date"@[1] != "double"@[1] || "date"@[3] != "double"@[3]); }
            assert("date"@ != "decimal"@ ) by { assert("date"@.len() != "decimal"@.len() || "date"@[0] != "decimal"@[0] || "date"@[1] != "decimal"@[1] || "date"@[3] != "decimal"@[3]); }
            assert("date"@ != "boolean"@ ) by { assert("date"@.len() != "boolean"@.len() || "date"@[0] != "boolean"@[0] || "date"@[1] != "boolean"@[1] || "date"@[3] != "boolean"@[3]); }
            assert("date"@ != "timestamp"@ ) by { assert("date"@.len() != "timestamp"@.len() || "date"@[0] != "timestamp"@[0] || "date"@[1] != "timestamp"@[1] || "date"@[3] != "timestamp"@[3]); }
            assert(rust_type_spec(t) == builder_column_rust_type(builder_method_spec(t)));
        },
        ColumnType::Json => {
            assert("json"@ != "string"@ ) by { assert("json"@.len() != "string"@.len() || "json"@[0] != "string"@[0] || "json"@[1] != "string"@[1] || "json"@[3] != "string"@[3]); }
            assert("json"@ != "text"@ ) by { assert("json"@.len() != "text"@.len() || "json"@[0] != "text"@[0] || "json"@[1] != "text"@[1] || "json"@[3] != "text"@[3]); }
            assert("json"@ != "integer"@ ) by { assert("json"@.len() != "integer"@.len() || "json"@[0] != "integer"@[0] || "json"@[1] != "integer"@[1] || "json"@[3] != "integer"@[3]); }
            assert("json"@ != "big_integer"@ ) by { assert("json"@.len() != "big_integer"@.len() || "json"@[0] != "big_integer"@[0] || "json"@[1] != "big_integer"@[1] || "json"@[3] != "big_integer"@[3]); }
            assert("json"@ != "references"@ ) by { assert("json"@.len() != "references"@.len() || "json"@[0] != "references"@[0] || "json"@[1] != "references"@[1] || "json"@[3] != "references"@[3]); }
            assert("json"@ != "float"@ ) by { assert("json"@.len() != "float"@.len() || "json"@[0] != "float"@[0] || "json"@[1] != "float"@[1] || "json"@[3] != "float"@[3]); }
            assert("json"@ != "double"@ ) by { assert("json"@.len() != "double"@.len() || "json"@[0] != "double"@[0] || "json"@[1] != "double"@[1] || "json"@[3] != "double"@[3]); }
            assert("json"@ != "decimal"@ ) by { assert("json"@.len() != "decimal"@.len() || "json"@[0] != "decimal"@[0] || "json"@[1] != "decimal"@[1] || "json"@[3] != "decimal"@[3]); }
            assert("json"@ != "boolean"@ ) by { assert("json"@.len() != "boolean"@.len() || "json"@[0] != "boolean"@[0] || "json"@[1] != "boolean"@[1] || "json"@[3] != "boolean"@[3]); }
            assert("json"@ != "timestamp"@ ) by { assert("json"@.len() != "timestamp"@.len() || "json"@[0] != "timestamp"@[0] || "json"@[1] != "timestamp"@[1] || "json"@[3] != "timestamp"@[3]); }
            assert("json"@ != "date"@ ) by { assert("json"@.len() != "date"@.len() || "json"@[0] != "date"@[0] || "json"@[1] != "date"@[1] || "json"@[3] != "date"@[3]); }
            assert(rust_type_spec(t) == builder_column_rust_type(builder_method_spec(t)));
        },
        ColumnType::Uuid => {
            assert("uuid"@ != "string"@ ) by { assert("uuid"@.len() != "string"@.len() || "uuid"@[0] != "string"@[0] || "uuid"@[1] != "string"@[1] || "uuid"@[3] != "string"@[3]); }
            assert("uuid"@ != "text"@ ) by { assert("uuid"@.len() != "text"@.len() || "uuid"@[0] != "text"@[0] || "uuid"@[1] != "text"@[1] || "uuid"@[3] != "text"@[3]); }
            assert("uuid"@ != "integer"@ ) by { assert("uuid"@.len() != "integer"@.len() || "uuid"@[0] != "integer"@[0] || "uuid"@[1] != "integer"@[1] || "uuid"@[3] != "integer"@[3]); }
            assert("uuid"@ != "big_integer"@ ) by { assert("uuid"@.len() != "big_integer"@.len() || "uuid"@[0] != "big_integer"@[0] || "uuid"@[1] != "big_integer"@[1] || "uuid"@[3] != "big_integer"@[3]); }
            assert("uuid"@ != "references"@ ) by { assert("uuid"@.len() != "references"@.len() || "uuid"@[0] != "references"@[0] || "uuid"@[1] != "references"@[1] || "uuid"@[3] != "references"@[3]); }
            assert("uuid"@ != "float"@ ) by { assert("uuid"@.len() != "float"@.len() || "uuid"@[0] != "float"@[0] || "uuid"@[1] != "float"@[1] || "uuid"@[3] != "float"@[3]); }
            assert("uuid"@ != "double"@ ) by { assert("uuid"@.len() != "double"@.len() || "uuid"@[0] != "double"@[0] || "uuid"@[1] != "double"@[1] || "uuid"@[3] != "double"@[3]); }
            assert("uuid"@ != "decimal"@ ) by { assert("uuid"@.len() != "decimal"@.len() || "uuid"@[0] != "decimal"@[0] || "uuid"@[1] != "decimal"@[1] || "uuid"@[3] != "decimal"@[3]); }
            assert("uuid"@ != "boolean"@ ) by { assert("uuid"@.len() != "boolean"@.len() || "uuid"@[0] != "boolean"@[0] || "uuid"@[1] != "boolean"@[1] || "uuid"@[3] != "boolean"@[3]); }
            assert("uuid"@ != "timestamp"@ ) by { assert("uuid"@.len() != "timestamp"@.len() || "uuid"@[0] != "timestamp"@[0] || "uuid"@[1] != "timestamp"@[1] || "uuid"@[3] != "timestamp"@[3]); }
            assert("uuid"@ != "date"@ ) by { assert("uuid"@.len() != "date"@.len() || "uuid"@[0] != "date"@[0] || "uuid"@[1] != "date"@[1] || "uuid"@[3] != "date"@[3]); }
            assert("uuid"@ != "json"@ ) by { assert("uuid"@.len() != "json"@.len() || "uuid"@[0] != "json"@[0] || "uuid"@[1] != "json"@[1] || "uuid"@[3] != "json"@[3]); }
            assert(rust_type_spec(t) == builder_column_rust_type(builder_method_spec(t)));
        },
        ColumnType::Binary => {
            assert("binary"@ != "string"@ ) by { assert("binary"@.len() != "string"@.len() || "binary"@[0] != "string"@[0] || "binary"@[1] != "string"@[1] || "binary"@[3] != "string"@[3]); }
            assert("binary"@ != "text"@ ) by { assert("binary"@.len() != "text"@.len() || "binary"@[0] != "text"@[0] || "binary"@[1] != "text"@[1] || "binary"@[3] != "text"@[3]); }
            assert("binary"@ != "integer"@ ) by { assert("binary"@.len() != "integer"@.len() || "binary"@[0] != "integer"@[0] || "binary"@[1] != "integer"@[1] || "binary"@[3] != "integer"@[3]); }
            assert("binary"@ != "big_integer"@ ) by { assert("binary"@.len() != "big_integer"@.len() || "binary"@[0] != "big_integer"@[0] || "binary"@[1] != "big_integer"@[1] || "binary"@[3] != "big_integer"@[3]); }
            assert("binary"@ != "references"@ ) by { assert("binary"@.len() != "references"@.len() || "binary"@[0] != "references"@[0] || "binary"@[1] != "references"@[1] || "binary"@[3] != "references"@[3]); }
            assert("binary"@ != "float"@ ) by { assert("binary"@.len() != "float"@.len() || "binary"@[0] != "float"@[0] || "binary"@[1] != "float"@[1] || "binary"@[3] != "float"@[3]); }
            assert("binary"@ != "double"@ ) by { assert("binary"@.len() != "double"@.len() || "binary"@[0] != "double"@[0] || "binary"@[1] != "double"@[1] || "binary"@[3] != "double"@[3]); }
            assert("binary"@ != "decimal"@ ) by { assert("binary"@.len() != "decimal"@.len() || "binary"@[0] != "decimal"@[0] || "binary"@[1] != "decimal"@[1] || "binary"@[3] != "decimal"@[3]); }
            assert("binary"@ != "boolean"@ ) by { assert("binary"@.len() != "boolean"@.len() || "binary"@[0] != "boolean"@[0] || "binary"@[1] != "boolean"@[1] || "binary"@[3] != "boolean"@[3]); }
            assert("binary"@ != "timestamp"@ ) by { assert("binary"@.len() != "timestamp"@.len() || "binary"@[0] != "timestamp"@[0] || "binary"@[1] != "timestamp"@[1] || "binary"@[3] != "timestamp"@[3]); }
            assert("binary"@ != "date"@ ) by { assert("binary"@.len() != "date"@.len() || "binary"@[0] != "date"@[0] || "binary"@[1] != "date"@[1] || "binary"@[3] != "date"@[3]); }
            assert("binary"@ != "json"@ ) by { assert("binary"@.len() != "json"@.len() || "binary"@[0] != "json"@[0] || "binary"@[1] != "json"@[1] || "binary"@[3] != "json"@[3]); }
            assert("binary"@ != "uuid"@ ) by { assert("binary"@.len() != "uuid"@.len() || "binary"@[0] != "uuid"@[0] || "binary"@[1] != "uuid"@[1] || "binary"@[3] != "uuid"@[3]); }
            assert(rust_type_spec(t) == builder_column_rust_type(builder_method_spec(t)));
        },
        ColumnType::References => {
            assert("references"@ != "string"@ ) by { assert("references"@.len() != "string"@.len() || "references"@[0] != "string"@[0] || "references"@[1] != "string"@[1] || "references"@[3] != "string"@[3]); }
            assert("references"@ != "text"@ ) by { assert("references"@.len() != "text"@.len() || "references"@[0] != "text"@[0] || "references"@[1] != "text"@[1] || "references"@[3] != "text"@[3]); }
            assert("references"@ != "integer"@ ) by { assert("references"@.len() != "integer"@.len() || "references"@[0] != "integer"@[0] || "references"@[1] != "integer"@[1] || "references"@[3] != "integer"@[3]); }
            assert("references"@ != "big_integer"@ ) by { assert("references"@.len() != "big_integer"@.len() || "references"@[0] != "big_integer"@[0] || "references"@[1] != "big_integer"@[1] || "references"@[3] != "big_integer"@[3]); }
            assert(rust_type_spec(t) == builder_column_rust_type(builder_method_spec(t)));
        },
    }
}

} // verus!
