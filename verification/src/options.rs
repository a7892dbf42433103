//! Typed reads of the fields of an option record, and the first field that
//! keeps a record from being read.
use vstd::prelude::*;
use vstd::string::*;
use crate::json::Json;

verus! {

/// The text of the string member `key` of `opts`.
pub open spec fn str_field(opts: Json, key: Seq<char>) -> Option<Seq<char>> {
    match opts.spec_get(key) {
        Some(v) => v.spec_as_str(),
        None => None,
    }
}

/// The value of the member `key` of `opts` when it is an unsigned integer.
pub open spec fn u64_field(opts: Json, key: Seq<char>) -> Option<u64> {
    match opts.spec_get(key) {
        Some(v) => v.spec_as_u64(),
        None => None,
    }
}

/// The value of the boolean member `key` of `opts`.
pub open spec fn bool_field(opts: Json, key: Seq<char>) -> Option<bool> {
    match opts.spec_get(key) {
        Some(v) => v.spec_as_bool(),
        None => None,
    }
}

/// Reads the string member `key`.
pub fn get_str(opts: &Json, key: &str) -> (r: String)
    requires
        str_field(*opts, key@) is Some,
    ensures
        str_field(*opts, key@) == Some(r@),
{
    match opts.get(key) {
        Some(v) => match v.as_str() {
            Some(s) => s.clone(),
            None => {
                proof {
                    assert(false);
                }
                String::new()
            },
        },
        None => {
            proof {
                assert(false);
            }
            String::new()
        },
    }
}

/// Reads the unsigned integer member `key`.
pub fn get_u64(opts: &Json, key: &str) -> (r: u64)
    requires
        u64_field(*opts, key@) is Some,
    ensures
        u64_field(*opts, key@) == Some(r),
{
    match opts.get(key) {
        Some(v) => match v.as_u64() {
            Some(n) => n,
            None => {
                proof {
                    assert(false);
                }
                0
            },
        },
        None => {
            proof {
                assert(false);
            }
            0
        },
    }
}

/// Reads the unsigned integer member `key` as a `usize`.
pub fn get_usize(opts: &Json, key: &str) -> (r: usize)
    requires
        u64_field(*opts, key@) matches Some(v) && v <= usize::MAX,
    ensures
        u64_field(*opts, key@) == Some(r as u64),
{
    let val: u64 = get_u64(opts, key);
    val as usize
}

/// Reads the unsigned integer member `key` as a `u32`.
pub fn get_u32(opts: &Json, key: &str) -> (r: u32)
    requires
        u64_field(*opts, key@) matches Some(v) && v <= u32::MAX,
    ensures
        u64_field(*opts, key@) == Some(r as u64),
{
    let val: u64 = get_u64(opts, key);
    val as u32
}

/// Reads the unsigned integer member `key` as a `u16`.
pub fn get_u16(opts: &Json, key: &str) -> (r: u16)
    requires
        u64_field(*opts, key@) matches Some(v) && v <= u16::MAX,
    ensures
        u64_field(*opts, key@) == Some(r as u64),
{
    let val: u64 = get_u64(opts, key);
    val as u16
}

/// Reads the unsigned integer member `key` as a `u8`.
pub fn get_u8(opts: &Json, key: &str) -> (r: u8)
    requires
        u64_field(*opts, key@) matches Some(v) && v <= u8::MAX,
    ensures
        u64_field(*opts, key@) == Some(r as u64),
{
    let val: u64 = get_u64(opts, key);
    val as u8
}

/// Reads the boolean member `key`.
pub fn get_bool(opts: &Json, key: &str) -> (r: bool)
    requires
        bool_field(*opts, key@) is Some,
    ensures
        bool_field(*opts, key@) == Some(r),
{
    match opts.get(key) {
        Some(v) => match v.as_bool() {
            Some(b) => b,
            None => {
                proof {
                    assert(false);
                }
                false
            },
        },
        None => {
            proof {
                assert(false);
            }
            false
        },
    }
}

/// The type that a field is read as.
#[derive(Debug, PartialEq, Eq, Structural, Clone, Copy)]
pub enum FieldKind {
    Str,
    U64,
    Usize,
    U32,
    U16,
    U8,
    Bool,
}

/// Why a field cannot be read.
#[derive(Debug, PartialEq, Eq, Structural, Clone, Copy)]
pub enum FieldProblem {
    /// The member is absent or of another JSON type.
    Missing,
    /// The member is an unsigned integer too large for the field's type.
    OutOfRange,
}

/// The largest value of an integer field of the given kind.
pub open spec fn kind_max(kind: FieldKind) -> int {
    match kind {
        FieldKind::U64 => u64::MAX as int,
        FieldKind::Usize => usize::MAX as int,
        FieldKind::U32 => u32::MAX as int,
        FieldKind::U16 => u16::MAX as int,
        FieldKind::U8 => u8::MAX as int,
        _ => 0,
    }
}

/// What keeps the member `key` of `opts` from being read as `kind`, if
/// anything does.
pub open spec fn field_problem(opts: Json, key: Seq<char>, kind: FieldKind) -> Option<
    FieldProblem,
> {
    match kind {
        FieldKind::Str => if str_field(opts, key) is Some {
            None
        } else {
            Some(FieldProblem::Missing)
        },
        FieldKind::Bool => if bool_field(opts, key) is Some {
            None
        } else {
            Some(FieldProblem::Missing)
        },
        _ => match u64_field(opts, key) {
            None => Some(FieldProblem::Missing),
            Some(v) => if v <= kind_max(kind) {
                None
            } else {
                Some(FieldProblem::OutOfRange)
            },
        },
    }
}

/// A field of an option record: its key and the type it is read as.
#[derive(Debug, Clone, Copy)]
pub struct FieldSpec {
    pub key: &'static str,
    pub kind: FieldKind,
}

/// The field of an option record that could not be read, and why.
#[derive(Debug, Clone, PartialEq)]
pub struct FieldError {
    pub key: String,
    pub kind: FieldKind,
    pub problem: FieldProblem,
}

/// Every field in `fields` before position `n` can be read.
pub open spec fn fields_readable(opts: Json, fields: Seq<FieldSpec>, n: int) -> bool {
    forall|i: int|
        0 <= i < n ==> #[trigger] field_problem(opts, fields[i].key@, fields[i].kind) is None
}

/// `e` names the first field of `fields` that cannot be read.
pub open spec fn is_first_error(opts: Json, fields: Seq<FieldSpec>, e: FieldError) -> bool {
    exists|i: int|
        0 <= i < fields.len() && fields_readable(opts, fields, i) && #[trigger] field_problem(
            opts,
            fields[i].key@,
            fields[i].kind,
        ) == Some(e.problem) && e.key@ == fields[i].key@ && e.kind == fields[i].kind
}

/// Checks one field.
pub fn check_field(opts: &Json, field: FieldSpec) -> (r: Option<FieldProblem>)
    ensures
        r == field_problem(*opts, field.key@, field.kind),
{
    match field.kind {
        FieldKind::Str => match opts.get(field.key) {
            Some(v) => match v.as_str() {
                Some(_) => None,
                None => Some(FieldProblem::Missing),
            },
            None => Some(FieldProblem::Missing),
        },
        FieldKind::Bool => match opts.get(field.key) {
            Some(v) => match v.as_bool() {
                Some(_) => None,
                None => Some(FieldProblem::Missing),
            },
            None => Some(FieldProblem::Missing),
        },
        _ => {
            let val = match opts.get(field.key) {
                Some(v) => v.as_u64(),
                None => None,
            };
            match val {
                None => Some(FieldProblem::Missing),
                Some(n) => {
                    let fits = match field.kind {
                        FieldKind::Usize => n as u128 <= usize::MAX as u128,
                        FieldKind::U32 => n <= u32::MAX as u64,
                        FieldKind::U16 => n <= u16::MAX as u64,
                        FieldKind::U8 => n <= u8::MAX as u64,
                        _ => true,
                    };
                    if fits {
                        None
                    } else {
                        Some(FieldProblem::OutOfRange)
                    }
                },
            }
        },
    }
}

/// Checks the fields in order and reports the first that cannot be read.
pub fn check_fields(opts: &Json, fields: &Vec<FieldSpec>) -> (r: Result<(), FieldError>)
    ensures
        match r {
            Ok(()) => fields_readable(*opts, fields@, fields@.len() as int),
            Err(e) => is_first_error(*opts, fields@, e),
        },
{
    let mut i: usize = 0;
    while i < fields.len()
        invariant
            i <= fields@.len(),
            fields_readable(*opts, fields@, i as int),
        decreases fields@.len() - i,
    {
        let field = fields[i];
        match check_field(opts, field) {
            Some(problem) => {
                let e = FieldError { key: String::from_str(field.key), kind: field.kind, problem };
                assert(field_problem(*opts, fields@[i as int].key@, fields@[i as int].kind) == Some(
                    problem,
                ));
                return Err(e);
            },
            None => {},
        }
        i = i + 1;
    }
    Ok(())
}

/// The word that names the type a field was expected to hold when it is
/// absent: integer fields are first read as `u64`.
pub open spec fn missing_word(kind: FieldKind) -> Seq<char> {
    match kind {
        FieldKind::Str => "string"@,
        FieldKind::Bool => "bool"@,
        _ => "u64"@,
    }
}

/// The name of an integer type.
pub open spec fn range_word(kind: FieldKind) -> Seq<char> {
    match kind {
        FieldKind::Usize => "usize"@,
        FieldKind::U32 => "u32"@,
        FieldKind::U16 => "u16"@,
        FieldKind::U8 => "u8"@,
        _ => "u64"@,
    }
}

/// The text that reports a field that cannot be read.
pub open spec fn field_error_text(key: Seq<char>, kind: FieldKind, problem: FieldProblem) -> Seq<
    char,
> {
    "[Arnelify Server]: NEON error: '"@ + key + "' "@ + match problem {
        FieldProblem::Missing => "missing or not a "@ + missing_word(kind),
        FieldProblem::OutOfRange => "out of "@ + range_word(kind) + " range"@,
    } + "."@
}

fn missing_word_str(kind: FieldKind) -> (s: &'static str)
    ensures
        s@ == missing_word(kind),
{
    match kind {
        FieldKind::Str => "string",
        FieldKind::Bool => "bool",
        _ => "u64",
    }
}

fn range_word_str(kind: FieldKind) -> (s: &'static str)
    ensures
        s@ == range_word(kind),
{
    match kind {
        FieldKind::Usize => "usize",
        FieldKind::U32 => "u32",
        FieldKind::U16 => "u16",
        FieldKind::U8 => "u8",
        _ => "u64",
    }
}

impl FieldError {
    /// The report of this error, as the binding words it.
    pub fn message(&self) -> (r: String)
        ensures
            r@ == field_error_text(self.key@, self.kind, self.problem),
    {
        let mut r = String::from_str("[Arnelify Server]: NEON error: '");
        r.append(self.key.as_str());
        r.append("' ");
        match self.problem {
            FieldProblem::Missing => {
                r.append("missing or not a ");
                r.append(missing_word_str(self.kind));
            },
            FieldProblem::OutOfRange => {
                r.append("out of ");
                r.append(range_word_str(self.kind));
                r.append(" range");
            },
        }
        r.append(".");
        r
    }
}

} // verus!
