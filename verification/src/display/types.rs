//! Paths, types and operators as texts.
use crate::ast::expression::{BinaryOperator, RoutineCall, UnaryOperator};
use crate::ast::path::{Element, Path};
use crate::ast::ty::{fields_view, type_view, types_view, Type, TypeView};
use crate::display::text::{decimal, decimal_text, then};
use crate::display::{CompilerDisplay, CompilerDisplayError};
use crate::stringtable::{StringId, StringTable};
use vstd::prelude::*;

verus! {

/// The text of a name, where the names hold it.
pub open spec fn name_text(id: StringId, names: Seq<Seq<char>>) -> Option<Seq<char>> {
    if id.index() < names.len() {
        Some(names[id.index()])
    } else {
        None
    }
}

/// The text of a step of a path.
pub open spec fn element_text(e: Element, names: Seq<Seq<char>>) -> Option<Seq<char>> {
    match e {
        Element::FileRoot => Some("root"@),
        Element::CanonicalRoot => Some("project"@),
        Element::Selph => Some("self"@),
        Element::Super => Some("super"@),
        Element::Id(id) => name_text(id, names),
    }
}

/// The steps of a path from position `i` on, separated by `::`, behind
/// the text `done`.
pub open spec fn steps_text(steps: Seq<Element>, i: int, done: Seq<char>,
    names: Seq<Seq<char>>) -> Option<
    Seq<char>,
>
    decreases steps.len() - i,
{
    if i < 0 || i >= steps.len() {
        Some(done)
    } else {
        match element_text(steps[i], names) {
            None => None,
            Some(s) => steps_text(
                steps,
                i + 1,
                if i > 0 {
                    done + "::"@ + s
                } else {
                    done + s
                },
                names,
            ),
        }
    }
}

/// The text of a path: its steps, separated by `::`.
pub open spec fn path_text(steps: Seq<Element>, names: Seq<Seq<char>>) -> Option<Seq<char>> {
    steps_text(steps, 0, Seq::empty(), names)
}

/// The text of a type.
pub open spec fn type_text(t: TypeView, names: Seq<Seq<char>>) -> Option<Seq<char>>
    decreases t,
{
    match t {
        TypeView::U8 => Some("u8"@),
        TypeView::U16 => Some("u16"@),
        TypeView::U32 => Some("u32"@),
        TypeView::U64 => Some("u64"@),
        TypeView::I8 => Some("i8"@),
        TypeView::I16 => Some("i16"@),
        TypeView::I32 => Some("i32"@),
        TypeView::I64 => Some("i64"@),
        TypeView::Bool => Some("bool"@),
        TypeView::StringLiteral => Some("string"@),
        TypeView::Unit => Some("unit"@),
        TypeView::Unknown => Some("unknown"@),
        TypeView::Array(el, len) => then(
            then(then(then(Some("["@), type_text(*el, names)), Some("; "@)), Some(decimal_text(len))),
            Some("]"@),
        ),
        TypeView::Custom(path) => path_text(path, names),
        TypeView::StructDef(fields) => then(
            then(Some("StructDef("@), fields_text(fields, 0, Seq::empty(), names)),
            Some(")"@),
        ),
        TypeView::FunctionDef(params, ret) => then(
            then(
                then(Some("fn ("@), types_text(params, 0, Seq::empty(), names)),
                Some(") -> "@),
            ),
            type_text(*ret, names),
        ),
        TypeView::CoroutineDef(params, ret) => then(
            then(
                then(Some("co ("@), types_text(params, 0, Seq::empty(), names)),
                Some(") -> "@),
            ),
            type_text(*ret, names),
        ),
        TypeView::Coroutine(ret) => then(then(Some("co<"@), type_text(*ret, names)), Some(">"@)),
        TypeView::ExternDecl(params, has_varargs, ret) => then(
            then(
                then(
                    then(Some("extern fn ("@), types_text(params, 0, Seq::empty(), names)),
                    Some(
                        if has_varargs {
                            ", ..."@
                        } else {
                            ""@
                        },
                    ),
                ),
                Some(") -> "@),
            ),
            type_text(*ret, names),
        ),
    }
}

/// The types from position `i` on, separated by commas, behind the text
/// `done`.
pub open spec fn types_text(ts: Seq<TypeView>, i: int, done: Seq<char>,
    names: Seq<Seq<char>>) -> Option<
    Seq<char>,
>
    decreases ts, ts.len() - i,
{
    if i < 0 || i >= ts.len() {
        Some(done)
    } else {
        match type_text(ts[i], names) {
            None => None,
            Some(s) => types_text(
                ts,
                i + 1,
                if i > 0 {
                    done + ","@ + s
                } else {
                    done + s
                },
                names,
            ),
        }
    }
}

/// The fields from position `i` on, each as `name: type`, separated by
/// commas, behind the text `done`.
pub open spec fn fields_text(
    fields: Seq<(StringId, TypeView)>,
    i: int,
    done: Seq<char>,
    names: Seq<Seq<char>>,
) -> Option<Seq<char>>
    decreases fields, fields.len() - i,
{
    if i < 0 || i >= fields.len() {
        Some(done)
    } else {
        match then(then(name_text(fields[i].0, names), Some(": "@)), type_text(fields[i].1, names)) {
            None => None,
            Some(s) => fields_text(
                fields,
                i + 1,
                if i > 0 {
                    done + ","@ + s
                } else {
                    done + s
                },
                names,
            ),
        }
    }
}

/// The sign of a binary operator.
pub open spec fn binary_operator_text(op: BinaryOperator) -> Seq<char> {
    match op {
        BinaryOperator::Add => "+"@,
        BinaryOperator::Sub => "-"@,
        BinaryOperator::Mul => "*"@,
        BinaryOperator::Div => "/"@,
        BinaryOperator::BAnd => "&&"@,
        BinaryOperator::BOr => "||"@,
        BinaryOperator::Eq => "=="@,
        BinaryOperator::NEq => "!="@,
        BinaryOperator::Ls => "<"@,
        BinaryOperator::LsEq => "<="@,
        BinaryOperator::Gr => ">"@,
        BinaryOperator::GrEq => ">="@,
    }
}

/// The sign of a unary operator.
pub open spec fn unary_operator_text(op: UnaryOperator) -> Seq<char> {
    match op {
        UnaryOperator::Negate => "-"@,
        UnaryOperator::Not => "!"@,
    }
}

/// The word for a way to enter a routine.
pub open spec fn routine_call_text(call: RoutineCall) -> Seq<char> {
    match call {
        RoutineCall::Function => "call"@,
        RoutineCall::CoroutineInit => "init"@,
        RoutineCall::Extern => "extern call"@,
    }
}

/// The sign of a binary operator.
pub fn binary_operator(op: BinaryOperator) -> (r: &'static str)
    ensures
        r@ == binary_operator_text(op),
{
    match op {
        BinaryOperator::Add => "+",
        BinaryOperator::Sub => "-",
        BinaryOperator::Mul => "*",
        BinaryOperator::Div => "/",
        BinaryOperator::BAnd => "&&",
        BinaryOperator::BOr => "||",
        BinaryOperator::Eq => "==",
        BinaryOperator::NEq => "!=",
        BinaryOperator::Ls => "<",
        BinaryOperator::LsEq => "<=",
        BinaryOperator::Gr => ">",
        BinaryOperator::GrEq => ">=",
    }
}

/// The sign of a unary operator.
pub fn unary_operator(op: UnaryOperator) -> (r: &'static str)
    ensures
        r@ == unary_operator_text(op),
{
    match op {
        UnaryOperator::Negate => "-",
        UnaryOperator::Not => "!",
    }
}

/// The word for a way to enter a routine.
pub fn routine_call(call: RoutineCall) -> (r: &'static str)
    ensures
        r@ == routine_call_text(call),
{
    match call {
        RoutineCall::Function => "call",
        RoutineCall::CoroutineInit => "init",
        RoutineCall::Extern => "extern call",
    }
}

/// The text of a name.
pub fn name(id: StringId, st: &StringTable) -> (r: Result<String, CompilerDisplayError>)
    ensures
        match r {
            Ok(s) => name_text(id, st@) == Some(s@),
            Err(e) => name_text(id, st@) is None && e == CompilerDisplayError::StringIdNotFound,
        },
{
    id.fmt(st)
}

/// The text of a path.
pub fn path(p: &Path, st: &StringTable) -> (r: Result<String, CompilerDisplayError>)
    ensures
        match r {
            Ok(s) => path_text(p@, st@) == Some(s@),
            Err(e) => path_text(p@, st@) is None && e == CompilerDisplayError::StringIdNotFound,
        },
{
    let mut out = String::new();
    let mut i: usize = 0;
    while i < p.len()
        invariant
            i <= p@.len(),
            path_text(p@, st@) == steps_text(p@, i as int, out@, st@),
        decreases p@.len() - i,
    {
        if i > 0 {
            out.append("::");
        }
        match p.get(i) {
            Some(Element::FileRoot) => out.append("root"),
            Some(Element::CanonicalRoot) => out.append("project"),
            Some(Element::Selph) => out.append("self"),
            Some(Element::Super) => out.append("super"),
            Some(Element::Id(id)) => {
                let s = name(id, st)?;
                out.append(s.as_str());
            },
            None => {},
        }
        i += 1;
    }
    Ok(out)
}

/// The text of a type.
pub fn write_type(t: &Type, st: &StringTable) -> (r: Result<String, CompilerDisplayError>)
    ensures
        match r {
            Ok(s) => type_text(t@, st@) == Some(s@),
            Err(e) => type_text(t@, st@) is None && e == CompilerDisplayError::StringIdNotFound,
        },
    decreases t,
{
    match t {
        Type::U8 => Ok(String::from_str("u8")),
        Type::U16 => Ok(String::from_str("u16")),
        Type::U32 => Ok(String::from_str("u32")),
        Type::U64 => Ok(String::from_str("u64")),
        Type::I8 => Ok(String::from_str("i8")),
        Type::I16 => Ok(String::from_str("i16")),
        Type::I32 => Ok(String::from_str("i32")),
        Type::I64 => Ok(String::from_str("i64")),
        Type::Bool => Ok(String::from_str("bool")),
        Type::StringLiteral => Ok(String::from_str("string")),
        Type::Unit => Ok(String::from_str("unit")),
        Type::Unknown => Ok(String::from_str("unknown")),
        Type::Array(el, len) => {
            let mut out = String::from_str("[");
            let s = write_type(el, st)?;
            out.append(s.as_str());
            out.append("; ");
            let n = decimal(*len as u64);
            out.append(n.as_str());
            out.append("]");
            Ok(out)
        },
        Type::Custom(p) => path(p, st),
        Type::StructDef(fields) => {
            let mut out = String::from_str("StructDef(");
            let s = write_fields(fields, st)?;
            out.append(s.as_str());
            out.append(")");
            Ok(out)
        },
        Type::FunctionDef(params, ret) => {
            let mut out = String::from_str("fn (");
            let s = write_types(params, st)?;
            out.append(s.as_str());
            out.append(") -> ");
            let s = write_type(ret, st)?;
            out.append(s.as_str());
            Ok(out)
        },
        Type::CoroutineDef(params, ret) => {
            let mut out = String::from_str("co (");
            let s = write_types(params, st)?;
            out.append(s.as_str());
            out.append(") -> ");
            let s = write_type(ret, st)?;
            out.append(s.as_str());
            Ok(out)
        },
        Type::Coroutine(ret) => {
            let mut out = String::from_str("co<");
            let s = write_type(ret, st)?;
            out.append(s.as_str());
            out.append(">");
            Ok(out)
        },
        Type::ExternDecl(params, has_varargs, ret) => {
            let mut out = String::from_str("extern fn (");
            let s = write_types(params, st)?;
            out.append(s.as_str());
            if *has_varargs {
                out.append(", ...");
            } else {
                out.append("");
            }
            out.append(") -> ");
            let s = write_type(ret, st)?;
            out.append(s.as_str());
            Ok(out)
        },
    }
}

/// The texts of the types, separated by commas.
pub fn write_types(ts: &Vec<Type>, st: &StringTable) -> (r: Result<String, CompilerDisplayError>)
    ensures
        match r {
            Ok(s) => types_text(types_view(*ts), 0, Seq::empty(), st@) == Some(s@),
            Err(e) => types_text(types_view(*ts), 0, Seq::empty(), st@) is None && e
                == CompilerDisplayError::StringIdNotFound,
        },
    decreases ts,
{
    let mut out = String::new();
    let mut i: usize = 0;
    while i < ts.len()
        invariant
            i <= ts@.len(),
            types_text(types_view(*ts), 0, Seq::empty(), st@) == types_text(
                types_view(*ts),
                i as int,
                out@,
                st@,
            ),
        decreases ts@.len() - i,
    {
        if i > 0 {
            out.append(",");
        }
        let s = write_type(&ts[i], st)?;
        out.append(s.as_str());
        i += 1;
    }
    Ok(out)
}

/// The texts of the fields, each as `name: type`, separated by commas.
pub fn write_fields(fields: &Vec<(StringId, Type)>, st: &StringTable) -> (r: Result<
    String,
    CompilerDisplayError,
>)
    ensures
        match r {
            Ok(s) => fields_text(fields_view(*fields), 0, Seq::empty(), st@) == Some(s@),
            Err(e) => fields_text(fields_view(*fields), 0, Seq::empty(), st@) is None && e
                == CompilerDisplayError::StringIdNotFound,
        },
    decreases fields,
{
    let mut out = String::new();
    let mut i: usize = 0;
    while i < fields.len()
        invariant
            i <= fields@.len(),
            fields_text(fields_view(*fields), 0, Seq::empty(), st@) == fields_text(
                fields_view(*fields),
                i as int,
                out@,
                st@,
            ),
        decreases fields@.len() - i,
    {
        let mut field = name(fields[i].0, st)?;
        field.append(": ");
        let s = write_type(&fields[i].1, st)?;
        field.append(s.as_str());
        if i > 0 {
            out.append(",");
        }
        out.append(field.as_str());
        i += 1;
    }
    Ok(out)
}

impl CompilerDisplay for Path {
    open spec fn rendered(&self, names: Seq<Seq<char>>) -> Option<Seq<char>> {
        path_text(self@, names)
    }

    fn fmt(&self, st: &StringTable) -> (r: Result<String, CompilerDisplayError>) {
        path(self, st)
    }
}

impl CompilerDisplay for Type {
    open spec fn rendered(&self, names: Seq<Seq<char>>) -> Option<Seq<char>> {
        type_text(self@, names)
    }

    fn fmt(&self, st: &StringTable) -> (r: Result<String, CompilerDisplayError>) {
        write_type(self, st)
    }
}

} // verus!
