//! The nodes of a syntax tree in a few words: what a node is, without
//! what stands below it.
use crate::ast::expression::{expression_view, expressions_view, Expression, ExpressionView};
use crate::ast::external::Extern;
use crate::ast::module::{Item, ItemView, Module};
use crate::ast::parameter::{Parameter, ParameterView};
use crate::ast::routinedef::{RoutineDef, RoutineDefType};
use crate::ast::statement::{Statement, StatementView};
use crate::ast::structdef::StructDef;
use crate::display::text::{decimal, decimal_text, signed, signed_text, then};
use crate::display::types::{
    binary_operator, binary_operator_text, name, name_text, path, path_text, routine_call,
    routine_call_text, type_text, unary_operator, unary_operator_text, write_type,
};
use crate::display::CompilerDisplayError;
use crate::stringtable::{StringId, StringTable};
use vstd::prelude::*;

verus! {

/// The text of a number with its type: `kind(digits)`.
pub open spec fn number_text(kind: Seq<char>, digits: Seq<char>) -> Seq<char> {
    kind + "("@ + digits + ")"@
}

/// What an expression is, in a few words: a literal with its type, a name,
/// the sign of an operator, the word for a construct.
pub open spec fn expression_root<C>(e: ExpressionView<C>, names: Seq<Seq<char>>) -> Option<
    Seq<char>,
>
    decreases e,
{
    match e {
        ExpressionView::U8(_, v) => Some(number_text("u8"@, decimal_text(v as nat))),
        ExpressionView::U16(_, v) => Some(number_text("u16"@, decimal_text(v as nat))),
        ExpressionView::U32(_, v) => Some(number_text("u32"@, decimal_text(v as nat))),
        ExpressionView::U64(_, v) => Some(number_text("u64"@, decimal_text(v as nat))),
        ExpressionView::I8(_, v) => Some(number_text("i8"@, signed_text(v as int))),
        ExpressionView::I16(_, v) => Some(number_text("i16"@, signed_text(v as int))),
        ExpressionView::I32(_, v) => Some(number_text("i32"@, signed_text(v as int))),
        ExpressionView::I64(_, v) => Some(number_text("i64"@, signed_text(v as int))),
        ExpressionView::Boolean(_, v) => Some(
            if v {
                "bool(true)"@
            } else {
                "bool(false)"@
            },
        ),
        ExpressionView::StringLiteral(_, v) => then(
            then(Some("\""@), name_text(v, names)),
            Some("\""@),
        ),
        ExpressionView::ArrayExpression(_, elements, _) => then(
            then(Some("["@), roots_text(elements, 0, Seq::empty(), names)),
            Some("]"@),
        ),
        ExpressionView::ArrayAt { array, index, .. } => then(
            then(then(expression_root(*array, names), Some("["@)), expression_root(*index, names)),
            Some("]"@),
        ),
        ExpressionView::CustomType(_, p) => path_text(p, names),
        ExpressionView::Identifier(_, id) => name_text(id, names),
        ExpressionView::Path(_, p) => path_text(p, names),
        ExpressionView::MemberAccess(_, src, member) => then(
            then(expression_root(*src, names), Some("."@)),
            name_text(member, names),
        ),
        ExpressionView::IdentifierDeclare(_, id, ty) => then(
            then(name_text(id, names), Some(":"@)),
            type_text(ty, names),
        ),
        ExpressionView::RoutineCall(_, call, target, _) => then(
            then(Some(routine_call_text(call)), Some(" "@)),
            path_text(target, names),
        ),
        ExpressionView::StructExpression(_, target, _) => then(
            Some("initialization for struct "@),
            path_text(target, names),
        ),
        ExpressionView::If { .. } => Some("if"@),
        ExpressionView::While { .. } => Some("while"@),
        ExpressionView::ExpressionBlock(..) => Some("expression block"@),
        ExpressionView::BinaryOp(_, op, _, _) => Some(binary_operator_text(op)),
        ExpressionView::UnaryOp(_, op, _) => Some(unary_operator_text(op)),
        ExpressionView::Yield(..) => Some("yield"@),
    }
}

/// What the expressions from position `i` on are, separated by commas,
/// behind the text `done`.
pub open spec fn roots_text<C>(
    es: Seq<ExpressionView<C>>,
    i: int,
    done: Seq<char>,
    names: Seq<Seq<char>>,
) -> Option<Seq<char>>
    decreases es, es.len() - i,
{
    if i < 0 || i >= es.len() {
        Some(done)
    } else {
        match expression_root(es[i], names) {
            None => None,
            Some(s) => roots_text(
                es,
                i + 1,
                if i > 0 {
                    done + ","@ + s
                } else {
                    done + s
                },
                names,
            ),
        }
    }
}

/// What a statement is, in a few words.
pub open spec fn statement_root<C>(s: StatementView<C>, names: Seq<Seq<char>>) -> Option<
    Seq<char>,
> {
    match s {
        StatementView::Bind { id, .. } => then(Some("bind "@), name_text(id, names)),
        StatementView::Mutate { id, .. } => then(Some("mut "@), name_text(id, names)),
        StatementView::Return { .. } => Some("return"@),
        StatementView::YieldReturn { .. } => Some("yret"@),
        StatementView::Expression(e) => expression_root(e, names),
    }
}

/// What a parameter or a field is: `name:type`.
pub open spec fn parameter_root<C>(p: ParameterView<C>, names: Seq<Seq<char>>) -> Option<
    Seq<char>,
> {
    then(then(name_text(p.name, names), Some(":"@)), type_text(p.ty, names))
}

/// The words for a kind of routine.
pub open spec fn routine_kind_text(def: RoutineDefType) -> Seq<char> {
    match def {
        RoutineDefType::Function => "function def "@,
        RoutineDefType::Coroutine => "coroutine def "@,
    }
}

/// What an item is: its kind and its name.
pub open spec fn item_root<C>(i: ItemView<C>, names: Seq<Seq<char>>) -> Option<Seq<char>> {
    match i {
        ItemView::Routine(r) => then(Some(routine_kind_text(r.def)), name_text(r.name, names)),
        ItemView::Struct(s) => then(Some("struct "@), name_text(s.name, names)),
        ItemView::Extern(e) => then(Some("extern "@), name_text(e.name, names)),
    }
}

/// The text of a number with its type: `kind(digits)`.
fn number(kind: &str, digits: String) -> (r: String)
    ensures
        r@ == number_text(kind@, digits@),
{
    let mut out = String::from_str(kind);
    out.append("(");
    out.append(digits.as_str());
    out.append(")");
    out
}

/// What the expressions are, separated by commas.
fn roots<M: View>(es: &Vec<Expression<M>>, st: &StringTable) -> (r: Result<
    String,
    CompilerDisplayError,
>)
    ensures
        match r {
            Ok(s) => roots_text(expressions_view(*es), 0, Seq::empty(), st@) == Some(s@),
            Err(e) => roots_text(expressions_view(*es), 0, Seq::empty(), st@) is None && e
                == CompilerDisplayError::StringIdNotFound,
        },
    decreases es,
{
    let mut out = String::new();
    let mut i: usize = 0;
    while i < es.len()
        invariant
            i <= es@.len(),
            roots_text(expressions_view(*es), 0, Seq::empty(), st@) == roots_text(
                expressions_view(*es),
                i as int,
                out@,
                st@,
            ),
        decreases es@.len() - i,
    {
        if i > 0 {
            out.append(",");
        }
        let s = es[i].root_str(st)?;
        out.append(s.as_str());
        i += 1;
    }
    Ok(out)
}

impl<M: View> Expression<M> {
    /// What the expression is, in a few words.
    pub fn root_str(&self, st: &StringTable) -> (r: Result<String, CompilerDisplayError>)
        ensures
            match r {
                Ok(s) => expression_root(self@, st@) == Some(s@),
                Err(e) => expression_root(self@, st@) is None && e
                    == CompilerDisplayError::StringIdNotFound,
            },
        decreases self,
    {
        match self {
            Expression::U8(_, v) => Ok(number("u8", decimal(*v as u64))),
            Expression::U16(_, v) => Ok(number("u16", decimal(*v as u64))),
            Expression::U32(_, v) => Ok(number("u32", decimal(*v as u64))),
            Expression::U64(_, v) => Ok(number("u64", decimal(*v))),
            Expression::I8(_, v) => Ok(number("i8", signed(*v as i64))),
            Expression::I16(_, v) => Ok(number("i16", signed(*v as i64))),
            Expression::I32(_, v) => Ok(number("i32", signed(*v as i64))),
            Expression::I64(_, v) => Ok(number("i64", signed(*v))),
            Expression::Boolean(_, v) => Ok(
                String::from_str(
                    if *v {
                        "bool(true)"
                    } else {
                        "bool(false)"
                    },
                ),
            ),
            Expression::StringLiteral(_, v) => {
                let mut out = String::from_str("\"");
                let s = name(*v, st)?;
                out.append(s.as_str());
                out.append("\"");
                Ok(out)
            },
            Expression::ArrayExpression(_, elements, _) => {
                let mut out = String::from_str("[");
                let s = roots(elements, st)?;
                out.append(s.as_str());
                out.append("]");
                Ok(out)
            },
            Expression::ArrayAt { array, index, .. } => {
                let mut out = array.root_str(st)?;
                out.append("[");
                let s = index.root_str(st)?;
                out.append(s.as_str());
                out.append("]");
                Ok(out)
            },
            Expression::CustomType(_, p) => path(p, st),
            Expression::Identifier(_, id) => name(*id, st),
            Expression::Path(_, p) => path(p, st),
            Expression::MemberAccess(_, src, member) => {
                let mut out = src.root_str(st)?;
                out.append(".");
                let s = name(*member, st)?;
                out.append(s.as_str());
                Ok(out)
            },
            Expression::IdentifierDeclare(_, id, ty) => {
                let mut out = name(*id, st)?;
                out.append(":");
                let s = write_type(ty, st)?;
                out.append(s.as_str());
                Ok(out)
            },
            Expression::RoutineCall(_, call, target, _) => {
                let mut out = String::from_str(routine_call(*call));
                out.append(" ");
                let s = path(target, st)?;
                out.append(s.as_str());
                Ok(out)
            },
            Expression::StructExpression(_, target, _) => {
                let mut out = String::from_str("initialization for struct ");
                let s = path(target, st)?;
                out.append(s.as_str());
                Ok(out)
            },
            Expression::If { .. } => Ok(String::from_str("if")),
            Expression::While { .. } => Ok(String::from_str("while")),
            Expression::ExpressionBlock(..) => Ok(String::from_str("expression block")),
            Expression::BinaryOp(_, op, _, _) => Ok(String::from_str(binary_operator(*op))),
            Expression::UnaryOp(_, op, _) => Ok(String::from_str(unary_operator(*op))),
            Expression::Yield(..) => Ok(String::from_str("yield")),
        }
    }
}

impl<M: View> Statement<M> {
    /// What the statement is, in a few words.
    pub fn root_str(&self, st: &StringTable) -> (r: Result<String, CompilerDisplayError>)
        ensures
            match r {
                Ok(s) => statement_root(self@, st@) == Some(s@),
                Err(e) => statement_root(self@, st@) is None && e
                    == CompilerDisplayError::StringIdNotFound,
            },
    {
        match self {
            Statement::Bind(b) => {
                let mut out = String::from_str("bind ");
                let s = name(b.id, st)?;
                out.append(s.as_str());
                Ok(out)
            },
            Statement::Mutate(m) => {
                let mut out = String::from_str("mut ");
                let s = name(m.id, st)?;
                out.append(s.as_str());
                Ok(out)
            },
            Statement::Return(_) => Ok(String::from_str("return")),
            Statement::YieldReturn(_) => Ok(String::from_str("yret")),
            Statement::Expression(e) => e.root_str(st),
        }
    }
}

impl<M: View> Parameter<M> {
    /// What the parameter is: `name:type`.
    pub fn root_str(&self, st: &StringTable) -> (r: Result<String, CompilerDisplayError>)
        ensures
            match r {
                Ok(s) => parameter_root(self@, st@) == Some(s@),
                Err(e) => parameter_root(self@, st@) is None && e
                    == CompilerDisplayError::StringIdNotFound,
            },
    {
        let mut out = name(self.name, st)?;
        out.append(":");
        let s = write_type(&self.ty, st)?;
        out.append(s.as_str());
        Ok(out)
    }
}

/// The text `kind` and the name.
fn named(kind: &str, id: StringId, st: &StringTable) -> (r: Result<String, CompilerDisplayError>)
    ensures
        match r {
            Ok(s) => then(Some(kind@), name_text(id, st@)) == Some(s@),
            Err(e) => name_text(id, st@) is None && e == CompilerDisplayError::StringIdNotFound,
        },
{
    let mut out = String::from_str(kind);
    let s = name(id, st)?;
    out.append(s.as_str());
    Ok(out)
}

impl<M: View> RoutineDef<M> {
    /// What the routine is: its kind and its name.
    pub fn root_str(&self, st: &StringTable) -> (r: Result<String, CompilerDisplayError>)
        ensures
            match r {
                Ok(s) => item_root(ItemView::Routine(self@), st@) == Some(s@),
                Err(e) => item_root(ItemView::Routine(self@), st@) is None && e
                    == CompilerDisplayError::StringIdNotFound,
            },
    {
        match self.def {
            RoutineDefType::Function => named("function def ", self.name, st),
            RoutineDefType::Coroutine => named("coroutine def ", self.name, st),
        }
    }
}

impl<M: View> StructDef<M> {
    /// What the structure is: the word `struct` and its name.
    pub fn root_str(&self, st: &StringTable) -> (r: Result<String, CompilerDisplayError>)
        ensures
            match r {
                Ok(s) => item_root(ItemView::Struct(self@), st@) == Some(s@),
                Err(e) => item_root(ItemView::Struct(self@), st@) is None && e
                    == CompilerDisplayError::StringIdNotFound,
            },
    {
        named("struct ", self.name, st)
    }
}

impl<M: View> Extern<M> {
    /// What the declaration is: the word `extern` and its name.
    pub fn root_str(&self, st: &StringTable) -> (r: Result<String, CompilerDisplayError>)
        ensures
            match r {
                Ok(s) => item_root(ItemView::Extern(self@), st@) == Some(s@),
                Err(e) => item_root(ItemView::Extern(self@), st@) is None && e
                    == CompilerDisplayError::StringIdNotFound,
            },
    {
        named("extern ", self.name, st)
    }
}

impl<M: View> Item<M> {
    /// What the item is: its kind and its name.
    pub fn root_str(&self, st: &StringTable) -> (r: Result<String, CompilerDisplayError>)
        ensures
            match r {
                Ok(s) => item_root(self@, st@) == Some(s@),
                Err(e) => item_root(self@, st@) is None && e
                    == CompilerDisplayError::StringIdNotFound,
            },
    {
        match self {
            Item::Routine(r) => r.root_str(st),
            Item::Struct(s) => s.root_str(st),
            Item::Extern(e) => e.root_str(st),
        }
    }
}

impl<M: View> Module<M> {
    /// What the module is: the word `module` and its name.
    pub fn root_str(&self, st: &StringTable) -> (r: Result<String, CompilerDisplayError>)
        ensures
            match r {
                Ok(s) => then(Some("module "@), name_text(self.name, st@)) == Some(s@),
                Err(e) => name_text(self.name, st@) is None && e
                    == CompilerDisplayError::StringIdNotFound,
            },
    {
        named("module ", self.name, st)
    }
}

} // verus!
