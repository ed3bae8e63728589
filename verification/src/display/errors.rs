//! The errors of the compiler as messages.
use crate::ast::expression::{BinaryOperator, RoutineCall, UnaryOperator};
use crate::ast::path::Path;
use crate::ast::ty::{Type, TypeView};
use crate::display::text::{decimal, decimal_text, then};
use crate::display::tokens::{
    lex_text, optional_lex_text, optional_token_text, write_lex, write_optional_lex,
    write_optional_token,
};
use crate::display::types::{
    binary_operator, binary_operator_text, name, name_text, path, path_text, routine_call,
    routine_call_text, type_text, unary_operator, unary_operator_text, write_type,
};
use crate::display::{CompilerDisplay, CompilerDisplayError};
use crate::lexer::error::LexerError;
use crate::lexer::tokens::{Lex, Token};
use crate::parser::error::ParserError;
use crate::semantics::error::{mismatches_view, SemanticError, SemanticErrorView};
use crate::stringtable::{StringId, StringTable};
use vstd::prelude::*;

verus! {

/// The text of one character.
fn one_char(c: char) -> (r: String)
    ensures
        r@ == seq![c],
{
    let mut out = String::new();
    out.push(c);
    assert(out@ =~= seq![c]);
    out
}

/// The text of an argument of another type than its parameter.
pub open spec fn mismatch_text(m: (usize, TypeView, TypeView), names: Seq<Seq<char>>) -> Option<
    Seq<char>,
> {
    then(
        then(
            then(
                then(Some("parameter "@), Some(decimal_text(m.0 as nat))),
                Some(" expected "@),
            ),
            type_text(m.1, names),
        ),
        then(Some(" but got "@), type_text(m.2, names)),
    )
}

/// The texts of the mismatches from position `i` on, separated by commas,
/// behind the text `done`.
pub open spec fn mismatches_text(
    ms: Seq<(usize, TypeView, TypeView)>,
    i: int,
    done: Seq<char>,
    names: Seq<Seq<char>>,
) -> Option<Seq<char>>
    decreases ms.len() - i,
{
    if i < 0 || i >= ms.len() {
        Some(done)
    } else {
        match mismatch_text(ms[i], names) {
            None => None,
            Some(s) => mismatches_text(
                ms,
                i + 1,
                if i > 0 {
                    done + ", "@ + s
                } else {
                    done + s
                },
                names,
            ),
        }
    }
}

/// The texts of the mismatches, separated by commas.
fn write_mismatches(ms: &Vec<(usize, Type, Type)>, st: &StringTable) -> (r: Result<
    String,
    CompilerDisplayError,
>)
    ensures
        match r {
            Ok(s) => mismatches_text(mismatches_view(*ms), 0, Seq::empty(), st@) == Some(s@),
            Err(e) => mismatches_text(mismatches_view(*ms), 0, Seq::empty(), st@) is None && e
                == CompilerDisplayError::StringIdNotFound,
        },
{
    let mut out = String::new();
    let mut i: usize = 0;
    while i < ms.len()
        invariant
            i <= ms@.len(),
            mismatches_text(mismatches_view(*ms), 0, Seq::empty(), st@) == mismatches_text(
                mismatches_view(*ms),
                i as int,
                out@,
                st@,
            ),
        decreases ms@.len() - i,
    {
        let mut one = String::from_str("parameter ");
        let n = decimal(ms[i].0 as u64);
        one.append(n.as_str());
        one.append(" expected ");
        let expected = write_type(&ms[i].1, st)?;
        one.append(expected.as_str());
        let mut got = String::from_str(" but got ");
        let actual = write_type(&ms[i].2, st)?;
        got.append(actual.as_str());
        one.append(got.as_str());
        if i > 0 {
            out.append(", ");
        }
        out.append(one.as_str());
        i += 1;
    }
    Ok(out)
}

/// The message of the error, where the names hold every name in it.
pub open spec fn semantic_error_text(e: SemanticErrorView, names: Seq<Seq<char>>) -> Option<
    Seq<char>,
> {
    match e {
        SemanticErrorView::NotVariable(a) => then(name_text(a, names), Some(" is not a variable"@)),
        SemanticErrorView::NotRoutine(a) => then(name_text(a, names), Some(" is not a routine"@)),
        SemanticErrorView::NotCoroutine(a) => then(
            name_text(a, names),
            Some(" is not a coroutine"@),
        ),
        SemanticErrorView::MultipleDefs(a) => then(
            path_text(a, names),
            Some(" is defined multiple times"@),
        ),
        SemanticErrorView::PathNotFound(a, b) => then(
            then(
                then(
                    then(Some("Could not find item with the given path: "@), path_text(a, names)),
                    Some(" ("@),
                ),
                path_text(b, names),
            ),
            Some(")"@),
        ),
        SemanticErrorView::PathNotValid => Some("Path is not valid"@),
        SemanticErrorView::NotDefined(a) => then(name_text(a, names), Some(" is not defined"@)),
        SemanticErrorView::EmptyPath => Some("Empty path"@),
        SemanticErrorView::ArrayInvalidSize(a) => then(
            Some("Expected length > 0 for array, but found "@),
            Some(decimal_text(a as nat)),
        ),
        SemanticErrorView::ArrayInconsistentElementTypes => Some(
            "Inconsistent types in array value"@,
        ),
        SemanticErrorView::ArrayIndexingInvalidType(a) => then(
            Some("Expected array type on LHS of [] but found "@),
            type_text(a, names),
        ),
        SemanticErrorView::ArrayIndexingInvalidIndexType(a) => then(
            Some("Expected integral type for index but found "@),
            type_text(a, names),
        ),
        SemanticErrorView::AlreadyDeclared(a) => then(
            name_text(a, names),
            Some(" already declared"@),
        ),
        SemanticErrorView::PathTooSuper => Some("Path too super"@),
        SemanticErrorView::BindExpected(a, b) => then(
            then(then(Some("Bind expected "@), type_text(a, names)), Some(" but got "@)),
            type_text(b, names),
        ),
        SemanticErrorView::VariableNotMutable(a) => then(
            then(Some("Variable "@), name_text(a, names)),
            Some(" is not mutable"@),
        ),
        SemanticErrorView::BindMismatch(a, b, c) => then(
            then(
                then(then(name_text(a, names), Some(" is of type "@)), type_text(b, names)),
                Some(" but is assigned "@),
            ),
            type_text(c, names),
        ),
        SemanticErrorView::YieldExpected(a, b) => then(
            then(then(Some("Yield return expected "@), type_text(a, names)), Some(" but got "@)),
            type_text(b, names),
        ),
        SemanticErrorView::YieldInvalidLocation => Some("yield must be at end of function"@),
        SemanticErrorView::ReturnExpected(a, b) => then(
            then(then(Some("Return expected "@), type_text(a, names)), Some(" but got "@)),
            type_text(b, names),
        ),
        SemanticErrorView::ReturnInvalidLocation => Some("return invalid loc"@),
        SemanticErrorView::MemberAccessInvalidRootType(a) => then(
            Some("Member access invalid root type: "@),
            type_text(a, names),
        ),
        SemanticErrorView::MemberAccessMemberNotFound(a, b) => then(
            then(path_text(a, names), Some(" does not have member "@)),
            name_text(b, names),
        ),
        SemanticErrorView::IfExprMismatchArms(a, b) => then(
            then(
                then(Some("If expression has mismatching arms: expected "@), type_text(a, names)),
                Some(" got "@),
            ),
            type_text(b, names),
        ),
        SemanticErrorView::CondExpectedBool(a) => then(
            Some("Expected boolean expression in if conditional, got: "@),
            type_text(a, names),
        ),
        SemanticErrorView::WhileInvalidType(a) => then(
            Some("The body of a while expression must resolve to the unit type, but got: "@),
            type_text(a, names),
        ),
        SemanticErrorView::WhileCondInvalidType(a) => then(
            Some("The condition of a while expression must resolve to the bool type, but got: "@),
            type_text(a, names),
        ),
        SemanticErrorView::YieldInvalidType(a) => then(
            Some("Yield expects co<_> but got "@),
            type_text(a, names),
        ),
        SemanticErrorView::RoutineCallWrongNumParams(a, b, c) => then(
            then(
                then(
                    then(
                        then(
                            Some("Incorrect number of parameters passed to routine: "@),
                            path_text(a, names),
                        ),
                        Some(". Expected "@),
                    ),
                    Some(decimal_text(b as nat)),
                ),
                Some(" but got "@),
            ),
            Some(decimal_text(c as nat)),
        ),
        SemanticErrorView::FunctionParamsNotEnough(a, b, c) => then(
            then(
                then(
                    then(
                        then(Some("Function "@), path_text(a, names)),
                        Some(" expects at least "@),
                    ),
                    Some(decimal_text(b as nat)),
                ),
                Some(" parameters, but got "@),
            ),
            Some(decimal_text(c as nat)),
        ),
        SemanticErrorView::StructExprWrongNumParams(a, b) => then(
            then(
                then(Some("Struct expected "@), Some(decimal_text(a as nat))),
                Some(" parameters but found "@),
            ),
            Some(decimal_text(b as nat)),
        ),
        SemanticErrorView::StructExprMemberNotFound(a, b) => then(
            then(then(Some("member "@), name_text(b, names)), Some(" not found on "@)),
            path_text(a, names),
        ),
        SemanticErrorView::StructExprFieldTypeMismatch(a, b, c, d) => then(
            then(
                then(
                    then(
                        then(then(path_text(a, names), Some("."@)), name_text(b, names)),
                        Some(" expects "@),
                    ),
                    type_text(c, names),
                ),
                Some(" but got "@),
            ),
            type_text(d, names),
        ),
        SemanticErrorView::ExpectedSignedInteger(a, b) => then(
            then(Some(unary_operator_text(a)), Some(" expected a signed integer but found "@)),
            type_text(b, names),
        ),
        SemanticErrorView::ExpectedBool(a, b) => then(
            then(Some(unary_operator_text(a)), Some(" expected bool but found "@)),
            type_text(b, names),
        ),
        SemanticErrorView::OpExpected(a, b, c, d) => then(
            then(
                then(
                    then(
                        then(
                            then(Some(binary_operator_text(a)), Some(" expected "@)),
                            type_text(b, names),
                        ),
                        Some(" but found "@),
                    ),
                    type_text(c, names),
                ),
                Some(" and "@),
            ),
            type_text(d, names),
        ),
        SemanticErrorView::RoutineParamTypeMismatch(a, b) => then(
            then(
                then(
                    Some("One or more parameters have mismatching types for function "@),
                    path_text(a, names),
                ),
                Some(": "@),
            ),
            mismatches_text(b, 0, Seq::empty(), names),
        ),
        SemanticErrorView::MainFnInvalidType => Some(
            "my_main must be a function of type () -> i64"@,
        ),
        SemanticErrorView::MainFnInvalidParams => Some(
            "my_main must take no parameters. It must be of type () -> i64"@,
        ),
        SemanticErrorView::InvalidStructure => Some("Not a valid structure definition"@),
        SemanticErrorView::InvalidIdentifierType(a) => then(
            type_text(a, names),
            Some(" is not a structure"@),
        ),
        SemanticErrorView::RoutineCallInvalidTarget(a, b, c) => then(
            then(
                then(
                    then(then(Some("Expected "@), Some(routine_call_text(a))), Some(" but "@)),
                    path_text(b, names),
                ),
                Some(" is a "@),
            ),
            type_text(c, names),
        ),
    }
}

fn write_not_variable(a: &StringId, st: &StringTable) -> (r: Result<String, CompilerDisplayError>)
    ensures
        match r {
            Ok(s) => semantic_error_text(SemanticErrorView::NotVariable(*a), st@) == Some(s@),
            Err(e) => semantic_error_text(SemanticErrorView::NotVariable(*a), st@) is None && e
                == CompilerDisplayError::StringIdNotFound,
        },
{
    let mut out = name(*a, st)?;
    out.append(" is not a variable");
    Ok(out)
}

fn write_not_routine(a: &StringId, st: &StringTable) -> (r: Result<String, CompilerDisplayError>)
    ensures
        match r {
            Ok(s) => semantic_error_text(SemanticErrorView::NotRoutine(*a), st@) == Some(s@),
            Err(e) => semantic_error_text(SemanticErrorView::NotRoutine(*a), st@) is None && e
                == CompilerDisplayError::StringIdNotFound,
        },
{
    let mut out = name(*a, st)?;
    out.append(" is not a routine");
    Ok(out)
}

fn write_not_coroutine(a: &StringId, st: &StringTable) -> (r: Result<String, CompilerDisplayError>)
    ensures
        match r {
            Ok(s) => semantic_error_text(SemanticErrorView::NotCoroutine(*a), st@) == Some(s@),
            Err(e) => semantic_error_text(SemanticErrorView::NotCoroutine(*a), st@) is None && e
                == CompilerDisplayError::StringIdNotFound,
        },
{
    let mut out = name(*a, st)?;
    out.append(" is not a coroutine");
    Ok(out)
}

fn write_multiple_defs(a: &Path, st: &StringTable) -> (r: Result<String, CompilerDisplayError>)
    ensures
        match r {
            Ok(s) => semantic_error_text(SemanticErrorView::MultipleDefs(a@), st@) == Some(s@),
            Err(e) => semantic_error_text(SemanticErrorView::MultipleDefs(a@), st@) is None && e
                == CompilerDisplayError::StringIdNotFound,
        },
{
    let mut out = path(a, st)?;
    out.append(" is defined multiple times");
    Ok(out)
}

fn write_path_not_found(
    a: &Path,
    b: &Path,
    st: &StringTable,
) -> (r: Result<String, CompilerDisplayError>)
    ensures
        match r {
            Ok(s) => semantic_error_text(SemanticErrorView::PathNotFound(a@, b@), st@) == Some(s@),
            Err(e) => semantic_error_text(SemanticErrorView::PathNotFound(a@, b@), st@) is None && e
                == CompilerDisplayError::StringIdNotFound,
        },
{
    let mut out = String::from_str("Could not find item with the given path: ");
    let s = path(a, st)?;
    out.append(s.as_str());
    out.append(" (");
    let s = path(b, st)?;
    out.append(s.as_str());
    out.append(")");
    Ok(out)
}

fn write_not_defined(a: &StringId, st: &StringTable) -> (r: Result<String, CompilerDisplayError>)
    ensures
        match r {
            Ok(s) => semantic_error_text(SemanticErrorView::NotDefined(*a), st@) == Some(s@),
            Err(e) => semantic_error_text(SemanticErrorView::NotDefined(*a), st@) is None && e
                == CompilerDisplayError::StringIdNotFound,
        },
{
    let mut out = name(*a, st)?;
    out.append(" is not defined");
    Ok(out)
}

fn write_array_invalid_size(
    a: &usize,
    st: &StringTable,
) -> (r: Result<String, CompilerDisplayError>)
    ensures
        match r {
            Ok(s) => semantic_error_text(SemanticErrorView::ArrayInvalidSize(*a), st@) == Some(s@),
            Err(e) => semantic_error_text(SemanticErrorView::ArrayInvalidSize(*a), st@) is None && e
                == CompilerDisplayError::StringIdNotFound,
        },
{
    let mut out = String::from_str("Expected length > 0 for array, but found ");
    let s = decimal(*a as u64);
    out.append(s.as_str());
    Ok(out)
}

fn write_array_indexing_invalid_type(
    a: &Type,
    st: &StringTable,
) -> (r: Result<String, CompilerDisplayError>)
    ensures
        match r {
            Ok(s) => semantic_error_text(
                SemanticErrorView::ArrayIndexingInvalidType(a@),
                st@,
            ) == Some(s@),
            Err(e) => semantic_error_text(
                SemanticErrorView::ArrayIndexingInvalidType(a@),
                st@,
            ) is None && e == CompilerDisplayError::StringIdNotFound,
        },
{
    let mut out = String::from_str("Expected array type on LHS of [] but found ");
    let s = write_type(a, st)?;
    out.append(s.as_str());
    Ok(out)
}

fn write_array_indexing_invalid_index_type(
    a: &Type,
    st: &StringTable,
) -> (r: Result<String, CompilerDisplayError>)
    ensures
        match r {
            Ok(s) => semantic_error_text(
                SemanticErrorView::ArrayIndexingInvalidIndexType(a@),
                st@,
            ) == Some(s@),
            Err(e) => semantic_error_text(
                SemanticErrorView::ArrayIndexingInvalidIndexType(a@),
                st@,
            ) is None && e == CompilerDisplayError::StringIdNotFound,
        },
{
    let mut out = String::from_str("Expected integral type for index but found ");
    let s = write_type(a, st)?;
    out.append(s.as_str());
    Ok(out)
}

fn write_already_declared(
    a: &StringId,
    st: &StringTable,
) -> (r: Result<String, CompilerDisplayError>)
    ensures
        match r {
            Ok(s) => semantic_error_text(SemanticErrorView::AlreadyDeclared(*a), st@) == Some(s@),
            Err(e) => semantic_error_text(SemanticErrorView::AlreadyDeclared(*a), st@) is None && e
                == CompilerDisplayError::StringIdNotFound,
        },
{
    let mut out = name(*a, st)?;
    out.append(" already declared");
    Ok(out)
}

fn write_bind_expected(
    a: &Type,
    b: &Type,
    st: &StringTable,
) -> (r: Result<String, CompilerDisplayError>)
    ensures
        match r {
            Ok(s) => semantic_error_text(SemanticErrorView::BindExpected(a@, b@), st@) == Some(s@),
            Err(e) => semantic_error_text(SemanticErrorView::BindExpected(a@, b@), st@) is None && e
                == CompilerDisplayError::StringIdNotFound,
        },
{
    let mut out = String::from_str("Bind expected ");
    let s = write_type(a, st)?;
    out.append(s.as_str());
    out.append(" but got ");
    let s = write_type(b, st)?;
    out.append(s.as_str());
    Ok(out)
}

fn write_variable_not_mutable(
    a: &StringId,
    st: &StringTable,
) -> (r: Result<String, CompilerDisplayError>)
    ensures
        match r {
            Ok(s) => semantic_error_text(
                SemanticErrorView::VariableNotMutable(*a),
                st@,
            ) == Some(s@),
            Err(e) => semantic_error_text(
                SemanticErrorView::VariableNotMutable(*a),
                st@,
            ) is None && e == CompilerDisplayError::StringIdNotFound,
        },
{
    let mut out = String::from_str("Variable ");
    let s = name(*a, st)?;
    out.append(s.as_str());
    out.append(" is not mutable");
    Ok(out)
}

fn write_bind_mismatch(
    a: &StringId,
    b: &Type,
    c: &Type,
    st: &StringTable,
) -> (r: Result<String, CompilerDisplayError>)
    ensures
        match r {
            Ok(s) => semantic_error_text(
                SemanticErrorView::BindMismatch(*a, b@, c@),
                st@,
            ) == Some(s@),
            Err(e) => semantic_error_text(
                SemanticErrorView::BindMismatch(*a, b@, c@),
                st@,
            ) is None && e == CompilerDisplayError::StringIdNotFound,
        },
{
    let mut out = name(*a, st)?;
    out.append(" is of type ");
    let s = write_type(b, st)?;
    out.append(s.as_str());
    out.append(" but is assigned ");
    let s = write_type(c, st)?;
    out.append(s.as_str());
    Ok(out)
}

fn write_yield_expected(
    a: &Type,
    b: &Type,
    st: &StringTable,
) -> (r: Result<String, CompilerDisplayError>)
    ensures
        match r {
            Ok(s) => semantic_error_text(
                SemanticErrorView::YieldExpected(a@, b@),
                st@,
            ) == Some(s@),
            Err(e) => semantic_error_text(
                SemanticErrorView::YieldExpected(a@, b@),
                st@,
            ) is None && e == CompilerDisplayError::StringIdNotFound,
        },
{
    let mut out = String::from_str("Yield return expected ");
    let s = write_type(a, st)?;
    out.append(s.as_str());
    out.append(" but got ");
    let s = write_type(b, st)?;
    out.append(s.as_str());
    Ok(out)
}

fn write_return_expected(
    a: &Type,
    b: &Type,
    st: &StringTable,
) -> (r: Result<String, CompilerDisplayError>)
    ensures
        match r {
            Ok(s) => semantic_error_text(
                SemanticErrorView::ReturnExpected(a@, b@),
                st@,
            ) == Some(s@),
            Err(e) => semantic_error_text(
                SemanticErrorView::ReturnExpected(a@, b@),
                st@,
            ) is None && e == CompilerDisplayError::StringIdNotFound,
        },
{
    let mut out = String::from_str("Return expected ");
    let s = write_type(a, st)?;
    out.append(s.as_str());
    out.append(" but got ");
    let s = write_type(b, st)?;
    out.append(s.as_str());
    Ok(out)
}

fn write_member_access_invalid_root_type(
    a: &Type,
    st: &StringTable,
) -> (r: Result<String, CompilerDisplayError>)
    ensures
        match r {
            Ok(s) => semantic_error_text(
                SemanticErrorView::MemberAccessInvalidRootType(a@),
                st@,
            ) == Some(s@),
            Err(e) => semantic_error_text(
                SemanticErrorView::MemberAccessInvalidRootType(a@),
                st@,
            ) is None && e == CompilerDisplayError::StringIdNotFound,
        },
{
    let mut out = String::from_str("Member access invalid root type: ");
    let s = write_type(a, st)?;
    out.append(s.as_str());
    Ok(out)
}

fn write_member_access_member_not_found(
    a: &Path,
    b: &StringId,
    st: &StringTable,
) -> (r: Result<String, CompilerDisplayError>)
    ensures
        match r {
            Ok(s) => semantic_error_text(
                SemanticErrorView::MemberAccessMemberNotFound(a@, *b),
                st@,
            ) == Some(s@),
            Err(e) => semantic_error_text(
                SemanticErrorView::MemberAccessMemberNotFound(a@, *b),
                st@,
            ) is None && e == CompilerDisplayError::StringIdNotFound,
        },
{
    let mut out = path(a, st)?;
    out.append(" does not have member ");
    let s = name(*b, st)?;
    out.append(s.as_str());
    Ok(out)
}

fn write_if_expr_mismatch_arms(
    a: &Type,
    b: &Type,
    st: &StringTable,
) -> (r: Result<String, CompilerDisplayError>)
    ensures
        match r {
            Ok(s) => semantic_error_text(
                SemanticErrorView::IfExprMismatchArms(a@, b@),
                st@,
            ) == Some(s@),
            Err(e) => semantic_error_text(
                SemanticErrorView::IfExprMismatchArms(a@, b@),
                st@,
            ) is None && e == CompilerDisplayError::StringIdNotFound,
        },
{
    let mut out = String::from_str("If expression has mismatching arms: expected ");
    let s = write_type(a, st)?;
    out.append(s.as_str());
    out.append(" got ");
    let s = write_type(b, st)?;
    out.append(s.as_str());
    Ok(out)
}

fn write_cond_expected_bool(a: &Type, st: &StringTable) -> (r: Result<String, CompilerDisplayError>)
    ensures
        match r {
            Ok(s) => semantic_error_text(SemanticErrorView::CondExpectedBool(a@), st@) == Some(s@),
            Err(e) => semantic_error_text(SemanticErrorView::CondExpectedBool(a@), st@) is None && e
                == CompilerDisplayError::StringIdNotFound,
        },
{
    let mut out = String::from_str("Expected boolean expression in if conditional, got: ");
    let s = write_type(a, st)?;
    out.append(s.as_str());
    Ok(out)
}

fn write_while_invalid_type(a: &Type, st: &StringTable) -> (r: Result<String, CompilerDisplayError>)
    ensures
        match r {
            Ok(s) => semantic_error_text(SemanticErrorView::WhileInvalidType(a@), st@) == Some(s@),
            Err(e) => semantic_error_text(SemanticErrorView::WhileInvalidType(a@), st@) is None && e
                == CompilerDisplayError::StringIdNotFound,
        },
{
    let mut out = String::from_str(
        "The body of a while expression must resolve to the unit type, but got: ",
    );
    let s = write_type(a, st)?;
    out.append(s.as_str());
    Ok(out)
}

fn write_while_cond_invalid_type(
    a: &Type,
    st: &StringTable,
) -> (r: Result<String, CompilerDisplayError>)
    ensures
        match r {
            Ok(s) => semantic_error_text(
                SemanticErrorView::WhileCondInvalidType(a@),
                st@,
            ) == Some(s@),
            Err(e) => semantic_error_text(
                SemanticErrorView::WhileCondInvalidType(a@),
                st@,
            ) is None && e == CompilerDisplayError::StringIdNotFound,
        },
{
    let mut out = String::from_str(
        "The condition of a while expression must resolve to the bool type, but got: ",
    );
    let s = write_type(a, st)?;
    out.append(s.as_str());
    Ok(out)
}

fn write_yield_invalid_type(a: &Type, st: &StringTable) -> (r: Result<String, CompilerDisplayError>)
    ensures
        match r {
            Ok(s) => semantic_error_text(SemanticErrorView::YieldInvalidType(a@), st@) == Some(s@),
            Err(e) => semantic_error_text(SemanticErrorView::YieldInvalidType(a@), st@) is None && e
                == CompilerDisplayError::StringIdNotFound,
        },
{
    let mut out = String::from_str("Yield expects co<_> but got ");
    let s = write_type(a, st)?;
    out.append(s.as_str());
    Ok(out)
}

fn write_routine_call_wrong_num_params(
    a: &Path,
    b: &usize,
    c: &usize,
    st: &StringTable,
) -> (r: Result<String, CompilerDisplayError>)
    ensures
        match r {
            Ok(s) => semantic_error_text(
                SemanticErrorView::RoutineCallWrongNumParams(a@, *b, *c),
                st@,
            ) == Some(s@),
            Err(e) => semantic_error_text(
                SemanticErrorView::RoutineCallWrongNumParams(a@, *b, *c),
                st@,
            ) is None && e == CompilerDisplayError::StringIdNotFound,
        },
{
    let mut out = String::from_str("Incorrect number of parameters passed to routine: ");
    let s = path(a, st)?;
    out.append(s.as_str());
    out.append(". Expected ");
    let s = decimal(*b as u64);
    out.append(s.as_str());
    out.append(" but got ");
    let s = decimal(*c as u64);
    out.append(s.as_str());
    Ok(out)
}

fn write_function_params_not_enough(
    a: &Path,
    b: &usize,
    c: &usize,
    st: &StringTable,
) -> (r: Result<String, CompilerDisplayError>)
    ensures
        match r {
            Ok(s) => semantic_error_text(
                SemanticErrorView::FunctionParamsNotEnough(a@, *b, *c),
                st@,
            ) == Some(s@),
            Err(e) => semantic_error_text(
                SemanticErrorView::FunctionParamsNotEnough(a@, *b, *c),
                st@,
            ) is None && e == CompilerDisplayError::StringIdNotFound,
        },
{
    let mut out = String::from_str("Function ");
    let s = path(a, st)?;
    out.append(s.as_str());
    out.append(" expects at least ");
    let s = decimal(*b as u64);
    out.append(s.as_str());
    out.append(" parameters, but got ");
    let s = decimal(*c as u64);
    out.append(s.as_str());
    Ok(out)
}

fn write_struct_expr_wrong_num_params(
    a: &usize,
    b: &usize,
    st: &StringTable,
) -> (r: Result<String, CompilerDisplayError>)
    ensures
        match r {
            Ok(s) => semantic_error_text(
                SemanticErrorView::StructExprWrongNumParams(*a, *b),
                st@,
            ) == Some(s@),
            Err(e) => semantic_error_text(
                SemanticErrorView::StructExprWrongNumParams(*a, *b),
                st@,
            ) is None && e == CompilerDisplayError::StringIdNotFound,
        },
{
    let mut out = String::from_str("Struct expected ");
    let s = decimal(*a as u64);
    out.append(s.as_str());
    out.append(" parameters but found ");
    let s = decimal(*b as u64);
    out.append(s.as_str());
    Ok(out)
}

fn write_struct_expr_member_not_found(
    a: &Path,
    b: &StringId,
    st: &StringTable,
) -> (r: Result<String, CompilerDisplayError>)
    ensures
        match r {
            Ok(s) => semantic_error_text(
                SemanticErrorView::StructExprMemberNotFound(a@, *b),
                st@,
            ) == Some(s@),
            Err(e) => semantic_error_text(
                SemanticErrorView::StructExprMemberNotFound(a@, *b),
                st@,
            ) is None && e == CompilerDisplayError::StringIdNotFound,
        },
{
    let mut out = String::from_str("member ");
    let s = name(*b, st)?;
    out.append(s.as_str());
    out.append(" not found on ");
    let s = path(a, st)?;
    out.append(s.as_str());
    Ok(out)
}

fn write_struct_expr_field_type_mismatch(
    a: &Path,
    b: &StringId,
    c: &Type,
    d: &Type,
    st: &StringTable,
) -> (r: Result<String, CompilerDisplayError>)
    ensures
        match r {
            Ok(s) => semantic_error_text(
                SemanticErrorView::StructExprFieldTypeMismatch(a@, *b, c@, d@),
                st@,
            ) == Some(s@),
            Err(e) => semantic_error_text(
                SemanticErrorView::StructExprFieldTypeMismatch(a@, *b, c@, d@),
                st@,
            ) is None && e == CompilerDisplayError::StringIdNotFound,
        },
{
    let mut out = path(a, st)?;
    out.append(".");
    let s = name(*b, st)?;
    out.append(s.as_str());
    out.append(" expects ");
    let s = write_type(c, st)?;
    out.append(s.as_str());
    out.append(" but got ");
    let s = write_type(d, st)?;
    out.append(s.as_str());
    Ok(out)
}

fn write_expected_signed_integer(
    a: &UnaryOperator,
    b: &Type,
    st: &StringTable,
) -> (r: Result<String, CompilerDisplayError>)
    ensures
        match r {
            Ok(s) => semantic_error_text(
                SemanticErrorView::ExpectedSignedInteger(*a, b@),
                st@,
            ) == Some(s@),
            Err(e) => semantic_error_text(
                SemanticErrorView::ExpectedSignedInteger(*a, b@),
                st@,
            ) is None && e == CompilerDisplayError::StringIdNotFound,
        },
{
    let mut out = String::from_str(unary_operator(*a));
    out.append(" expected a signed integer but found ");
    let s = write_type(b, st)?;
    out.append(s.as_str());
    Ok(out)
}

fn write_expected_bool(
    a: &UnaryOperator,
    b: &Type,
    st: &StringTable,
) -> (r: Result<String, CompilerDisplayError>)
    ensures
        match r {
            Ok(s) => semantic_error_text(SemanticErrorView::ExpectedBool(*a, b@), st@) == Some(s@),
            Err(e) => semantic_error_text(SemanticErrorView::ExpectedBool(*a, b@), st@) is None && e
                == CompilerDisplayError::StringIdNotFound,
        },
{
    let mut out = String::from_str(unary_operator(*a));
    out.append(" expected bool but found ");
    let s = write_type(b, st)?;
    out.append(s.as_str());
    Ok(out)
}

fn write_op_expected(
    a: &BinaryOperator,
    b: &Type,
    c: &Type,
    d: &Type,
    st: &StringTable,
) -> (r: Result<String, CompilerDisplayError>)
    ensures
        match r {
            Ok(s) => semantic_error_text(
                SemanticErrorView::OpExpected(*a, b@, c@, d@),
                st@,
            ) == Some(s@),
            Err(e) => semantic_error_text(
                SemanticErrorView::OpExpected(*a, b@, c@, d@),
                st@,
            ) is None && e == CompilerDisplayError::StringIdNotFound,
        },
{
    let mut out = String::from_str(binary_operator(*a));
    out.append(" expected ");
    let s = write_type(b, st)?;
    out.append(s.as_str());
    out.append(" but found ");
    let s = write_type(c, st)?;
    out.append(s.as_str());
    out.append(" and ");
    let s = write_type(d, st)?;
    out.append(s.as_str());
    Ok(out)
}

fn write_routine_param_type_mismatch(
    a: &Path,
    b: &Vec<(usize, Type, Type)>,
    st: &StringTable,
) -> (r: Result<String, CompilerDisplayError>)
    ensures
        match r {
            Ok(s) => semantic_error_text(
                SemanticErrorView::RoutineParamTypeMismatch(a@, mismatches_view(*b)),
                st@,
            ) == Some(s@),
            Err(e) => semantic_error_text(
                SemanticErrorView::RoutineParamTypeMismatch(a@, mismatches_view(*b)),
                st@,
            ) is None && e == CompilerDisplayError::StringIdNotFound,
        },
{
    let mut out = String::from_str("One or more parameters have mismatching types for function ");
    let s = path(a, st)?;
    out.append(s.as_str());
    out.append(": ");
    let s = write_mismatches(b, st)?;
    out.append(s.as_str());
    Ok(out)
}

fn write_invalid_identifier_type(
    a: &Type,
    st: &StringTable,
) -> (r: Result<String, CompilerDisplayError>)
    ensures
        match r {
            Ok(s) => semantic_error_text(
                SemanticErrorView::InvalidIdentifierType(a@),
                st@,
            ) == Some(s@),
            Err(e) => semantic_error_text(
                SemanticErrorView::InvalidIdentifierType(a@),
                st@,
            ) is None && e == CompilerDisplayError::StringIdNotFound,
        },
{
    let mut out = write_type(a, st)?;
    out.append(" is not a structure");
    Ok(out)
}

fn write_routine_call_invalid_target(
    a: &RoutineCall,
    b: &Path,
    c: &Type,
    st: &StringTable,
) -> (r: Result<String, CompilerDisplayError>)
    ensures
        match r {
            Ok(s) => semantic_error_text(
                SemanticErrorView::RoutineCallInvalidTarget(*a, b@, c@),
                st@,
            ) == Some(s@),
            Err(e) => semantic_error_text(
                SemanticErrorView::RoutineCallInvalidTarget(*a, b@, c@),
                st@,
            ) is None && e == CompilerDisplayError::StringIdNotFound,
        },
{
    let mut out = String::from_str("Expected ");
    let s = String::from_str(routine_call(*a));
    out.append(s.as_str());
    out.append(" but ");
    let s = path(b, st)?;
    out.append(s.as_str());
    out.append(" is a ");
    let s = write_type(c, st)?;
    out.append(s.as_str());
    Ok(out)
}

impl CompilerDisplay for SemanticError {
    open spec fn rendered(&self, names: Seq<Seq<char>>) -> Option<Seq<char>> {
        semantic_error_text(self@, names)
    }

    fn fmt(&self, st: &StringTable) -> (r: Result<String, CompilerDisplayError>) {
        match self {
            SemanticError::NotVariable(a) => write_not_variable(a, st),
            SemanticError::NotRoutine(a) => write_not_routine(a, st),
            SemanticError::NotCoroutine(a) => write_not_coroutine(a, st),
            SemanticError::MultipleDefs(a) => write_multiple_defs(a, st),
            SemanticError::PathNotFound(a, b) => write_path_not_found(a, b, st),
            SemanticError::PathNotValid => Ok(String::from_str("Path is not valid")),
            SemanticError::NotDefined(a) => write_not_defined(a, st),
            SemanticError::EmptyPath => Ok(String::from_str("Empty path")),
            SemanticError::ArrayInvalidSize(a) => write_array_invalid_size(a, st),
            SemanticError::ArrayInconsistentElementTypes => Ok(
                String::from_str(
                    "Inconsistent types in array value",
                ),
            ),
            SemanticError::ArrayIndexingInvalidType(a) => write_array_indexing_invalid_type(a, st),
            SemanticError::ArrayIndexingInvalidIndexType(a) => write_array_indexing_invalid_index_type(
                a,
                st,
            ),
            SemanticError::AlreadyDeclared(a) => write_already_declared(a, st),
            SemanticError::PathTooSuper => Ok(String::from_str("Path too super")),
            SemanticError::BindExpected(a, b) => write_bind_expected(a, b, st),
            SemanticError::VariableNotMutable(a) => write_variable_not_mutable(a, st),
            SemanticError::BindMismatch(a, b, c) => write_bind_mismatch(a, b, c, st),
            SemanticError::YieldExpected(a, b) => write_yield_expected(a, b, st),
            SemanticError::YieldInvalidLocation => Ok(
                String::from_str(
                    "yield must be at end of function",
                ),
            ),
            SemanticError::ReturnExpected(a, b) => write_return_expected(a, b, st),
            SemanticError::ReturnInvalidLocation => Ok(String::from_str("return invalid loc")),
            SemanticError::MemberAccessInvalidRootType(a) => write_member_access_invalid_root_type(
                a,
                st,
            ),
            SemanticError::MemberAccessMemberNotFound(a, b) => write_member_access_member_not_found(
                a,
                b,
                st,
            ),
            SemanticError::IfExprMismatchArms(a, b) => write_if_expr_mismatch_arms(a, b, st),
            SemanticError::CondExpectedBool(a) => write_cond_expected_bool(a, st),
            SemanticError::WhileInvalidType(a) => write_while_invalid_type(a, st),
            SemanticError::WhileCondInvalidType(a) => write_while_cond_invalid_type(a, st),
            SemanticError::YieldInvalidType(a) => write_yield_invalid_type(a, st),
            SemanticError::RoutineCallWrongNumParams(a, b,
                c) => write_routine_call_wrong_num_params(
                a,
                b,
                c,
                st,
            ),
            SemanticError::FunctionParamsNotEnough(a, b, c) => write_function_params_not_enough(
                a,
                b,
                c,
                st,
            ),
            SemanticError::StructExprWrongNumParams(a, b) => write_struct_expr_wrong_num_params(
                a,
                b,
                st,
            ),
            SemanticError::StructExprMemberNotFound(a, b) => write_struct_expr_member_not_found(
                a,
                b,
                st,
            ),
            SemanticError::StructExprFieldTypeMismatch(a, b, c,
                d) => write_struct_expr_field_type_mismatch(
                a,
                b,
                c,
                d,
                st,
            ),
            SemanticError::ExpectedSignedInteger(a, b) => write_expected_signed_integer(a, b, st),
            SemanticError::ExpectedBool(a, b) => write_expected_bool(a, b, st),
            SemanticError::OpExpected(a, b, c, d) => write_op_expected(a, b, c, d, st),
            SemanticError::RoutineParamTypeMismatch(a, b) => write_routine_param_type_mismatch(
                a,
                b,
                st,
            ),
            SemanticError::MainFnInvalidType => Ok(
                String::from_str(
                    "my_main must be a function of type () -> i64",
                ),
            ),
            SemanticError::MainFnInvalidParams => Ok(
                String::from_str(
                    "my_main must take no parameters. It must be of type () -> i64",
                ),
            ),
            SemanticError::InvalidStructure => Ok(
                String::from_str(
                    "Not a valid structure definition",
                ),
            ),
            SemanticError::InvalidIdentifierType(a) => write_invalid_identifier_type(a, st),
            SemanticError::RoutineCallInvalidTarget(a, b, c) => write_routine_call_invalid_target(
                a,
                b,
                c,
                st,
            ),
        }
    }
}

/// The message of the error, where the names hold every name in it.
pub open spec fn parser_error_text(e: ParserError, names: Seq<Seq<char>>) -> Option<Seq<char>> {
    match e {
        ParserError::EOF => Some("Unexpected end of the text"@),
        ParserError::Locked(a) => then(
            Some("Parser cannot advance past "@),
            optional_token_text(a, names),
        ),
        ParserError::ModExpectedName => Some("Identifier expected after mod keyword"@),
        ParserError::ModAlreadyContains(a) => then(
            Some("Module already contains "@),
            name_text(a, names),
        ),
        ParserError::ExternInvalidVarArgs => Some(
            "An extern declaration must have at least one parameter before a VarArgs (...) parameter"@,
        ),
        ParserError::ExternExpectedFnDecl => Some(
            "Expected function declaration after extern keyword"@,
        ),
        ParserError::StructExpectedIdentifier => Some("Expected identifier after struct keyword"@),
        ParserError::FnExpectedIdentifierAfterFn => Some("Expected identifier after fn keyword"@),
        ParserError::FnVarArgsNotAllowed => Some(
            "Varargs are not allowed in Braid functions (only in externs)"@,
        ),
        ParserError::FnExpectedTypeAfterArrow => Some("Type expected after ->"@),
        ParserError::FnExpectedReturn(a) => then(
            Some("Routines must end with a return statement, but found "@),
            optional_token_text(a, names),
        ),
        ParserError::FnCallExpectedParams => Some("Expected parameters after function call point"@),
        ParserError::CoExpectedIdentifierAfterCo => Some("Expected identifier after co keyword"@),
        ParserError::ArrayExpectedIntLiteral => Some("Expected integer literal for array size"@),
        ParserError::ArrayDeclExpectedType => Some("Expected type in array type declaration"@),
        ParserError::ArrayDeclExpectedSize => Some(
            "Expected size to be specified in array type declaration"@,
        ),
        ParserError::IdDeclExpectedType => Some("Expected type after : in variable declaration"@),
        ParserError::ExpectedButFound(a, b) => then(
            then(then(Some("Expected "@), lex_text(a, names)), Some(", but found "@)),
            optional_lex_text(b, names),
        ),
        ParserError::ExpectedIdDeclAfterLet => Some(
            "Expected identifier declaration (`<id> : <type>`) after let"@,
        ),
        ParserError::ExpectedTypeInIdDecl => Some("Expected type specification in let binding"@),
        ParserError::ExpectedExpressionOnRhs => Some("Expected expression after :="@),
        ParserError::ExpectedParams => Some("Expected parameter list after identifier"@),
        ParserError::ExpectedIdAfterInit => Some("Expected identifer after init"@),
        ParserError::NotAUnaryOp(a) => then(lex_text(a, names), Some(" is not a unary operator"@)),
        ParserError::NotABinaryOp(a) => then(
            lex_text(a, names),
            Some(" is not a binary operator"@),
        ),
        ParserError::IfExpectedConditional => Some("Expected conditional expression after if"@),
        ParserError::IfTrueArmMissingExpr => Some(
            "Expected expression block in true arm of if expression"@,
        ),
        ParserError::IfElseExpectedIfExpr => Some("Expected expression block after else if"@),
        ParserError::IfFalseArmMissingExpr => Some("Expected expression block after else"@),
        ParserError::WhileExpectedConditional => Some("Expected conditional after while keyword"@),
        ParserError::WhileMissingBody => Some("Expected expression block for while loop body"@),
        ParserError::PathExpectedIdentifier => Some("Expected identifier after ::"@),
        ParserError::YieldExpectedIdentifier => Some("Expected identifier after yield"@),
        ParserError::StructExpectedFieldExpr(a) => then(
            Some("Expected an expression to be assigned to field "@),
            name_text(a, names),
        ),
        ParserError::ExpectedExprAfter(a) => then(
            Some("Expected expression after "@),
            lex_text(a, names),
        ),
        ParserError::ExpectedTermAfter(a) => then(
            Some("Expected term after "@),
            lex_text(a, names),
        ),
        ParserError::MemberAccessExpectedField => Some("Expected member name after . operator."@),
        ParserError::IndexOpInvalidExpr => Some("Index operator must contain valid expression"@),
    }
}

fn write_locked(a: &Option<Token>, st: &StringTable) -> (r: Result<String, CompilerDisplayError>)
    ensures
        match r {
            Ok(s) => parser_error_text(ParserError::Locked(*a), st@) == Some(s@),
            Err(e) => parser_error_text(ParserError::Locked(*a), st@) is None && e
                == CompilerDisplayError::StringIdNotFound,
        },
{
    let mut out = String::from_str("Parser cannot advance past ");
    let s = write_optional_token(*a, st)?;
    out.append(s.as_str());
    Ok(out)
}

fn write_mod_already_contains(
    a: &StringId,
    st: &StringTable,
) -> (r: Result<String, CompilerDisplayError>)
    ensures
        match r {
            Ok(s) => parser_error_text(ParserError::ModAlreadyContains(*a), st@) == Some(s@),
            Err(e) => parser_error_text(ParserError::ModAlreadyContains(*a), st@) is None && e
                == CompilerDisplayError::StringIdNotFound,
        },
{
    let mut out = String::from_str("Module already contains ");
    let s = name(*a, st)?;
    out.append(s.as_str());
    Ok(out)
}

fn write_fn_expected_return(
    a: &Option<Token>,
    st: &StringTable,
) -> (r: Result<String, CompilerDisplayError>)
    ensures
        match r {
            Ok(s) => parser_error_text(ParserError::FnExpectedReturn(*a), st@) == Some(s@),
            Err(e) => parser_error_text(ParserError::FnExpectedReturn(*a), st@) is None && e
                == CompilerDisplayError::StringIdNotFound,
        },
{
    let mut out = String::from_str("Routines must end with a return statement, but found ");
    let s = write_optional_token(*a, st)?;
    out.append(s.as_str());
    Ok(out)
}

fn write_expected_but_found(
    a: &Lex,
    b: &Option<Lex>,
    st: &StringTable,
) -> (r: Result<String, CompilerDisplayError>)
    ensures
        match r {
            Ok(s) => parser_error_text(ParserError::ExpectedButFound(*a, *b), st@) == Some(s@),
            Err(e) => parser_error_text(ParserError::ExpectedButFound(*a, *b), st@) is None && e
                == CompilerDisplayError::StringIdNotFound,
        },
{
    let mut out = String::from_str("Expected ");
    let s = write_lex(*a, st)?;
    out.append(s.as_str());
    out.append(", but found ");
    let s = write_optional_lex(*b, st)?;
    out.append(s.as_str());
    Ok(out)
}

fn write_not_a_unary_op(a: &Lex, st: &StringTable) -> (r: Result<String, CompilerDisplayError>)
    ensures
        match r {
            Ok(s) => parser_error_text(ParserError::NotAUnaryOp(*a), st@) == Some(s@),
            Err(e) => parser_error_text(ParserError::NotAUnaryOp(*a), st@) is None && e
                == CompilerDisplayError::StringIdNotFound,
        },
{
    let mut out = write_lex(*a, st)?;
    out.append(" is not a unary operator");
    Ok(out)
}

fn write_not_a_binary_op(a: &Lex, st: &StringTable) -> (r: Result<String, CompilerDisplayError>)
    ensures
        match r {
            Ok(s) => parser_error_text(ParserError::NotABinaryOp(*a), st@) == Some(s@),
            Err(e) => parser_error_text(ParserError::NotABinaryOp(*a), st@) is None && e
                == CompilerDisplayError::StringIdNotFound,
        },
{
    let mut out = write_lex(*a, st)?;
    out.append(" is not a binary operator");
    Ok(out)
}

fn write_struct_expected_field_expr(
    a: &StringId,
    st: &StringTable,
) -> (r: Result<String, CompilerDisplayError>)
    ensures
        match r {
            Ok(s) => parser_error_text(ParserError::StructExpectedFieldExpr(*a), st@) == Some(s@),
            Err(e) => parser_error_text(ParserError::StructExpectedFieldExpr(*a), st@) is None && e
                == CompilerDisplayError::StringIdNotFound,
        },
{
    let mut out = String::from_str("Expected an expression to be assigned to field ");
    let s = name(*a, st)?;
    out.append(s.as_str());
    Ok(out)
}

fn write_expected_expr_after(a: &Lex, st: &StringTable) -> (r: Result<String, CompilerDisplayError>)
    ensures
        match r {
            Ok(s) => parser_error_text(ParserError::ExpectedExprAfter(*a), st@) == Some(s@),
            Err(e) => parser_error_text(ParserError::ExpectedExprAfter(*a), st@) is None && e
                == CompilerDisplayError::StringIdNotFound,
        },
{
    let mut out = String::from_str("Expected expression after ");
    let s = write_lex(*a, st)?;
    out.append(s.as_str());
    Ok(out)
}

fn write_expected_term_after(a: &Lex, st: &StringTable) -> (r: Result<String, CompilerDisplayError>)
    ensures
        match r {
            Ok(s) => parser_error_text(ParserError::ExpectedTermAfter(*a), st@) == Some(s@),
            Err(e) => parser_error_text(ParserError::ExpectedTermAfter(*a), st@) is None && e
                == CompilerDisplayError::StringIdNotFound,
        },
{
    let mut out = String::from_str("Expected term after ");
    let s = write_lex(*a, st)?;
    out.append(s.as_str());
    Ok(out)
}

impl CompilerDisplay for ParserError {
    open spec fn rendered(&self, names: Seq<Seq<char>>) -> Option<Seq<char>> {
        parser_error_text(*self, names)
    }

    fn fmt(&self, st: &StringTable) -> (r: Result<String, CompilerDisplayError>) {
        match self {
            ParserError::EOF => Ok(String::from_str("Unexpected end of the text")),
            ParserError::Locked(a) => write_locked(a, st),
            ParserError::ModExpectedName => Ok(
                String::from_str(
                    "Identifier expected after mod keyword",
                ),
            ),
            ParserError::ModAlreadyContains(a) => write_mod_already_contains(a, st),
            ParserError::ExternInvalidVarArgs => Ok(
                String::from_str(
                    "An extern declaration must have at least one parameter before a VarArgs (...) parameter",
                ),
            ),
            ParserError::ExternExpectedFnDecl => Ok(
                String::from_str(
                    "Expected function declaration after extern keyword",
                ),
            ),
            ParserError::StructExpectedIdentifier => Ok(
                String::from_str(
                    "Expected identifier after struct keyword",
                ),
            ),
            ParserError::FnExpectedIdentifierAfterFn => Ok(
                String::from_str(
                    "Expected identifier after fn keyword",
                ),
            ),
            ParserError::FnVarArgsNotAllowed => Ok(
                String::from_str(
                    "Varargs are not allowed in Braid functions (only in externs)",
                ),
            ),
            ParserError::FnExpectedTypeAfterArrow => Ok(String::from_str("Type expected after ->")),
            ParserError::FnExpectedReturn(a) => write_fn_expected_return(a, st),
            ParserError::FnCallExpectedParams => Ok(
                String::from_str(
                    "Expected parameters after function call point",
                ),
            ),
            ParserError::CoExpectedIdentifierAfterCo => Ok(
                String::from_str(
                    "Expected identifier after co keyword",
                ),
            ),
            ParserError::ArrayExpectedIntLiteral => Ok(
                String::from_str(
                    "Expected integer literal for array size",
                ),
            ),
            ParserError::ArrayDeclExpectedType => Ok(
                String::from_str(
                    "Expected type in array type declaration",
                ),
            ),
            ParserError::ArrayDeclExpectedSize => Ok(
                String::from_str(
                    "Expected size to be specified in array type declaration",
                ),
            ),
            ParserError::IdDeclExpectedType => Ok(
                String::from_str(
                    "Expected type after : in variable declaration",
                ),
            ),
            ParserError::ExpectedButFound(a, b) => write_expected_but_found(a, b, st),
            ParserError::ExpectedIdDeclAfterLet => Ok(
                String::from_str(
                    "Expected identifier declaration (`<id> : <type>`) after let",
                ),
            ),
            ParserError::ExpectedTypeInIdDecl => Ok(
                String::from_str(
                    "Expected type specification in let binding",
                ),
            ),
            ParserError::ExpectedExpressionOnRhs => Ok(
                String::from_str(
                    "Expected expression after :=",
                ),
            ),
            ParserError::ExpectedParams => Ok(
                String::from_str(
                    "Expected parameter list after identifier",
                ),
            ),
            ParserError::ExpectedIdAfterInit => Ok(
                String::from_str(
                    "Expected identifer after init",
                ),
            ),
            ParserError::NotAUnaryOp(a) => write_not_a_unary_op(a, st),
            ParserError::NotABinaryOp(a) => write_not_a_binary_op(a, st),
            ParserError::IfExpectedConditional => Ok(
                String::from_str(
                    "Expected conditional expression after if",
                ),
            ),
            ParserError::IfTrueArmMissingExpr => Ok(
                String::from_str(
                    "Expected expression block in true arm of if expression",
                ),
            ),
            ParserError::IfElseExpectedIfExpr => Ok(
                String::from_str(
                    "Expected expression block after else if",
                ),
            ),
            ParserError::IfFalseArmMissingExpr => Ok(
                String::from_str(
                    "Expected expression block after else",
                ),
            ),
            ParserError::WhileExpectedConditional => Ok(
                String::from_str(
                    "Expected conditional after while keyword",
                ),
            ),
            ParserError::WhileMissingBody => Ok(
                String::from_str(
                    "Expected expression block for while loop body",
                ),
            ),
            ParserError::PathExpectedIdentifier => Ok(
                String::from_str(
                    "Expected identifier after ::",
                ),
            ),
            ParserError::YieldExpectedIdentifier => Ok(
                String::from_str(
                    "Expected identifier after yield",
                ),
            ),
            ParserError::StructExpectedFieldExpr(a) => write_struct_expected_field_expr(a, st),
            ParserError::ExpectedExprAfter(a) => write_expected_expr_after(a, st),
            ParserError::ExpectedTermAfter(a) => write_expected_term_after(a, st),
            ParserError::MemberAccessExpectedField => Ok(
                String::from_str(
                    "Expected member name after . operator.",
                ),
            ),
            ParserError::IndexOpInvalidExpr => Ok(
                String::from_str(
                    "Index operator must contain valid expression",
                ),
            ),
        }
    }
}

/// The message of the error, where the names hold every name in it.
pub open spec fn lexer_error_text(e: LexerError, names: Seq<Seq<char>>) -> Option<Seq<char>> {
    match e {
        LexerError::TextTooLong => Some("The text is too long"@),
        LexerError::UnexpectedCharacter(a) => then(Some("Unexpected character "@), Some(seq![a])),
        LexerError::InvalidInteger => Some("Invalid integer"@),
        LexerError::StringDoesNotEnd => Some("The string literal does not end on its line"@),
        LexerError::InvalidEscape => Some("Invalid escape sequence"@),
        LexerError::TooManyNames => Some("The text has too many names"@),
    }
}

fn write_unexpected_character(
    a: &char,
    st: &StringTable,
) -> (r: Result<String, CompilerDisplayError>)
    ensures
        match r {
            Ok(s) => lexer_error_text(LexerError::UnexpectedCharacter(*a), st@) == Some(s@),
            Err(e) => lexer_error_text(LexerError::UnexpectedCharacter(*a), st@) is None && e
                == CompilerDisplayError::StringIdNotFound,
        },
{
    let mut out = String::from_str("Unexpected character ");
    let s = one_char(*a);
    out.append(s.as_str());
    Ok(out)
}

impl CompilerDisplay for LexerError {
    open spec fn rendered(&self, names: Seq<Seq<char>>) -> Option<Seq<char>> {
        lexer_error_text(*self, names)
    }

    fn fmt(&self, st: &StringTable) -> (r: Result<String, CompilerDisplayError>) {
        match self {
            LexerError::TextTooLong => Ok(String::from_str("The text is too long")),
            LexerError::UnexpectedCharacter(a) => write_unexpected_character(a, st),
            LexerError::InvalidInteger => Ok(String::from_str("Invalid integer")),
            LexerError::StringDoesNotEnd => Ok(
                String::from_str(
                    "The string literal does not end on its line",
                ),
            ),
            LexerError::InvalidEscape => Ok(String::from_str("Invalid escape sequence")),
            LexerError::TooManyNames => Ok(String::from_str("The text has too many names")),
        }
    }
}

} // verus!
