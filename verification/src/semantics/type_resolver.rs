//! The resolver: one walk over the syntax tree that checks every expression
//! and statement against the typing rules and returns the tree with the
//! type of every node recorded in its annotation.
use crate::ast::expression::{
    expressions_view, named_expressions_view, BinaryOperator, Expression, RoutineCall,
    UnaryOperator,
};
use crate::ast::external::{Extern, ExternView};
use crate::ast::module::{items_view, modules_view, Item, ItemView, Module, ModuleView};
use crate::ast::parameter::{parameters_view, Parameter};
use crate::ast::path::{Element, Path};
use crate::ast::routinedef::{RoutineDef, RoutineDefType, RoutineDefView};
use crate::ast::structdef::{StructDef, StructDefView};
use crate::ast::statement::{statements_view, Bind, Mutate, Return, Statement, YieldReturn};
use crate::ast::ty::{types_view, Type, TypeView};
use crate::semantics::error::{
    mismatches_view, CompilerError, SemanticError, SemanticErrorView, SemanticResult,
};
use crate::semantics::rules::{
    declare_params, first_named_param, main_fn_error, resolve_external, resolve_item,
    resolve_items, resolve_module, resolve_modules, resolve_routine, resolve_structdef,
    typed_parameters, valid_fields,
};
use crate::semantics::rules::{definitions_typed, lemma_module_is_typed};
use crate::semantics::rules::{
    argument_error, binary_type, failure, homogeneous, mismatches, resolve_expression,
    resolve_expressions, resolve_fields, resolve_optional, resolve_statement, resolve_statements,
    signature_of, type_of, unary_type, valid_type, Expr, Failure, Signature,
    Stmt,
};
use crate::semantics::semanticnode::{ContextView, SemanticContext};
use crate::semantics::stack::{ScopeStackView, SymbolTableScopeStack};
use crate::import::{
    import_all, imports_view, inject, lemma_import_keeps_scopes, Import, ImportView,
};
use crate::parser::context::ParserContext;
use crate::semantics::annotate::{annotate_module, SemanticAst};
use crate::semantics::canonize::{canonical_tree, canonize_paths};
use crate::semantics::register::register_module;
use crate::semantics::symbol_table::{ScopeType, Symbol, SymbolTable, SymbolTableView};
use crate::source::span::Span;
use crate::stringtable::StringId;
use vstd::prelude::*;

verus! {

/// Walks a tree and resolves the type of every node.
pub struct TypeResolver<'a> {
    symbols: SymbolTableScopeStack<'a>,
    main_fn: Path,
}

pub ghost struct ResolverView {
    /// The scopes that the resolver is in.
    pub symbols: ScopeStackView,
    /// The canonical path of the entry point of the program.
    pub main_fn: Seq<Element>,
}

impl<'a> View for TypeResolver<'a> {
    type V = ResolverView;

    closed spec fn view(&self) -> ResolverView {
        ResolverView { symbols: self.symbols@, main_fn: self.main_fn@ }
    }
}

/// The error `inner`, caused by the text at `span`.
fn fail<T>(span: Span, inner: SemanticError) -> (r: SemanticResult<T>)
    ensures
        r is Err,
        r->Err_0@ == failure(span, inner@),
{
    Err(CompilerError::new(span, inner))
}

/// The type of a binary operation on operands of the types `l` and `r`.
fn binary_op_type(op: BinaryOperator, l: &Type, r: &Type) -> (res: Result<Type, SemanticError>)
    ensures
        match res {
            Ok(t) => binary_type(op, l@, r@) == Ok::<TypeView, SemanticErrorView>(t@),
            Err(e) => binary_type(op, l@, r@) == Err::<TypeView, SemanticErrorView>(e@),
        },
{
    match op {
        BinaryOperator::Add | BinaryOperator::Sub | BinaryOperator::Mul | BinaryOperator::Div => {
            if l.is_integral() && r.is_integral() && l.same(r) {
                Ok(l.clone())
            } else {
                let expected = if l.is_integral() {
                    l.clone()
                } else {
                    Type::I64
                };
                Err(SemanticError::OpExpected(op, expected, l.clone(), r.clone()))
            }
        },
        BinaryOperator::BAnd | BinaryOperator::BOr => {
            if l.same(&Type::Bool) && r.same(&Type::Bool) {
                Ok(Type::Bool)
            } else {
                Err(SemanticError::OpExpected(op, Type::Bool, l.clone(), r.clone()))
            }
        },
        BinaryOperator::Eq
        | BinaryOperator::NEq
        | BinaryOperator::Ls
        | BinaryOperator::LsEq
        | BinaryOperator::Gr
        | BinaryOperator::GrEq => {
            if l.same(r) {
                Ok(Type::Bool)
            } else {
                Err(SemanticError::OpExpected(op, l.clone(), l.clone(), r.clone()))
            }
        },
    }
}

/// The type of a unary operation on an operand of the type `t`.
fn unary_op_type(op: UnaryOperator, t: &Type) -> (res: Result<Type, SemanticError>)
    ensures
        match res {
            Ok(ty) => unary_type(op, t@) == Ok::<TypeView, SemanticErrorView>(ty@),
            Err(e) => unary_type(op, t@) == Err::<TypeView, SemanticErrorView>(e@),
        },
{
    match op {
        UnaryOperator::Negate => {
            if t.is_signed_int() {
                Ok(t.clone())
            } else {
                Err(SemanticError::ExpectedSignedInteger(op, t.clone()))
            }
        },
        UnaryOperator::Not => {
            if t.same(&Type::Bool) {
                Ok(Type::Bool)
            } else {
                Err(SemanticError::ExpectedBool(op, t.clone()))
            }
        },
    }
}

/// The parameter types, whether more arguments may follow them, and the
/// type of the result, of a symbol that is entered in the way `call`.
fn extract_routine_type_info<'b>(symbol: &'b Symbol, call: RoutineCall, routine_path: &Path) -> (r:
    Result<(&'b Vec<Type>, bool, Type), SemanticError>)
    ensures
        match r {
            Ok((params, has_varargs, ret)) => signature_of(symbol@, call, routine_path@) == Ok::<
                Signature,
                SemanticErrorView,
            >(Signature { params: types_view(*params), has_varargs, ret: ret@ }),
            Err(e) => signature_of(symbol@, call, routine_path@) == Err::<
                Signature,
                SemanticErrorView,
            >(e@),
        },
{
    match (&symbol.ty, call) {
        (Type::FunctionDef(pty, rty), RoutineCall::Function) => Ok((pty, false, (**rty).clone())),
        (Type::ExternDecl(pty, has_varargs, rty), RoutineCall::Extern) => Ok(
            (pty, *has_varargs, (**rty).clone()),
        ),
        (Type::CoroutineDef(pty, rty), RoutineCall::CoroutineInit) => Ok(
            (pty, false, Type::Coroutine(Box::new((**rty).clone()))),
        ),
        _ => Err(
            SemanticError::RoutineCallInvalidTarget(call, routine_path.clone(), symbol.ty.clone()),
        ),
    }
}

/// Every argument whose type differs from the type of the parameter at its
/// position.
fn find_mismatches(given: &Vec<Expression<SemanticContext>>, expected: &Vec<Type>) -> (r: Vec<
    (usize, Type, Type),
>)
    ensures
        mismatches_view(r) == mismatches(
            expressions_view(*given),
            types_view(*expected),
            0,
            Seq::empty(),
        ),
{
    let mut out: Vec<(usize, Type, Type)> = Vec::new();
    let mut i: usize = 0;
    assert(mismatches_view(out) =~= Seq::empty());
    while i < given.len() && i < expected.len()
        invariant
            0 <= i <= given.len(),
            i <= expected.len(),
            mismatches(expressions_view(*given), types_view(*expected), 0, Seq::empty())
                == mismatches(
                expressions_view(*given),
                types_view(*expected),
                i as int,
                mismatches_view(out),
            ),
        decreases given.len() - i,
    {
        let ghost before = mismatches_view(out);
        let user_ty = given[i].get_type();
        if !user_ty.same(&expected[i]) {
            let entry = (i + 1, expected[i].clone(), user_ty.clone());
            let ghost added = (entry.0, entry.1@, entry.2@);
            out.push(entry);
            assert(mismatches_view(out) =~= before.push(added));
        }
        i += 1;
    }
    out
}

/// Checks the arguments of a call against the signature of its target.
fn check_for_invalid_routine_parameters(
    routine_path: &Path,
    given: &Vec<Expression<SemanticContext>>,
    expected_types: &Vec<Type>,
    has_varargs: bool,
) -> (r: Result<(), SemanticError>)
    ensures
        match r {
            Ok(_) => argument_error(
                routine_path@,
                expressions_view(*given),
                types_view(*expected_types),
                has_varargs,
            ) is None,
            Err(e) => argument_error(
                routine_path@,
                expressions_view(*given),
                types_view(*expected_types),
                has_varargs,
            ) == Some(e@),
        },
{
    if !has_varargs && given.len() != expected_types.len() {
        Err(
            SemanticError::RoutineCallWrongNumParams(
                routine_path.clone(),
                expected_types.len(),
                given.len(),
            ),
        )
    } else if has_varargs && given.len() < expected_types.len() {
        Err(
            SemanticError::FunctionParamsNotEnough(
                routine_path.clone(),
                expected_types.len(),
                given.len(),
            ),
        )
    } else {
        let found = find_mismatches(given, expected_types);
        if found.len() == 0 {
            Ok(())
        } else {
            Err(SemanticError::RoutineParamTypeMismatch(routine_path.clone(), found))
        }
    }
}

/// Whether all the expressions have the type of the first.
fn all_of_one_type(es: &Vec<Expression<SemanticContext>>) -> (r: bool)
    requires
        es.len() > 0,
    ensures
        r == homogeneous(expressions_view(*es)),
{
    let el_ty = es[0].get_type();
    let mut i: usize = 0;
    while i < es.len()
        invariant
            0 <= i <= es.len(),
            es.len() > 0,
            el_ty@ == type_of(expressions_view(*es)[0]),
            forall|j: int| 0 <= j < i ==> type_of(#[trigger] expressions_view(*es)[j]) == el_ty@,
        decreases es.len() - i,
    {
        if !es[i].get_type().same(el_ty) {
            assert(type_of(expressions_view(*es)[i as int]) != type_of(expressions_view(*es)[0]));
            return false;
        }
        i += 1;
    }
    true
}

impl<'a> TypeResolver<'a> {
    /// A resolver for the tree at `root`, to which the items of `imports`
    /// are known.  The entry point of the program is the routine `main_fn`
    /// of the module `main_mod`, directly under the root of the project.
    pub fn new(
        root: &'a Module<SemanticContext>,
        imports: &Vec<Import>,
        main_mod: StringId,
        main_fn: StringId,
    ) -> (r: TypeResolver<'a>)
        ensures
            r@ == (ResolverView {
                symbols: import_all(initial_scopes(root@), imports_view(*imports), 0),
                main_fn: seq![Element::CanonicalRoot, Element::Id(main_mod), Element::Id(main_fn)],
            }),
            r@.symbols.distinct_imports(),
    {
        let mut symbols = SymbolTableScopeStack::new(root);
        inject(&mut symbols, imports);
        let mut path = Path::new();
        path.push_element(Element::CanonicalRoot);
        path.push(main_mod);
        path.push(main_fn);
        assert(path@ =~= seq![
            Element::CanonicalRoot,
            Element::Id(main_mod),
            Element::Id(main_fn),
        ]);
        TypeResolver { symbols, main_fn: path }
    }

    /// Resolves the tree that the resolver was made for.  Returns the tree
    /// with the type of every node recorded, or the first error found.  The
    /// scopes are left as they were found, whether the tree resolves or not:
    /// every scope that is entered is left again.
    pub fn resolve_types(&mut self) -> (r: SemanticResult<Module<SemanticContext>>)
        ensures
            final(self)@ == old(self)@,
            match r {
                Ok(out) => resolve_module(
                    old(self)@.symbols,
                    old(self)@.main_fn,
                    old(self)@.symbols.root,
                ) == Ok::<ModuleView<ContextView>, Failure>(out@),
                Err(f) => resolve_module(
                    old(self)@.symbols,
                    old(self)@.main_fn,
                    old(self)@.symbols.root,
                ) == Err::<ModuleView<ContextView>, Failure>(f@),
            },
    {
        let root = self.symbols.get_root();
        self.analyze_module(root)
    }

    /// Checks that `ty` can be the type of a parameter or of a field.
    fn valid_type(&self, ty: &Type, span: Span) -> (r: SemanticResult<()>)
        ensures
            match r {
                Ok(_) => valid_type(self@.symbols, ty@, span) == Ok::<(), Failure>(()),
                Err(f) => valid_type(self@.symbols, ty@, span) == Err::<(), Failure>(f@),
            },
    {
        match ty {
            Type::Custom(named) => match self.symbols.lookup_symbol_by_path(named) {
                Err(e) => fail(span, e),
                Ok((item, _)) => match item.ty {
                    Type::StructDef(_) => Ok(()),
                    _ => fail(span, SemanticError::InvalidIdentifierType(item.ty.clone())),
                },
            },
            _ => Ok(()),
        }
    }

    /// Resolves every child of the expression, checks that every operator
    /// and every call is given operands of the right types, and returns the
    /// expression annotated with its type.  The scopes are left as they
    /// were found.
    fn analyze_expression(&mut self, ast: &Expression<SemanticContext>) -> (r: SemanticResult<
        Expression<SemanticContext>,
    >)
        ensures
            final(self)@ == old(self)@,
            match r {
                Ok(e) => resolve_expression(old(self)@.symbols, ast@) == Ok::<Expr, Failure>(e@),
                Err(f) => resolve_expression(old(self)@.symbols, ast@) == Err::<Expr, Failure>(f@),
            },
        decreases ast, 1int,
    {
        match ast {
            Expression::U8(ctx, v) => Ok(Expression::U8(ctx.with_type(Type::U8), *v)),
            Expression::U16(ctx, v) => Ok(Expression::U16(ctx.with_type(Type::U16), *v)),
            Expression::U32(ctx, v) => Ok(Expression::U32(ctx.with_type(Type::U32), *v)),
            Expression::U64(ctx, v) => Ok(Expression::U64(ctx.with_type(Type::U64), *v)),
            Expression::I8(ctx, v) => Ok(Expression::I8(ctx.with_type(Type::I8), *v)),
            Expression::I16(ctx, v) => Ok(Expression::I16(ctx.with_type(Type::I16), *v)),
            Expression::I32(ctx, v) => Ok(Expression::I32(ctx.with_type(Type::I32), *v)),
            Expression::I64(ctx, v) => Ok(Expression::I64(ctx.with_type(Type::I64), *v)),
            Expression::Boolean(ctx, v) => Ok(Expression::Boolean(ctx.with_type(Type::Bool), *v)),
            Expression::StringLiteral(ctx, v) => Ok(
                Expression::StringLiteral(ctx.with_type(Type::StringLiteral), *v),
            ),
            Expression::ArrayExpression(ctx, elements, len) => self.analyze_array(Ghost(*ast), ctx,
                elements, len),
            Expression::ArrayAt { context: ctx, array,
                index } => self.analyze_array_at(Ghost(*ast), ctx, array, index),
            Expression::CustomType(ctx, name) => {
                let ctx = ctx.with_type(Type::Custom(name.clone()));
                Ok(Expression::CustomType(ctx, name.clone()))
            },
            Expression::IdentifierDeclare(ctx, name, p) => {
                let ctx = ctx.with_type(p.clone());
                Ok(Expression::IdentifierDeclare(ctx, *name, p.clone()))
            },
            Expression::Identifier(ctx, id) => {
                let ctx = match self.symbols.lookup_var(*id) {
                    Err(e) => {
                        return fail(ctx.span(), e);
                    },
                    Ok(symbol) => ctx.with_type(symbol.ty.clone()),
                };
                Ok(Expression::Identifier(ctx, *id))
            },
            Expression::Path(ctx, _) => fail(ctx.span(), SemanticError::PathNotValid),
            Expression::MemberAccess(ctx, src, member) => self.analyze_member_access(Ghost(*ast),
                ctx, src, member),
            Expression::BinaryOp(ctx, op, l, r) => self.analyze_binary_op(Ghost(*ast), ctx, op, l,
                r),
            Expression::UnaryOp(ctx, op, operand) => self.analyze_unary_op(Ghost(*ast), ctx, op,
                operand),
            Expression::If { context: ctx, cond, if_arm, else_arm } => self.analyze_if(Ghost(*ast),
                ctx, cond, if_arm, else_arm),
            Expression::While { context: ctx, cond, body } => self.analyze_while(Ghost(*ast), ctx,
                cond, body),
            Expression::Yield(ctx, exp) => self.analyze_yield(Ghost(*ast), ctx, exp),
            Expression::RoutineCall(ctx, call, routine_path,
                params) => self.analyze_routine_call(Ghost(*ast), ctx, call, routine_path, params),
            Expression::ExpressionBlock(ctx, body, final_exp) => self.analyze_block(Ghost(*ast),
                ctx, body, final_exp),
            Expression::StructExpression(ctx, struct_name,
                params) => self.analyze_struct_expression(Ghost(*ast), ctx, struct_name, params),
        }
    }

    /// Resolves an array value: it has at least one element, and all its
    /// elements have one type.
    fn analyze_array(
        &mut self,
        ast: Ghost<Expression<SemanticContext>>,
        ctx: &SemanticContext,
        elements: &Vec<Expression<SemanticContext>>,
        len: &usize,
    ) -> (res: SemanticResult<Expression<SemanticContext>>)
        requires
            ast@ == Expression::ArrayExpression(*ctx, *elements, *len),
        ensures
            final(self)@ == old(self)@,
            match res {
                Ok(e) => resolve_expression(old(self)@.symbols, ast@@) == Ok::<Expr, Failure>(e@),
                Err(f) => resolve_expression(old(self)@.symbols, ast@@) == Err::<Expr, Failure>(
                    f@,
                ),
            },
        decreases ast@, 0int,
    {
            let nelements = match self.analyze_expressions(elements) {
                Ok(es) => es,
                Err(f) => {
                    return Err(f);
                },
            };
            if nelements.len() == 0 {
                return fail(ctx.span(), SemanticError::ArrayInvalidSize(nelements.len()));
            }
            if !all_of_one_type(&nelements) {
                return fail(ctx.span(), SemanticError::ArrayInconsistentElementTypes);
            }
            let el_ty = nelements[0].get_type().clone();
            let ctx = ctx.with_type(Type::Array(Box::new(el_ty), *len));
            Ok(Expression::ArrayExpression(ctx, nelements, *len))
    }

    /// Resolves the indexing of an array by an integer.
    fn analyze_array_at(
        &mut self,
        ast: Ghost<Expression<SemanticContext>>,
        ctx: &SemanticContext,
        array: &Expression<SemanticContext>,
        index: &Expression<SemanticContext>,
    ) -> (res: SemanticResult<Expression<SemanticContext>>)
        requires
            ast@ == (Expression::ArrayAt { context: *ctx, array: Box::new(*array),
                index: Box::new(*index) }),
        ensures
            final(self)@ == old(self)@,
            match res {
                Ok(e) => resolve_expression(old(self)@.symbols, ast@@) == Ok::<Expr, Failure>(e@),
                Err(f) => resolve_expression(old(self)@.symbols, ast@@) == Err::<Expr, Failure>(
                    f@,
                ),
            },
        decreases ast@, 0int,
    {
            let n_array = match self.analyze_expression(array) {
                Ok(e) => e,
                Err(f) => {
                    return Err(f);
                },
            };
            let el_ty = match n_array.get_type() {
                Type::Array(el_ty, _) => (**el_ty).clone(),
                ty => {
                    return fail(
                        ctx.span(),
                        SemanticError::ArrayIndexingInvalidType(ty.clone()),
                    );
                },
            };
            let n_index = match self.analyze_expression(index) {
                Ok(e) => e,
                Err(f) => {
                    return Err(f);
                },
            };
            if !n_index.get_type().is_integral() {
                return fail(
                    ctx.span(),
                    SemanticError::ArrayIndexingInvalidIndexType(n_index.get_type().clone()),
                );
            }
            Ok(
                Expression::ArrayAt {
                    context: ctx.with_type(el_ty),
                    array: Box::new(n_array),
                    index: Box::new(n_index),
                },
            )
    }

    /// Resolves the reading of a field of a structure.
    fn analyze_member_access(
        &mut self,
        ast: Ghost<Expression<SemanticContext>>,
        ctx: &SemanticContext,
        src: &Expression<SemanticContext>,
        member: &StringId,
    ) -> (res: SemanticResult<Expression<SemanticContext>>)
        requires
            ast@ == Expression::MemberAccess(*ctx, Box::new(*src), *member),
        ensures
            final(self)@ == old(self)@,
            match res {
                Ok(e) => resolve_expression(old(self)@.symbols, ast@@) == Ok::<Expr, Failure>(e@),
                Err(f) => resolve_expression(old(self)@.symbols, ast@@) == Err::<Expr, Failure>(
                    f@,
                ),
            },
        decreases ast@, 0int,
    {
            let src = match self.analyze_expression(src) {
                Ok(e) => e,
                Err(f) => {
                    return Err(f);
                },
            };
            let member_ty = match src.get_type() {
                Type::Custom(struct_name) => {
                    match self.symbols.lookup_symbol_by_path(struct_name) {
                        Err(e) => {
                            return fail(ctx.span(), e);
                        },
                        Ok((struct_def, _)) => match struct_def.ty.get_member(*member) {
                            None => {
                                return fail(
                                    ctx.span(),
                                    SemanticError::MemberAccessMemberNotFound(
                                        struct_name.clone(),
                                        *member,
                                    ),
                                );
                            },
                            Some(member_ty) => member_ty.clone(),
                        },
                    }
                },
                ty => {
                    return fail(
                        ctx.span(),
                        SemanticError::MemberAccessInvalidRootType(ty.clone()),
                    );
                },
            };
            Ok(Expression::MemberAccess(ctx.with_type(member_ty), Box::new(src), *member))
    }

    /// Resolves a binary operation.
    fn analyze_binary_op(
        &mut self,
        ast: Ghost<Expression<SemanticContext>>,
        ctx: &SemanticContext,
        op: &BinaryOperator,
        l: &Expression<SemanticContext>,
        r: &Expression<SemanticContext>,
    ) -> (res: SemanticResult<Expression<SemanticContext>>)
        requires
            ast@ == Expression::BinaryOp(*ctx, *op, Box::new(*l), Box::new(*r)),
        ensures
            final(self)@ == old(self)@,
            match res {
                Ok(e) => resolve_expression(old(self)@.symbols, ast@@) == Ok::<Expr, Failure>(e@),
                Err(f) => resolve_expression(old(self)@.symbols, ast@@) == Err::<Expr, Failure>(
                    f@,
                ),
            },
        decreases ast@, 0int,
    {
            let l = match self.analyze_expression(l) {
                Ok(e) => e,
                Err(f) => {
                    return Err(f);
                },
            };
            let r = match self.analyze_expression(r) {
                Ok(e) => e,
                Err(f) => {
                    return Err(f);
                },
            };
            let ty = match binary_op_type(*op, l.get_type(), r.get_type()) {
                Ok(ty) => ty,
                Err(e) => {
                    return fail(l.get_context().span(), e);
                },
            };
            Ok(Expression::BinaryOp(ctx.with_type(ty), *op, Box::new(l), Box::new(r)))
    }

    /// Resolves a unary operation.
    fn analyze_unary_op(
        &mut self,
        ast: Ghost<Expression<SemanticContext>>,
        ctx: &SemanticContext,
        op: &UnaryOperator,
        operand: &Expression<SemanticContext>,
    ) -> (res: SemanticResult<Expression<SemanticContext>>)
        requires
            ast@ == Expression::UnaryOp(*ctx, *op, Box::new(*operand)),
        ensures
            final(self)@ == old(self)@,
            match res {
                Ok(e) => resolve_expression(old(self)@.symbols, ast@@) == Ok::<Expr, Failure>(e@),
                Err(f) => resolve_expression(old(self)@.symbols, ast@@) == Err::<Expr, Failure>(
                    f@,
                ),
            },
        decreases ast@, 0int,
    {
            let operand = match self.analyze_expression(operand) {
                Ok(e) => e,
                Err(f) => {
                    return Err(f);
                },
            };
            let ty = match unary_op_type(*op, operand.get_type()) {
                Ok(ty) => ty,
                Err(e) => {
                    return fail(operand.get_context().span(), e);
                },
            };
            Ok(Expression::UnaryOp(ctx.with_type(ty), *op, Box::new(operand)))
    }

    /// Resolves a conditional: its condition is a boolean and its arms have
    /// one type; a missing else arm has the type `Unit`.
    fn analyze_if(
        &mut self,
        ast: Ghost<Expression<SemanticContext>>,
        ctx: &SemanticContext,
        cond: &Expression<SemanticContext>,
        if_arm: &Expression<SemanticContext>,
        else_arm: &Option<Box<Expression<SemanticContext>>>,
    ) -> (res: SemanticResult<Expression<SemanticContext>>)
        requires
            ast@ == (Expression::If { context: *ctx, cond: Box::new(*cond),
                if_arm: Box::new(*if_arm), else_arm: *else_arm }),
        ensures
            final(self)@ == old(self)@,
            match res {
                Ok(e) => resolve_expression(old(self)@.symbols, ast@@) == Ok::<Expr, Failure>(e@),
                Err(f) => resolve_expression(old(self)@.symbols, ast@@) == Err::<Expr, Failure>(
                    f@,
                ),
            },
        decreases ast@, 0int,
    {
            let cond = match self.analyze_expression(cond) {
                Ok(e) => e,
                Err(f) => {
                    return Err(f);
                },
            };
            if !cond.get_type().same(&Type::Bool) {
                return fail(
                    ctx.span(),
                    SemanticError::CondExpectedBool(cond.get_type().clone()),
                );
            }
            let if_arm = match self.analyze_expression(if_arm) {
                Ok(e) => e,
                Err(f) => {
                    return Err(f);
                },
            };
            let else_arm = match self.analyze_optional(else_arm) {
                Ok(e) => e,
                Err(f) => {
                    return Err(f);
                },
            };
            let else_arm_ty = match &else_arm {
                Some(e) => e.get_type().clone(),
                None => Type::Unit,
            };
            if !if_arm.get_type().same(&else_arm_ty) {
                return fail(
                    ctx.span(),
                    SemanticError::IfExprMismatchArms(if_arm.get_type().clone(), else_arm_ty),
                );
            }
            let ctx = ctx.with_type(if_arm.get_type().clone());
            Ok(
                Expression::If {
                    context: ctx,
                    cond: Box::new(cond),
                    if_arm: Box::new(if_arm),
                    else_arm,
                },
            )
    }

    /// Resolves a loop: its condition is a boolean and its body has no
    /// value.
    fn analyze_while(
        &mut self,
        ast: Ghost<Expression<SemanticContext>>,
        ctx: &SemanticContext,
        cond: &Expression<SemanticContext>,
        body: &Expression<SemanticContext>,
    ) -> (res: SemanticResult<Expression<SemanticContext>>)
        requires
            ast@ == (Expression::While { context: *ctx, cond: Box::new(*cond),
                body: Box::new(*body) }),
        ensures
            final(self)@ == old(self)@,
            match res {
                Ok(e) => resolve_expression(old(self)@.symbols, ast@@) == Ok::<Expr, Failure>(e@),
                Err(f) => resolve_expression(old(self)@.symbols, ast@@) == Err::<Expr, Failure>(
                    f@,
                ),
            },
        decreases ast@, 0int,
    {
            let cond = match self.analyze_expression(cond) {
                Ok(e) => e,
                Err(f) => {
                    return Err(f);
                },
            };
            if !cond.get_type().same(&Type::Bool) {
                return fail(
                    ctx.span(),
                    SemanticError::WhileCondInvalidType(cond.get_type().clone()),
                );
            }
            let body = match self.analyze_expression(body) {
                Ok(e) => e,
                Err(f) => {
                    return Err(f);
                },
            };
            if !body.get_type().same(&Type::Unit) {
                return fail(
                    ctx.span(),
                    SemanticError::WhileInvalidType(body.get_type().clone()),
                );
            }
            Ok(
                Expression::While {
                    context: ctx.with_type(Type::Unit),
                    cond: Box::new(cond),
                    body: Box::new(body),
                },
            )
    }

    /// Resolves the resumption of a coroutine.
    fn analyze_yield(
        &mut self,
        ast: Ghost<Expression<SemanticContext>>,
        ctx: &SemanticContext,
        exp: &Expression<SemanticContext>,
    ) -> (res: SemanticResult<Expression<SemanticContext>>)
        requires
            ast@ == Expression::Yield(*ctx, Box::new(*exp)),
        ensures
            final(self)@ == old(self)@,
            match res {
                Ok(e) => resolve_expression(old(self)@.symbols, ast@@) == Ok::<Expr, Failure>(e@),
                Err(f) => resolve_expression(old(self)@.symbols, ast@@) == Err::<Expr, Failure>(
                    f@,
                ),
            },
        decreases ast@, 0int,
    {
            let exp = match self.analyze_expression(exp) {
                Ok(e) => e,
                Err(f) => {
                    return Err(f);
                },
            };
            let ctx = match exp.get_type() {
                Type::Coroutine(ret_ty) => ctx.with_type((**ret_ty).clone()),
                ty => {
                    return fail(ctx.span(), SemanticError::YieldInvalidType(ty.clone()));
                },
            };
            Ok(Expression::Yield(ctx, Box::new(exp)))
    }

    /// Resolves a call: the target is found by its path, and the arguments
    /// agree in number and in type with its parameters.
    fn analyze_routine_call(
        &mut self,
        ast: Ghost<Expression<SemanticContext>>,
        ctx: &SemanticContext,
        call: &RoutineCall,
        routine_path: &Path,
        params: &Vec<Expression<SemanticContext>>,
    ) -> (res: SemanticResult<Expression<SemanticContext>>)
        requires
            ast@ == Expression::RoutineCall(*ctx, *call, *routine_path, *params),
        ensures
            final(self)@ == old(self)@,
            match res {
                Ok(e) => resolve_expression(old(self)@.symbols, ast@@) == Ok::<Expr, Failure>(e@),
                Err(f) => resolve_expression(old(self)@.symbols, ast@@) == Err::<Expr, Failure>(
                    f@,
                ),
            },
        decreases ast@, 0int,
    {
            let resolved_params = match self.analyze_expressions(params) {
                Ok(es) => es,
                Err(f) => {
                    return Err(f);
                },
            };
            let (symbol, routine_canon_path) = match self.symbols.lookup_symbol_by_path(
                routine_path,
            ) {
                Ok(found) => found,
                Err(e) => {
                    return fail(ctx.span(), e);
                },
            };
            let call = if symbol.is_extern {
                RoutineCall::Extern
            } else {
                *call
            };
            let (expected_param_tys, has_varargs, ret_ty) = match extract_routine_type_info(
                symbol,
                call,
                &routine_canon_path,
            ) {
                Ok(info) => info,
                Err(e) => {
                    return fail(ctx.span(), e);
                },
            };
            match check_for_invalid_routine_parameters(
                routine_path,
                &resolved_params,
                expected_param_tys,
                has_varargs,
            ) {
                Err(e) => fail(ctx.span(), e),
                Ok(()) => {
                    let ctx = ctx.with_type(ret_ty);
                    Ok(Expression::RoutineCall(ctx, call, routine_canon_path, resolved_params))
                },
            }
    }

    /// Resolves a block in a scope of its own.
    fn analyze_block(
        &mut self,
        ast: Ghost<Expression<SemanticContext>>,
        ctx: &SemanticContext,
        body: &Vec<Statement<SemanticContext>>,
        final_exp: &Option<Box<Expression<SemanticContext>>>,
    ) -> (res: SemanticResult<Expression<SemanticContext>>)
        requires
            ast@ == Expression::ExpressionBlock(*ctx, *body, *final_exp),
        ensures
            final(self)@ == old(self)@,
            match res {
                Ok(e) => resolve_expression(old(self)@.symbols, ast@@) == Ok::<Expr, Failure>(e@),
                Err(f) => resolve_expression(old(self)@.symbols, ast@@) == Err::<Expr, Failure>(
                    f@,
                ),
            },
        decreases ast@, 0int,
    {
            self.symbols.enter_scope(ctx.sym());
            let resolved_body = match self.analyze_statements(body) {
                Ok(ss) => ss,
                Err(f) => {
                    let left = self.symbols.leave_scope();
                    proof {
                        crate::semantics::stack::lemma_enter_leave(
                            old(self)@.symbols,
                            ctx@.sym,
                            left@,
                        );
                    }
                    return Err(f);
                },
            };
            let final_exp = match self.analyze_optional(final_exp) {
                Ok(e) => e,
                Err(f) => {
                    let left = self.symbols.leave_scope();
                    proof {
                        crate::semantics::stack::lemma_enter_leave(
                            old(self)@.symbols,
                            ctx@.sym,
                            left@,
                        );
                    }
                    return Err(f);
                },
            };
            let block_ty = match &final_exp {
                None => Type::Unit,
                Some(fe) => fe.get_type().clone(),
            };
            let sym = self.symbols.leave_scope();
            proof {
                crate::semantics::stack::lemma_enter_leave(
                    old(self)@.symbols,
                    ctx@.sym,
                    sym@,
                );
            }
            let ctx = ctx.with_type(block_ty).with_sym(sym);
            Ok(Expression::ExpressionBlock(ctx, resolved_body, final_exp))
    }

    /// Resolves a structure value: every field is given a value of its
    /// type.
    fn analyze_struct_expression(
        &mut self,
        ast: Ghost<Expression<SemanticContext>>,
        ctx: &SemanticContext,
        struct_name: &Path,
        params: &Vec<(StringId,
        Expression<SemanticContext>)>,
    ) -> (res: SemanticResult<Expression<SemanticContext>>)
        requires
            ast@ == Expression::StructExpression(*ctx, *struct_name, *params),
        ensures
            final(self)@ == old(self)@,
            match res {
                Ok(e) => resolve_expression(old(self)@.symbols, ast@@) == Ok::<Expr, Failure>(e@),
                Err(f) => resolve_expression(old(self)@.symbols, ast@@) == Err::<Expr, Failure>(
                    f@,
                ),
            },
        decreases ast@, 0int,
    {
            let (struct_def_ty, canonical_path) = match self.symbols.lookup_symbol_by_path(
                struct_name,
            ) {
                Ok((struct_def, canonical_path)) => (struct_def.ty.clone(), canonical_path),
                Err(e) => {
                    return fail(ctx.span(), e);
                },
            };
            let expected_num_params = match struct_def_ty.get_members() {
                Some(members) => {
                    assert(crate::ast::ty::fields_view(*members).len() == members.len());
                    members.len()
                },
                None => {
                    return fail(ctx.span(), SemanticError::InvalidStructure);
                },
            };
            assert(named_expressions_view(*params).len() == params.len());
            if params.len() != expected_num_params {
                return fail(
                    ctx.span(),
                    SemanticError::StructExprWrongNumParams(expected_num_params, params.len()),
                );
            }
            let resolved_params = match self.analyze_fields(
                &struct_def_ty,
                &canonical_path,
                ctx.span(),
                params,
            ) {
                Ok(fs) => fs,
                Err(f) => {
                    return Err(f);
                },
            };
            let ctx = ctx.with_type(Type::Custom(struct_name.clone()));
            Ok(Expression::StructExpression(ctx, canonical_path, resolved_params))
    }

    /// Resolves a list of expressions, one after the other.
    fn analyze_expressions(&mut self, es: &Vec<Expression<SemanticContext>>) -> (r: SemanticResult<
        Vec<Expression<SemanticContext>>,
    >)
        ensures
            final(self)@ == old(self)@,
            match r {
                Ok(out) => resolve_expressions(
                    old(self)@.symbols,
                    expressions_view(*es),
                    0,
                    Seq::empty(),
                ) == Ok::<Seq<Expr>, Failure>(expressions_view(out)),
                Err(f) => resolve_expressions(
                    old(self)@.symbols,
                    expressions_view(*es),
                    0,
                    Seq::empty(),
                ) == Err::<Seq<Expr>, Failure>(f@),
            },
        decreases es,
    {
        let mut out: Vec<Expression<SemanticContext>> = Vec::new();
        let mut i: usize = 0;
        assert(expressions_view(out) =~= Seq::empty());
        while i < es.len()
            invariant
                0 <= i <= es.len(),
                self@ == old(self)@,
                resolve_expressions(old(self)@.symbols, expressions_view(*es), 0, Seq::empty())
                    == resolve_expressions(
                    old(self)@.symbols,
                    expressions_view(*es),
                    i as int,
                    expressions_view(out),
                ),
            decreases es.len() - i,
        {
            let ghost before = expressions_view(out);
            match self.analyze_expression(&es[i]) {
                Ok(e) => {
                    out.push(e);
                    assert(expressions_view(out) =~= before.push(e@));
                },
                Err(f) => {
                    return Err(f);
                },
            }
            i += 1;
        }
        Ok(out)
    }

    /// Resolves the values that a structure expression gives to the fields
    /// of the structure `struct_ty`.
    fn analyze_fields(
        &mut self,
        struct_ty: &Type,
        path: &Path,
        span: Span,
        fields: &Vec<(StringId, Expression<SemanticContext>)>,
    ) -> (r: SemanticResult<Vec<(StringId, Expression<SemanticContext>)>>)
        ensures
            final(self)@ == old(self)@,
            match r {
                Ok(out) => resolve_fields(
                    old(self)@.symbols,
                    struct_ty@,
                    path@,
                    span,
                    named_expressions_view(*fields),
                    0,
                    Seq::empty(),
                ) == Ok::<Seq<(StringId, Expr)>, Failure>(named_expressions_view(out)),
                Err(f) => resolve_fields(
                    old(self)@.symbols,
                    struct_ty@,
                    path@,
                    span,
                    named_expressions_view(*fields),
                    0,
                    Seq::empty(),
                ) == Err::<Seq<(StringId, Expr)>, Failure>(f@),
            },
        decreases fields,
    {
        let mut out: Vec<(StringId, Expression<SemanticContext>)> = Vec::new();
        let mut i: usize = 0;
        assert(named_expressions_view(out) =~= Seq::empty());
        while i < fields.len()
            invariant
                0 <= i <= fields.len(),
                self@ == old(self)@,
                resolve_fields(
                    old(self)@.symbols,
                    struct_ty@,
                    path@,
                    span,
                    named_expressions_view(*fields),
                    0,
                    Seq::empty(),
                ) == resolve_fields(
                    old(self)@.symbols,
                    struct_ty@,
                    path@,
                    span,
                    named_expressions_view(*fields),
                    i as int,
                    named_expressions_view(out),
                ),
            decreases fields.len() - i,
        {
            let ghost before = named_expressions_view(out);
            let pn = fields[i].0;
            let member_ty = match struct_ty.get_member(pn) {
                Some(t) => t,
                None => {
                    return fail(span, SemanticError::StructExprMemberNotFound(path.clone(), pn));
                },
            };
            let param = match self.analyze_expression(&fields[i].1) {
                Ok(e) => e,
                Err(f) => {
                    return Err(f);
                },
            };
            if !param.get_type().same(member_ty) {
                return fail(
                    span,
                    SemanticError::StructExprFieldTypeMismatch(
                        path.clone(),
                        pn,
                        member_ty.clone(),
                        param.get_type().clone(),
                    ),
                );
            }
            let ghost added = (pn, param@);
            out.push((pn, param));
            assert(named_expressions_view(out) =~= before.push(added));
            i += 1;
        }
        Ok(out)
    }

    /// Resolves an expression that may be missing.
    fn analyze_optional(&mut self, e: &Option<Box<Expression<SemanticContext>>>) -> (r:
        SemanticResult<Option<Box<Expression<SemanticContext>>>>)
        ensures
            final(self)@ == old(self)@,
            match r {
                Ok(v) => resolve_optional(
                    old(self)@.symbols,
                    match e {
                        Some(e) => Some(e@),
                        None => None,
                    },
                ) == Ok::<Option<Expr>, Failure>(
                    match v {
                        Some(e) => Some(e@),
                        None => None,
                    },
                ),
                Err(f) => resolve_optional(
                    old(self)@.symbols,
                    match e {
                        Some(e) => Some(e@),
                        None => None,
                    },
                ) == Err::<Option<Expr>, Failure>(f@),
            },
        decreases e,
    {
        match e {
            None => Ok(None),
            Some(e) => match self.analyze_expression(e) {
                Ok(e) => Ok(Some(Box::new(e))),
                Err(f) => Err(f),
            },
        }
    }

    /// Resolves the value of a `return` or of a `yret`.
    fn analyze_value(&mut self, value: &Option<Expression<SemanticContext>>) -> (r: SemanticResult<
        Option<Expression<SemanticContext>>,
    >)
        ensures
            final(self)@ == old(self)@,
            match r {
                Ok(v) => resolve_optional(
                    old(self)@.symbols,
                    match value {
                        Some(e) => Some(e@),
                        None => None,
                    },
                ) == Ok::<Option<Expr>, Failure>(
                    match v {
                        Some(e) => Some(e@),
                        None => None,
                    },
                ),
                Err(f) => resolve_optional(
                    old(self)@.symbols,
                    match value {
                        Some(e) => Some(e@),
                        None => None,
                    },
                ) == Err::<Option<Expr>, Failure>(f@),
            },
        decreases value,
    {
        match value {
            None => Ok(None),
            Some(e) => match self.analyze_expression(e) {
                Ok(e) => Ok(Some(e)),
                Err(f) => Err(f),
            },
        }
    }

    /// Resolves a statement.  A binding declares its name in the scope of
    /// the head; nothing else changes the scopes.
    fn analyze_statement(&mut self, stmt: &Statement<SemanticContext>) -> (r: SemanticResult<
        Statement<SemanticContext>,
    >)
        ensures
            final(self)@.main_fn == old(self)@.main_fn,
            final(self)@.symbols == old(self)@.symbols.with_head(final(self)@.symbols.head),
            r is Err ==> final(self)@ == old(self)@,
            match r {
                Ok(s) => resolve_statement(old(self)@.symbols, stmt@) == Ok::<
                    (Stmt, SymbolTableView),
                    Failure,
                >((s@, final(self)@.symbols.head)) && final(self)@.symbols
                    == old(self)@.symbols.with_head(final(self)@.symbols.head),
                Err(f) => resolve_statement(old(self)@.symbols, stmt@) == Err::<
                    (Stmt, SymbolTableView),
                    Failure,
                >(f@),
            },
        decreases stmt,
    {
        match stmt {
            Statement::Bind(b) => match self.analyze_bind(b) {
                Ok(b) => Ok(Statement::Bind(Box::new(b))),
                Err(f) => Err(f),
            },
            Statement::Mutate(m) => match self.analyze_mutate(m) {
                Ok(m) => Ok(Statement::Mutate(Box::new(m))),
                Err(f) => Err(f),
            },
            Statement::Return(x) => match self.analyze_return(x) {
                Ok(x) => Ok(Statement::Return(Box::new(x))),
                Err(f) => Err(f),
            },
            Statement::YieldReturn(x) => match self.analyze_yieldreturn(x) {
                Ok(x) => Ok(Statement::YieldReturn(Box::new(x))),
                Err(f) => Err(f),
            },
            Statement::Expression(e) => match self.analyze_expression(e) {
                Ok(e) => Ok(Statement::Expression(Box::new(e))),
                Err(f) => Err(f),
            },
        }
    }

    /// Resolves a list of statements, each in the scope that the statements
    /// before it left.
    fn analyze_statements(&mut self, ss: &Vec<Statement<SemanticContext>>) -> (r: SemanticResult<
        Vec<Statement<SemanticContext>>,
    >)
        ensures
            final(self)@.main_fn == old(self)@.main_fn,
            final(self)@.symbols == old(self)@.symbols.with_head(final(self)@.symbols.head),
            match r {
                Ok(out) => resolve_statements(
                    old(self)@.symbols,
                    statements_view(*ss),
                    0,
                    Seq::empty(),
                ) == Ok::<(Seq<Stmt>, SymbolTableView), Failure>(
                    (statements_view(out), final(self)@.symbols.head),
                ) && final(self)@.symbols == old(self)@.symbols.with_head(
                    final(self)@.symbols.head,
                ),
                Err(f) => resolve_statements(
                    old(self)@.symbols,
                    statements_view(*ss),
                    0,
                    Seq::empty(),
                ) == Err::<(Seq<Stmt>, SymbolTableView), Failure>(f@),
            },
        decreases ss,
    {
        let mut out: Vec<Statement<SemanticContext>> = Vec::new();
        let mut i: usize = 0;
        assert(statements_view(out) =~= Seq::empty());
        assert(old(self)@.symbols.with_head(old(self)@.symbols.head) == old(self)@.symbols);
        while i < ss.len()
            invariant
                0 <= i <= ss.len(),
                self@.main_fn == old(self)@.main_fn,
                self@.symbols == old(self)@.symbols.with_head(self@.symbols.head),
                resolve_statements(old(self)@.symbols, statements_view(*ss), 0, Seq::empty())
                    == resolve_statements(
                    self@.symbols,
                    statements_view(*ss),
                    i as int,
                    statements_view(out),
                ),
            decreases ss.len() - i,
        {
            let ghost before = statements_view(out);
            match self.analyze_statement(&ss[i]) {
                Ok(s) => {
                    out.push(s);
                    assert(statements_view(out) =~= before.push(s@));
                },
                Err(f) => {
                    return Err(f);
                },
            }
            i += 1;
        }
        Ok(out)
    }

    fn analyze_bind(&mut self, bind: &Bind<SemanticContext>) -> (r: SemanticResult<
        Bind<SemanticContext>,
    >)
        ensures
            final(self)@.main_fn == old(self)@.main_fn,
            final(self)@.symbols == old(self)@.symbols.with_head(final(self)@.symbols.head),
            r is Err ==> final(self)@ == old(self)@,
            match r {
                Ok(b) => resolve_statement(
                    old(self)@.symbols,
                    Statement::Bind(Box::new(*bind))@,
                ) == Ok::<(Stmt, SymbolTableView), Failure>(
                    (Statement::Bind(Box::new(b))@, final(self)@.symbols.head),
                ) && final(self)@.symbols == old(self)@.symbols.with_head(
                    final(self)@.symbols.head,
                ),
                Err(f) => resolve_statement(
                    old(self)@.symbols,
                    Statement::Bind(Box::new(*bind))@,
                ) == Err::<(Stmt, SymbolTableView), Failure>(f@),
            },
        decreases bind,
    {
        let span = bind.get_metadata().span();
        let ctx = bind.get_metadata().with_type(bind.get_type().clone());
        let rhs = match self.analyze_expression(bind.get_rhs()) {
            Ok(e) => e,
            Err(f) => {
                return Err(f);
            },
        };
        if ctx.ty().same(rhs.get_type()) {
            match self.symbols.add(bind.get_id(), ctx.ty().clone(), bind.is_mutable(), false) {
                Ok(()) => {
                    let ty = ctx.ty().clone();
                    Ok(Bind::new(ctx, bind.get_id(), ty, bind.is_mutable(), rhs))
                },
                Err(e) => fail(span, e),
            }
        } else {
            fail(span, SemanticError::BindExpected(ctx.ty().clone(), rhs.get_type().clone()))
        }
    }

    fn analyze_mutate(&mut self, mutate: &Mutate<SemanticContext>) -> (r: SemanticResult<
        Mutate<SemanticContext>,
    >)
        ensures
            final(self)@ == old(self)@,
            match r {
                Ok(m) => resolve_statement(
                    old(self)@.symbols,
                    Statement::Mutate(Box::new(*mutate))@,
                ) == Ok::<(Stmt, SymbolTableView), Failure>(
                    (Statement::Mutate(Box::new(m))@, old(self)@.symbols.head),
                ),
                Err(f) => resolve_statement(
                    old(self)@.symbols,
                    Statement::Mutate(Box::new(*mutate))@,
                ) == Err::<(Stmt, SymbolTableView), Failure>(f@),
            },
        decreases mutate,
    {
        let span = mutate.get_metadata().span();
        let rhs = match self.analyze_expression(mutate.get_rhs()) {
            Ok(e) => e,
            Err(f) => {
                return Err(f);
            },
        };
        match self.symbols.lookup_var(mutate.get_id()) {
            Ok(symbol) => {
                if symbol.mutable {
                    if symbol.ty.same(rhs.get_type()) {
                        let ctx = mutate.get_metadata().with_type(rhs.get_type().clone());
                        Ok(Mutate::new(ctx, mutate.get_id(), rhs))
                    } else {
                        fail(
                            span,
                            SemanticError::BindMismatch(
                                mutate.get_id(),
                                symbol.ty.clone(),
                                rhs.get_type().clone(),
                            ),
                        )
                    }
                } else {
                    fail(span, SemanticError::VariableNotMutable(mutate.get_id()))
                }
            },
            Err(e) => fail(span, e),
        }
    }

    fn analyze_yieldreturn(&mut self, yr: &YieldReturn<SemanticContext>) -> (r: SemanticResult<
        YieldReturn<SemanticContext>,
    >)
        ensures
            final(self)@ == old(self)@,
            match r {
                Ok(y) => resolve_statement(
                    old(self)@.symbols,
                    Statement::YieldReturn(Box::new(*yr))@,
                ) == Ok::<(Stmt, SymbolTableView), Failure>(
                    (Statement::YieldReturn(Box::new(y))@, old(self)@.symbols.head),
                ),
                Err(f) => resolve_statement(
                    old(self)@.symbols,
                    Statement::YieldReturn(Box::new(*yr))@,
                ) == Err::<(Stmt, SymbolTableView), Failure>(f@),
            },
        decreases yr,
    {
        let span = yr.get_metadata().span();
        let actual_ret_exp = match self.analyze_value(yr.get_value()) {
            Ok(v) => v,
            Err(f) => {
                return Err(f);
            },
        };
        let actual_ret_ty = match &actual_ret_exp {
            None => Type::Unit,
            Some(exp) => exp.get_type().clone(),
        };
        let current_func = match self.symbols.get_current_fn() {
            Some(name) => name,
            None => {
                return fail(span, SemanticError::YieldInvalidLocation);
            },
        };
        let expected_ret_ty = match self.symbols.lookup_coroutine(current_func) {
            Ok((_, ret)) => ret,
            Err(e) => {
                return fail(span, e);
            },
        };
        if actual_ret_ty.same(expected_ret_ty) {
            let ctx = yr.get_metadata().with_type(actual_ret_ty);
            Ok(YieldReturn::new(ctx, actual_ret_exp))
        } else {
            fail(span, SemanticError::YieldExpected(expected_ret_ty.clone(), actual_ret_ty))
        }
    }

    fn analyze_return(&mut self, r: &Return<SemanticContext>) -> (res: SemanticResult<
        Return<SemanticContext>,
    >)
        ensures
            final(self)@ == old(self)@,
            match res {
                Ok(y) => resolve_statement(
                    old(self)@.symbols,
                    Statement::Return(Box::new(*r))@,
                ) == Ok::<(Stmt, SymbolTableView), Failure>(
                    (Statement::Return(Box::new(y))@, old(self)@.symbols.head),
                ),
                Err(f) => resolve_statement(
                    old(self)@.symbols,
                    Statement::Return(Box::new(*r))@,
                ) == Err::<(Stmt, SymbolTableView), Failure>(f@),
            },
        decreases r,
    {
        let span = r.get_metadata().span();
        let actual_ret_exp = match self.analyze_value(r.get_value()) {
            Ok(v) => v,
            Err(f) => {
                return Err(f);
            },
        };
        let actual_ret_ty = match &actual_ret_exp {
            None => Type::Unit,
            Some(exp) => exp.get_type().clone(),
        };
        let current_func = match self.symbols.get_current_fn() {
            Some(name) => name,
            None => {
                return fail(span, SemanticError::ReturnInvalidLocation);
            },
        };
        let expected_ret_ty = match self.symbols.lookup_func_or_cor(current_func) {
            Ok((_, ret)) => ret,
            Err(e) => {
                return fail(span, e);
            },
        };
        if actual_ret_ty.same(expected_ret_ty) {
            let ctx = r.get_metadata().with_type(actual_ret_ty);
            Ok(Return::new(ctx, actual_ret_exp))
        } else {
            fail(span, SemanticError::ReturnExpected(expected_ret_ty.clone(), actual_ret_ty))
        }
    }

    /// Checks that the entry point of the program is a function without
    /// parameters that returns `I64`.
    fn validate_main_fn(routine: &RoutineDef<SemanticContext>) -> (r: SemanticResult<()>)
        ensures
            match r {
                Ok(_) => main_fn_error(routine@) is None,
                Err(f) => main_fn_error(routine@) is Some && f@ == failure(
                    routine@.annotations.span,
                    main_fn_error(routine@).unwrap(),
                ),
            },
    {
        assert(parameters_view(routine.params).len() == routine.params.len());
        if routine.def != RoutineDefType::Function {
            return fail(routine.annotations.span(), SemanticError::MainFnInvalidType);
        }
        if routine.params.len() > 0 {
            return fail(routine.annotations.span(), SemanticError::MainFnInvalidParams);
        }
        if !routine.ty.same(&Type::I64) {
            return fail(routine.annotations.span(), SemanticError::MainFnInvalidType);
        }
        Ok(())
    }

    /// Resolves a function or a coroutine in a scope of its own, in which
    /// its parameters are declared.
    fn analyze_routine(&mut self, routine: &RoutineDef<SemanticContext>) -> (r: SemanticResult<
        RoutineDef<SemanticContext>,
    >)
        ensures
            final(self)@ == old(self)@,
            match r {
                Ok(def) => resolve_routine(old(self)@.symbols, old(self)@.main_fn, routine@)
                    == Ok::<
                    RoutineDefView<ContextView>,
                    Failure,
                >(def@),
                Err(f) => resolve_routine(old(self)@.symbols, old(self)@.main_fn, routine@)
                    == Err::<
                    RoutineDefView<ContextView>,
                    Failure,
                >(f@),
            },
    {
        if routine.annotations.canonical_path().same(&self.main_fn) {
            match Self::validate_main_fn(routine) {
                Ok(()) => {},
                Err(f) => {
                    return Err(f);
                },
            }
        }
        let mut ctx = routine.annotations.with_type(routine.ty.clone());
        let span = ctx.span();
        let mut i: usize = 0;
        while i < routine.params.len()
            invariant
                0 <= i <= routine.params.len(),
                self@ == old(self)@,
                span == routine@.annotations.span,
                !(routine@.annotations.canonical_path == old(self)@.main_fn && main_fn_error(
                    routine@,
                ) is Some),
                ctx@ == routine@.annotations.with_type(routine@.ty).with_sym(ctx@.sym),
                declare_params(
                    self@.symbols,
                    routine@.annotations.sym,
                    routine@.params,
                    routine@.annotations.span,
                    0,
                ) == declare_params(
                    self@.symbols,
                    ctx@.sym,
                    routine@.params,
                    routine@.annotations.span,
                    i as int,
                ),
            decreases routine.params.len() - i,
        {
            let p = &routine.params[i];
            assert(routine@.params[i as int] == p@);
            match self.valid_type(&p.ty, span) {
                Ok(()) => {},
                Err(f) => {
                    return Err(f);
                },
            }
            match ctx.add_symbol(p.name, p.ty.clone(), false, false) {
                Ok(()) => {},
                Err(e) => {
                    return fail(p.annotation.span(), e);
                },
            }
            i += 1;
        }
        self.symbols.enter_scope(ctx.sym());
        let resolved_body = match self.analyze_statements(&routine.body) {
            Ok(ss) => ss,
            Err(f) => {
                let left = self.symbols.leave_scope();
                proof {
                    crate::semantics::stack::lemma_enter_leave(old(self)@.symbols, ctx@.sym, left@);
                }
                return Err(f);
            },
        };
        let sym = self.symbols.leave_scope();
        proof {
            crate::semantics::stack::lemma_enter_leave(old(self)@.symbols, ctx@.sym, sym@);
        }
        Ok(
            RoutineDef {
                annotations: ctx.with_sym(sym),
                def: routine.def,
                name: routine.name,
                params: type_parameters(&routine.params),
                ty: routine.ty.clone(),
                body: resolved_body,
            },
        )
    }

    /// Resolves the definition of a structure.
    fn analyze_structdef(&mut self, struct_def: &StructDef<SemanticContext>) -> (r: SemanticResult<
        StructDef<SemanticContext>,
    >)
        ensures
            final(self)@ == old(self)@,
            match r {
                Ok(def) => resolve_structdef(old(self)@.symbols, struct_def@) == Ok::<
                    StructDefView<ContextView>,
                    Failure,
                >(def@),
                Err(f) => resolve_structdef(old(self)@.symbols, struct_def@) == Err::<
                    StructDefView<ContextView>,
                    Failure,
                >(f@),
            },
    {
        let fields = struct_def.get_fields();
        let mut i: usize = 0;
        while i < fields.len()
            invariant
                0 <= i <= fields.len(),
                *fields == struct_def.fields,
                valid_fields(self@.symbols, struct_def@.fields, 0) == valid_fields(
                    self@.symbols,
                    struct_def@.fields,
                    i as int,
                ),
            decreases fields.len() - i,
        {
            assert(struct_def@.fields[i as int] == fields@[i as int]@);
            match self.valid_type(&fields[i].ty, fields[i].annotation.span()) {
                Ok(()) => {},
                Err(f) => {
                    return Err(f);
                },
            }
            i += 1;
        }
        let ctx = struct_def.annotations.with_type(Type::Unit);
        Ok(StructDef::new(struct_def.get_name(), ctx, type_parameters(fields)))
    }

    /// Resolves the declaration of an external function.
    fn analyze_external(&mut self, ex: &Extern<SemanticContext>) -> (r: SemanticResult<
        Extern<SemanticContext>,
    >)
        ensures
            final(self)@ == old(self)@,
            match r {
                Ok(def) => resolve_external(ex@) == Ok::<ExternView<ContextView>, Failure>(def@),
                Err(f) => resolve_external(ex@) == Err::<ExternView<ContextView>, Failure>(f@),
            },
    {
        let params = ex.get_params();
        let mut i: usize = 0;
        while i < params.len()
            invariant
                0 <= i <= params.len(),
                *params == ex.params,
                first_named_param(ex@.params, 0) == first_named_param(ex@.params, i as int),
            decreases params.len() - i,
        {
            assert(ex@.params[i as int] == params@[i as int]@);
            if let Type::Custom(_) = &params[i].ty {
                return fail(
                    ex.annotations.span(),
                    SemanticError::InvalidIdentifierType(params[i].ty.clone()),
                );
            }
            i += 1;
        }
        let ctx = ex.annotations.with_type(ex.get_return_type().clone());
        Ok(
            Extern::new(
                ex.get_name(),
                ctx,
                type_parameters(params),
                ex.has_varargs,
                ex.ty.clone(),
            ),
        )
    }

    fn analyze_item(&mut self, i: &Item<SemanticContext>) -> (r: SemanticResult<
        Item<SemanticContext>,
    >)
        ensures
            final(self)@ == old(self)@,
            match r {
                Ok(item) => resolve_item(old(self)@.symbols, old(self)@.main_fn, i@) == Ok::<
                    ItemView<ContextView>,
                    Failure,
                >(item@),
                Err(f) => resolve_item(old(self)@.symbols, old(self)@.main_fn, i@) == Err::<
                    ItemView<ContextView>,
                    Failure,
                >(f@),
            },
    {
        match i {
            Item::Struct(s) => match self.analyze_structdef(s) {
                Ok(s2) => Ok(Item::Struct(s2)),
                Err(f) => Err(f),
            },
            Item::Routine(r) => match self.analyze_routine(r) {
                Ok(r2) => Ok(Item::Routine(r2)),
                Err(f) => Err(f),
            },
            Item::Extern(ex) => match self.analyze_external(ex) {
                Ok(e2) => Ok(Item::Extern(e2)),
                Err(f) => Err(f),
            },
        }
    }

    /// Resolves a list of items, one after the other.
    fn analyze_items(&mut self, items: &Vec<Item<SemanticContext>>) -> (r: SemanticResult<
        Vec<Item<SemanticContext>>,
    >)
        ensures
            final(self)@ == old(self)@,
            match r {
                Ok(out) => resolve_items(
                    old(self)@.symbols,
                    old(self)@.main_fn,
                    items_view(*items),
                    0,
                    Seq::empty(),
                ) == Ok::<Seq<ItemView<ContextView>>, Failure>(items_view(out)),
                Err(f) => resolve_items(
                    old(self)@.symbols,
                    old(self)@.main_fn,
                    items_view(*items),
                    0,
                    Seq::empty(),
                ) == Err::<Seq<ItemView<ContextView>>, Failure>(f@),
            },
    {
        let mut out: Vec<Item<SemanticContext>> = Vec::new();
        let mut i: usize = 0;
        assert(items_view(out) =~= Seq::empty());
        while i < items.len()
            invariant
                0 <= i <= items.len(),
                self@ == old(self)@,
                resolve_items(
                    old(self)@.symbols,
                    old(self)@.main_fn,
                    items_view(*items),
                    0,
                    Seq::empty(),
                ) == resolve_items(
                    old(self)@.symbols,
                    old(self)@.main_fn,
                    items_view(*items),
                    i as int,
                    items_view(out),
                ),
            decreases items.len() - i,
        {
            let ghost before = items_view(out);
            match self.analyze_item(&items[i]) {
                Ok(item) => {
                    out.push(item);
                    assert(items_view(out) =~= before.push(item@));
                },
                Err(f) => {
                    return Err(f);
                },
            }
            i += 1;
        }
        Ok(out)
    }

    /// Resolves a module with everything in it.
    fn analyze_module(&mut self, m: &Module<SemanticContext>) -> (r: SemanticResult<
        Module<SemanticContext>,
    >)
        ensures
            final(self)@ == old(self)@,
            match r {
                Ok(out) => resolve_module(old(self)@.symbols, old(self)@.main_fn, m@) == Ok::<
                    ModuleView<ContextView>,
                    Failure,
                >(out@),
                Err(f) => resolve_module(old(self)@.symbols, old(self)@.main_fn, m@) == Err::<
                    ModuleView<ContextView>,
                    Failure,
                >(f@),
            },
        decreases m,
    {
        self.symbols.enter_scope(m.annotations.sym());
        let modules = match self.analyze_modules(&m.modules) {
            Ok(ms) => ms,
            Err(f) => {
                let left = self.symbols.leave_scope();
                proof {
                    crate::semantics::stack::lemma_enter_leave(
                        old(self)@.symbols,
                        m@.annotations.sym,
                        left@,
                    );
                }
                return Err(f);
            },
        };
        let functions = match self.analyze_items(&m.functions) {
            Ok(is) => is,
            Err(f) => {
                let left = self.symbols.leave_scope();
                proof {
                    crate::semantics::stack::lemma_enter_leave(
                        old(self)@.symbols,
                        m@.annotations.sym,
                        left@,
                    );
                }
                return Err(f);
            },
        };
        let coroutines = match self.analyze_items(&m.coroutines) {
            Ok(is) => is,
            Err(f) => {
                let left = self.symbols.leave_scope();
                proof {
                    crate::semantics::stack::lemma_enter_leave(
                        old(self)@.symbols,
                        m@.annotations.sym,
                        left@,
                    );
                }
                return Err(f);
            },
        };
        let structs = match self.analyze_items(&m.structs) {
            Ok(is) => is,
            Err(f) => {
                let left = self.symbols.leave_scope();
                proof {
                    crate::semantics::stack::lemma_enter_leave(
                        old(self)@.symbols,
                        m@.annotations.sym,
                        left@,
                    );
                }
                return Err(f);
            },
        };
        let externs = match self.analyze_items(&m.externs) {
            Ok(is) => is,
            Err(f) => {
                let left = self.symbols.leave_scope();
                proof {
                    crate::semantics::stack::lemma_enter_leave(
                        old(self)@.symbols,
                        m@.annotations.sym,
                        left@,
                    );
                }
                return Err(f);
            },
        };
        let sym = self.symbols.leave_scope();
        proof {
            crate::semantics::stack::lemma_enter_leave(
                old(self)@.symbols,
                m@.annotations.sym,
                sym@,
            );
        }
        Ok(
            Module {
                annotations: m.annotations.with_type(Type::Unit),
                name: m.name,
                modules,
                functions,
                coroutines,
                structs,
                externs,
            },
        )
    }

    /// Resolves a list of modules, one after the other.
    fn analyze_modules(&mut self, ms: &Vec<Module<SemanticContext>>) -> (r: SemanticResult<
        Vec<Module<SemanticContext>>,
    >)
        ensures
            final(self)@ == old(self)@,
            match r {
                Ok(out) => resolve_modules(
                    old(self)@.symbols,
                    old(self)@.main_fn,
                    modules_view(*ms),
                    0,
                    Seq::empty(),
                ) == Ok::<Seq<ModuleView<ContextView>>, Failure>(modules_view(out)),
                Err(f) => resolve_modules(
                    old(self)@.symbols,
                    old(self)@.main_fn,
                    modules_view(*ms),
                    0,
                    Seq::empty(),
                ) == Err::<Seq<ModuleView<ContextView>>, Failure>(f@),
            },
        decreases ms,
    {
        let mut out: Vec<Module<SemanticContext>> = Vec::new();
        let mut i: usize = 0;
        assert(modules_view(out) =~= Seq::empty());
        while i < ms.len()
            invariant
                0 <= i <= ms.len(),
                self@ == old(self)@,
                resolve_modules(
                    old(self)@.symbols,
                    old(self)@.main_fn,
                    modules_view(*ms),
                    0,
                    Seq::empty(),
                ) == resolve_modules(
                    old(self)@.symbols,
                    old(self)@.main_fn,
                    modules_view(*ms),
                    i as int,
                    modules_view(out),
                ),
            decreases ms.len() - i,
        {
            let ghost before = modules_view(out);
            match self.analyze_module(&ms[i]) {
                Ok(m) => {
                    out.push(m);
                    assert(modules_view(out) =~= before.push(m@));
                },
                Err(f) => {
                    return Err(f);
                },
            }
            i += 1;
        }
        Ok(out)
    }
}

/// Annotates each parameter with the type that it declares.
pub fn type_parameters(ps: &Vec<Parameter<SemanticContext>>) -> (r: Vec<
    Parameter<SemanticContext>,
>)
    ensures
        parameters_view(r) == typed_parameters(parameters_view(*ps)),
{
    let mut out: Vec<Parameter<SemanticContext>> = Vec::new();
    let mut i: usize = 0;
    while i < ps.len()
        invariant
            0 <= i <= ps.len(),
            out.len() == i,
            forall|j: int|
                0 <= j < i ==> out@[j]@ == #[trigger] typed_parameters(parameters_view(*ps))[j],
        decreases ps.len() - i,
    {
        let p = &ps[i];
        out.push(
            Parameter {
                annotation: p.annotation.with_type(p.ty.clone()),
                name: p.name,
                ty: p.ty.clone(),
            },
        );
        i += 1;
    }
    assert(parameters_view(out) =~= typed_parameters(parameters_view(*ps)));
    out
}

/// The scopes of a resolver that has not entered the tree at `root` yet.
pub open spec fn initial_scopes(root: ModuleView<ContextView>) -> ScopeStackView {
    ScopeStackView {
        root,
        stack: Seq::empty(),
        head: SymbolTableView::empty(ScopeType::Local),
        imported: Seq::empty(),
    }
}

/// The result of semantic analysis: the parsed tree is annotated, made
/// canonical, its items are registered, and then every node is resolved
/// with the imported items known.  The entry point of the program is the
/// routine `main_fn` of the module `main_mod`.
pub open spec fn resolution(
    ast: ModuleView<ParserContext>,
    main_mod: StringId,
    main_fn: StringId,
    imports: Seq<ImportView>,
) -> Result<ModuleView<ContextView>, Failure> {
    match canonical_tree(annotate_module(ast, 0).0) {
        Err(f) => Err(f),
        Ok(canon) => match register_module(canon) {
            Err(e) => Err(failure(Span::of(0, 0), e)),
            Ok(registered) => resolve_module(
                import_all(initial_scopes(registered), imports, 0),
                seq![Element::CanonicalRoot, Element::Id(main_mod), Element::Id(main_fn)],
                registered,
            ),
        },
    }
}

/// Analysis is a function of the tree: two trees that are the same value,
/// such as a tree and its copy, are resolved to the same result.
pub proof fn lemma_resolution_repeats(
    a: Module<ParserContext>,
    b: Module<ParserContext>,
    main_mod: StringId,
    main_fn: StringId,
    imports: Seq<ImportView>,
)
    requires
        a@ == b@,
    ensures
        resolution(a@, main_mod, main_fn, imports) == resolution(b@, main_mod, main_fn, imports),
{
}

/// No definition of an analysed tree is left without its type: every
/// module has the type `Unit`, and every item and every parameter or field
/// the type that it declares.
pub proof fn lemma_resolution_is_typed(
    ast: ModuleView<ParserContext>,
    main_mod: StringId,
    main_fn: StringId,
    imports: Seq<ImportView>,
)
    requires
        resolution(ast, main_mod, main_fn, imports) is Ok,
    ensures
        definitions_typed(resolution(ast, main_mod, main_fn, imports)->Ok_0),
{
    let registered = register_module(canonical_tree(annotate_module(ast, 0).0)->Ok_0)->Ok_0;
    lemma_module_is_typed(
        import_all(initial_scopes(registered), imports, 0),
        seq![Element::CanonicalRoot, Element::Id(main_mod), Element::Id(main_fn)],
        registered,
    );
}

/// Resolves the types of a parsed tree that uses no imported items.
pub fn resolve_types(ast: &Module<ParserContext>, main_mod: StringId, main_fn: StringId) -> (r:
    SemanticResult<Module<SemanticContext>>)
    ensures
        r is Ok ==> definitions_typed(r->Ok_0@),
        match r {
            Ok(out) => resolution(ast@, main_mod, main_fn, Seq::empty()) == Ok::<
                ModuleView<ContextView>,
                Failure,
            >(out@),
            Err(f) => resolution(ast@, main_mod, main_fn, Seq::empty()) == Err::<
                ModuleView<ContextView>,
                Failure,
            >(f@),
        },
{
    let imports: Vec<Import> = Vec::new();
    assert(imports_view(imports) =~= Seq::empty());
    resolve_types_with_imports(ast, main_mod, main_fn, &imports)
}

/// Resolves the types of a parsed tree: returns the tree with the type of
/// every node and the canonical path of every item recorded, or the first
/// semantic error with the span of the text that caused it.
pub fn resolve_types_with_imports(
    ast: &Module<ParserContext>,
    main_mod: StringId,
    main_fn: StringId,
    imports: &Vec<Import>,
) -> (r: SemanticResult<Module<SemanticContext>>)
    ensures
        r is Ok ==> definitions_typed(r->Ok_0@),
        match r {
            Ok(out) => resolution(ast@, main_mod, main_fn, imports_view(*imports)) == Ok::<
                ModuleView<ContextView>,
                Failure,
            >(out@),
            Err(f) => resolution(ast@, main_mod, main_fn, imports_view(*imports)) == Err::<
                ModuleView<ContextView>,
                Failure,
            >(f@),
        },
{
    proof {
        if resolution(ast@, main_mod, main_fn, imports_view(*imports)) is Ok {
            lemma_resolution_is_typed(ast@, main_mod, main_fn, imports_view(*imports));
        }
    }
    let mut sa = SemanticAst::new();
    let mut sm_ast = sa.from_module(ast);
    match canonize_paths(&mut sm_ast) {
        Ok(()) => {},
        Err(f) => {
            return Err(f);
        },
    }
    match SymbolTable::add_item_defs_to_table(&mut sm_ast) {
        Ok(()) => {},
        Err(e) => {
            return fail(Span::zero(), e);
        },
    }
    let mut semantic = TypeResolver::new(&sm_ast, imports, main_mod, main_fn);
    proof {
        lemma_import_keeps_scopes(initial_scopes(sm_ast@), imports_view(*imports), 0);
    }
    semantic.resolve_types()
}

} // verus!
