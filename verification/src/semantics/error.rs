//! The errors of semantic analysis.  An error is returned as soon as it is
//! found, together with the span of the text that caused it.
use crate::ast::expression::{BinaryOperator, RoutineCall, UnaryOperator};
use crate::ast::path::{Element, Path, PathError};
use crate::ast::ty::{Type, TypeView};
use crate::source::span::Span;
use crate::stringtable::StringId;
use vstd::prelude::*;

verus! {

/// An error of one stage of the compiler, with the span of source text that
/// caused it.
#[derive(Debug, PartialEq)]
pub struct CompilerError<E> {
    span: Span,
    inner: E,
}

pub ghost struct CompilerErrorView<V> {
    pub span: Span,
    pub inner: V,
}

impl<E: View> View for CompilerError<E> {
    type V = CompilerErrorView<E::V>;

    closed spec fn view(&self) -> CompilerErrorView<E::V> {
        CompilerErrorView { span: self.span, inner: self.inner@ }
    }
}

impl<E: View> CompilerError<E> {
    pub fn new(span: Span, inner: E) -> (r: CompilerError<E>)
        ensures
            r@ == (CompilerErrorView { span, inner: inner@ }),
    {
        CompilerError { span, inner }
    }

    /// The span of source text that caused the error.
    pub fn span(&self) -> (r: Span)
        ensures
            r == self@.span,
    {
        self.span
    }

    /// The error itself.
    pub fn inner(&self) -> (r: &E)
        ensures
            r@ == self@.inner,
    {
        &self.inner
    }

    /// Takes the error apart.
    pub fn take(self) -> (r: (Span, E))
        ensures
            r.0 == self@.span,
            r.1@ == self@.inner,
    {
        (self.span, self.inner)
    }
}

/// What semantic analysis returns: a value, or the first error found.
pub type SemanticResult<T> = Result<T, CompilerError<SemanticError>>;

/// Errors found during semantic analysis of a compilation unit.
#[derive(Debug, PartialEq)]
pub enum SemanticError {
    /// The name does not stand for a variable.
    NotVariable(StringId),
    /// The name does not stand for a function or a coroutine.
    NotRoutine(StringId),
    /// The name does not stand for a coroutine.
    NotCoroutine(StringId),
    /// The path names an item of the project and an imported item.
    MultipleDefs(Path),
    /// No item has the path; the second path is its canonical form.
    PathNotFound(Path, Path),
    /// The path cannot be followed from the current module.
    PathNotValid,
    /// No visible scope declares the name.
    NotDefined(StringId),
    /// The path has no steps.
    EmptyPath,
    /// An array has no elements.
    ArrayInvalidSize(usize),
    /// The elements of an array value differ in type.
    ArrayInconsistentElementTypes,
    /// The indexed value is no array.
    ArrayIndexingInvalidType(Type),
    /// The index is no integer.
    ArrayIndexingInvalidIndexType(Type),
    /// The scope declares the name already.
    AlreadyDeclared(StringId),
    /// The path climbs above the root of the project.
    PathTooSuper,
    /// A binding declares the first type and is given the second.
    BindExpected(Type, Type),
    /// The assigned variable was not declared mutable.
    VariableNotMutable(StringId),
    /// A variable of the first type is assigned a value of the second.
    BindMismatch(StringId, Type, Type),
    /// A coroutine yields the first type and is given the second.
    YieldExpected(Type, Type),
    /// A yield return stands outside every routine.
    YieldInvalidLocation,
    /// A routine returns the first type and is given the second.
    ReturnExpected(Type, Type),
    /// A return stands outside every routine.
    ReturnInvalidLocation,
    /// The value whose member is read is no structure.
    MemberAccessInvalidRootType(Type),
    /// The structure has no such field.
    MemberAccessMemberNotFound(Path, StringId),
    /// The arms of a conditional differ in type.
    IfExprMismatchArms(Type, Type),
    /// The condition of a conditional is no boolean.
    CondExpectedBool(Type),
    /// The body of a loop has a value.
    WhileInvalidType(Type),
    /// The condition of a loop is no boolean.
    WhileCondInvalidType(Type),
    /// The resumed value is no coroutine.
    YieldInvalidType(Type),
    /// A routine with the first number of parameters is given the second number of arguments.
    RoutineCallWrongNumParams(Path, usize, usize),
    /// A function that takes at least the first number of arguments is given the second number.
    FunctionParamsNotEnough(Path, usize, usize),
    /// A structure with the first number of fields is given the second number of values.
    StructExprWrongNumParams(usize, usize),
    /// A structure value names a field that the structure lacks.
    StructExprMemberNotFound(Path, StringId),
    /// A field of the first type is given a value of the second.
    StructExprFieldTypeMismatch(Path, StringId, Type, Type),
    /// The operand of a negation is no signed integer.
    ExpectedSignedInteger(UnaryOperator, Type),
    /// The operand of a logical negation is no boolean.
    ExpectedBool(UnaryOperator, Type),
    /// The operator expects the first type and is given the second and the third.
    OpExpected(BinaryOperator, Type, Type, Type),
    /// Each listed argument, counted from one, was expected to have the first type and has the second.
    RoutineParamTypeMismatch(Path, Vec<(usize, Type, Type)>),
    /// The entry point is no function that returns a 64 bit signed integer.
    MainFnInvalidType,
    /// The entry point takes parameters.
    MainFnInvalidParams,
    /// The named item is no structure.
    InvalidStructure,
    /// The named type is no structure.
    InvalidIdentifierType(Type),
    /// The called item cannot be entered in the way the call asks for.
    RoutineCallInvalidTarget(RoutineCall, Path, Type),
}

/// A [`SemanticError`] as a mathematical value.
pub ghost enum SemanticErrorView {
    NotVariable(StringId),
    NotRoutine(StringId),
    NotCoroutine(StringId),
    MultipleDefs(Seq<Element>),
    PathNotFound(Seq<Element>, Seq<Element>),
    PathNotValid,
    NotDefined(StringId),
    EmptyPath,
    ArrayInvalidSize(usize),
    ArrayInconsistentElementTypes,
    ArrayIndexingInvalidType(TypeView),
    ArrayIndexingInvalidIndexType(TypeView),
    AlreadyDeclared(StringId),
    PathTooSuper,
    BindExpected(TypeView, TypeView),
    VariableNotMutable(StringId),
    BindMismatch(StringId, TypeView, TypeView),
    YieldExpected(TypeView, TypeView),
    YieldInvalidLocation,
    ReturnExpected(TypeView, TypeView),
    ReturnInvalidLocation,
    MemberAccessInvalidRootType(TypeView),
    MemberAccessMemberNotFound(Seq<Element>, StringId),
    IfExprMismatchArms(TypeView, TypeView),
    CondExpectedBool(TypeView),
    WhileInvalidType(TypeView),
    WhileCondInvalidType(TypeView),
    YieldInvalidType(TypeView),
    RoutineCallWrongNumParams(Seq<Element>, usize, usize),
    FunctionParamsNotEnough(Seq<Element>, usize, usize),
    StructExprWrongNumParams(usize, usize),
    StructExprMemberNotFound(Seq<Element>, StringId),
    StructExprFieldTypeMismatch(Seq<Element>, StringId, TypeView, TypeView),
    ExpectedSignedInteger(UnaryOperator, TypeView),
    ExpectedBool(UnaryOperator, TypeView),
    OpExpected(BinaryOperator, TypeView, TypeView, TypeView),
    RoutineParamTypeMismatch(Seq<Element>, Seq<(usize, TypeView, TypeView)>),
    MainFnInvalidType,
    MainFnInvalidParams,
    InvalidStructure,
    InvalidIdentifierType(TypeView),
    RoutineCallInvalidTarget(RoutineCall, Seq<Element>, TypeView),
}

/// The views of a list of mismatching arguments, in order.
pub open spec fn mismatches_view(ms: Vec<(usize, Type, Type)>) -> Seq<(usize, TypeView, TypeView)> {
    Seq::new(ms@.len(), |i: int| (ms@[i].0, ms@[i].1@, ms@[i].2@))
}

impl View for SemanticError {
    type V = SemanticErrorView;

    open spec fn view(&self) -> SemanticErrorView {
        match self {
            SemanticError::NotVariable(a) => SemanticErrorView::NotVariable(*a),
            SemanticError::NotRoutine(a) => SemanticErrorView::NotRoutine(*a),
            SemanticError::NotCoroutine(a) => SemanticErrorView::NotCoroutine(*a),
            SemanticError::MultipleDefs(a) => SemanticErrorView::MultipleDefs(a@),
            SemanticError::PathNotFound(a, b) => SemanticErrorView::PathNotFound(a@, b@),
            SemanticError::PathNotValid => SemanticErrorView::PathNotValid,
            SemanticError::NotDefined(a) => SemanticErrorView::NotDefined(*a),
            SemanticError::EmptyPath => SemanticErrorView::EmptyPath,
            SemanticError::ArrayInvalidSize(a) => SemanticErrorView::ArrayInvalidSize(*a),
            SemanticError::ArrayInconsistentElementTypes => SemanticErrorView::ArrayInconsistentElementTypes,
            SemanticError::ArrayIndexingInvalidType(a) => SemanticErrorView::ArrayIndexingInvalidType(a@),
            SemanticError::ArrayIndexingInvalidIndexType(a) => SemanticErrorView::ArrayIndexingInvalidIndexType(a@),
            SemanticError::AlreadyDeclared(a) => SemanticErrorView::AlreadyDeclared(*a),
            SemanticError::PathTooSuper => SemanticErrorView::PathTooSuper,
            SemanticError::BindExpected(a, b) => SemanticErrorView::BindExpected(a@, b@),
            SemanticError::VariableNotMutable(a) => SemanticErrorView::VariableNotMutable(*a),
            SemanticError::BindMismatch(a, b, c) => SemanticErrorView::BindMismatch(*a, b@, c@),
            SemanticError::YieldExpected(a, b) => SemanticErrorView::YieldExpected(a@, b@),
            SemanticError::YieldInvalidLocation => SemanticErrorView::YieldInvalidLocation,
            SemanticError::ReturnExpected(a, b) => SemanticErrorView::ReturnExpected(a@, b@),
            SemanticError::ReturnInvalidLocation => SemanticErrorView::ReturnInvalidLocation,
            SemanticError::MemberAccessInvalidRootType(a) => SemanticErrorView::MemberAccessInvalidRootType(a@),
            SemanticError::MemberAccessMemberNotFound(a,
                b) => SemanticErrorView::MemberAccessMemberNotFound(a@, *b),
            SemanticError::IfExprMismatchArms(a, b) => SemanticErrorView::IfExprMismatchArms(a@,
                b@),
            SemanticError::CondExpectedBool(a) => SemanticErrorView::CondExpectedBool(a@),
            SemanticError::WhileInvalidType(a) => SemanticErrorView::WhileInvalidType(a@),
            SemanticError::WhileCondInvalidType(a) => SemanticErrorView::WhileCondInvalidType(a@),
            SemanticError::YieldInvalidType(a) => SemanticErrorView::YieldInvalidType(a@),
            SemanticError::RoutineCallWrongNumParams(a, b,
                c) => SemanticErrorView::RoutineCallWrongNumParams(a@, *b, *c),
            SemanticError::FunctionParamsNotEnough(a, b,
                c) => SemanticErrorView::FunctionParamsNotEnough(a@, *b, *c),
            SemanticError::StructExprWrongNumParams(a,
                b) => SemanticErrorView::StructExprWrongNumParams(*a, *b),
            SemanticError::StructExprMemberNotFound(a,
                b) => SemanticErrorView::StructExprMemberNotFound(a@, *b),
            SemanticError::StructExprFieldTypeMismatch(a, b, c,
                d) => SemanticErrorView::StructExprFieldTypeMismatch(a@, *b, c@, d@),
            SemanticError::ExpectedSignedInteger(a,
                b) => SemanticErrorView::ExpectedSignedInteger(*a, b@),
            SemanticError::ExpectedBool(a, b) => SemanticErrorView::ExpectedBool(*a, b@),
            SemanticError::OpExpected(a, b, c, d) => SemanticErrorView::OpExpected(*a, b@, c@, d@),
            SemanticError::RoutineParamTypeMismatch(a,
                b) => SemanticErrorView::RoutineParamTypeMismatch(a@, mismatches_view(*b)),
            SemanticError::MainFnInvalidType => SemanticErrorView::MainFnInvalidType,
            SemanticError::MainFnInvalidParams => SemanticErrorView::MainFnInvalidParams,
            SemanticError::InvalidStructure => SemanticErrorView::InvalidStructure,
            SemanticError::InvalidIdentifierType(a) => SemanticErrorView::InvalidIdentifierType(a@),
            SemanticError::RoutineCallInvalidTarget(a, b,
                c) => SemanticErrorView::RoutineCallInvalidTarget(*a, b@, c@),
        }
    }
}

impl SemanticError {
    /// The semantic error that stands for an error of a path.
    pub fn from_path_error(pe: PathError) -> (r: SemanticError)
        ensures
            r@ == SemanticErrorView::PathTooSuper,
    {
        match pe {
            PathError::SubsedingRoot => SemanticError::PathTooSuper,
        }
    }
}

} // verus!
