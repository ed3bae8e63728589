//! A project: the compilation units of a program, each parsed into a
//! module of its own and put into one tree of modules at the place that
//! its path names.
use crate::ast::module::{module_view, modules_view, Module, ModuleView};
use crate::lexer::tokens::Token;
use crate::parser::context::ParserContext;
use crate::parser::error::ParserError;
use crate::parser::grammar::{empty_module, unit, ParseFailure};
use crate::parser::items::{parse, parsed_unit};
use crate::semantics::error::{CompilerError, CompilerErrorView};
use crate::source::span::Span;
use crate::stringtable::StringId;
use vstd::prelude::*;

verus! {

/// What can be wrong with a compilation unit of a project.
#[derive(Clone, Copy, Debug, PartialEq, Eq, Structural)]
pub enum ProjectError {
    /// The unit holds no tokens.
    NoAstGenerated,
    /// The unit has no name: its path is empty.
    InvalidPath,
    /// The tokens of the unit are no program.
    ParserError(ParserError),
    /// The project has no source text.
    EmptyProject,
}

impl View for ProjectError {
    type V = ProjectError;

    open spec fn view(&self) -> ProjectError {
        *self
    }
}

/// A project error with the span of the text that caused it.
pub type ProjectFailure = CompilerErrorView<ProjectError>;

/// A compilation unit: what was read of it so far, and the path of modules
/// that leads to it from the root of the project.
#[derive(Debug, PartialEq)]
pub struct CompilationUnit<T> {
    pub path: Vec<StringId>,
    pub data: T,
}

/// The position of the first module called `name` at or after position
/// `i`.
pub open spec fn position_of<C>(ms: Seq<ModuleView<C>>, name: StringId, i: int) -> Option<int>
    decreases ms.len() - i,
{
    if i < 0 || i >= ms.len() {
        None
    } else if ms[i].name == name {
        Some(i)
    } else {
        position_of(ms, name, i + 1)
    }
}

/// The tree of modules `m` after the module `child` was put below the
/// modules that the names of `path` from position `i` on lead to.  A
/// module of the path that does not exist yet is created, without items and
/// with an empty span.
pub open spec fn placed(
    m: ModuleView<ParserContext>,
    path: Seq<StringId>,
    i: int,
    child: ModuleView<ParserContext>,
) -> ModuleView<ParserContext>
    decreases path.len() - i,
{
    if i < 0 || i >= path.len() {
        ModuleView { modules: m.modules.push(child), ..m }
    } else {
        match position_of(m.modules, path[i], 0) {
            Some(k) => ModuleView {
                modules: m.modules.update(k, placed(m.modules[k], path, i + 1, child)),
                ..m
            },
            None => ModuleView {
                modules: m.modules.push(
                    placed(
                        empty_module(path[i], ParserContext { span: Span::of(0, 0) }),
                        path,
                        i + 1,
                        child,
                    ),
                ),
                ..m
            },
        }
    }
}

/// The module that the tokens of a unit are parsed into, and the path of
/// its parent: the unit is named by the last name of its path.
pub open spec fn parsed_source(path: Seq<StringId>, tokens: Seq<Token>) -> Result<
    (Seq<StringId>, ModuleView<ParserContext>),
    ProjectFailure,
> {
    if path.len() == 0 {
        Err(CompilerErrorView { span: Span::of(0, 0), inner: ProjectError::InvalidPath })
    } else {
        match unit(tokens, path.last()) {
            Ok(Some(m)) => Ok((path.drop_last(), m)),
            Ok(None) => Err(
                CompilerErrorView { span: Span::of(0, 0), inner: ProjectError::NoAstGenerated },
            ),
            Err(e) => Err(
                CompilerErrorView { span: e.span, inner: ProjectError::ParserError(e.inner) },
            ),
        }
    }
}

/// A unit of tokens as mathematical values.
pub open spec fn source_view(u: CompilationUnit<Vec<Token>>) -> (Seq<StringId>, Seq<Token>) {
    (u.path@, u.data@)
}

/// The units of a list as mathematical values.
pub open spec fn sources_view(us: Vec<CompilationUnit<Vec<Token>>>) -> Seq<
    (Seq<StringId>, Seq<Token>),
> {
    Seq::new(us@.len(), |i: int| source_view(us@[i]))
}

/// The tree and the errors after the units from position `i` on were
/// parsed: a unit that parses is put into the tree `root`, the error of
/// one that does not is appended to `errors`.
pub open spec fn gathered(
    root: ModuleView<ParserContext>,
    errors: Seq<ProjectFailure>,
    units: Seq<(Seq<StringId>, Seq<Token>)>,
    i: int,
) -> (ModuleView<ParserContext>, Seq<ProjectFailure>)
    decreases units.len() - i,
{
    if i < 0 || i >= units.len() {
        (root, errors)
    } else {
        match parsed_source(units[i].0, units[i].1) {
            Ok((parent, m)) => gathered(placed(root, parent, 0, m), errors, units, i + 1),
            Err(e) => gathered(root, errors.push(e), units, i + 1),
        }
    }
}

/// The tree of a project: every unit parsed into a module below the module
/// `root_module`, which spans `root_span`; or the errors of the units that
/// do not parse, in the order of the units.
pub open spec fn project_tree(
    root_module: StringId,
    root_span: Span,
    units: Seq<(Seq<StringId>, Seq<Token>)>,
) -> Result<ModuleView<ParserContext>, Seq<ProjectFailure>> {
    let (root, errors) = gathered(
        empty_module(root_module, ParserContext { span: root_span }),
        Seq::empty(),
        units,
        0,
    );
    if errors.len() == 0 {
        Ok(root)
    } else {
        Err(errors)
    }
}

/// The errors of a list as mathematical values.
pub open spec fn failures_view(es: Vec<CompilerError<ProjectError>>) -> Seq<ProjectFailure> {
    Seq::new(es@.len(), |i: int| es@[i]@)
}

/// The position of a module among the views of modules is its position
/// among the modules.
proof fn lemma_position_of(ms: Seq<Module<ParserContext>>, name: StringId, i: int)
    requires
        0 <= i,
        ms.len() <= usize::MAX,
    ensures
        match crate::ast::module::first_module_position(ms, name, i) {
            Some(k) => position_of(Seq::new(ms.len(), |j: int| module_view(ms[j])), name, i)
                == Some(k as int),
            None => position_of(Seq::new(ms.len(), |j: int| module_view(ms[j])), name, i)
                is None,
        },
    decreases ms.len() - i,
{
    if i < ms.len() {
        if ms[i].name != name {
            lemma_position_of(ms, name, i + 1);
        }
    }
}

/// Puts `child` below the modules that the names of `path` from position
/// `i` on lead to, and creates the modules of the path that are missing.
fn place(
    module: Module<ParserContext>,
    path: &Vec<StringId>,
    i: usize,
    child: Module<ParserContext>,
) -> (r: Module<ParserContext>)
    ensures
        r@ == placed(module@, path@, i as int, child@),
    decreases path.len() - i,
{
    let mut m = module;
    if i >= path.len() {
        m.add_module(child);
        return m;
    }
    let children = m.modules.len();
    proof {
        assert(children == m.modules@.len());
        lemma_position_of(m.modules@, path@[i as int], 0);
        assert(m@.modules =~= Seq::new(m.modules@.len(), |j: int| module_view(m.modules@[j])));
    }
    match m.module_position(path[i]) {
        Some(k) => {
            let ghost before = m@;
            let sub = m.modules.remove(k);
            let sub = place(sub, path, i + 1, child);
            let ghost put = sub@;
            m.modules.insert(k, sub);
            assert(m@.modules =~= before.modules.update(k as int, put));
            m
        },
        None => {
            let fresh = Module::new(path[i], ParserContext::new(Span::zero()));
            let sub = place(fresh, path, i + 1, child);
            m.add_module(sub);
            m
        },
    }
}

/// Puts the module of a unit into the tree at the place that the path of
/// the unit names.
pub fn append_module(
    root: &mut Module<ParserContext>,
    src_ast: CompilationUnit<Module<ParserContext>>,
)
    ensures
        final(root)@ == placed(old(root)@, src_ast.path@, 0, src_ast.data@),
{
    let mut taken = Module::new(root.name, root.annotations);
    core::mem::swap(root, &mut taken);
    let CompilationUnit { path, data } = src_ast;
    let mut put = place(taken, &path, 0, data);
    core::mem::swap(root, &mut put);
}

/// Parses the tokens of a unit into the module that the last name of its
/// path names.  A unit without a name or without tokens is an error.
pub fn parse_src_tokens(src_tokens: &CompilationUnit<Vec<Token>>) -> (r: Result<
    CompilationUnit<Module<ParserContext>>,
    CompilerError<ProjectError>,
>)
    ensures
        match r {
            Ok(u) => parsed_source(src_tokens.path@, src_tokens.data@) == Ok::<
                (Seq<StringId>, ModuleView<ParserContext>),
                ProjectFailure,
            >((u.path@, u.data@)),
            Err(e) => parsed_source(src_tokens.path@, src_tokens.data@) == Err::<
                (Seq<StringId>, ModuleView<ParserContext>),
                ProjectFailure,
            >(e@),
        },
{
    let n = src_tokens.path.len();
    if n == 0 {
        return Err(CompilerError::new(Span::zero(), ProjectError::InvalidPath));
    }
    let name = src_tokens.path[n - 1];
    let mut parent: Vec<StringId> = Vec::new();
    let mut i: usize = 0;
    while i < n - 1
        invariant
            n == src_tokens.path@.len(),
            n > 0,
            i <= n - 1,
            parent@ == src_tokens.path@.take(i as int),
        decreases n - 1 - i,
    {
        parent.push(src_tokens.path[i]);
        assert(parent@ =~= src_tokens.path@.take(i + 1));
        i += 1;
    }
    assert(parent@ =~= src_tokens.path@.drop_last());
    match parse(name, &src_tokens.data) {
        Ok(Some(ast)) => Ok(CompilationUnit { path: parent, data: ast }),
        Ok(None) => Err(CompilerError::new(Span::zero(), ProjectError::NoAstGenerated)),
        Err(e) => {
            let (span, inner) = e.take();
            Err(CompilerError::new(span, ProjectError::ParserError(inner)))
        },
    }
}

/// Parses every unit of a project into a module of its own and puts the
/// modules into one tree below the module `root_module`, which spans
/// `root_span`.  Returns the errors of all the units that do not parse.
pub fn parse_project(
    root_module: StringId,
    root_span: Span,
    token_sets: Vec<CompilationUnit<Vec<Token>>>,
) -> (r: Result<Module<ParserContext>, Vec<CompilerError<ProjectError>>>)
    ensures
        match r {
            Ok(root) => project_tree(root_module, root_span, sources_view(token_sets)) == Ok::<
                ModuleView<ParserContext>,
                Seq<ProjectFailure>,
            >(root@),
            Err(errors) => project_tree(root_module, root_span, sources_view(token_sets)) == Err::<
                ModuleView<ParserContext>,
                Seq<ProjectFailure>,
            >(failures_view(errors)),
        },
{
    let ghost units = sources_view(token_sets);
    let mut root = Module::new(root_module, ParserContext::new(root_span));
    let mut errors: Vec<CompilerError<ProjectError>> = Vec::new();
    let mut i: usize = 0;
    assert(failures_view(errors) =~= Seq::empty());
    while i < token_sets.len()
        invariant
            i <= token_sets@.len(),
            units == sources_view(token_sets),
            gathered(
                empty_module(root_module, ParserContext { span: root_span }),
                Seq::empty(),
                units,
                0,
            ) == gathered(root@, failures_view(errors), units, i as int),
        decreases token_sets@.len() - i,
    {
        assert(source_view(token_sets@[i as int]) == units[i as int]);
        match parse_src_tokens(&token_sets[i]) {
            Ok(ast) => {
                append_module(&mut root, ast);
            },
            Err(e) => {
                let ghost before = failures_view(errors);
                let ghost added = e@;
                errors.push(e);
                assert(failures_view(errors) =~= before.push(added));
            },
        }
        i += 1;
    }
    if errors.len() == 0 {
        Ok(root)
    } else {
        Err(errors)
    }
}

} // verus!
