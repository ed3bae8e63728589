//! Rendering of values for people: every interned name is replaced by the
//! string that it stands for.
pub mod text;
pub mod types;
pub mod tokens;
pub mod errors;
pub mod nodes;

use crate::ast::module::AstError;
use crate::stringtable::{StringId, StringTable, StringTableError};
use vstd::prelude::*;

verus! {

/// Why a value could not be rendered.
#[derive(Clone, Copy, Debug, PartialEq, Eq, Structural)]
pub enum CompilerDisplayError {
    /// The value holds a name that the table does not know.
    StringIdNotFound,
}

impl CompilerDisplayError {
    pub fn from_table_error(ste: StringTableError) -> (r: CompilerDisplayError)
        ensures
            r == CompilerDisplayError::StringIdNotFound,
    {
        match ste {
            StringTableError::NotFound => CompilerDisplayError::StringIdNotFound,
        }
    }
}

/// A value that can be rendered with the help of the table of names.
pub trait CompilerDisplay {
    /// The text that stands for the value, where the table knows every
    /// name in it.
    spec fn rendered(&self, names: Seq<Seq<char>>) -> Option<Seq<char>>;

    /// Renders the value.
    fn fmt(&self, st: &StringTable) -> (r: Result<String, CompilerDisplayError>)
        ensures
            match r {
                Ok(s) => self.rendered(st@) == Some(s@),
                Err(e) => self.rendered(st@) is None && e
                    == CompilerDisplayError::StringIdNotFound,
            },
    ;
}

impl CompilerDisplay for StringId {
    open spec fn rendered(&self, names: Seq<Seq<char>>) -> Option<Seq<char>> {
        if self.index() < names.len() {
            Some(names[self.index()])
        } else {
            None
        }
    }

    fn fmt(&self, st: &StringTable) -> (r: Result<String, CompilerDisplayError>) {
        match st.get(*self) {
            Ok(s) => Ok(s.clone()),
            Err(e) => Err(CompilerDisplayError::from_table_error(e)),
        }
    }
}

impl CompilerDisplay for AstError {
    open spec fn rendered(&self, names: Seq<Seq<char>>) -> Option<Seq<char>> {
        match self {
            AstError::ModuleAlreadyContains(name) => match name.rendered(names) {
                Some(s) => Some(s + " already exists in module"@),
                None => None,
            },
        }
    }

    fn fmt(&self, st: &StringTable) -> (r: Result<String, CompilerDisplayError>) {
        match self {
            AstError::ModuleAlreadyContains(name) => match name.fmt(st) {
                Ok(s) => Ok(s.concat(" already exists in module")),
                Err(e) => Err(e),
            },
        }
    }
}

} // verus!
