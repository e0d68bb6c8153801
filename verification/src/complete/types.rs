//! A completion: what it shows, what it inserts, what it names and where it goes.
use vstd::prelude::*;

use crate::span::Span;

verus! {

/// The kind of thing a completion names.
#[derive(Debug, Clone, Copy, PartialEq, Eq, Structural)]
pub enum CompletionKind {
    Column,
    Function,
    Table,
}

/// A completion: its label, the text it inserts, the text a client filters
/// it by, its kind, the schema that qualifies a table, the span of the text
/// it replaces, and the characters that accept it as they are typed.
#[derive(Debug, PartialEq, Eq)]
pub struct Completion {
    pub label: String,
    pub insert_text: String,
    pub filter_text: Option<String>,
    pub kind: CompletionKind,
    pub qualifier: Option<String>,
    pub replace: Span,
    pub commit_characters: &'static [char],
}

/// The name of a kind as `{:?}` writes it.
pub open spec fn kind_name(k: CompletionKind) -> Seq<char> {
    match k {
        CompletionKind::Column => "Column"@,
        CompletionKind::Function => "Function"@,
        CompletionKind::Table => "Table"@,
    }
}

impl CompletionKind {
    /// The kind's name, as `{:?}` writes it.
    pub fn name(&self) -> (res: &'static str)
        ensures
            res@ == kind_name(*self),
    {
        match self {
            CompletionKind::Column => "Column",
            CompletionKind::Function => "Function",
            CompletionKind::Table => "Table",
        }
    }
}

impl Completion {
    /// A copy of the completion.
    pub fn duplicate(&self) -> (res: Self)
        ensures
            res == *self,
    {
        let filter_text = match &self.filter_text {
            Some(f) => Some(f.clone()),
            None => None,
        };
        let qualifier = match &self.qualifier {
            Some(q) => Some(q.clone()),
            None => None,
        };
        Completion {
            label: self.label.clone(),
            insert_text: self.insert_text.clone(),
            filter_text,
            kind: self.kind,
            qualifier,
            replace: self.replace,
            commit_characters: self.commit_characters,
        }
    }
}

} // verus!
