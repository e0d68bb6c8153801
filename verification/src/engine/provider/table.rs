//! Table completions in a FROM clause.
use vstd::prelude::*;
use vstd::string::*;

use crate::complete::types::{Completion, CompletionKind};
use crate::engine::context::{ClauseKind, Cursor, Location};
use crate::span::Span;
use crate::text::str_eq;

verus! {

/// Whether tables are offered: in a FROM clause, after the keyword or a
/// comma and a space (`FROM ^`, `FROM users, ^`), or right after the dot of
/// a schema qualifier (`FROM public.^`).
pub open spec fn offers_tables(clause: ClauseKind, location: Location, has_qualifier: bool) -> bool {
    clause == ClauseKind::From && match location {
        Location::Space(inner) => *inner is Keyword || *inner is Comma,
        Location::Dot => has_qualifier,
        _ => false,
    }
}

/// Whether tables are offered at this cursor in this clause.
pub fn supports(clause: ClauseKind, cursor: &Cursor) -> (res: bool)
    ensures
        res == offers_tables(clause, cursor.location, cursor.qualifier is Some),
{
    if clause != ClauseKind::From {
        return false;
    }
    match &cursor.location {
        Location::Space(inner) => match &**inner {
            Location::Keyword | Location::Comma => true,
            _ => false,
        },
        Location::Dot => cursor.qualifier.is_some(),
        _ => false,
    }
}

/// Whether `name` is one of the names in `names`.
pub open spec fn names_contain(names: Seq<String>, name: Seq<char>) -> bool {
    exists|j: int| 0 <= j < names.len() && (#[trigger] names[j])@ == name
}

/// Whether a table is offered: after a comma, a table already in the FROM
/// clause is left out.
pub open spec fn table_kept(name: Seq<char>, in_scope: Seq<String>, after_comma: bool) -> bool {
    !(after_comma && names_contain(in_scope, name))
}

/// The (table, schema) pairs that are offered, in their order.
pub open spec fn kept_tables(
    tables: Seq<(String, String)>,
    in_scope: Seq<String>,
    after_comma: bool,
) -> Seq<(String, String)> {
    tables.filter(|t: (String, String)| table_kept(t.0@, in_scope, after_comma))
}

/// Whether `c` offers the table `name`: label, insert text and filter text
/// the name, kind `Table`, the span `replace`, space, comma and newline as
/// its commit characters, and `qualifier` as its schema.
pub open spec fn offers_table(c: Completion, name: Seq<char>, qualifier: Option<Seq<char>>, replace: Span) -> bool {
    &&& c.label@ == name
    &&& c.insert_text@ == name
    &&& c.filter_text matches Some(f) && f@ == name
    &&& c.kind == CompletionKind::Table
    &&& c.replace == replace
    &&& c.commit_characters@ == seq![' ', ',', '\n']
    &&& match qualifier {
        Some(q) => c.qualifier matches Some(cq) && cq@ == q,
        None => c.qualifier is None,
    }
}

/// The schema that qualifies a table of `schema`: none for the empty name.
pub open spec fn schema_qualifier(schema: Seq<char>) -> Option<Seq<char>> {
    if schema.len() == 0 {
        None
    } else {
        Some(schema)
    }
}

/// The characters that accept a table completion: space, comma, newline.
pub fn table_commit_characters() -> (res: &'static [char])
    ensures
        res@ == seq![' ', ',', '\n'],
{
    let chars: &'static [char] = &[' ', ',', '\n'];
    chars
}

/// A completion for the table `name`.
fn table_completion(name: &String, qualifier: Option<String>, replace: Span) -> (res: Completion)
    ensures
        offers_table(
            res,
            name@,
            match qualifier {
                Some(q) => Some(q@),
                None => None,
            },
            replace,
        ),
{
    Completion {
        label: name.clone(),
        insert_text: name.clone(),
        filter_text: Some(name.clone()),
        kind: CompletionKind::Table,
        qualifier,
        replace,
        commit_characters: table_commit_characters(),
    }
}

/// The completions for the tables of all schemas, given as (table, schema)
/// pairs in catalog order. After a comma (`after_comma`), the tables whose
/// names are already in the FROM clause (`in_scope`) are left out. Each
/// completion names its schema as qualifier, unless the schema's name is
/// empty.
pub fn table_completions(
    tables: Vec<(String, String)>,
    in_scope: Vec<String>,
    after_comma: bool,
    replace: Span,
) -> (res: Vec<Completion>)
    ensures
        res@.len() == kept_tables(tables@, in_scope@, after_comma).len(),
        forall|i: int|
            0 <= i < res@.len() ==> {
                let t = kept_tables(tables@, in_scope@, after_comma)[i];
                offers_table(#[trigger] res@[i], t.0@, schema_qualifier(t.1@), replace)
            },
{
    let mut res: Vec<Completion> = Vec::new();
    let mut i: usize = 0;
    while i < tables.len()
        invariant
            i <= tables@.len(),
            res@.len() == kept_tables(tables@.take(i as int), in_scope@, after_comma).len(),
            forall|k: int|
                0 <= k < res@.len() ==> {
                    let t = kept_tables(tables@.take(i as int), in_scope@, after_comma)[k];
                    offers_table(#[trigger] res@[k], t.0@, schema_qualifier(t.1@), replace)
                },
        decreases tables.len() - i,
    {
        let name = &tables[i].0;
        let schema = &tables[i].1;
        let mut in_from = false;
        if after_comma {
            let mut j: usize = 0;
            while j < in_scope.len()
                invariant
                    j <= in_scope@.len(),
                    in_from == exists|k: int| 0 <= k < j && (#[trigger] in_scope@[k])@ == name@,
                decreases in_scope.len() - j,
            {
                if str_eq(in_scope[j].as_str(), name.as_str()) {
                    in_from = true;
                }
                j += 1;
            }
        }
        proof {
            let pred = |t: (String, String)| table_kept(t.0@, in_scope@, after_comma);
            let next = tables@.take(i + 1);
            assert(next.drop_last() =~= tables@.take(i as int));
            assert(next.last() == tables@[i as int]);
            reveal(Seq::filter);
            assert(kept_tables(next, in_scope@, after_comma) == if pred(tables@[i as int]) {
                kept_tables(tables@.take(i as int), in_scope@, after_comma).push(tables@[i as int])
            } else {
                kept_tables(tables@.take(i as int), in_scope@, after_comma)
            });
            assert(pred(tables@[i as int]) == !in_from);
        }
        if !in_from {
            let qualifier = if schema.as_str().unicode_len() == 0 {
                None
            } else {
                Some(schema.clone())
            };
            let c = table_completion(name, qualifier, replace);
            res.push(c);
        }
        i += 1;
    }
    proof {
        assert(tables@.take(tables@.len() as int) =~= tables@);
    }
    res
}

/// The completions for the tables of one schema, after its qualifier
/// (`public.^`): one for each name, in order, each qualified by that schema.
pub fn qualified_table_completions(
    names: Vec<String>,
    qualifier: String,
    replace: Span,
) -> (res: Vec<Completion>)
    ensures
        res@.len() == names@.len(),
        forall|i: int|
            0 <= i < res@.len() ==> offers_table(
                #[trigger] res@[i],
                names@[i]@,
                Some(qualifier@),
                replace,
            ),
{
    let mut res: Vec<Completion> = Vec::new();
    let mut i: usize = 0;
    while i < names.len()
        invariant
            i <= names@.len(),
            res@.len() == i,
            forall|k: int|
                0 <= k < i ==> offers_table(#[trigger] res@[k], names@[k]@, Some(qualifier@), replace),
        decreases names.len() - i,
    {
        let c = table_completion(&names[i], Some(qualifier.clone()), replace);
        res.push(c);
        i += 1;
    }
    res
}

} // verus!
