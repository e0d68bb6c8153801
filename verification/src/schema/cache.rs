use vstd::prelude::*;

use crate::schema::{Column, Function, Table};

verus! {

/// An in-memory catalog of columns, tables and functions.
#[derive(Debug, Clone)]
pub struct Cache {
    pub columns: Vec<Column>,
    pub tables: Vec<Table>,
    pub functions: Vec<Function>,
}

impl Cache {
    /// An empty catalog.
    pub fn new() -> (res: Cache)
        ensures
            res.columns@ == Seq::<Column>::empty(),
            res.tables@ == Seq::<Table>::empty(),
            res.functions@ == Seq::<Function>::empty(),
    {
        Cache { columns: Vec::new(), tables: Vec::new(), functions: Vec::new() }
    }

    pub fn add_column(&mut self, column: Column)
        ensures
            final(self).columns@ == old(self).columns@.push(column),
            final(self).tables@ == old(self).tables@,
            final(self).functions@ == old(self).functions@,
    {
        self.columns.push(column);
    }

    pub fn add_table(&mut self, table: Table)
        ensures
            final(self).tables@ == old(self).tables@.push(table),
            final(self).columns@ == old(self).columns@,
            final(self).functions@ == old(self).functions@,
    {
        self.tables.push(table);
    }

    pub fn add_function(&mut self, function: Function)
        ensures
            final(self).functions@ == old(self).functions@.push(function),
            final(self).columns@ == old(self).columns@,
            final(self).tables@ == old(self).tables@,
    {
        self.functions.push(function);
    }

    pub fn get_columns(&self) -> (res: &[Column])
        ensures
            res@ == self.columns@,
    {
        self.columns.as_slice()
    }

    pub fn get_tables(&self) -> (res: &[Table])
        ensures
            res@ == self.tables@,
    {
        self.tables.as_slice()
    }

    pub fn get_functions(&self) -> (res: &[Function])
        ensures
            res@ == self.functions@,
    {
        self.functions.as_slice()
    }
}

impl Default for Cache {
    fn default() -> (res: Cache)
        ensures
            res.columns@ == Seq::<Column>::empty(),
            res.tables@ == Seq::<Table>::empty(),
            res.functions@ == Seq::<Function>::empty(),
    {
        Cache::new()
    }
}

} // verus!
