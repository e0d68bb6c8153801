use vstd::prelude::*;
use vstd::string::*;
use vstd::std_specs::convert::FromSpecImpl;

use crate::schema::{
    Cache, Column, DataType, Function, FunctionReturnType, Table, TableColumn, TableType,
};

verus! {

/// Builds a [`Cache`] one item at a time.
#[derive(Debug)]
pub struct CacheBuilder {
    columns: Vec<Column>,
    tables: Vec<Table>,
    functions: Vec<Function>,
}

/// An optional name.
#[derive(Debug, Clone, Copy)]
pub struct Name<'a>(pub Option<&'a str>);

impl<'a> Name<'a> {
    /// The name as an owned string, if there is one.
    pub fn to_string(&self) -> (res: Option<String>)
        ensures
            match self.0 {
                Some(s) => res is Some && res.unwrap()@ == s@,
                None => res is None,
            },
    {
        match self.0 {
            Some(s) => Some(String::from_str(s)),
            None => None,
        }
    }
}

impl<'a> From<&'a str> for Name<'a> {
    fn from(s: &'a str) -> (res: Name<'a>) {
        Name(Some(s))
    }
}

impl<'a> FromSpecImpl<&'a str> for Name<'a> {
    open spec fn obeys_from_spec() -> bool {
        true
    }

    open spec fn from_spec(s: &'a str) -> Name<'a> {
        Name(Some(s))
    }
}

impl<'a> From<Option<&'a str>> for Name<'a> {
    fn from(s: Option<&'a str>) -> (res: Name<'a>) {
        Name(s)
    }
}

impl<'a> FromSpecImpl<Option<&'a str>> for Name<'a> {
    open spec fn obeys_from_spec() -> bool {
        true
    }

    open spec fn from_spec(s: Option<&'a str>) -> Name<'a> {
        Name(s)
    }
}

/// Whether an owned optional name spells the optional name.
pub open spec fn same_name(owned: Option<String>, name: Option<&str>) -> bool {
    match name {
        Some(s) => owned is Some && owned.unwrap()@ == s@,
        None => owned is None,
    }
}

/// One item a builder call adds.
pub enum Added {
    Column(Column),
    Table(Table),
    Function(Function),
}

/// The columns among the added items, in the order they were added.
pub open spec fn columns_of(adds: Seq<Added>) -> Seq<Column>
    decreases adds.len(),
{
    if adds.len() == 0 {
        Seq::empty()
    } else {
        match adds.last() {
            Added::Column(c) => columns_of(adds.drop_last()).push(c),
            _ => columns_of(adds.drop_last()),
        }
    }
}

/// The tables among the added items, in the order they were added.
pub open spec fn tables_of(adds: Seq<Added>) -> Seq<Table>
    decreases adds.len(),
{
    if adds.len() == 0 {
        Seq::empty()
    } else {
        match adds.last() {
            Added::Table(t) => tables_of(adds.drop_last()).push(t),
            _ => tables_of(adds.drop_last()),
        }
    }
}

/// The functions among the added items, in the order they were added.
pub open spec fn functions_of(adds: Seq<Added>) -> Seq<Function>
    decreases adds.len(),
{
    if adds.len() == 0 {
        Seq::empty()
    } else {
        match adds.last() {
            Added::Function(f) => functions_of(adds.drop_last()).push(f),
            _ => functions_of(adds.drop_last()),
        }
    }
}

/// `after` is `before` with the item added at the end of its list, the
/// other lists unchanged.
pub open spec fn adds_one(before: CacheBuilder, after: CacheBuilder, a: Added) -> bool {
    match a {
        Added::Column(c) => {
            &&& after.spec_columns().len() == before.spec_columns().len() + 1
            &&& after.spec_columns().drop_last() == before.spec_columns()
            &&& after.spec_columns().last() == c
            &&& after.spec_tables() == before.spec_tables()
            &&& after.spec_functions() == before.spec_functions()
        },
        Added::Table(t) => {
            &&& after.spec_tables().len() == before.spec_tables().len() + 1
            &&& after.spec_tables().drop_last() == before.spec_tables()
            &&& after.spec_tables().last() == t
            &&& after.spec_columns() == before.spec_columns()
            &&& after.spec_functions() == before.spec_functions()
        },
        Added::Function(f) => {
            &&& after.spec_functions().len() == before.spec_functions().len() + 1
            &&& after.spec_functions().drop_last() == before.spec_functions()
            &&& after.spec_functions().last() == f
            &&& after.spec_columns() == before.spec_columns()
            &&& after.spec_tables() == before.spec_tables()
        },
    }
}

/// Over any run of builder calls that starts from an empty builder, each
/// list the builder holds is exactly the items those calls added to it, in
/// the order of the calls: nothing is dropped, merged, deduplicated or
/// sorted.
pub proof fn law_builder_keeps_call_order(steps: Seq<CacheBuilder>, adds: Seq<Added>)
    requires
        steps.len() == adds.len() + 1,
        steps[0].spec_columns().len() == 0,
        steps[0].spec_tables().len() == 0,
        steps[0].spec_functions().len() == 0,
        forall|i: int| 0 <= i < adds.len() ==> adds_one(#[trigger] steps[i], steps[i + 1], adds[i]),
    ensures
        steps.last().spec_columns() == columns_of(adds),
        steps.last().spec_tables() == tables_of(adds),
        steps.last().spec_functions() == functions_of(adds),
    decreases adds.len(),
{
    if adds.len() == 0 {
        assert(steps.last().spec_columns() =~= Seq::<Column>::empty());
        assert(steps.last().spec_tables() =~= Seq::<Table>::empty());
        assert(steps.last().spec_functions() =~= Seq::<Function>::empty());
    } else {
        let n = adds.len() - 1;
        let s2 = steps.drop_last();
        let a2 = adds.drop_last();
        assert forall|i: int| 0 <= i < a2.len() implies adds_one(#[trigger] s2[i], s2[i + 1], a2[i]) by {
            assert(adds_one(steps[i], steps[i + 1], adds[i]));
        }
        law_builder_keeps_call_order(s2, a2);
        assert(adds_one(steps[n], steps[n + 1], adds[n]));
        assert(s2.last() == steps[n]);
        let last = steps.last();
        match adds.last() {
            Added::Column(c) => {
                assert(last.spec_columns() =~= columns_of(a2).push(c));
            },
            Added::Table(t) => {
                assert(last.spec_tables() =~= tables_of(a2).push(t));
            },
            Added::Function(f) => {
                assert(last.spec_functions() =~= functions_of(a2).push(f));
            },
        }
    }
}

impl CacheBuilder {
    pub closed spec fn spec_columns(&self) -> Seq<Column> {
        self.columns@
    }

    pub closed spec fn spec_tables(&self) -> Seq<Table> {
        self.tables@
    }

    pub closed spec fn spec_functions(&self) -> Seq<Function> {
        self.functions@
    }

    /// An empty builder.
    pub fn new() -> (res: Self)
        ensures
            res.spec_columns() == Seq::<Column>::empty(),
            res.spec_tables() == Seq::<Table>::empty(),
            res.spec_functions() == Seq::<Function>::empty(),
    {
        Self { columns: Vec::new(), tables: Vec::new(), functions: Vec::new() }
    }

    /// Add a column that belongs to no table.
    pub fn column(self, name: &str, data_type: DataType) -> (res: Self)
        ensures
            res.spec_tables() == self.spec_tables(),
            res.spec_functions() == self.spec_functions(),
            res.spec_columns().len() == self.spec_columns().len() + 1,
            res.spec_columns().drop_last() == self.spec_columns(),
            res.spec_columns().last().column_name@ == name@,
            res.spec_columns().last().table_name is None,
            res.spec_columns().last().schema_name is None,
            res.spec_columns().last().database_name is None,
            res.spec_columns().last().data_type == data_type,
            res.spec_columns().last().is_nullable is None,
            adds_one(self, res, Added::Column(res.spec_columns().last())),
    {
        let mut b = self;
        b.columns.push(
            Column {
                column_name: String::from_str(name),
                table_name: None,
                schema_name: None,
                database_name: None,
                data_type,
                is_nullable: None,
            },
        );
        b
    }

    /// Add a column of a table, schema and database.
    pub fn column_in<'a>(
        self,
        name: &str,
        data_type: DataType,
        table: Name<'a>,
        schema: Name<'a>,
        database: Name<'a>,
    ) -> (res: Self)
        ensures
            res.spec_tables() == self.spec_tables(),
            res.spec_functions() == self.spec_functions(),
            res.spec_columns().len() == self.spec_columns().len() + 1,
            res.spec_columns().drop_last() == self.spec_columns(),
            res.spec_columns().last().column_name@ == name@,
            same_name(res.spec_columns().last().table_name, table.0),
            same_name(res.spec_columns().last().schema_name, schema.0),
            same_name(res.spec_columns().last().database_name, database.0),
            res.spec_columns().last().data_type == data_type,
            res.spec_columns().last().is_nullable is None,
            adds_one(self, res, Added::Column(res.spec_columns().last())),
    {
        let mut b = self;
        b.columns.push(
            Column {
                column_name: String::from_str(name),
                table_name: table.to_string(),
                schema_name: schema.to_string(),
                database_name: database.to_string(),
                data_type,
                is_nullable: None,
            },
        );
        b
    }

    /// Add a table that belongs to no schema.
    pub fn table(self, name: &str, table_type: Option<TableType>) -> (res: Self)
        ensures
            res.spec_columns() == self.spec_columns(),
            res.spec_functions() == self.spec_functions(),
            res.spec_tables().len() == self.spec_tables().len() + 1,
            res.spec_tables().drop_last() == self.spec_tables(),
            res.spec_tables().last().table_name@ == name@,
            res.spec_tables().last().table_type == table_type,
            res.spec_tables().last().schema_name is None,
            res.spec_tables().last().database_name is None,
            adds_one(self, res, Added::Table(res.spec_tables().last())),
    {
        let mut b = self;
        b.tables.push(
            Table {
                table_name: String::from_str(name),
                table_type,
                schema_name: None,
                database_name: None,
            },
        );
        b
    }

    /// Add a base table of a schema and database.
    pub fn table_in<'a>(self, name: &str, schema_name: Name<'a>, database_name: Name<'a>) -> (res: Self)
        ensures
            res.spec_columns() == self.spec_columns(),
            res.spec_functions() == self.spec_functions(),
            res.spec_tables().len() == self.spec_tables().len() + 1,
            res.spec_tables().drop_last() == self.spec_tables(),
            res.spec_tables().last().table_name@ == name@,
            res.spec_tables().last().table_type == Some(TableType::Table),
            same_name(res.spec_tables().last().schema_name, schema_name.0),
            same_name(res.spec_tables().last().database_name, database_name.0),
            adds_one(self, res, Added::Table(res.spec_tables().last())),
    {
        let mut b = self;
        b.tables.push(
            Table {
                table_name: String::from_str(name),
                table_type: Some(TableType::Table),
                schema_name: schema_name.to_string(),
                database_name: database_name.to_string(),
            },
        );
        b
    }

    fn copy_types(params: &[DataType]) -> (res: Vec<DataType>)
        ensures
            res@ == params@,
    {
        let mut v: Vec<DataType> = Vec::new();
        let mut i: usize = 0;
        while i < params.len()
            invariant
                i <= params@.len(),
                v@ == params@.subrange(0, i as int),
            decreases params.len() - i,
        {
            v.push(params[i]);
            i += 1;
            assert(v@ =~= params@.subrange(0, i as int));
        }
        assert(v@ =~= params@);
        v
    }

    fn push_function(self, name: &str, params: &[DataType], return_type: FunctionReturnType) -> (res: Self)
        ensures
            res.spec_columns() == self.spec_columns(),
            res.spec_tables() == self.spec_tables(),
            res.spec_functions().len() == self.spec_functions().len() + 1,
            res.spec_functions().drop_last() == self.spec_functions(),
            res.spec_functions().last().function_name@ == name@,
            res.spec_functions().last().parameter_types@ == params@,
            res.spec_functions().last().return_type == return_type,
            res.spec_functions().last().description is None,
            res.spec_functions().last().schema_name is None,
            res.spec_functions().last().database_name is None,
    {
        let mut b = self;
        b.functions.push(
            Function {
                function_name: String::from_str(name),
                parameter_types: Self::copy_types(params),
                return_type,
                description: None,
                schema_name: None,
                database_name: None,
            },
        );
        b
    }

    /// Add a scalar function.
    pub fn scalar_function(self, name: &str, params: &[DataType], return_type: DataType) -> (res: Self)
        ensures
            res.spec_columns() == self.spec_columns(),
            res.spec_tables() == self.spec_tables(),
            res.spec_functions().len() == self.spec_functions().len() + 1,
            res.spec_functions().drop_last() == self.spec_functions(),
            res.spec_functions().last().function_name@ == name@,
            res.spec_functions().last().parameter_types@ == params@,
            res.spec_functions().last().return_type == FunctionReturnType::Scalar(return_type),
            res.spec_functions().last().description is None,
            res.spec_functions().last().schema_name is None,
            res.spec_functions().last().database_name is None,
            adds_one(self, res, Added::Function(res.spec_functions().last())),
    {
        self.push_function(name, params, FunctionReturnType::Scalar(return_type))
    }

    /// Add an aggregate function.
    pub fn aggregate_function(self, name: &str, params: &[DataType], return_type: DataType) -> (res: Self)
        ensures
            res.spec_columns() == self.spec_columns(),
            res.spec_tables() == self.spec_tables(),
            res.spec_functions().len() == self.spec_functions().len() + 1,
            res.spec_functions().drop_last() == self.spec_functions(),
            res.spec_functions().last().function_name@ == name@,
            res.spec_functions().last().parameter_types@ == params@,
            res.spec_functions().last().return_type == FunctionReturnType::Aggregate(return_type),
            res.spec_functions().last().description is None,
            res.spec_functions().last().schema_name is None,
            res.spec_functions().last().database_name is None,
            adds_one(self, res, Added::Function(res.spec_functions().last())),
    {
        self.push_function(name, params, FunctionReturnType::Aggregate(return_type))
    }

    /// Add a table-valued function with the given result columns.
    pub fn table_function(self, name: &str, params: &[DataType], return_type: Vec<(&str, DataType)>) -> (res: Self)
        ensures
            res.spec_columns() == self.spec_columns(),
            res.spec_tables() == self.spec_tables(),
            res.spec_functions().len() == self.spec_functions().len() + 1,
            res.spec_functions().drop_last() == self.spec_functions(),
            res.spec_functions().last().function_name@ == name@,
            res.spec_functions().last().parameter_types@ == params@,
            res.spec_functions().last().return_type is Table,
            res.spec_functions().last().return_type->Table_0@.len() == return_type@.len(),
            forall|k: int|
                0 <= k < return_type@.len() ==> {
                    let c = (#[trigger] res.spec_functions().last().return_type->Table_0@[k]);
                    c.column_name@ == return_type@[k].0@ && c.data_type == return_type@[k].1
                },
            res.spec_functions().last().description is None,
            res.spec_functions().last().schema_name is None,
            res.spec_functions().last().database_name is None,
            adds_one(self, res, Added::Function(res.spec_functions().last())),
    {
        let mut cols: Vec<TableColumn> = Vec::new();
        let mut i: usize = 0;
        while i < return_type.len()
            invariant
                i <= return_type@.len(),
                cols@.len() == i,
                forall|k: int|
                    0 <= k < i ==> {
                        let c = (#[trigger] cols@[k]);
                        c.column_name@ == return_type@[k].0@ && c.data_type == return_type@[k].1
                    },
            decreases return_type.len() - i,
        {
            let (n, dt) = return_type[i];
            cols.push(TableColumn { column_name: String::from_str(n), data_type: dt });
            i += 1;
        }
        self.push_function(name, params, FunctionReturnType::Table(cols))
    }

    /// The catalog built so far.
    pub fn build(self) -> (res: Cache)
        ensures
            res.columns@ == self.spec_columns(),
            res.tables@ == self.spec_tables(),
            res.functions@ == self.spec_functions(),
    {
        Cache { columns: self.columns, tables: self.tables, functions: self.functions }
    }
}

} // verus!
