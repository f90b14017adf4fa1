//! The parameterized SQL statements the service sends to the database.
//!
//! User input never becomes part of the SQL text: the text of a statement is
//! fixed by its kind, and the inputs travel as positional parameters.

use vstd::prelude::*;

verus! {

/// One statement against the `items` table, with the inputs it binds.
#[derive(Debug, PartialEq, Eq)]
pub enum Statement {
    /// Adds a row and returns it with its assigned id.
    Insert { name: String, description: String },
    /// Reads every row, lowest id first.
    SelectAll,
    /// Reads the row with the given id, if there is one.
    SelectById { id: i32 },
    /// Rewrites name and description of the row with the given id and
    /// returns the row as it then stands, if there is one.
    Update { id: i32, name: String, description: String },
    /// Removes the row with the given id, if there is one.
    DeleteById { id: i32 },
    /// Removes every row.
    DeleteAll,
}

/// Mathematical value of a [`Statement`].
pub enum StatementView {
    Insert { name: Seq<char>, description: Seq<char> },
    SelectAll,
    SelectById { id: int },
    Update { id: int, name: Seq<char>, description: Seq<char> },
    DeleteById { id: int },
    DeleteAll,
}

/// The kind of a statement, without its inputs.
#[derive(Clone, Copy, Debug, PartialEq, Eq)]
pub enum StatementKind {
    Insert,
    SelectAll,
    SelectById,
    Update,
    DeleteById,
    DeleteAll,
}

/// One positional parameter of a statement.
#[derive(Debug, PartialEq, Eq)]
pub enum Param {
    Text(String),
    Int(i32),
}

/// Mathematical value of a [`Param`].
pub enum ParamView {
    Text(Seq<char>),
    Int(int),
}

impl View for Param {
    type V = ParamView;

    open spec fn view(&self) -> ParamView {
        match self {
            Param::Text(text) => ParamView::Text(text@),
            Param::Int(number) => ParamView::Int(*number as int),
        }
    }
}

/// The values of a sequence of parameters, in the same order.
pub open spec fn param_views(params: Seq<Param>) -> Seq<ParamView> {
    params.map_values(|param: Param| param@)
}

impl View for Statement {
    type V = StatementView;

    open spec fn view(&self) -> StatementView {
        match self {
            Statement::Insert { name, description } => StatementView::Insert {
                name: name@,
                description: description@,
            },
            Statement::SelectAll => StatementView::SelectAll,
            Statement::SelectById { id } => StatementView::SelectById { id: *id as int },
            Statement::Update { id, name, description } => StatementView::Update {
                id: *id as int,
                name: name@,
                description: description@,
            },
            Statement::DeleteById { id } => StatementView::DeleteById { id: *id as int },
            Statement::DeleteAll => StatementView::DeleteAll,
        }
    }
}

impl StatementKind {
    /// The SQL text of every statement of this kind. Placeholders `$1`,
    /// `$2`, ... stand for the parameters, in order.
    pub open spec fn sql_text(self) -> Seq<char> {
        match self {
            StatementKind::Insert =>
                "INSERT INTO items (name, description) VALUES ($1, $2) RETURNING id, name, description"@,
            StatementKind::SelectAll => "SELECT * FROM items ORDER BY id"@,
            StatementKind::SelectById => "SELECT * FROM items WHERE id = $1"@,
            StatementKind::Update =>
                "UPDATE items SET name = $1, description = $2 WHERE id = $3 RETURNING id, name, description"@,
            StatementKind::DeleteById => "DELETE FROM items WHERE id = $1"@,
            StatementKind::DeleteAll => "DELETE FROM items"@,
        }
    }
}

impl StatementView {
    /// The kind of this statement.
    pub open spec fn kind(self) -> StatementKind {
        match self {
            StatementView::Insert { .. } => StatementKind::Insert,
            StatementView::SelectAll => StatementKind::SelectAll,
            StatementView::SelectById { .. } => StatementKind::SelectById,
            StatementView::Update { .. } => StatementKind::Update,
            StatementView::DeleteById { .. } => StatementKind::DeleteById,
            StatementView::DeleteAll => StatementKind::DeleteAll,
        }
    }

    /// The parameters of this statement, in placeholder order.
    pub open spec fn params(self) -> Seq<ParamView> {
        match self {
            StatementView::Insert { name, description } => seq![
                ParamView::Text(name),
                ParamView::Text(description),
            ],
            StatementView::SelectAll => Seq::empty(),
            StatementView::SelectById { id } => seq![ParamView::Int(id)],
            StatementView::Update { id, name, description } => seq![
                ParamView::Text(name),
                ParamView::Text(description),
                ParamView::Int(id),
            ],
            StatementView::DeleteById { id } => seq![ParamView::Int(id)],
            StatementView::DeleteAll => Seq::empty(),
        }
    }
}

impl Statement {
    /// The kind of this statement.
    pub fn kind(&self) -> (kind: StatementKind)
        ensures
            kind == self@.kind(),
    {
        match self {
            Statement::Insert { .. } => StatementKind::Insert,
            Statement::SelectAll => StatementKind::SelectAll,
            Statement::SelectById { .. } => StatementKind::SelectById,
            Statement::Update { .. } => StatementKind::Update,
            Statement::DeleteById { .. } => StatementKind::DeleteById,
            Statement::DeleteAll => StatementKind::DeleteAll,
        }
    }

    /// The SQL text to prepare. It depends on the kind of the statement
    /// only, never on the inputs.
    pub fn sql(&self) -> (text: &'static str)
        ensures
            text@ == self@.kind().sql_text(),
    {
        match self {
            Statement::Insert { .. } =>
                "INSERT INTO items (name, description) VALUES ($1, $2) RETURNING id, name, description",
            Statement::SelectAll => "SELECT * FROM items ORDER BY id",
            Statement::SelectById { .. } => "SELECT * FROM items WHERE id = $1",
            Statement::Update { .. } =>
                "UPDATE items SET name = $1, description = $2 WHERE id = $3 RETURNING id, name, description",
            Statement::DeleteById { .. } => "DELETE FROM items WHERE id = $1",
            Statement::DeleteAll => "DELETE FROM items",
        }
    }

    /// The parameters to bind, in placeholder order.
    pub fn params(&self) -> (params: Vec<Param>)
        ensures
            param_views(params@) == self@.params(),
    {
        let mut params: Vec<Param> = Vec::new();
        match self {
            Statement::Insert { name, description } => {
                params.push(Param::Text(name.clone()));
                params.push(Param::Text(description.clone()));
            },
            Statement::SelectAll => {},
            Statement::SelectById { id } => {
                params.push(Param::Int(*id));
            },
            Statement::Update { id, name, description } => {
                params.push(Param::Text(name.clone()));
                params.push(Param::Text(description.clone()));
                params.push(Param::Int(*id));
            },
            Statement::DeleteById { id } => {
                params.push(Param::Int(*id));
            },
            Statement::DeleteAll => {},
        }
        assert(param_views(params@) =~= self@.params());
        params
    }
}

} // verus!
