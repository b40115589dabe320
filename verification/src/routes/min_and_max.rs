//! The route of the smallest and the largest value of an attribute: which
//! requests it accepts, and the statement it runs for them.
//!
//! The attribute becomes part of the statement's text, so it has to be one
//! of the four known names. The lake is only ever bound.

use sqlx::{Postgres, QueryBuilder};
use vstd::prelude::*;
use crate::utils::same_text;

verus! {

/// The parameters of the query string.
#[derive(Clone, Debug, PartialEq, Eq)]
pub struct MinMaxQuery {
    pub lake: Option<String>,
    pub attr: String,
}

/// A statement under construction, in the query builder of `sqlx`.
///
/// The builder is opaque to the verifier: what was pushed to it is known by
/// the name `pushed` alone. It is public so that the server can run the
/// statement; the library takes no statement back.
#[verifier::external_body]
pub struct Statement<'a> {
    pub builder: QueryBuilder<'a, Postgres>,
}

/// A piece of a statement: text that was appended as it is, or a value that
/// was bound to the next placeholder.
pub enum SqlText {
    Push(Seq<char>),
    PushBind(Seq<char>),
}

/// What was pushed to the builder of a statement, in order.
pub uninterp spec fn pushed(statement: Statement<'_>) -> Seq<SqlText>;

/// Whether the builder of a statement still takes pushes: it does until a
/// query was built from it.
pub uninterp spec fn takes_pushes(statement: Statement<'_>) -> bool;

/// Calls `QueryBuilder::new` for Postgres.
///
/// Trusted: the new builder holds the initial text and no argument, and
/// takes pushes.
#[verifier::external_body]
fn start<'a>(init: &str) -> (statement: Statement<'a>)
    ensures
        pushed(statement) == seq![SqlText::Push(init@)],
        takes_pushes(statement),
{
    Statement { builder: QueryBuilder::new(init) }
}

/// Calls `QueryBuilder::push`.
///
/// Trusted: the text is appended to the statement as it is. The builder
/// panics once a query was built from it, hence the `requires`.
#[verifier::external_body]
fn push(statement: &mut Statement<'_>, text: &str)
    requires
        takes_pushes(*old(statement)),
    ensures
        pushed(*final(statement)) == pushed(*old(statement)).push(SqlText::Push(text@)),
        takes_pushes(*final(statement)),
{
    statement.builder.push(text);
}

/// Calls `QueryBuilder::push_bind`.
///
/// Trusted: the value is added to the arguments and its placeholder is
/// appended to the text; the value itself never becomes text. The builder
/// panics once a query was built from it, hence the `requires`.
#[verifier::external_body]
fn push_bind<'a>(statement: &mut Statement<'a>, value: &'a str)
    requires
        takes_pushes(*old(statement)),
    ensures
        pushed(*final(statement)) == pushed(*old(statement)).push(SqlText::PushBind(value@)),
        takes_pushes(*final(statement)),
{
    statement.builder.push_bind(value);
}

/// What the route does with a request.
pub enum MinMaxPlan<'a> {
    /// The request names an attribute or a lake that is not offered: a 406.
    NotAcceptable,
    /// The statement to run; its first and last rows are the answer.
    Run(Statement<'a>),
}

/// The lakes that have data.
pub open spec fn valid_lake(lake: Seq<char>) -> bool {
    lake == "Store"@ || lake == "Superior"@ || lake == "Huron"@ || lake == "Michigan"@
}

/// The attributes that can be ranked.
pub open spec fn valid_attr(attr: Seq<char>) -> bool {
    attr == "protein"@ || attr == "pcb"@ || attr == "mercury"@ || attr == "omega_3_ratio"@
}

/// The statement for the extremes of an attribute in one lake.
pub open spec fn lake_statement(lake: Seq<char>, attr: Seq<char>) -> Seq<SqlText> {
    seq![
        SqlText::Push("SELECT fish_type.name, fish_type.anishinaabe_name, "@),
        SqlText::Push(attr),
        SqlText::Push(
            " as value FROM fish JOIN fish_type ON fish.fish_type_id=fish_type.id WHERE ("@,
        ),
        SqlText::Push(attr),
        SqlText::Push("=(SELECT MAX("@),
        SqlText::Push(attr),
        SqlText::Push(") FROM fish WHERE lake="@),
        SqlText::PushBind(lake),
        SqlText::Push(") AND fish.lake="@),
        SqlText::PushBind(lake),
        SqlText::Push(") OR ("@),
        SqlText::Push(attr),
        SqlText::Push("=(SELECT MIN("@),
        SqlText::Push(attr),
        SqlText::Push(") FROM fish where lake="@),
        SqlText::PushBind(lake),
        SqlText::Push(") AND fish.lake="@),
        SqlText::PushBind(lake),
        SqlText::Push(") ORDER BY "@),
        SqlText::Push(attr),
        SqlText::Push(";"@),
    ]
}

/// The statement for the extremes of the averages of an attribute over all
/// lakes.
pub open spec fn averages_statement(attr: Seq<char>) -> Seq<SqlText> {
    seq![
        SqlText::Push("SELECT fish_type.name, fish_type.anishinaabe_name, CAST(AVG("@),
        SqlText::Push(attr),
        SqlText::Push(
            ") AS FLOAT4) AS value FROM fish JOIN fish_type ON fish.fish_type_id=fish_type.id\n        GROUP BY fish_type.name, fish_type.anishinaabe_name ORDER BY value;"@,
        ),
    ]
}

/// What the route does with a query: `None` is a 406, `Some` the statement
/// to run.
pub open spec fn min_max_plan(lake: Option<Seq<char>>, attr: Seq<char>) -> Option<Seq<SqlText>> {
    if !valid_attr(attr) {
        None
    } else {
        match lake {
            Some(lake) => if valid_lake(lake) {
                Some(lake_statement(lake, attr))
            } else {
                None
            },
            None => Some(averages_statement(attr)),
        }
    }
}

/// What a plan runs: `None` where it runs nothing.
pub open spec fn plan_text(plan: MinMaxPlan<'_>) -> Option<Seq<SqlText>> {
    match plan {
        MinMaxPlan::NotAcceptable => None,
        MinMaxPlan::Run(statement) => Some(pushed(statement)),
    }
}

/// The lake of a query, as text.
pub open spec fn lake_text(lake: Option<String>) -> Option<Seq<char>> {
    match lake {
        Some(lake) => Some(lake@),
        None => None,
    }
}

/// Whether a lake is one that has data.
pub fn is_valid_lake(lake: &str) -> (valid: bool)
    ensures
        valid == valid_lake(lake@),
{
    same_text(lake, "Store") || same_text(lake, "Superior") || same_text(lake, "Huron")
        || same_text(lake, "Michigan")
}

/// Whether an attribute is one that can be ranked.
pub fn is_valid_attr(attr: &str) -> (valid: bool)
    ensures
        valid == valid_attr(attr@),
{
    same_text(attr, "protein") || same_text(attr, "pcb") || same_text(attr, "mercury")
        || same_text(attr, "omega_3_ratio")
}

/// Builds the statement that finds the fish with the smallest and the
/// largest value of an attribute in a lake, ordered by that value.
pub fn get_min_and_max_data<'a>(lake: &'a str, attr: &str) -> (statement: Statement<'a>)
    ensures
        pushed(statement) == lake_statement(lake@, attr@),
        takes_pushes(statement),
{
    let mut query = start("SELECT fish_type.name, fish_type.anishinaabe_name, ");
    push(&mut query, attr);
    push(&mut query, " as value FROM fish JOIN fish_type ON fish.fish_type_id=fish_type.id WHERE (");
    push(&mut query, attr);
    push(&mut query, "=(SELECT MAX(");
    push(&mut query, attr);
    push(&mut query, ") FROM fish WHERE lake=");
    push_bind(&mut query, lake);
    push(&mut query, ") AND fish.lake=");
    push_bind(&mut query, lake);
    push(&mut query, ") OR (");
    push(&mut query, attr);
    push(&mut query, "=(SELECT MIN(");
    push(&mut query, attr);
    push(&mut query, ") FROM fish where lake=");
    push_bind(&mut query, lake);
    push(&mut query, ") AND fish.lake=");
    push_bind(&mut query, lake);
    push(&mut query, ") ORDER BY ");
    push(&mut query, attr);
    push(&mut query, ";");
    assert(pushed(query) =~= lake_statement(lake@, attr@));
    query
}

/// Builds the statement that finds the fish types with the smallest and the
/// largest average of an attribute over all lakes, ordered by that average.
pub fn get_min_and_max_of_avg_data<'a>(attr: &str) -> (statement: Statement<'a>)
    ensures
        pushed(statement) == averages_statement(attr@),
        takes_pushes(statement),
{
    let mut query = start("SELECT fish_type.name, fish_type.anishinaabe_name, CAST(AVG(");
    push(&mut query, attr);
    push(
        &mut query,
        ") AS FLOAT4) AS value FROM fish JOIN fish_type ON fish.fish_type_id=fish_type.id\n        GROUP BY fish_type.name, fish_type.anishinaabe_name ORDER BY value;",
    );
    assert(pushed(query) =~= averages_statement(attr@));
    query
}

/// Decides on a query: an attribute that cannot be ranked is not
/// acceptable, and neither is a lake without data; without a lake the
/// averages over all lakes are ranked.
pub fn min_and_max<'a>(query: &'a MinMaxQuery) -> (plan: MinMaxPlan<'a>)
    ensures
        plan_text(plan) == min_max_plan(lake_text(query.lake), query.attr@),
        plan matches MinMaxPlan::Run(statement) ==> takes_pushes(statement),
{
    let attr = query.attr.as_str();
    if !is_valid_attr(attr) {
        return MinMaxPlan::NotAcceptable;
    }
    match &query.lake {
        Some(lake) => {
            let lake = lake.as_str();
            if !is_valid_lake(lake) {
                return MinMaxPlan::NotAcceptable;
            }
            MinMaxPlan::Run(get_min_and_max_data(lake, attr))
        },
        None => MinMaxPlan::Run(get_min_and_max_of_avg_data(attr)),
    }
}

/// A statement is planned only for an attribute that can be ranked and,
/// where a lake is given, for a lake that has data. Of what the client
/// sent, the attribute alone becomes text of the statement (every other
/// text is there whatever the attribute is), and the lake is only bound.
pub proof fn planned_statements_are_safe(lake: Option<Seq<char>>, attr: Seq<char>, i: int)
    requires
        min_max_plan(lake, attr) matches Some(parts) && 0 <= i < parts.len(),
    ensures
        valid_attr(attr),
        lake matches Some(l) ==> valid_lake(l),
        min_max_plan(lake, attr)->0[i] matches SqlText::PushBind(value) ==> lake == Some(value),
        min_max_plan(lake, attr)->0[i] matches SqlText::Push(text) ==> text == attr
            || min_max_plan(lake, "protein"@)->0[i] == SqlText::Push(text),
{
}

} // verus!
