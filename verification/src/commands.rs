//! The decisions of the command layer, as functions from plain values to
//! plain values: which condition a search term turns into, how list
//! arguments resolve, which pairs a batch assignment covers. The outer
//! layer does the prompting and printing around these.

use vstd::prelude::*;
use crate::flags::{AssignArgs, ListArgs, NullableString, UpdateArgs};
use crate::parse::{i64_numeral_value, is_ascii_digit, is_i64_numeral, parse_i64};
use crate::queries::{OrderBy, OrderDir, QueryCols, QueryConditions, RowLimit, SqlValue, UpdateAction};
use crate::text::{dec_digits, usize_text, views_of};

verus! {

/// Rejects an item name that starts with a digit, so that a name can
/// never be mistaken for an identifier. Only the ten ASCII digits are
/// treated as digits; other numeral characters pass.
pub fn validate_name(input: &str) -> (r: Result<(), String>)
    ensures
        r is Err <==> (input@.len() > 0 && is_ascii_digit(input@[0])),
        r matches Err(m) ==> m@ == "Name cannot start with or be a number"@,
{
    if input.is_empty() {
        return Ok(());
    }
    let c = input.get_char(0);
    let code = c as u32;
    if 48 <= code && code <= 57 {
        Err("Name cannot start with or be a number".to_owned())
    } else {
        Ok(())
    }
}

/// The condition a search term scopes a selection to: a term that reads
/// as a signed number names an identifier, any other term names a name
/// pattern matched anywhere in the name.
pub fn search_condition(term: &str) -> (r: QueryConditions)
    ensures
        is_i64_numeral(term@) ==> (r matches QueryConditions::Equal { col, value } && col@ == "id"@
            && (value matches SqlValue::Int(n) && n == i64_numeral_value(term@))),
        !is_i64_numeral(term@) ==> (r matches QueryConditions::Like { col, value } && col@
            == "name"@ && (value matches SqlValue::Text(t) && t@ == "%"@ + term@ + "%"@)),
{
    match parse_i64(term) {
        Some(num) => QueryConditions::Equal { col: "id".to_owned(), value: SqlValue::Int(num) },
        None => {
            let mut pattern = "%".to_owned();
            pattern.append(term);
            pattern.append("%");
            QueryConditions::Like { col: "name".to_owned(), value: SqlValue::Text(pattern) }
        }
    }
}

/// Parse assign args search terms: for task and project each, the
/// positional value wins over the flag value.
pub fn parse_search_terms(args: &AssignArgs) -> (r: (Option<String>, Option<String>))
    ensures
        r.0 == if args.task is Some {
            args.task
        } else {
            args.task_term
        },
        r.1 == if args.project is Some {
            args.project
        } else {
            args.project_term
        },
{
    let task_term = match (&args.task, &args.task_term) {
        (Some(term), _) => Some(term.clone()),
        (None, Some(term)) => Some(term.clone()),
        (None, None) => None,
    };
    let project_term = match (&args.project, &args.project_term) {
        (Some(term), _) => Some(term.clone()),
        (None, Some(term)) => Some(term.clone()),
        (None, None) => None,
    };
    (task_term, project_term)
}

/// Parse list command CLI arguments into their respective data types:
/// the projection, ordering and pagination a listing resolves to.
pub fn parse_list_args(args: &ListArgs) -> (r: (
    QueryCols,
    Option<OrderBy>,
    Option<OrderDir>,
    Option<RowLimit>,
    Option<usize>,
))
    ensures
        args.verbose ==> r.0 is All,
        !args.verbose && (args.task || !args.project) ==> (r.0 matches QueryCols::Named(cs)
            && views_of(cs@) == seq!["id"@, "name"@, "priority"@, "status"@]),
        !args.verbose && !(args.task || !args.project) ==> (r.0 matches QueryCols::Named(cs)
            && views_of(cs@) == seq!["id"@, "name"@, "start_time"@, "end_time"@]),
        r.1 == args.order_by,
        r.2 == if args.asc {
            Some(OrderDir::Asc)
        } else if args.desc {
            Some(OrderDir::Desc)
        } else {
            Option::<OrderDir>::None
        },
        r.3 == if args.full {
            Some(RowLimit::All)
        } else if args.limit is Some {
            Some(RowLimit::Limit(args.limit->0))
        } else {
            Option::<RowLimit>::None
        },
        r.4 == args.offset,
{
    let order_dir = match (args.asc, args.desc) {
        (true, _) => Some(OrderDir::Asc),
        (false, true) => Some(OrderDir::Desc),
        (false, false) => None,
    };
    let cols = if args.verbose {
        QueryCols::All
    } else if args.task || !args.project {
        let names = vec![
            "id".to_owned(),
            "name".to_owned(),
            "priority".to_owned(),
            "status".to_owned(),
        ];
        proof {
            assert(views_of(names@) =~= seq!["id"@, "name"@, "priority"@, "status"@]);
        }
        QueryCols::Named(names)
    } else {
        let names = vec![
            "id".to_owned(),
            "name".to_owned(),
            "start_time".to_owned(),
            "end_time".to_owned(),
        ];
        proof {
            assert(views_of(names@) =~= seq!["id"@, "name"@, "start_time"@, "end_time"@]);
        }
        QueryCols::Named(names)
    };
    let limit = match (args.full, args.limit) {
        (true, _) => Some(RowLimit::All),
        (false, Some(val)) => Some(RowLimit::Limit(val)),
        _ => None,
    };
    (cols, args.order_by, order_dir, limit, args.offset)
}

/// The footer under a truncated listing: the window of rows shown, out
/// of the table's total.
pub fn list_footer(offset: Option<usize>, count: usize, total: usize) -> (r: String)
    requires
        (match offset {
            Option::Some(o) => o,
            Option::None => 0,
        }) + count <= usize::MAX,
    ensures
        r@ == "\n"@ + dec_digits(
            (match offset {
                Option::Some(o) => o,
                Option::None => 0,
            }) as nat,
        ) + "-"@ + dec_digits(
            ((match offset {
                Option::Some(o) => o,
                Option::None => 0,
            }) + count) as nat,
        ) + " of "@ + dec_digits(total as nat),
{
    let off = match offset {
        Some(o) => o,
        None => 0,
    };
    let mut r = "\n".to_owned();
    r.append(usize_text(off).as_str());
    r.append("-");
    r.append(usize_text(off + count).as_str());
    r.append(" of ");
    r.append(usize_text(total).as_str());
    r
}

/// Converts an optional nullable string into an update action: absent
/// means untouched, an explicit null clears the column, and a value sets
/// it.
pub fn nullable_into_update_action(flag: Option<NullableString>) -> (r: UpdateAction<String>)
    ensures
        r == match flag {
            Option::Some(NullableString::Text(value)) => UpdateAction::Value(value),
            Option::Some(NullableString::Null) => UpdateAction::<String>::Null,
            Option::None => UpdateAction::<String>::Untouched,
        },
{
    match flag {
        Some(NullableString::Text(value)) => UpdateAction::Value(value),
        Some(NullableString::Null) => UpdateAction::Null,
        None => UpdateAction::Untouched,
    }
}

/// Create pairs of task ids with project ids: every task paired with
/// every project, tasks outermost.
pub fn create_id_pairs(task_ids: Vec<i64>, project_ids: Vec<i64>) -> (r: Vec<(i64, i64)>)
    ensures
        r@.len() == task_ids@.len() * project_ids@.len(),
        forall|i: int, j: int|
            0 <= i < task_ids@.len() && 0 <= j < project_ids@.len() ==> #[trigger] r@[i
                * project_ids@.len() + j] == (task_ids@[i], project_ids@[j]),
{
    let mut r: Vec<(i64, i64)> = Vec::new();
    let plen = project_ids.len();
    let mut i: usize = 0;
    while i < task_ids.len()
        invariant
            0 <= i <= task_ids@.len(),
            plen == project_ids@.len(),
            r@.len() == i * plen,
            forall|a: int, b: int|
                0 <= a < i && 0 <= b < plen ==> #[trigger] r@[a * plen + b] == (
                task_ids@[a],
                project_ids@[b],
            ),
        decreases task_ids@.len() - i,
    {
        let mut j: usize = 0;
        while j < project_ids.len()
            invariant
                0 <= i < task_ids@.len(),
                0 <= j <= plen,
                plen == project_ids@.len(),
                r@.len() == i * plen + j,
                forall|a: int, b: int|
                    0 <= a < i && 0 <= b < plen ==> #[trigger] r@[a * plen + b] == (
                    task_ids@[a],
                    project_ids@[b],
                ),
                forall|b: int|
                    0 <= b < j ==> #[trigger] r@[i * plen + b] == (task_ids@[i as int],
                    project_ids@[b]),
            decreases plen - j,
        {
            let ghost pre = r@;
            r.push((task_ids[i], project_ids[j]));
            proof {
                assert forall|a: int, b: int| 0 <= a < i && 0 <= b < plen implies #[trigger] r@[a
                    * plen + b] == (task_ids@[a], project_ids@[b]) by {
                    assert(a * plen + b < i * plen + j) by (nonlinear_arith)
                        requires
                            0 <= a,
                            a + 1 <= i,
                            0 <= b,
                            b < plen,
                            0 <= j,
                    ;
                    assert(pre[a * plen + b] == (task_ids@[a], project_ids@[b]));
                }
            }
            j += 1;
        }
        proof {
            assert((i + 1) * plen == i * plen + plen) by (nonlinear_arith);
        }
        i += 1;
    }
    r
}

/// Create pairs of task names with project names, in the same order as
/// the identifier pairs.
pub fn create_name_pairs(task_names: Vec<String>, project_names: Vec<String>) -> (r: Vec<
    (String, String),
>)
    ensures
        r@.len() == task_names@.len() * project_names@.len(),
        forall|i: int, j: int|
            0 <= i < task_names@.len() && 0 <= j < project_names@.len() ==> #[trigger] r@[i
                * project_names@.len() + j] == (task_names@[i], project_names@[j]),
{
    let mut r: Vec<(String, String)> = Vec::new();
    let plen = project_names.len();
    let mut i: usize = 0;
    while i < task_names.len()
        invariant
            0 <= i <= task_names@.len(),
            plen == project_names@.len(),
            r@.len() == i * plen,
            forall|a: int, b: int|
                0 <= a < i && 0 <= b < plen ==> #[trigger] r@[a * plen + b] == (
                task_names@[a],
                project_names@[b],
            ),
        decreases task_names@.len() - i,
    {
        let mut j: usize = 0;
        while j < project_names.len()
            invariant
                0 <= i < task_names@.len(),
                0 <= j <= plen,
                plen == project_names@.len(),
                r@.len() == i * plen + j,
                forall|a: int, b: int|
                    0 <= a < i && 0 <= b < plen ==> #[trigger] r@[a * plen + b] == (
                    task_names@[a],
                    project_names@[b],
                ),
                forall|b: int|
                    0 <= b < j ==> #[trigger] r@[i * plen + b] == (task_names@[i as int],
                    project_names@[b]),
            decreases plen - j,
        {
            let ghost pre = r@;
            r.push((task_names[i].clone(), project_names[j].clone()));
            proof {
                assert forall|a: int, b: int| 0 <= a < i && 0 <= b < plen implies #[trigger] r@[a
                    * plen + b] == (task_names@[a], project_names@[b]) by {
                    assert(a * plen + b < i * plen + j) by (nonlinear_arith)
                        requires
                            0 <= a,
                            a + 1 <= i,
                            0 <= b,
                            b < plen,
                            0 <= j,
                    ;
                    assert(pre[a * plen + b] == (task_names@[a], project_names@[b]));
                }
            }
            j += 1;
        }
        proof {
            assert((i + 1) * plen == i * plen + plen) by (nonlinear_arith);
        }
        i += 1;
    }
    r
}

} // verus!
