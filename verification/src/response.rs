//! Response translation: the current-format response, one row set per
//! logical invocation, rewritten into the legacy response shape.
//!
//! Exactly one row set becomes the legacy single-result variant; zero or
//! several row sets become the legacy foreach variant, one wrapped entry per
//! row set, in order.

use vstd::prelude::*;

use crate::ir;
use crate::legacy::{ForEachRow, QueryResponse, ResponseFieldValue, ResponseRow};

verus! {

/// The mirror of a named-value vector.
pub open spec fn value_pairs_view(s: Seq<(String, serde_json::Value)>) -> Seq<
    (Seq<char>, serde_json::Value),
> {
    s.map_values(|p: (String, serde_json::Value)| (p.0@, p.1))
}

/// Mirror of [`ResponseRow`].
#[verifier::ext_equal]
pub ghost struct ResponseRowV {
    pub aggregates: Option<Seq<(Seq<char>, serde_json::Value)>>,
    pub rows: Option<Seq<Seq<(Seq<char>, ResponseFieldValue)>>>,
}

/// Mirror of [`ForEachRow`].
#[verifier::ext_equal]
pub ghost struct ForEachRowV {
    pub query: ResponseRowV,
}

/// Mirror of [`QueryResponse`].
#[verifier::ext_equal]
pub ghost enum QueryResponseV {
    Single(ResponseRowV),
    ForEach { rows: Seq<ForEachRowV> },
}

/// The mirror of one legacy response row's cells.
pub open spec fn response_cells_view(cells: Seq<(String, ResponseFieldValue)>) -> Seq<
    (Seq<char>, ResponseFieldValue),
> {
    cells.map_values(|c: (String, ResponseFieldValue)| (c.0@, c.1))
}

/// The mirror of a legacy response row.
pub open spec fn response_row_view(r: ResponseRow) -> ResponseRowV {
    ResponseRowV {
        aggregates: match r.aggregates {
            Some(a) => Some(value_pairs_view(a@)),
            None => None,
        },
        rows: match r.rows {
            Some(rows) => Some(
                rows@.map_values(|row: Vec<(String, ResponseFieldValue)>| response_cells_view(row@)),
            ),
            None => None,
        },
    }
}

/// The mirror of a legacy response.
pub open spec fn query_response_view(r: QueryResponse) -> QueryResponseV {
    match r {
        QueryResponse::Single(row) => QueryResponseV::Single(response_row_view(row)),
        QueryResponse::ForEach { rows } => QueryResponseV::ForEach {
            rows: rows@.map_values(|fe: ForEachRow| ForEachRowV { query: response_row_view(fe.query) }),
        },
    }
}

/// The legacy row that one IR row set translates to: each cell's value
/// wrapper is unwrapped into the legacy per-cell representation, and
/// aggregate values pass through unchanged.
pub open spec fn spec_get_reponse_row(row: ir::RowSet) -> ResponseRowV {
    ResponseRowV {
        aggregates: match row.aggregates {
            Some(a) => Some(value_pairs_view(a@)),
            None => None,
        },
        rows: match row.rows {
            Some(rows) => Some(
                rows@.map_values(|r: Vec<(String, ir::RowFieldValue)>| spec_row_cells(r@)),
            ),
            None => None,
        },
    }
}

/// The legacy cells that one IR row's cells translate to.
pub open spec fn spec_row_cells(cells: Seq<(String, ir::RowFieldValue)>) -> Seq<
    (Seq<char>, ResponseFieldValue),
> {
    cells.map_values(|c: (String, ir::RowFieldValue)| (c.0@, ResponseFieldValue::Column(c.1.0)))
}

/// The legacy response that an IR response translates to: the single-result
/// shape for exactly one row set, the foreach shape otherwise.
pub open spec fn spec_map_query_response(response: ir::QueryResponse) -> QueryResponseV {
    if response.0@.len() == 1 {
        QueryResponseV::Single(spec_get_reponse_row(response.0@[0]))
    } else {
        QueryResponseV::ForEach {
            rows: response.0@.map_values(|r: ir::RowSet| ForEachRowV { query: spec_get_reponse_row(r) }),
        }
    }
}

/// Translate the cells of one IR row.
fn map_row_cells(cells: &Vec<(String, ir::RowFieldValue)>) -> (r: Vec<(String, ResponseFieldValue)>)
    ensures
        response_cells_view(r@) == spec_row_cells(cells@),
{
    let mut acc: Vec<(String, ResponseFieldValue)> = Vec::new();
    let n = cells.len();
    let mut i: usize = 0;
    while i < n
        invariant
            n == cells@.len(),
            i <= n,
            acc@.len() == i,
            forall|j: int|
                0 <= j < i ==> (acc@[j].0@, acc@[j].1) == (cells@[j].0@, ResponseFieldValue::Column(
                    cells@[j].1.0,
                )),
        decreases n - i,
    {
        let cell = &cells[i];
        acc.push((cell.0.clone(), ResponseFieldValue::Column(cell.1.0.clone())));
        i = i + 1;
    }
    proof {
        assert(response_cells_view(acc@) =~= spec_row_cells(cells@));
    }
    acc
}

/// Translate one IR row set into a legacy response row.
pub fn get_reponse_row(row: ir::RowSet) -> (r: ResponseRow)
    ensures
        response_row_view(r) == spec_get_reponse_row(row),
{
    let ir::RowSet { aggregates, rows } = row;
    let out_rows: Option<Vec<Vec<(String, ResponseFieldValue)>>> = match rows {
        None => None,
        Some(in_rows) => {
            let mut acc: Vec<Vec<(String, ResponseFieldValue)>> = Vec::new();
            let n = in_rows.len();
            let mut i: usize = 0;
            while i < n
                invariant
                    n == in_rows@.len(),
                    i <= n,
                    acc@.len() == i,
                    forall|j: int|
                        0 <= j < i ==> response_cells_view(#[trigger] acc@[j]@) == spec_row_cells(
                            in_rows@[j]@,
                        ),
                decreases n - i,
            {
                let cells = map_row_cells(&in_rows[i]);
                acc.push(cells);
                i = i + 1;
            }
            proof {
                assert(acc@.map_values(
                    |r2: Vec<(String, ResponseFieldValue)>| response_cells_view(r2@),
                ) =~= in_rows@.map_values(|r2: Vec<(String, ir::RowFieldValue)>| spec_row_cells(r2@)));
            }
            Some(acc)
        },
    };
    let out = ResponseRow { aggregates, rows: out_rows };
    proof {
        assert(response_row_view(out) =~~= spec_get_reponse_row(row));
    }
    out
}

/// Translate an IR response into the legacy response shape.
pub fn map_query_response(response: ir::QueryResponse) -> (r: QueryResponse)
    ensures
        query_response_view(r) == spec_map_query_response(response),
{
    let ghost resp0 = response;
    let ir::QueryResponse(mut rowsets) = response;
    if rowsets.len() == 1 {
        let row = rowsets.remove(0);
        let out = QueryResponse::Single(get_reponse_row(row));
        proof {
            assert(query_response_view(out) =~~= spec_map_query_response(resp0));
        }
        out
    } else {
        let mut acc: Vec<ForEachRow> = Vec::new();
        let ghost orig = rowsets@;
        while rowsets.len() > 0
            invariant
                acc@.len() + rowsets@.len() == orig.len(),
                rowsets@ =~= orig.subrange(acc@.len() as int, orig.len() as int),
                forall|j: int|
                    0 <= j < acc@.len() ==> response_row_view(#[trigger] acc@[j].query)
                        == spec_get_reponse_row(orig[j]),
            decreases rowsets.len(),
        {
            let row = rowsets.remove(0);
            proof {
                assert(row == orig[acc@.len() as int]);
            }
            acc.push(ForEachRow { query: get_reponse_row(row) });
        }
        let out = QueryResponse::ForEach { rows: acc };
        proof {
            assert(query_response_view(out) =~~= spec_map_query_response(resp0));
        }
        out
    }
}

} // verus!
