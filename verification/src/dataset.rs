//! Datasets that an `ImportDataset` step reads: CSV text (a header line, then
//! one row per non-empty line) or a JSON array of objects. Each row becomes a
//! map from column name to text.
use vstd::prelude::*;
use crate::context::{maps_view, VarMap};
use crate::strmap::{pairs_map, StrMap};
use crate::text::{
    chars_of, lower_seq, seq_ends_with, split_chars, split_on, string_from_chars, to_ascii_lowercase,
    ends_with_chars,
};

verus! {

broadcast use vstd::std_specs::vec::group_vec_axioms;

/// A line without the carriage return that ends it, if any.
pub open spec fn strip_cr(l: Seq<char>) -> Seq<char> {
    if l.len() > 0 && l.last() == '\r' {
        l.drop_last()
    } else {
        l
    }
}

/// The comma-separated cells of a CSV line.
pub open spec fn csv_cells(line: Seq<char>) -> Seq<Seq<char>> {
    split_on(strip_cr(line), ',')
}

pub open spec fn min_len(a: nat, b: nat) -> nat {
    if a <= b { a } else { b }
}

/// The row that binds the first `n` headers to the cells below them (a later
/// column of the same name wins).
pub open spec fn zip_row(headers: Seq<Seq<char>>, cells: Seq<Seq<char>>, n: nat) -> VarMap
    decreases n,
{
    if n == 0 {
        Map::empty()
    } else {
        zip_row(headers, cells, (n - 1) as nat).insert(headers[n - 1], cells[n - 1])
    }
}

/// The row of a data line under the given headers: as many columns as both have.
pub open spec fn csv_row(headers: Seq<Seq<char>>, line: Seq<char>) -> VarMap {
    zip_row(headers, csv_cells(line), min_len(headers.len(), csv_cells(line).len()))
}

/// The rows of data lines, empty lines skipped.
pub open spec fn data_rows(headers: Seq<Seq<char>>, lines: Seq<Seq<char>>) -> Seq<VarMap>
    decreases lines.len(),
{
    if lines.len() == 0 {
        Seq::empty()
    } else {
        let prev = data_rows(headers, lines.drop_last());
        if strip_cr(lines.last()).len() == 0 {
            prev
        } else {
            prev.push(csv_row(headers, lines.last()))
        }
    }
}

/// The rows of a CSV text: the first line names the columns.
pub open spec fn csv_rows(text: Seq<char>) -> Seq<VarMap> {
    let lines = split_on(text, '\n');
    data_rows(csv_cells(lines[0]), lines.subrange(1, lines.len() as int))
}

fn row_from(headers: &Vec<Vec<char>>, line: &Vec<char>) -> (r: StrMap)
    ensures
        r.wf(),
        r@ == csv_row(headers@.map_values(|v: Vec<char>| v@), line@),
{
    let ghost hv = headers@.map_values(|v: Vec<char>| v@);
    let mut body = line.clone();
    if body.len() > 0 && body[body.len() - 1] == '\r' {
        body.pop();
    }
    assert(body@ == strip_cr(line@));
    let cells = split_chars(&body, ',');
    let ghost cv = cells@.map_values(|v: Vec<char>| v@);
    let n = if headers.len() <= cells.len() { headers.len() } else { cells.len() };
    let mut pairs: Vec<(String, String)> = Vec::new();
    let mut j: usize = 0;
    while j < n
        invariant
            j <= n,
            n <= headers.len(),
            n <= cells.len(),
            hv == headers@.map_values(|v: Vec<char>| v@),
            cv == cells@.map_values(|v: Vec<char>| v@),
            pairs.len() == j,
            forall|k: int| 0 <= k < j ==> (#[trigger] pairs@[k]).0@ == hv[k] && pairs@[k].1@ == cv[k],
            pairs_map(pairs@, j as nat) == zip_row(hv, cv, j as nat),
        decreases n - j,
    {
        let h = string_from_chars(&headers[j]);
        let c = string_from_chars(&cells[j]);
        let ghost before = pairs@;
        pairs.push((h, c));
        proof {
            assert(hv[j as int] == headers@[j as int]@);
            assert(cv[j as int] == cells@[j as int]@);
            assert forall|k: int| 0 <= k < j ==> #[trigger] pairs@[k] == before[k] by {}
            lemma_pairs_map_prefix(before, pairs@, j as nat);
        }
        j += 1;
    }
    let r = StrMap::from_pairs(&pairs);
    proof {
        assert(cv == csv_cells(line@));
    }
    r
}

proof fn lemma_pairs_map_prefix(a: Seq<(String, String)>, b: Seq<(String, String)>, n: nat)
    requires
        n <= a.len(),
        n <= b.len(),
        forall|k: int| 0 <= k < n ==> #[trigger] a[k] == b[k],
    ensures
        pairs_map(a, n) == pairs_map(b, n),
    decreases n,
{
    if n > 0 {
        lemma_pairs_map_prefix(a, b, (n - 1) as nat);
        assert(a[n - 1] == b[n - 1]);
    }
}

/// Reads a CSV dataset.
pub fn parse_csv(text: &str) -> (r: Vec<StrMap>)
    ensures
        maps_view(r@) == csv_rows(text@),
        forall|k: int| 0 <= k < r.len() ==> (#[trigger] r@[k]).wf(),
{
    let tc = chars_of(text);
    let lines = split_chars(&tc, '\n');
    let ghost lv = lines@.map_values(|v: Vec<char>| v@);
    proof {
        crate::text::lemma_split_on_nonempty(text@, '\n');
    }
    let mut first = lines[0].clone();
    if first.len() > 0 && first[first.len() - 1] == '\r' {
        first.pop();
    }
    assert(first@ == strip_cr(lv[0]));
    let headers = split_chars(&first, ',');
    let ghost hv = headers@.map_values(|v: Vec<char>| v@);
    assert(hv == csv_cells(lv[0]));
    let mut rows: Vec<StrMap> = Vec::new();
    let mut i: usize = 1;
    while i < lines.len()
        invariant
            1 <= i <= lines.len(),
            lv == lines@.map_values(|v: Vec<char>| v@),
            lv == split_on(text@, '\n'),
            hv == headers@.map_values(|v: Vec<char>| v@),
            maps_view(rows@) == data_rows(hv, lv.subrange(1, i as int)),
            forall|k: int| 0 <= k < rows.len() ==> (#[trigger] rows@[k]).wf(),
        decreases lines.len() - i,
    {
        assert(lv.subrange(1, i + 1).drop_last() =~= lv.subrange(1, i as int));
        assert(lv.subrange(1, i + 1).last() == lines@[i as int]@);
        let line = &lines[i];
        let blank = line.len() == 0 || (line.len() == 1 && line[0] == '\r');
        proof {
            if strip_cr(line@).len() == 0 {
                assert(blank);
            }
            if blank {
                assert(strip_cr(line@).len() == 0);
            }
        }
        if !blank {
            let row = row_from(&headers, line);
            let ghost before = rows@;
            rows.push(row);
            proof {
                assert(maps_view(rows@) =~= maps_view(before).push(row@));
            }
        }
        i += 1;
    }
    proof {
        assert(lv.subrange(1, lines.len() as int) == lv.subrange(1, lv.len() as int));
    }
    rows
}

/// The elements of a JSON array: for an object, its (field, text) pairs in
/// order, string values as they are and other values in their JSON text; None
/// for an element that is no object. None where the text is no JSON array.
pub uninterp spec fn json_rows(text: Seq<char>) -> Option<Seq<Option<Seq<(Seq<char>, Seq<char>)>>>>;

pub open spec fn elem_view(e: Option<Vec<(String, String)>>) -> Option<Seq<(Seq<char>, Seq<char>)>> {
    match e {
        Some(p) => Some(pairs_view(p@)),
        None => None,
    }
}

pub open spec fn pairs_view(p: Seq<(String, String)>) -> Seq<(Seq<char>, Seq<char>)> {
    p.map_values(|x: (String, String)| (x.0@, x.1@))
}

/// `serde_json::from_str::<serde_json::Value>` and, for an array, each
/// element's `as_object` fields, with the text of string values and
/// `to_string` for the rest.
#[verifier::external_body]
fn json_object_rows(text: &str) -> (r: Option<Vec<Option<Vec<(String, String)>>>>)
    ensures
        match r {
            Some(rows) => json_rows(text@) == Some(
                rows@.map_values(|e: Option<Vec<(String, String)>>| elem_view(e)),
            ),
            None => json_rows(text@) is None,
        },
{
    let items = match serde_json::from_str::<serde_json::Value>(text).ok()? {
        serde_json::Value::Array(items) => items,
        _ => return None,
    };
    let field = |(k, v): (&String, &serde_json::Value)| match v {
        serde_json::Value::String(s) => (k.clone(), s.clone()),
        other => (k.clone(), other.to_string()),
    };
    Some(items.iter().map(|it| it.as_object().map(|o| o.iter().map(field).collect())).collect())
}

/// The map of a JSON row's pairs (a later field of the same name wins).
pub open spec fn pair_seq_map(p: Seq<(Seq<char>, Seq<char>)>) -> VarMap
    decreases p.len(),
{
    if p.len() == 0 {
        Map::empty()
    } else {
        pair_seq_map(p.drop_last()).insert(p.last().0, p.last().1)
    }
}

proof fn lemma_pairs_map_view(p: Seq<(String, String)>, n: nat)
    requires
        n <= p.len(),
    ensures
        pairs_map(p, n) == pair_seq_map(pairs_view(p).take(n as int)),
    decreases n,
{
    if n > 0 {
        lemma_pairs_map_view(p, (n - 1) as nat);
        assert(pairs_view(p).take(n as int).drop_last() =~= pairs_view(p).take(n - 1));
    }
}

/// A dataset is JSON when its file name ends in `.json` (any case), CSV otherwise.
pub open spec fn is_json_name(filename: Seq<char>) -> bool {
    seq_ends_with(lower_seq(filename), ".json"@)
}

/// The row of a JSON element: an object's fields; an element that is no
/// object binds nothing.
pub open spec fn json_elem_row(e: Option<Seq<(Seq<char>, Seq<char>)>>) -> VarMap {
    match e {
        Some(p) => pair_seq_map(p),
        None => Map::empty(),
    }
}

/// The rows of a dataset file read from `filename`, or why it cannot be read.
pub open spec fn dataset_rows(filename: Seq<char>, text: Seq<char>) -> Result<Seq<VarMap>, Seq<char>> {
    if is_json_name(filename) {
        match json_rows(text) {
            Some(rows) => Ok(rows.map_values(|e: Option<Seq<(Seq<char>, Seq<char>)>>| json_elem_row(e))),
            None => Err("Dataset parse error: "@ + filename + " is not a JSON array"@),
        }
    } else {
        Ok(csv_rows(text))
    }
}

/// Reads a dataset: JSON for a `.json` file, CSV for any other.
pub fn load_rows(filename: &str, text: &str) -> (r: Result<Vec<StrMap>, String>)
    ensures
        match r {
            Ok(rows) => dataset_rows(filename@, text@) == Ok::<Seq<VarMap>, Seq<char>>(maps_view(rows@))
                && forall|k: int| 0 <= k < rows.len() ==> (#[trigger] rows@[k]).wf(),
            Err(e) => dataset_rows(filename@, text@) == Err::<Seq<VarMap>, Seq<char>>(e@),
        },
{
    proof {
        reveal_strlit(".json");
    }
    let lower = to_ascii_lowercase(filename);
    let lc = chars_of(lower.as_str());
    let ext = chars_of(".json");
    if !ends_with_chars(&lc, &ext) {
        return Ok(parse_csv(text));
    }
    match json_object_rows(text) {
        None => Err(crate::text::concat3("Dataset parse error: ", filename, " is not a JSON array")),
        Some(raw) => {
            let ghost rv = raw@.map_values(|e: Option<Vec<(String, String)>>| elem_view(e));
            let mut rows: Vec<StrMap> = Vec::new();
            let mut i: usize = 0;
            while i < raw.len()
                invariant
                    i <= raw.len(),
                    rv == raw@.map_values(|e: Option<Vec<(String, String)>>| elem_view(e)),
                    maps_view(rows@) == rv.take(i as int).map_values(
                        |e: Option<Seq<(Seq<char>, Seq<char>)>>| json_elem_row(e),
                    ),
                    forall|k: int| 0 <= k < rows.len() ==> (#[trigger] rows@[k]).wf(),
                decreases raw.len() - i,
            {
                let row = match &raw[i] {
                    Some(pairs) => {
                        let row = StrMap::from_pairs(pairs);
                        proof {
                            lemma_pairs_map_view(pairs@, pairs@.len());
                            assert(pairs_view(pairs@).take(pairs@.len() as int) =~= pairs_view(pairs@));
                            assert(rv[i as int] == Some(pairs_view(pairs@)));
                        }
                        row
                    },
                    None => {
                        assert(rv[i as int] is None);
                        StrMap::new()
                    },
                };
                let ghost before = rows@;
                rows.push(row);
                proof {
                    assert(maps_view(rows@) =~= maps_view(before).push(row@));
                    assert(rv.take(i + 1) =~= rv.take(i as int).push(rv[i as int]));
                    assert(maps_view(rows@) =~= rv.take(i + 1).map_values(
                        |e: Option<Seq<(Seq<char>, Seq<char>)>>| json_elem_row(e),
                    ));
                }
                i += 1;
            }
            assert(rv.take(raw.len() as int) =~= rv);
            Ok(rows)
        },
    }
}

} // verus!
