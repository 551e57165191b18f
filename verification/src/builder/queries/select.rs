//! SELECT statements.
use vstd::prelude::*;
use crate::text::{
    decimal, is_whitespace, lemma_first_index, lemma_last_index, not_whitespace, owned, push_str, trim,
    trim_spec,
};
use crate::builder::columns::columns_list_sql;
use crate::builder::joins::{joins_sql, joins_well_formed};
use crate::builder::ordering::order_clause_sql;
use crate::builder::pagination::{Page, offset_fits, page_offset, page_sql};
use crate::builder::table::{TableExpr, spaced, push_space, needs_space};
use crate::builder::{QueryBuilder, QueryBuilderView, QueryType};
use super::{push_where, where_part, where_ready};

verus! {

/// The SELECT statement before trimming: the column list, `FROM` and the table,
/// the joins, the WHERE clause, the ORDER BY clause and the page.
pub open spec fn select_body(q: QueryBuilderView) -> Seq<char> {
    let t = q.database[0];
    let s1 = "SELECT "@ + columns_list_sql(t.columns, q);
    let s2 = spaced(s1) + "FROM "@ + t.name;
    let s3 = if q.joins.len() > 0 { s2 + " "@ + joins_sql(q.joins) } else { s2 };
    let s4 = s3 + where_part(q);
    let s5 = if q.order_by.len() > 0 { spaced(s4) + order_clause_sql(q.order_by) } else { s4 };
    match q.page {
        Some(p) => (if s5.len() > 0 && s5.last() == ' ' { s5 } else { s5 + " "@ }) + page_sql(p),
        None => s5,
    }
}

/// The SELECT statement: empty without a table, otherwise the trimmed body and `;`.
pub open spec fn select_sql(q: QueryBuilderView) -> Seq<char> {
    if q.database.len() == 0 {
        Seq::empty()
    } else {
        trim_spec(select_body(q)) + ";"@
    }
}

proof fn lemma_decimal_ends_in_digit(n: nat)
    ensures
        decimal(n).len() > 0,
        !is_whitespace(decimal(n).last()),
    decreases n,
{
    if n >= 10 {
        lemma_decimal_ends_in_digit(n / 10);
    }
}

proof fn lemma_page_sql_ends_in_digit(p: Page)
    ensures
        page_sql(p).len() > 0,
        !is_whitespace(page_sql(p).last()),
{
    lemma_decimal_ends_in_digit(p.limit as nat);
    lemma_decimal_ends_in_digit(page_offset(p) as nat);
}

proof fn lemma_trimmed_ends_with(pre: Seq<char>, x: Seq<char>)
    requires
        pre.len() > 0,
        !is_whitespace(pre[0]),
        pre.last() == ' ',
        x.len() > 0,
        !is_whitespace(x.last()),
    ensures
        ({
            let sql = trim_spec(pre + x) + ";"@;
            sql.len() >= x.len() + 2 && sql.subrange(sql.len() - x.len() - 2, sql.len() as int) == " "@ + x + ";"@
        }),
{
    reveal_strlit(";");
    reveal_strlit(" ");
    let body = pre + x;
    assert(body[0] == pre[0]);
    assert(body.last() == x.last());
    lemma_first_index(body, not_whitespace(), 0);
    lemma_last_index(body, not_whitespace(), body.len() - 1);
    assert(trim_spec(body) =~= body);
    let sql = body + ";"@;
    let tail = " "@ + x + ";"@;
    assert(sql =~= pre.drop_last() + tail);
    assert(sql.subrange(sql.len() - x.len() - 2, sql.len() as int) =~= tail);
}

/// A paginated SELECT ends with the page's LIMIT / OFFSET clause, after a space
/// and before the closing `;`.
pub proof fn lemma_select_ends_with_page(q: QueryBuilderView, p: Page)
    requires
        q.database.len() > 0,
        q.page == Some(p),
    ensures
        select_sql(q).len() >= page_sql(p).len() + 2,
        select_sql(q).subrange(select_sql(q).len() - page_sql(p).len() - 2, select_sql(q).len() as int)
            == " "@ + page_sql(p) + ";"@,
{
    reveal_strlit("SELECT ");
    reveal_strlit(" ");
    let t = q.database[0];
    let s1 = "SELECT "@ + columns_list_sql(t.columns, q);
    let s2 = spaced(s1) + "FROM "@ + t.name;
    let s3 = if q.joins.len() > 0 { s2 + " "@ + joins_sql(q.joins) } else { s2 };
    let s4 = s3 + where_part(q);
    let s5 = if q.order_by.len() > 0 { spaced(s4) + order_clause_sql(q.order_by) } else { s4 };
    let pre = if s5.len() > 0 && s5.last() == ' ' { s5 } else { s5 + " "@ };
    assert(select_body(q) == pre + page_sql(p));
    assert(s1[0] == 'S');
    assert(spaced(s1)[0] == 'S');
    assert(s2[0] == 'S');
    assert(s3[0] == 'S');
    assert(s4[0] == 'S');
    assert(spaced(s4)[0] == 'S');
    assert(s5[0] == 'S');
    assert(pre[0] == 'S');
    assert(pre.last() == ' ');
    lemma_page_sql_ends_in_digit(p);
    lemma_trimmed_ends_with(pre, page_sql(p));
}

/// The joins name their tables, numeric markers exist, and the page offset fits.
pub open spec fn select_ready(q: QueryBuilderView) -> bool {
    &&& joins_well_formed(q.joins)
    &&& where_ready(q)
    &&& q.page matches Some(p) ==> offset_fits(p)
}

impl QueryType {
    /// The SELECT statement of a query.
    pub fn sql_select(&self, query: &QueryBuilder) -> (res: String)
        requires
            select_ready(query@),
        ensures
            res@ == select_sql(query@),
    {
        if query.database.len() == 0 {
            return String::new();
        }
        let table = &query.database[0];
        assert(query@.database[0] == table@);
        let mut full_query = owned("SELECT ");
        let cols = table.columns.to_sql(query).unwrap();
        push_str(&mut full_query, cols.as_str());
        let table_expr = TableExpr::new(table.name.as_str());
        table_expr.to_sql_stream(&mut full_query);
        if query.joins.joins.len() != 0 {
            push_str(&mut full_query, " ");
            let j = query.joins.sql();
            push_str(&mut full_query, j.as_str());
        }
        push_where(&mut full_query, query);
        query.order_by.to_sql_stream(&mut full_query);
        if let Some(page) = &query.page {
            if needs_space(&full_query) || full_query.as_str().unicode_len() == 0 {
                push_str(&mut full_query, " ");
            }
            let p = page.sql();
            push_str(&mut full_query, p.as_str());
        }
        let mut res = owned(trim(full_query.as_str()));
        push_str(&mut res, ";");
        res
    }
}

} // verus!
