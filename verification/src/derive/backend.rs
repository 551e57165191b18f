//! What the generated database helpers of a derived table do with each column.
use vstd::prelude::*;
use crate::text::owned;
use super::DeriveError;
use crate::text::first_index;
use super::column::{ColumnDerive, ColumnModeView, ColumnsDerive, is_unique_spec, mode_view, primary_key_pred};

verus! {

/// The columns of a table that the generated helpers use: every column but the
/// skipped ones.
pub open spec fn kept(c: ColumnDerive) -> bool {
    !c.skip
}

/// The column is searched by the generated search helper.
pub open spec fn searched(c: ColumnDerive) -> bool {
    !c.skip && mode_view(c.mode) == Some(ColumnModeView::Searchable { enabled: true })
}

/// The column identifies a row for the generated unique lookup.
pub open spec fn unique_key(c: ColumnDerive) -> bool {
    !c.skip && is_unique_spec(c@)
}

/// The column's row in another table is fetched by the generated helpers.
pub open spec fn fetched(c: ColumnDerive) -> bool {
    !c.skip && c.coltype is ForeignKey
}

/// The names of the columns satisfying `p`, in order.
pub open spec fn names_where(cols: Seq<ColumnDerive>, p: spec_fn(ColumnDerive) -> bool) -> Seq<Seq<char>> {
    cols.filter(p).map_values(|c: ColumnDerive| c.name@)
}

/// For each kept column, its name and whether a lookup by it finds one row.
pub open spec fn lookups(cols: Seq<ColumnDerive>) -> Seq<(Seq<char>, bool)> {
    cols.filter(|c: ColumnDerive| kept(c)).map_values(|c: ColumnDerive| (c.name@, is_unique_spec(c@)))
}

/// The last generic argument of a foreign key field's type, as the generated
/// fetch helper reads it.
#[derive(Debug, PartialEq, Eq)]
pub enum ForeignArg {
    /// The field's type is not a path
    NotPath,
    /// The first segment of the path has no angle-bracketed arguments
    NotBracketed,
    /// The first segment of the path has empty angle brackets
    Empty,
    /// The last argument is a path type: the name of its first segment
    TypePath(String),
    /// The last argument is not a path type
    Other,
}

/// The type whose rows a foreign key field fetches, or why the field's type is
/// refused.
pub open spec fn fetch_target_spec(a: ForeignArg) -> Result<Seq<char>, Seq<char>> {
    match a {
        ForeignArg::NotPath => Err("Only path types are supported for foreign keys"@),
        ForeignArg::NotBracketed => Err("Only angle bracketed arguments are supported for foreign keys"@),
        ForeignArg::TypePath(n) => Ok(n@),
        _ => Err("Only type arguments are supported for foreign keys"@),
    }
}

/// The type whose rows a foreign key field fetches: the last generic argument of
/// the field's type, which must name a path type.
pub fn fetch_target(a: &ForeignArg) -> (res: Result<String, DeriveError>)
    requires
        !(a is Empty),
    ensures
        match fetch_target_spec(*a) {
            Ok(t) => (res matches Ok(s) && s@ == t),
            Err(m) => (res matches Err(e) && e.message@ == m),
        },
{
    match a {
        ForeignArg::NotPath => Err(DeriveError { message: owned("Only path types are supported for foreign keys") }),
        ForeignArg::NotBracketed => Err(DeriveError {
            message: owned("Only angle bracketed arguments are supported for foreign keys"),
        }),
        ForeignArg::TypePath(n) => Ok(n.clone()),
        _ => Err(DeriveError { message: owned("Only type arguments are supported for foreign keys") }),
    }
}

/// Whether `syn::parse_str::<proc_macro2::TokenStream>(text)` succeeds. Inside
/// a procedural macro `proc_macro2` splits the text with the compiler's lexer,
/// elsewhere with its own, so the answer depends on the process as well as on the
/// text, and nothing is stated of it.
#[verifier::external_body]
fn parses_as_tokens(text: &str) -> (res: bool) {
    syn::parse_str::<proc_macro2::TokenStream>(text).is_ok()
}

/// The message of an update expression that is no Rust code.
pub open spec fn update_message() -> Seq<char> {
    "Failed to parse data for New mode"@
}

/// Why the generated helpers cannot be written for a column whose foreign key
/// field has the last generic argument `a`, if they cannot; `parsed` tells
/// whether its update expression reads as Rust tokens. A skipped column is never
/// refused; an update expression must read as tokens; a fetched column's field
/// type must name the type it fetches.
pub open spec fn column_error(c: ColumnDerive, a: ForeignArg, parsed: bool) -> Option<Seq<char>> {
    if c.skip {
        None
    } else if c.update is Some && !parsed {
        Some(update_message())
    } else if fetched(c) {
        match fetch_target_spec(a) {
            Ok(_) => None,
            Err(m) => Some(m),
        }
    } else {
        None
    }
}

/// The first refusal among the columns, in order; `args[i]` and `parsed[i]`
/// belong to `cols[i]`.
pub open spec fn plan_error(cols: Seq<ColumnDerive>, args: Seq<ForeignArg>, parsed: Seq<bool>) -> Option<Seq<char>>
    decreases cols.len(),
{
    if cols.len() == 0 {
        None
    } else {
        match plan_error(cols.drop_last(), args, parsed) {
            Some(m) => Some(m),
            None => column_error(cols.last(), args[cols.len() - 1], parsed[cols.len() - 1]),
        }
    }
}

proof fn lemma_plan_error_stays(cols: Seq<ColumnDerive>, args: Seq<ForeignArg>, parsed: Seq<bool>, n: int)
    requires
        0 <= n <= cols.len(),
        plan_error(cols.take(n), args, parsed) is Some,
    ensures
        plan_error(cols, args, parsed) == plan_error(cols.take(n), args, parsed),
    decreases cols.len(),
{
    if n == cols.len() {
        assert(cols.take(n) =~= cols);
    } else {
        assert(cols.drop_last().take(n) =~= cols.take(n));
        lemma_plan_error_stays(cols.drop_last(), args, parsed, n);
    }
}

/// The types fetched by the fetched columns, in order; `args[i]` belongs to
/// `cols[i]`.
pub open spec fn fetch_targets(cols: Seq<ColumnDerive>, args: Seq<ForeignArg>) -> Seq<Seq<char>>
    decreases cols.len(),
{
    if cols.len() == 0 {
        Seq::empty()
    } else {
        fetch_targets(cols.drop_last(), args) + if fetched(cols.last()) {
            match fetch_target_spec(args[cols.len() - 1]) {
                Ok(t) => seq![t],
                Err(_) => Seq::empty(),
            }
        } else {
            Seq::empty()
        }
    }
}

/// The column is kept and set to an expression on each update.
pub open spec fn auto_updated(c: ColumnDerive) -> bool {
    !c.skip && c.update is Some
}

/// The name and update expression of each kept column that has one, in order.
pub open spec fn auto_updates(cols: Seq<ColumnDerive>) -> Seq<(Seq<char>, Seq<char>)> {
    cols.filter(|c: ColumnDerive| auto_updated(c)).map_values(
        |c: ColumnDerive| (c.name@, c.update->0@),
    )
}

/// What the generated database helpers do with the columns of a table.
#[derive(Debug)]
pub struct BackendPlan {
    /// Columns copied back from the database after a save
    pub saved: Vec<String>,
    /// Columns searched, joined with OR
    pub searched: Vec<String>,
    /// Columns that identify a row, joined with AND
    pub unique: Vec<String>,
    /// Foreign key columns whose rows are fetched
    pub fetched: Vec<String>,
    /// The types those rows are fetched as, in the same order
    pub fetch_types: Vec<String>,
    /// Each column set on every update, and the expression it is set to
    pub updates: Vec<(String, String)>,
    /// Whether a row can be fetched by its primary key (the table has one)
    pub fetch_by_primary_key: bool,
    /// Each column a row can be looked up by, and whether the lookup finds one
    /// row (a unique column) or many
    pub lookups: Vec<(String, bool)>,
}

/// The views of a list of names.
pub open spec fn name_views(v: Seq<String>) -> Seq<Seq<char>> {
    v.map_values(|s: String| s@)
}

/// The views of a list of pairs of strings.
pub open spec fn pair_views(v: Seq<(String, String)>) -> Seq<(Seq<char>, Seq<char>)> {
    v.map_values(|p: (String, String)| (p.0@, p.1@))
}

/// The views of a list of lookups.
pub open spec fn lookup_views(v: Seq<(String, bool)>) -> Seq<(Seq<char>, bool)> {
    v.map_values(|p: (String, bool)| (p.0@, p.1))
}

fn push_name(v: &mut Vec<String>, name: &String)
    ensures
        name_views(final(v)@) == name_views(old(v)@).push(name@),
{
    v.push(name.clone());
    assert(name_views(v@) =~= name_views(old(v)@).push(name@));
}

/// The outcome of planning the helpers for `cols`, given `args` and `parsed`: the
/// first refusal, or the plan with every list in column order.
pub open spec fn plan_outcome(
    res: Result<BackendPlan, DeriveError>,
    cols: Seq<ColumnDerive>,
    args: Seq<ForeignArg>,
    parsed: Seq<bool>,
) -> bool {
    match plan_error(cols, args, parsed) {
        Some(m) => (res matches Err(e) && e.message@ == m),
        None => (res matches Ok(plan)
            && name_views(plan.saved@) == names_where(cols, |c: ColumnDerive| kept(c))
            && name_views(plan.searched@) == names_where(cols, |c: ColumnDerive| searched(c))
            && name_views(plan.unique@) == names_where(cols, |c: ColumnDerive| unique_key(c))
            && name_views(plan.fetched@) == names_where(cols, |c: ColumnDerive| fetched(c))
            && name_views(plan.fetch_types@) == fetch_targets(cols, args)
            && pair_views(plan.updates@) == auto_updates(cols)
            && lookup_views(plan.lookups@) == lookups(cols)
            && plan.fetch_by_primary_key == (first_index(cols, primary_key_pred()) is Some)),
    }
}

/// Whether `parsed` has an entry for each column, true for each column that has no
/// update expression to check.
pub open spec fn checks_fit(cols: Seq<ColumnDerive>, parsed: Seq<bool>) -> bool {
    &&& parsed.len() == cols.len()
    &&& forall|i: int| 0 <= i < cols.len() && !auto_updated(#[trigger] cols[i]) ==> parsed[i]
}

impl ColumnsDerive {
    /// For each column, whether its update expression reads as Rust tokens; true
    /// for a column with none to check.
    pub fn update_checks(&self) -> (res: Vec<bool>)
        ensures
            checks_fit(self.columns@, res@),
    {
        let mut res: Vec<bool> = Vec::new();
        let mut i: usize = 0;
        while i < self.columns.len()
            invariant
                i <= self.columns.len(),
                res@.len() == i,
                forall|k: int| 0 <= k < i && !auto_updated(#[trigger] self.columns@[k]) ==> res@[k],
            decreases self.columns.len() - i,
        {
            let c = &self.columns[i];
            let ok = if c.skip {
                true
            } else {
                match &c.update {
                    Some(u) => parses_as_tokens(u.as_str()),
                    None => true,
                }
            };
            res.push(ok);
            i += 1;
        }
        res
    }

    /// What the generated database helpers do with the columns, in column order;
    /// `foreign_args[i]` is the last generic argument of the type of the field of
    /// column `i`. Each update expression is checked to read as Rust tokens, and
    /// the plan is [`ColumnsDerive::plan_from_checks`] on the answers.
    pub fn backend_plan(&self, foreign_args: &Vec<ForeignArg>) -> (res: Result<BackendPlan, DeriveError>)
        requires
            foreign_args@.len() == self.columns@.len(),
            forall|i: int| 0 <= i < self.columns@.len() && fetched(#[trigger] self.columns@[i])
                ==> !(foreign_args@[i] is Empty),
        ensures
            exists|parsed: Seq<bool>| checks_fit(self.columns@, parsed)
                && #[trigger] plan_outcome(res, self.columns@, foreign_args@, parsed),
    {
        let checks = self.update_checks();
        let res = self.plan_from_checks(foreign_args, &checks);
        assert(plan_outcome(res, self.columns@, foreign_args@, checks@));
        res
    }

    /// What the generated database helpers do with the columns, in column order;
    /// `foreign_args[i]` is the last generic argument of the type of the field of
    /// column `i`, and `parsed[i]` whether its update expression reads as Rust
    /// tokens. Fails with the first column refused.
    pub fn plan_from_checks(&self, foreign_args: &Vec<ForeignArg>, parsed: &Vec<bool>) -> (res: Result<BackendPlan, DeriveError>)
        requires
            foreign_args@.len() == self.columns@.len(),
            parsed@.len() == self.columns@.len(),
            forall|i: int| 0 <= i < self.columns@.len() && fetched(#[trigger] self.columns@[i])
                ==> !(foreign_args@[i] is Empty),
        ensures
            plan_outcome(res, self.columns@, foreign_args@, parsed@),
    {
        let ghost cols = self.columns@;
        let ghost args = foreign_args@;
        let ghost oks = parsed@;
        let mut plan = BackendPlan {
            saved: Vec::new(),
            searched: Vec::new(),
            unique: Vec::new(),
            fetched: Vec::new(),
            fetch_types: Vec::new(),
            updates: Vec::new(),
            fetch_by_primary_key: false,
            lookups: Vec::new(),
        };
        let mut i: usize = 0;
        while i < self.columns.len()
            invariant
                i <= self.columns.len(),
                cols == self.columns@,
                args == foreign_args@,
                args.len() == cols.len(),
                oks == parsed@,
                oks.len() == cols.len(),
                forall|k: int| 0 <= k < cols.len() && fetched(#[trigger] cols[k]) ==> !(args[k] is Empty),
                plan_error(cols.take(i as int), args, oks) is None,
                name_views(plan.saved@) == names_where(cols.take(i as int), |c: ColumnDerive| kept(c)),
                name_views(plan.searched@) == names_where(cols.take(i as int), |c: ColumnDerive| searched(c)),
                name_views(plan.unique@) == names_where(cols.take(i as int), |c: ColumnDerive| unique_key(c)),
                name_views(plan.fetched@) == names_where(cols.take(i as int), |c: ColumnDerive| fetched(c)),
                name_views(plan.fetch_types@) == fetch_targets(cols.take(i as int), args),
                pair_views(plan.updates@) == auto_updates(cols.take(i as int)),
                lookup_views(plan.lookups@) == lookups(cols.take(i as int)),
            decreases self.columns.len() - i,
        {
            proof {
                reveal_with_fuel(Seq::filter, 1);
                assert(cols.take(i + 1).drop_last() =~= cols.take(i as int));
                assert(cols.take(i + 1).last() == cols[i as int]);
                assert(cols.take(i + 1).len() - 1 == i);
            }
            let c = &self.columns[i];
            if !c.skip {
                if c.update.is_some() && !parsed[i] {
                    proof { lemma_plan_error_stays(cols, args, oks, i + 1); }
                    return Err(DeriveError { message: owned("Failed to parse data for New mode") });
                }
                let foreign = c.is_foreign_key();
                if foreign {
                    let target = fetch_target(&foreign_args[i]);
                    match target {
                        Ok(t) => {
                            let ghost before = plan.fetch_types@;
                            plan.fetch_types.push(t);
                            assert(name_views(plan.fetch_types@) =~= name_views(before).push(t@));
                        },
                        Err(e) => {
                            proof { lemma_plan_error_stays(cols, args, oks, i + 1); }
                            return Err(e);
                        },
                    }
                }
                push_name(&mut plan.saved, &c.name);
                if let Some(u) = &c.update {
                    let ghost before = plan.updates@;
                    plan.updates.push((c.name.clone(), u.clone()));
                    assert(pair_views(plan.updates@) =~= pair_views(before).push((c.name@, u@)));
                }
                if c.is_searchable() {
                    push_name(&mut plan.searched, &c.name);
                }
                let unique = c.is_unique();
                if unique {
                    push_name(&mut plan.unique, &c.name);
                }
                if foreign {
                    push_name(&mut plan.fetched, &c.name);
                }
                let ghost before = plan.lookups@;
                plan.lookups.push((c.name.clone(), unique));
                assert(lookup_views(plan.lookups@) =~= lookup_views(before).push((c.name@, unique)));
            }
            i += 1;
            assert(name_views(plan.saved@) =~= names_where(cols.take(i as int), |c: ColumnDerive| kept(c)));
            assert(name_views(plan.searched@) =~= names_where(cols.take(i as int), |c: ColumnDerive| searched(c)));
            assert(name_views(plan.unique@) =~= names_where(cols.take(i as int), |c: ColumnDerive| unique_key(c)));
            assert(name_views(plan.fetched@) =~= names_where(cols.take(i as int), |c: ColumnDerive| fetched(c)));
            assert(name_views(plan.fetch_types@) =~= fetch_targets(cols.take(i as int), args));
            assert(pair_views(plan.updates@) =~= auto_updates(cols.take(i as int)));
            assert(lookup_views(plan.lookups@) =~= lookups(cols.take(i as int)));
        }
        assert(cols.take(cols.len() as int) =~= cols);
        plan.fetch_by_primary_key = self.get_primary_key().is_some();
        Ok(plan)
    }
}

} // verus!
