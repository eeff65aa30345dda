//! A parameterized SQL statement builder.
//!
//! The builder accumulates statement text from table and column metadata and
//! never executes anything.  Parameter values are always bound separately by
//! the caller through positional `?` placeholders; table and column names must
//! be trusted, code-controlled identifiers, never request input.

use vstd::prelude::*;

verus! {

use vstd::string::StrSliceExecFns;
use vstd::string::StringExecFns;

/// The character for the decimal digit `d`.
pub open spec fn digit_char(d: nat) -> char {
    if d == 0 {
        '0'
    } else if d == 1 {
        '1'
    } else if d == 2 {
        '2'
    } else if d == 3 {
        '3'
    } else if d == 4 {
        '4'
    } else if d == 5 {
        '5'
    } else if d == 6 {
        '6'
    } else if d == 7 {
        '7'
    } else if d == 8 {
        '8'
    } else {
        '9'
    }
}

/// The decimal digits of `n`, most significant first.
pub open spec fn dec_digits(n: nat) -> Seq<char>
    decreases n,
{
    if n < 10 {
        seq![digit_char(n)]
    } else {
        dec_digits(n / 10) + seq![digit_char(n % 10)]
    }
}

/// The decimal rendering of `n`, with a leading minus sign when negative.
pub open spec fn dec_int(n: int) -> Seq<char> {
    if n < 0 {
        seq!['-'] + dec_digits((-n) as nat)
    } else {
        dec_digits(n as nat)
    }
}

fn push_digit(s: &mut String, d: u64)
    requires
        d < 10,
    ensures
        final(s)@ == old(s)@ + seq![digit_char(d as nat)],
{
    if d == 0 {
        s.append("0");
        proof {
            reveal_strlit("0");
            assert("0"@ =~= seq![digit_char(0)]);
        }
    } else if d == 1 {
        s.append("1");
        proof {
            reveal_strlit("1");
            assert("1"@ =~= seq![digit_char(1)]);
        }
    } else if d == 2 {
        s.append("2");
        proof {
            reveal_strlit("2");
            assert("2"@ =~= seq![digit_char(2)]);
        }
    } else if d == 3 {
        s.append("3");
        proof {
            reveal_strlit("3");
            assert("3"@ =~= seq![digit_char(3)]);
        }
    } else if d == 4 {
        s.append("4");
        proof {
            reveal_strlit("4");
            assert("4"@ =~= seq![digit_char(4)]);
        }
    } else if d == 5 {
        s.append("5");
        proof {
            reveal_strlit("5");
            assert("5"@ =~= seq![digit_char(5)]);
        }
    } else if d == 6 {
        s.append("6");
        proof {
            reveal_strlit("6");
            assert("6"@ =~= seq![digit_char(6)]);
        }
    } else if d == 7 {
        s.append("7");
        proof {
            reveal_strlit("7");
            assert("7"@ =~= seq![digit_char(7)]);
        }
    } else if d == 8 {
        s.append("8");
        proof {
            reveal_strlit("8");
            assert("8"@ =~= seq![digit_char(8)]);
        }
    } else {
        s.append("9");
        proof {
            reveal_strlit("9");
            assert("9"@ =~= seq![digit_char(9)]);
        }
    }
}

fn push_dec_u64(s: &mut String, n: u64)
    ensures
        final(s)@ == old(s)@ + dec_digits(n as nat),
    decreases n,
{
    if n < 10 {
        push_digit(s, n);
    } else {
        push_dec_u64(s, n / 10);
        push_digit(s, n % 10);
        proof {
            assert(s@ =~= old(s)@ + dec_digits(n as nat));
        }
    }
}

fn push_dec_i32(s: &mut String, n: i32)
    ensures
        final(s)@ == old(s)@ + dec_int(n as int),
{
    if n >= 0 {
        push_dec_u64(s, n as u64);
    } else {
        s.append("-");
        let m: i64 = -(n as i64);
        push_dec_u64(s, m as u64);
        proof {
            reveal_strlit("-");
            assert("-"@ =~= seq!['-']);
            assert(s@ =~= old(s)@ + dec_int(n as int));
        }
    }
}

fn push_trimmed(sql: &mut String, columns: &str, start: usize, end: usize)
    requires
        start <= end <= columns@.len(),
    ensures
        final(sql)@ == old(sql)@ + trim_spaces(columns@.subrange(start as int, end as int)),
{
    let mut lo = start;
    while lo < end && columns.get_char(lo) == ' '
        invariant
            start <= lo <= end <= columns@.len(),
            trim_spaces(columns@.subrange(start as int, end as int)) == trim_spaces(
                columns@.subrange(lo as int, end as int),
            ),
        decreases end - lo,
    {
        proof {
            let s = columns@.subrange(lo as int, end as int);
            assert(s[0] == ' ');
            assert(s.drop_first() =~= columns@.subrange(lo as int + 1, end as int));
        }
        lo = lo + 1;
    }
    let mut hi = end;
    while hi > lo && columns.get_char(hi - 1) == ' '
        invariant
            start <= lo <= hi <= end <= columns@.len(),
            lo == end || columns@[lo as int] != ' ',
            trim_spaces(columns@.subrange(start as int, end as int)) == trim_spaces(
                columns@.subrange(lo as int, hi as int),
            ),
        decreases hi - lo,
    {
        proof {
            let s = columns@.subrange(lo as int, hi as int);
            assert(s[0] != ' ');
            assert(s.last() == ' ');
            assert(s.drop_last() =~= columns@.subrange(lo as int, hi as int - 1));
        }
        hi = hi - 1;
    }
    proof {
        let s = columns@.subrange(lo as int, hi as int);
        if s.len() > 0 {
            assert(s[0] == columns@[lo as int] && s[0] != ' ');
            assert(s.last() == columns@[hi as int - 1] && s.last() != ' ');
        }
        assert(trim_spaces(s) == s);
    }
    let piece = columns.substring_char(lo, hi);
    sql.append(piece);
}

/// The text of a `SELECT` statement over the given table and column list.
pub open spec fn select_text(table: Seq<char>, columns: Seq<char>) -> Seq<char> {
    "SELECT "@ + columns + " FROM "@ + table
}

/// The index of the first `,` in `s`, or a negative value when there is
/// none.
pub open spec fn first_comma(s: Seq<char>) -> int
    decreases s.len(),
{
    if s.len() == 0 {
        -1
    } else if s[0] == ',' {
        0
    } else if first_comma(s.drop_first()) < 0 {
        -1
    } else {
        first_comma(s.drop_first()) + 1
    }
}

/// `s` split at its commas; always at least one part.
pub open spec fn split_commas(s: Seq<char>) -> Seq<Seq<char>>
    decreases s.len(),
{
    let i = first_comma(s);
    if 0 <= i && i < s.len() {
        seq![s.take(i)] + split_commas(s.skip(i + 1))
    } else {
        seq![s]
    }
}

/// `s` without its leading and trailing spaces.
pub open spec fn trim_spaces(s: Seq<char>) -> Seq<char>
    decreases s.len(),
{
    if s.len() > 0 && s[0] == ' ' {
        trim_spaces(s.drop_first())
    } else if s.len() > 0 && s.last() == ' ' {
        trim_spaces(s.drop_last())
    } else {
        s
    }
}

/// The column names of a comma-separated list: the text between the commas,
/// without surrounding spaces.
pub open spec fn column_names(columns: Seq<char>) -> Seq<Seq<char>> {
    split_commas(columns).map_values(|p: Seq<char>| trim_spaces(p))
}

/// The `SET` clause over a list of column names: one placeholder per column,
/// the assignments joined by `, `, no trailing comma, a single trailing
/// space.
pub open spec fn set_clause(parts: Seq<Seq<char>>) -> Seq<char>
    decreases parts.len(),
{
    if parts.len() <= 1 {
        (if parts.len() == 1 {
            parts[0]
        } else {
            Seq::<char>::empty()
        }) + " = ? "@
    } else {
        parts[0] + " = ?, "@ + set_clause(parts.drop_first())
    }
}

/// The `SET` clause assembled from a comma-separated column list.
pub open spec fn set_text(columns: Seq<char>) -> Seq<char> {
    set_clause(column_names(columns))
}

/// The text of an `UPDATE` statement over the given table and column list.
pub open spec fn update_text(table: Seq<char>, columns: Seq<char>) -> Seq<char> {
    "UPDATE "@ + table + " SET "@ + set_text(columns)
}

/// How many times `c` occurs in `s`.
pub open spec fn count_char(s: Seq<char>, c: char) -> nat
    decreases s.len(),
{
    if s.len() == 0 {
        0
    } else {
        count_char(s.drop_last(), c) + (if s.last() == c {
            1nat
        } else {
            0nat
        })
    }
}

/// `n` positional placeholders separated by `, `.
pub open spec fn placeholders_text(n: nat) -> Seq<char>
    decreases n,
{
    if n <= 1 {
        "?"@
    } else {
        placeholders_text((n - 1) as nat) + ", ?"@
    }
}

/// The text of an `INSERT` statement: one placeholder for each entry of the
/// comma-separated column list.
pub open spec fn insert_text(table: Seq<char>, columns: Seq<char>) -> Seq<char> {
    "INSERT INTO "@ + table + " ("@ + columns + ") VALUES ("@ + placeholders_text(
        count_char(columns, ',') + 1,
    ) + ")"@
}

/// The text of a `DELETE` statement over the given table.
pub open spec fn delete_text(table: Seq<char>) -> Seq<char> {
    "DELETE FROM "@ + table + " "@
}

/// The keyword that opens a predicate: `WHERE` for the first one, `AND` for
/// every later one.
pub open spec fn where_prefix(has_where: bool) -> Seq<char> {
    if has_where {
        " AND "@
    } else {
        " WHERE "@
    }
}

/// An equality predicate on `column`, chained according to `has_where`.
pub open spec fn where_eq_text(column: Seq<char>, has_where: bool) -> Seq<char> {
    where_prefix(has_where) + column + " = ?"@
}

/// An inequality predicate on `column`, chained according to `has_where`.
pub open spec fn where_not_eq_text(column: Seq<char>, has_where: bool) -> Seq<char> {
    where_prefix(has_where) + column + " <> ?"@
}

/// A `like` predicate on `column`, chained according to `has_where`; the
/// caller binds the pattern (wildcards included) to the placeholder.
pub open spec fn where_like_text(column: Seq<char>, has_where: bool) -> Seq<char> {
    where_prefix(has_where) + column + " like ?"@
}

/// A descending `ORDER BY` clause on `column`.
pub open spec fn order_desc_text(column: Seq<char>) -> Seq<char> {
    " ORDER BY "@ + column + " DESC "@
}

/// An ascending `ORDER BY` clause on `column`.
pub open spec fn order_asc_text(column: Seq<char>) -> Seq<char> {
    " ORDER BY "@ + column + " ASC"@
}

/// A pagination clause: `LIMIT page_size OFFSET page_size * page`.
pub open spec fn page_text(page: int, page_size: int) -> Seq<char> {
    " LIMIT "@ + dec_int(page_size) + " OFFSET "@ + dec_int(page_size * page)
}

/// Accumulates the text of one parameterized SQL statement.
pub struct SqlHelper {
    sql: String,
    has_where: bool,
}

impl SqlHelper {
    /// The statement text accumulated so far.
    pub closed spec fn spec_sql(&self) -> Seq<char> {
        self.sql@
    }

    /// Whether a `WHERE` clause has already been started on this builder.
    pub closed spec fn spec_has_where(&self) -> bool {
        self.has_where
    }

    /// Seeds a builder with `SELECT <columns> FROM <table>`.
    pub fn query(table: &str, columns: &str) -> (r: Self)
        ensures
            r.spec_sql() == select_text(table@, columns@),
            !r.spec_has_where(),
    {
        let mut sql = String::new();
        sql.append("SELECT ");
        sql.append(columns);
        sql.append(" FROM ");
        sql.append(table);
        proof {
            assert(sql@ =~= select_text(table@, columns@));
        }
        SqlHelper { sql, has_where: false }
    }

    /// Seeds a builder with `UPDATE <table> SET <c> = ?, ...`: one
    /// placeholder for each name of the comma-separated column list, taken
    /// without its surrounding spaces, the assignments joined by `, `, with
    /// no trailing comma and a single trailing space.
    pub fn update(table: &str, columns: &str) -> (r: Self)
        requires
            columns@.len() > 0,
        ensures
            r.spec_sql() == update_text(table@, columns@),
            !r.spec_has_where(),
    {
        let mut sql = String::new();
        sql.append("UPDATE ");
        sql.append(table);
        sql.append(" SET ");
        let ghost target = "UPDATE "@ + table@ + " SET "@ + set_text(columns@);
        proof {
            assert(columns@.skip(0) =~= columns@);
            assert(sql@ + set_clause(column_names(columns@.skip(0))) =~= target);
        }
        let n = columns.unicode_len();
        let mut start: usize = 0;
        let mut i: usize = 0;
        while i < n
            invariant
                n == columns@.len(),
                start <= i <= n,
                forall|j: int| start <= j < i ==> columns@[j] != ',',
                sql@ + set_clause(column_names(columns@.skip(start as int))) == target,
            decreases n - i,
        {
            let c = columns.get_char(i);
            if c == ',' {
                proof {
                    let rest = columns@.skip(start as int);
                    assert(rest[i - start] == ',');
                    assert forall|j: int| 0 <= j < i - start implies rest[j] != ',' by {
                        assert(rest[j] == columns@[start + j]);
                    };
                    lemma_split_at(rest, i - start);
                    lemma_split_nonempty(columns@.skip(i as int + 1));
                    assert(rest.take(i - start) =~= columns@.subrange(start as int, i as int));
                    assert(rest.skip(i - start + 1) =~= columns@.skip(i as int + 1));
                    let head = trim_spaces(columns@.subrange(start as int, i as int));
                    let names2 = column_names(columns@.skip(i as int + 1));
                    assert(column_names(rest) =~= seq![head] + names2);
                    assert((seq![head] + names2).drop_first() =~= names2);
                    assert(set_clause(column_names(rest)) == head + " = ?, "@ + set_clause(
                        names2,
                    ));
                }
                push_trimmed(&mut sql, columns, start, i);
                sql.append(" = ?, ");
                proof {
                    assert(sql@ + set_clause(column_names(columns@.skip(i as int + 1)))
                        =~= target);
                }
                start = i + 1;
            }
            i = i + 1;
        }
        proof {
            let rest = columns@.skip(start as int);
            assert forall|j: int| 0 <= j < rest.len() implies rest[j] != ',' by {
                assert(rest[j] == columns@[start + j]);
            };
            lemma_split_none(rest);
            let head = trim_spaces(rest);
            assert(column_names(rest) =~= seq![head]);
            assert(set_clause(column_names(rest)) == head + " = ? "@);
            assert(rest =~= columns@.subrange(start as int, n as int));
        }
        push_trimmed(&mut sql, columns, start, n);
        sql.append(" = ? ");
        proof {
            assert(sql@ =~= update_text(table@, columns@));
        }
        SqlHelper { sql, has_where: false }
    }

    /// Seeds a builder with `INSERT INTO <table> (<columns>) VALUES (?, ...)`,
    /// one placeholder for each entry of the comma-separated column list.
    pub fn insert(table: &str, columns: &str) -> (r: Self)
        requires
            columns@.len() > 0,
        ensures
            r.spec_sql() == insert_text(table@, columns@),
            !r.spec_has_where(),
    {
        let mut sql = String::new();
        sql.append("INSERT INTO ");
        sql.append(table);
        sql.append(" (");
        sql.append(columns);
        sql.append(") VALUES (");
        let n = columns.unicode_len();
        let mut commas: usize = 0;
        proof {
            assert(columns@.subrange(0, 0) =~= Seq::<char>::empty());
        }
        for i in 0..n
            invariant
                n == columns@.len(),
                commas == count_char(columns@.subrange(0, i as int), ','),
                commas <= i,
        {
            let ghost seen = columns@.subrange(0, i as int + 1);
            proof {
                assert(seen.drop_last() =~= columns@.subrange(0, i as int));
                assert(seen.last() == columns@[i as int]);
            }
            let c = columns.get_char(i);
            if c == ',' {
                commas = commas + 1;
            }
        }
        proof {
            assert(columns@.subrange(0, n as int) =~= columns@);
        }
        let ghost before_values = sql@;
        sql.append("?");
        for k in 0..commas
            invariant
                sql@ == before_values + placeholders_text(k as nat + 1),
        {
            sql.append(", ?");
        }
        sql.append(")");
        proof {
            assert(sql@ =~= insert_text(table@, columns@));
        }
        SqlHelper { sql, has_where: false }
    }

    /// Seeds a builder with `DELETE FROM <table>`.
    pub fn delete(table: &str) -> (r: Self)
        ensures
            r.spec_sql() == delete_text(table@),
            !r.spec_has_where(),
    {
        let mut sql = String::new();
        sql.append("DELETE FROM ");
        sql.append(table);
        sql.append(" ");
        proof {
            assert(sql@ =~= delete_text(table@));
        }
        SqlHelper { sql, has_where: false }
    }

    /// Appends an equality predicate on `column_name`, opening the `WHERE`
    /// clause on first use and chaining with `AND` afterwards.
    pub fn and_where_eq(self, column_name: &str) -> (r: Self)
        ensures
            r.spec_sql() == self.spec_sql() + where_eq_text(column_name@, self.spec_has_where()),
            r.spec_has_where(),
    {
        let SqlHelper { mut sql, has_where } = self;
        if has_where {
            sql.append(" AND ");
        } else {
            sql.append(" WHERE ");
        }
        sql.append(column_name);
        sql.append(" = ?");
        proof {
            assert(sql@ =~= self.spec_sql() + where_eq_text(column_name@, self.spec_has_where()));
        }
        SqlHelper { sql, has_where: true }
    }

    /// Appends an inequality predicate on `column_name`, chained like
    /// `and_where_eq`.
    pub fn and_where_not_eq(self, column_name: &str) -> (r: Self)
        ensures
            r.spec_sql() == self.spec_sql() + where_not_eq_text(column_name@, self.spec_has_where()),
            r.spec_has_where(),
    {
        let SqlHelper { mut sql, has_where } = self;
        if has_where {
            sql.append(" AND ");
        } else {
            sql.append(" WHERE ");
        }
        sql.append(column_name);
        sql.append(" <> ?");
        proof {
            assert(sql@ =~= self.spec_sql() + where_not_eq_text(column_name@, self.spec_has_where()));
        }
        SqlHelper { sql, has_where: true }
    }

    /// Appends a `like` predicate on `column_name`, chained like
    /// `and_where_eq`.
    pub fn and_where_like(self, column_name: &str) -> (r: Self)
        ensures
            r.spec_sql() == self.spec_sql() + where_like_text(column_name@, self.spec_has_where()),
            r.spec_has_where(),
    {
        let SqlHelper { mut sql, has_where } = self;
        if has_where {
            sql.append(" AND ");
        } else {
            sql.append(" WHERE ");
        }
        sql.append(column_name);
        sql.append(" like ?");
        proof {
            assert(sql@ =~= self.spec_sql() + where_like_text(column_name@, self.spec_has_where()));
        }
        SqlHelper { sql, has_where: true }
    }

    /// Appends `LIMIT <page_size> OFFSET <page_size * page>`.
    pub fn page(self, page: i32, page_size: i32) -> (r: Self)
        requires
            i32::MIN <= page_size as int * page as int <= i32::MAX,
        ensures
            r.spec_sql() == self.spec_sql() + page_text(page as int, page_size as int),
            r.spec_has_where() == self.spec_has_where(),
    {
        let SqlHelper { mut sql, has_where } = self;
        sql.append(" LIMIT ");
        push_dec_i32(&mut sql, page_size);
        sql.append(" OFFSET ");
        push_dec_i32(&mut sql, page_size * page);
        proof {
            assert(sql@ =~= self.spec_sql() + page_text(page as int, page_size as int));
        }
        SqlHelper { sql, has_where }
    }

    /// Appends `ORDER BY <column_name> DESC`.
    pub fn order_desc(self, column_name: &str) -> (r: Self)
        ensures
            r.spec_sql() == self.spec_sql() + order_desc_text(column_name@),
            r.spec_has_where() == self.spec_has_where(),
    {
        let SqlHelper { mut sql, has_where } = self;
        sql.append(" ORDER BY ");
        sql.append(column_name);
        sql.append(" DESC ");
        proof {
            assert(sql@ =~= self.spec_sql() + order_desc_text(column_name@));
        }
        SqlHelper { sql, has_where }
    }

    /// Appends `ORDER BY <column_name> ASC`.
    pub fn order_asc(self, column_name: &str) -> (r: Self)
        ensures
            r.spec_sql() == self.spec_sql() + order_asc_text(column_name@),
            r.spec_has_where() == self.spec_has_where(),
    {
        let SqlHelper { mut sql, has_where } = self;
        sql.append(" ORDER BY ");
        sql.append(column_name);
        sql.append(" ASC");
        proof {
            assert(sql@ =~= self.spec_sql() + order_asc_text(column_name@));
        }
        SqlHelper { sql, has_where }
    }

    /// Returns the accumulated statement text.
    pub fn sql(&self) -> (r: String)
        ensures
            r@ == self.spec_sql(),
    {
        self.sql.clone()
    }
}


/// `parts` joined by `sep`.
pub open spec fn seq_join(parts: Seq<Seq<char>>, sep: Seq<char>) -> Seq<char>
    decreases parts.len(),
{
    if parts.len() == 0 {
        Seq::empty()
    } else if parts.len() == 1 {
        parts[0]
    } else {
        parts[0] + sep + seq_join(parts.drop_first(), sep)
    }
}

proof fn lemma_not_contains_drop_first(s: Seq<char>, c: char)
    requires
        s.len() > 0,
        !s.contains(c),
    ensures
        !s.drop_first().contains(c),
        s[0] != c,
{
    if s[0] == c {
        assert(s.contains(c));
    }
    if s.drop_first().contains(c) {
        let i = choose|i: int| 0 <= i < s.drop_first().len() && s.drop_first()[i] == c;
        assert(s[i + 1] == c);
        assert(s.contains(c));
    }
}

proof fn lemma_first_comma_none(s: Seq<char>)
    requires
        forall|j: int| 0 <= j < s.len() ==> s[j] != ',',
    ensures
        first_comma(s) < 0,
    decreases s.len(),
{
    if s.len() > 0 {
        assert forall|j: int| 0 <= j < s.drop_first().len() implies s.drop_first()[j] != ',' by {
            assert(s.drop_first()[j] == s[j + 1]);
        };
        lemma_first_comma_none(s.drop_first());
    }
}

proof fn lemma_first_comma_at(s: Seq<char>, i: int)
    requires
        0 <= i < s.len(),
        s[i] == ',',
        forall|j: int| 0 <= j < i ==> s[j] != ',',
    ensures
        first_comma(s) == i,
    decreases i,
{
    if i > 0 {
        let t = s.drop_first();
        assert(t[i - 1] == s[i]);
        assert forall|j: int| 0 <= j < i - 1 implies t[j] != ',' by {
            assert(t[j] == s[j + 1]);
        };
        lemma_first_comma_at(t, i - 1);
    }
}

proof fn lemma_split_at(s: Seq<char>, i: int)
    requires
        0 <= i < s.len(),
        s[i] == ',',
        forall|j: int| 0 <= j < i ==> s[j] != ',',
    ensures
        split_commas(s) == seq![s.take(i)] + split_commas(s.skip(i + 1)),
{
    lemma_first_comma_at(s, i);
}

proof fn lemma_split_none(s: Seq<char>)
    requires
        forall|j: int| 0 <= j < s.len() ==> s[j] != ',',
    ensures
        split_commas(s) == seq![s],
{
    lemma_first_comma_none(s);
}

proof fn lemma_split_nonempty(s: Seq<char>)
    ensures
        split_commas(s).len() >= 1,
{
    let i = first_comma(s);
    if 0 <= i && i < s.len() {
        assert(split_commas(s) == seq![s.take(i)] + split_commas(s.skip(i + 1)));
    } else {
        assert(split_commas(s) == seq![s]);
    }
}

proof fn lemma_split_join(parts: Seq<Seq<char>>)
    requires
        parts.len() >= 1,
        forall|i: int| 0 <= i < parts.len() ==> !(#[trigger] parts[i]).contains(','),
    ensures
        split_commas(seq_join(parts, ","@)) == parts,
    decreases parts.len(),
{
    reveal_strlit(",");
    if parts.len() == 1 {
        assert forall|j: int| 0 <= j < parts[0].len() implies parts[0][j] != ',' by {
            if parts[0][j] == ',' {
                assert(parts[0].contains(','));
            }
        };
        lemma_split_none(parts[0]);
        assert(seq![parts[0]] =~= parts);
    } else {
        let s = seq_join(parts, ","@);
        let p0 = parts[0];
        let rest = parts.drop_first();
        let i = p0.len() as int;
        assert(s == p0 + ","@ + seq_join(rest, ","@));
        assert(s[i] == ',');
        assert forall|j: int| 0 <= j < i implies s[j] != ',' by {
            assert(s[j] == p0[j]);
            if p0[j] == ',' {
                assert(p0.contains(','));
            }
        };
        lemma_split_at(s, i);
        assert(s.take(i) =~= p0);
        assert(s.skip(i + 1) =~= seq_join(rest, ","@));
        assert forall|k: int| 0 <= k < rest.len() implies !(#[trigger] rest[k]).contains(',') by {
            assert(rest[k] == parts[k + 1]);
        };
        lemma_split_join(rest);
        assert(seq![p0] + rest =~= parts);
    }
}

/// For every non-empty list of comma-free, trimmed column names,
/// `SqlHelper::update` assigns one placeholder to each column in order, the
/// assignments joined by `, `, with no trailing comma and a single trailing
/// space.
pub proof fn lemma_update_set_shape(table: Seq<char>, parts: Seq<Seq<char>>)
    requires
        parts.len() >= 1,
        forall|i: int| 0 <= i < parts.len() ==> !(#[trigger] parts[i]).contains(','),
        forall|i: int| 0 <= i < parts.len() ==> trim_spaces(#[trigger] parts[i]) == parts[i],
    ensures
        set_text(seq_join(parts, ","@)) == set_clause(parts),
        update_text(table, seq_join(parts, ","@)) == "UPDATE "@ + table + " SET "@ + set_clause(
            parts,
        ),
{
    lemma_split_join(parts);
    assert(column_names(seq_join(parts, ","@)) =~= parts);
}

proof fn lemma_count_char_concat(s: Seq<char>, t: Seq<char>, c: char)
    ensures
        count_char(s + t, c) == count_char(s, c) + count_char(t, c),
    decreases t.len(),
{
    if t.len() == 0 {
        assert(s + t =~= s);
    } else {
        assert((s + t).drop_last() =~= s + t.drop_last());
        assert((s + t).last() == t.last());
        lemma_count_char_concat(s, t.drop_last(), c);
    }
}

proof fn lemma_count_char_none(s: Seq<char>, c: char)
    requires
        !s.contains(c),
    ensures
        count_char(s, c) == 0,
    decreases s.len(),
{
    if s.len() > 0 {
        if s.last() == c {
            assert(s.contains(c));
        }
        if s.drop_last().contains(c) {
            let i = choose|i: int| 0 <= i < s.drop_last().len() && s.drop_last()[i] == c;
            assert(s[i] == c);
            assert(s.contains(c));
        }
        lemma_count_char_none(s.drop_last(), c);
    }
}

/// `placeholders_text(n)` holds exactly `n` placeholders.
pub proof fn lemma_placeholder_count(n: nat)
    requires
        n >= 1,
    ensures
        count_char(placeholders_text(n), '?') == n,
    decreases n,
{
    reveal_strlit("?");
    reveal_strlit(", ?");
    assert(count_char("?"@, '?') == 1) by {
        reveal_strlit("?");
        assert("?"@.drop_last() =~= Seq::<char>::empty());
        assert(count_char(Seq::<char>::empty(), '?') == 0);
        assert("?"@.last() == '?');
    };
    if n > 1 {
        lemma_placeholder_count((n - 1) as nat);
        lemma_count_char_concat(placeholders_text((n - 1) as nat), ", ?"@, '?');
        assert(count_char(", ?"@, '?') == 1) by {
            reveal_strlit(", ?");
            let s = ", ?"@;
            assert(s.len() == 3 && s[0] == ',' && s[1] == ' ' && s[2] == '?');
            let s2 = s.drop_last();
            let s1 = s2.drop_last();
            assert(s1.drop_last() =~= Seq::<char>::empty());
            assert(count_char(Seq::<char>::empty(), '?') == 0);
            assert(s1.last() == ',');
            assert(count_char(s1, '?') == 0);
            assert(s2.last() == ' ');
            assert(count_char(s2, '?') == 0);
            assert(s.last() == '?');
        };
    }
}

proof fn lemma_join_comma_count(parts: Seq<Seq<char>>)
    requires
        parts.len() >= 1,
        forall|i: int| 0 <= i < parts.len() ==> !(#[trigger] parts[i]).contains(','),
    ensures
        count_char(seq_join(parts, ","@), ',') == (parts.len() - 1) as nat,
    decreases parts.len(),
{
    reveal_strlit(",");
    assert(count_char(","@, ',') == 1) by {
        reveal_strlit(",");
        assert(","@.drop_last() =~= Seq::<char>::empty());
        assert(count_char(Seq::<char>::empty(), ',') == 0);
        assert(","@.last() == ',');
    };
    if parts.len() == 1 {
        lemma_count_char_none(parts[0], ',');
    } else {
        let rest = parts.drop_first();
        assert forall|i: int| 0 <= i < rest.len() implies !(#[trigger] rest[i]).contains(',') by {
            assert(rest[i] == parts[i + 1]);
        };
        lemma_join_comma_count(rest);
        lemma_count_char_none(parts[0], ',');
        lemma_count_char_concat(parts[0], ","@, ',');
        lemma_count_char_concat(parts[0] + ","@, seq_join(rest, ","@), ',');
        assert(parts[0] + ","@ + seq_join(rest, ","@) == seq_join(parts, ","@));
    }
}

/// For every non-empty list of comma-free column names, `SqlHelper::insert`
/// emits exactly one placeholder per column.
pub proof fn lemma_insert_placeholder_count(table: Seq<char>, parts: Seq<Seq<char>>)
    requires
        parts.len() >= 1,
        forall|i: int| 0 <= i < parts.len() ==> !(#[trigger] parts[i]).contains(','),
    ensures
        insert_text(table, seq_join(parts, ","@)) == "INSERT INTO "@ + table + " ("@ + seq_join(
            parts,
            ","@,
        ) + ") VALUES ("@ + placeholders_text(parts.len()) + ")"@,
        count_char(placeholders_text(parts.len()), '?') == parts.len(),
{
    lemma_join_comma_count(parts);
    lemma_placeholder_count(parts.len());
}

/// How many positions of `s` start an occurrence of `pat`.
pub open spec fn count_str(s: Seq<char>, pat: Seq<char>) -> nat
    decreases s.len(),
{
    if pat.len() == 0 || s.len() < pat.len() {
        0
    } else {
        (if s.subrange(0, pat.len() as int) == pat {
            1nat
        } else {
            0nat
        }) + count_str(s.drop_first(), pat)
    }
}

proof fn lemma_count_str_none(s: Seq<char>, pat: Seq<char>)
    requires
        pat.len() >= 1,
        !s.contains(pat[0]),
    ensures
        count_str(s, pat) == 0,
    decreases s.len(),
{
    if s.len() >= pat.len() {
        if s.subrange(0, pat.len() as int) == pat {
            assert(s.subrange(0, pat.len() as int)[0] == s[0]);
            assert(s.contains(pat[0]));
        }
        lemma_not_contains_drop_first(s, pat[0]);
        lemma_count_str_none(s.drop_first(), pat);
    }
}

proof fn lemma_count_str_single(s: Seq<char>, pat: Seq<char>, p: int)
    requires
        pat.len() >= 1,
        0 <= p,
        p + pat.len() <= s.len(),
        s.subrange(p, p + pat.len()) == pat,
        forall|i: int| 0 <= i < s.len() && s[i] == pat[0] ==> i == p,
    ensures
        count_str(s, pat) == 1,
    decreases s.len(),
{
    assert(s.subrange(p, p + pat.len())[0] == s[p]);
    assert(s[p] == pat[0]);
    if p == 0 {
        assert(s.subrange(0, pat.len() as int) == pat);
        assert(!s.drop_first().contains(pat[0])) by {
            if s.drop_first().contains(pat[0]) {
                let i = choose|i: int|
                    0 <= i < s.drop_first().len() && s.drop_first()[i] == pat[0];
                assert(s[i + 1] == pat[0]);
            }
        };
        lemma_count_str_none(s.drop_first(), pat);
    } else {
        if s.subrange(0, pat.len() as int) == pat {
            assert(s.subrange(0, pat.len() as int)[0] == s[0]);
        }
        let t = s.drop_first();
        assert(t.subrange(p - 1, p - 1 + pat.len()) =~= s.subrange(p, p + pat.len()));
        assert forall|i: int| 0 <= i < t.len() && t[i] == pat[0] implies i == p - 1 by {
            assert(s[i + 1] == pat[0]);
        };
        lemma_count_str_single(t, pat, p - 1);
    }
}

/// Calling `and_where_eq` twice on a builder whose `WHERE` clause has not been
/// started emits exactly one `WHERE` keyword and exactly one `AND`, the
/// `WHERE` first: the second predicate chains instead of opening a new clause.
pub proof fn lemma_where_then_and(sql: Seq<char>, c1: Seq<char>, c2: Seq<char>)
    requires
        !sql.contains('W'),
        !c1.contains('W'),
        !c2.contains('W'),
        !sql.contains('A'),
        !c1.contains('A'),
        !c2.contains('A'),
    ensures
        sql + where_eq_text(c1, false) + where_eq_text(c2, true) == sql + " WHERE "@ + c1
            + " = ?"@ + " AND "@ + c2 + " = ?"@,
        count_str(sql + where_eq_text(c1, false) + where_eq_text(c2, true), "WHERE"@) == 1,
        count_str(sql + where_eq_text(c1, false) + where_eq_text(c2, true), "AND"@) == 1,
        (sql + where_eq_text(c1, false) + where_eq_text(c2, true)).subrange(
            sql.len() as int + 1,
            sql.len() as int + 6,
        ) == "WHERE"@,
        (sql + where_eq_text(c1, false) + where_eq_text(c2, true)).subrange(
            sql.len() + c1.len() + 12int,
            sql.len() + c1.len() + 15int,
        ) == "AND"@,
{
    reveal_strlit(" WHERE ");
    reveal_strlit(" AND ");
    reveal_strlit(" = ?");
    reveal_strlit("WHERE");
    reveal_strlit("AND");
    let w = " WHERE "@;
    let a = " AND "@;
    let e = " = ?"@;
    let s1 = sql + w;
    let s2 = s1 + c1;
    let s3 = s2 + e;
    let s4 = s3 + a;
    let s5 = s4 + c2;
    let full = s5 + e;
    assert(sql + where_eq_text(c1, false) + where_eq_text(c2, true) =~= full);
    let pw = sql.len() as int + 1;
    let pa = sql.len() + c1.len() + 12int;
    assert(full.subrange(pw, pw + 5) =~= "WHERE"@);
    assert(full.subrange(pa, pa + 3) =~= "AND"@);
    assert forall|i: int| 0 <= i < full.len() && full[i] == 'W' implies i == pw by {
        if i < sql.len() {
            assert(full[i] == sql[i]);
            assert(sql.contains('W'));
        } else if i < s1.len() {
            assert(full[i] == w[i - sql.len()]);
        } else if i < s2.len() {
            assert(full[i] == c1[i - s1.len()]);
            assert(c1.contains('W'));
        } else if i < s3.len() {
            assert(full[i] == e[i - s2.len()]);
        } else if i < s4.len() {
            assert(full[i] == a[i - s3.len()]);
        } else if i < s5.len() {
            assert(full[i] == c2[i - s4.len()]);
            assert(c2.contains('W'));
        } else {
            assert(full[i] == e[i - s5.len()]);
        }
    };
    assert("WHERE"@[0] == 'W');
    lemma_count_str_single(full, "WHERE"@, pw);
    assert forall|i: int| 0 <= i < full.len() && full[i] == 'A' implies i == pa by {
        if i < sql.len() {
            assert(full[i] == sql[i]);
            assert(sql.contains('A'));
        } else if i < s1.len() {
            assert(full[i] == w[i - sql.len()]);
        } else if i < s2.len() {
            assert(full[i] == c1[i - s1.len()]);
            assert(c1.contains('A'));
        } else if i < s3.len() {
            assert(full[i] == e[i - s2.len()]);
        } else if i < s4.len() {
            assert(full[i] == a[i - s3.len()]);
        } else if i < s5.len() {
            assert(full[i] == c2[i - s4.len()]);
            assert(c2.contains('A'));
        } else {
            assert(full[i] == e[i - s5.len()]);
        }
    };
    assert("AND"@[0] == 'A');
    lemma_count_str_single(full, "AND"@, pa);
}

} // verus!

