use vstd::prelude::*;

verus! {

/// The ten decimal digits, in order.
pub open spec fn digit_char(d: nat) -> char {
    seq!['0', '1', '2', '3', '4', '5', '6', '7', '8', '9'][d as int]
}

/// The decimal digits of a natural number, most significant first, without
/// leading zeros (zero is "0").
pub open spec fn digits(n: nat) -> Seq<char>
    decreases n,
{
    if n < 10 {
        seq![digit_char(n)]
    } else {
        digits(n / 10) + seq![digit_char(n % 10)]
    }
}

/// An integer written in decimal, with a leading '-' when it is negative.
pub open spec fn decimal_text(n: int) -> Seq<char> {
    if n < 0 {
        seq!['-'] + digits((-n) as nat)
    } else {
        digits(n as nat)
    }
}

fn digit_str(d: u64) -> (r: &'static str)
    requires
        d < 10,
    ensures
        r@ == seq![digit_char(d as nat)],
{
    match d {
        0 => { proof { reveal_strlit("0"); } assert("0"@ =~= seq!['0']); "0" },
        1 => { proof { reveal_strlit("1"); } assert("1"@ =~= seq!['1']); "1" },
        2 => { proof { reveal_strlit("2"); } assert("2"@ =~= seq!['2']); "2" },
        3 => { proof { reveal_strlit("3"); } assert("3"@ =~= seq!['3']); "3" },
        4 => { proof { reveal_strlit("4"); } assert("4"@ =~= seq!['4']); "4" },
        5 => { proof { reveal_strlit("5"); } assert("5"@ =~= seq!['5']); "5" },
        6 => { proof { reveal_strlit("6"); } assert("6"@ =~= seq!['6']); "6" },
        7 => { proof { reveal_strlit("7"); } assert("7"@ =~= seq!['7']); "7" },
        8 => { proof { reveal_strlit("8"); } assert("8"@ =~= seq!['8']); "8" },
        _ => { proof { reveal_strlit("9"); } assert("9"@ =~= seq!['9']); "9" },
    }
}

fn push_digits(s: &mut String, n: u64)
    ensures
        final(s)@ == old(s)@ + digits(n as nat),
    decreases n,
{
    if n >= 10 {
        push_digits(s, n / 10);
    }
    s.append(digit_str(n % 10));
    assert(final(s)@ =~= old(s)@ + digits(n as nat));
}

/// Writes `n` in decimal.
pub fn integer_text(n: i64) -> (r: String)
    ensures
        r@ == decimal_text(n as int),
{
    let mut s = String::new();
    if n < 0 {
        proof { reveal_strlit("-"); }
        s.append("-");
        let m: u64 = (0i128 - n as i128) as u64;
        push_digits(&mut s, m);
        assert(s@ =~= decimal_text(n as int));
    } else {
        push_digits(&mut s, n as u64);
        assert(s@ =~= decimal_text(n as int));
    }
    s
}


/// Whether two strings hold the same characters.
pub fn same_text(a: &str, b: &str) -> (r: bool)
    ensures
        r == (a@ == b@),
{
    let n = a.unicode_len();
    if n != b.unicode_len() {
        return false;
    }
    let mut i: usize = 0;
    while i < n
        invariant
            n == a@.len(),
            n == b@.len(),
            i <= n,
            a@.subrange(0, i as int) == b@.subrange(0, i as int),
        decreases n - i,
    {
        if a.get_char(i) != b.get_char(i) {
            return false;
        }
        assert(a@.subrange(0, i + 1) =~= a@.subrange(0, i as int).push(a@[i as int]));
        assert(b@.subrange(0, i + 1) =~= b@.subrange(0, i as int).push(b@[i as int]));
        i = i + 1;
    }
    assert(a@ =~= a@.subrange(0, n as int));
    assert(b@ =~= b@.subrange(0, n as int));
    true
}

/// How the cells of a column are read, as its declared type name says.
#[derive(Clone, Copy, Debug, PartialEq, Eq, Structural)]
pub enum ColumnKind {
    /// "NULL": the cells read as empty text.
    Null,
    /// "INTEGER": the cells are read as 64-bit signed integers.
    Integer,
    /// "REAL": the cells are read as floating-point numbers.
    Real,
    /// "TEXT": the cells are read as text.
    Text,
    /// Any other type name: the cells are not read.
    Unknown,
}

/// The kind of a column whose declared type name is `declared`; the names
/// are matched exactly, case included.
pub open spec fn kind_of(declared: Seq<char>) -> ColumnKind {
    if declared == "NULL"@ {
        ColumnKind::Null
    } else if declared == "INTEGER"@ {
        ColumnKind::Integer
    } else if declared == "REAL"@ {
        ColumnKind::Real
    } else if declared == "TEXT"@ {
        ColumnKind::Text
    } else {
        ColumnKind::Unknown
    }
}

/// The kind of a column whose declared type name is `declared`.
pub fn column_kind(declared: &str) -> (r: ColumnKind)
    ensures
        r == kind_of(declared@),
{
    if same_text(declared, "NULL") {
        ColumnKind::Null
    } else if same_text(declared, "INTEGER") {
        ColumnKind::Integer
    } else if same_text(declared, "REAL") {
        ColumnKind::Real
    } else if same_text(declared, "TEXT") {
        ColumnKind::Text
    } else {
        ColumnKind::Unknown
    }
}

/// One cell of a table, read as the kind of its column says.
#[derive(Debug)]
pub enum CellValue {
    /// A cell of a "NULL" column.
    Null,
    /// A cell of an "INTEGER" column.
    Integer(i64),
    /// A cell of a "REAL" column, already written as text in Rust's shortest
    /// round-trip form for a 64-bit float.
    Real(String),
    /// A cell of a "TEXT" column.
    Text(String),
    /// A cell of a column whose type is none of the above.
    Unknown,
}

/// What a column whose type is not known shows in each of its cells.
pub open spec fn unknown_type_text() -> Seq<char> {
    "type not known"@
}

/// The text that a cell shows in the grid.
pub open spec fn cell_text_of(v: CellValue) -> Seq<char> {
    match v {
        CellValue::Null => Seq::empty(),
        CellValue::Integer(n) => decimal_text(n as int),
        CellValue::Real(t) => t@,
        CellValue::Text(t) => t@,
        CellValue::Unknown => unknown_type_text(),
    }
}

/// The text that the cell `v` shows in the grid.
pub fn cell_text(v: &CellValue) -> (r: String)
    ensures
        r@ == cell_text_of(*v),
{
    match v {
        CellValue::Null => String::new(),
        CellValue::Integer(n) => integer_text(*n),
        CellValue::Real(t) => t.clone(),
        CellValue::Text(t) => t.clone(),
        CellValue::Unknown => String::from_str("type not known"),
    }
}

} // verus!
