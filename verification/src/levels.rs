//! Level files: a grid of terrain symbols, one map row per text line and
//! one cell per whitespace-separated token. Parsing, writing, the store of
//! loaded levels, and the naming of level files.

use vstd::prelude::*;
use crate::terrain::{lemma_symbol_roundtrip, lemma_symbol_shape, symbol_of, terrain_of_symbol, TerrainType, MAP_COLS, MAP_ROWS};
use crate::text::{chars_of, decimal, digit_char, string_push, usize_to_decimal};
use crate::types::MIN_LEVELS;

verus! {

/// A stage's terrain, `MAP_ROWS` rows of `MAP_COLS` cells.
pub type LevelMap = [[TerrainType; MAP_COLS]; MAP_ROWS];

/// The rows of a level map as sequences.
pub open spec fn grid_of(m: LevelMap) -> Seq<Seq<TerrainType>> {
    m@.map_values(|row: [TerrainType; MAP_COLS]| row@)
}

/// The map in which every cell is open ground.
pub open spec fn empty_map() -> LevelMap {
    [[TerrainType::Empty; MAP_COLS]; MAP_ROWS]
}

// ---------------------------------------------------------------------------
// Whitespace, lines and tokens, as `str::lines` and `str::split_whitespace` cut them.
// ---------------------------------------------------------------------------

/// Unicode `White_Space` characters (what `char::is_whitespace` accepts).
pub open spec fn is_whitespace(c: char) -> bool {
    let u = c as u32;
    (9 <= u && u <= 13) || u == 32 || u == 0x85 || u == 0xA0 || u == 0x1680
        || (0x2000 <= u && u <= 0x200A) || u == 0x2028 || u == 0x2029 || u == 0x202F
        || u == 0x205F || u == 0x3000
}

/// Whether `c` is a whitespace character (`char::is_whitespace`).
pub fn char_is_whitespace(c: char) -> (b: bool)
    ensures
        b == is_whitespace(c),
{
    let u = c as u32;
    (9 <= u && u <= 13) || u == 32 || u == 0x85 || u == 0xA0 || u == 0x1680
        || (0x2000 <= u && u <= 0x200A) || u == 0x2028 || u == 0x2029 || u == 0x202F
        || u == 0x205F || u == 0x3000
}

/// Lines completed so far, and the line being read.
pub type SplitState = (Seq<Seq<char>>, Seq<char>);

/// Reading one character while cutting text into lines.
pub open spec fn line_step(st: SplitState, c: char) -> SplitState {
    if c == '\n' {
        (st.0.push(st.1), Seq::empty())
    } else {
        (st.0, st.1.push(c))
    }
}

/// Reading `s` from left to right while cutting into lines.
pub open spec fn line_fold(st: SplitState, s: Seq<char>) -> SplitState
    decreases s.len(),
{
    if s.len() == 0 {
        st
    } else {
        line_step(line_fold(st, s.drop_last()), s.last())
    }
}

/// The lines of a text: the pieces between `'\n'`, where a final empty piece
/// (after a trailing newline, or of the empty text) is not a line.
pub open spec fn lines_of(s: Seq<char>) -> Seq<Seq<char>> {
    let st = line_fold((Seq::empty(), Seq::empty()), s);
    if st.1.len() == 0 {
        st.0
    } else {
        st.0.push(st.1)
    }
}

/// Reading one character while cutting a line into tokens.
pub open spec fn token_step(st: SplitState, c: char) -> SplitState {
    if is_whitespace(c) {
        if st.1.len() > 0 {
            (st.0.push(st.1), Seq::empty())
        } else {
            st
        }
    } else {
        (st.0, st.1.push(c))
    }
}

/// Reading `s` from left to right while cutting into tokens.
pub open spec fn token_fold(st: SplitState, s: Seq<char>) -> SplitState
    decreases s.len(),
{
    if s.len() == 0 {
        st
    } else {
        token_step(token_fold(st, s.drop_last()), s.last())
    }
}

/// The maximal runs of non-whitespace characters of a line, in order.
pub open spec fn tokens_of(s: Seq<char>) -> Seq<Seq<char>> {
    let st = token_fold((Seq::empty(), Seq::empty()), s);
    if st.1.len() == 0 {
        st.0
    } else {
        st.0.push(st.1)
    }
}

/// The views of a sequence of character vectors.
pub open spec fn char_views(v: Seq<Vec<char>>) -> Seq<Seq<char>> {
    v.map_values(|x: Vec<char>| x@)
}

/// The lines of a text given as characters.
pub fn split_lines(cs: &Vec<char>) -> (lines: Vec<Vec<char>>)
    ensures
        char_views(lines@) == lines_of(cs@),
{
    let mut done: Vec<Vec<char>> = Vec::new();
    let mut cur: Vec<char> = Vec::new();
    let n = cs.len();
    let mut i: usize = 0;
    while i < n
        invariant
            n == cs@.len(),
            i <= n,
            (char_views(done@), cur@) == line_fold((Seq::empty(), Seq::empty()), cs@.take(i as int)),
        decreases n - i,
    {
        let c = cs[i];
        proof {
            assert(cs@.take(i + 1).drop_last() =~= cs@.take(i as int));
        }
        if c == '\n' {
            let ghost old_done = char_views(done@);
            let ghost old_cur = cur@;
            let finished = cur;
            done.push(finished);
            cur = Vec::new();
            assert(char_views(done@) =~= old_done.push(old_cur));
        } else {
            cur.push(c);
        }
        i += 1;
    }
    assert(cs@.take(n as int) =~= cs@);
    if cur.len() > 0 {
        let ghost old_done = char_views(done@);
        let ghost old_cur = cur@;
        done.push(cur);
        assert(char_views(done@) =~= old_done.push(old_cur));
    }
    done
}

/// The whitespace-separated tokens of a line given as characters.
pub fn split_tokens(cs: &Vec<char>) -> (tokens: Vec<Vec<char>>)
    ensures
        char_views(tokens@) == tokens_of(cs@),
{
    let mut done: Vec<Vec<char>> = Vec::new();
    let mut cur: Vec<char> = Vec::new();
    let n = cs.len();
    let mut i: usize = 0;
    while i < n
        invariant
            n == cs@.len(),
            i <= n,
            (char_views(done@), cur@) == token_fold((Seq::empty(), Seq::empty()), cs@.take(i as int)),
        decreases n - i,
    {
        let c = cs[i];
        proof {
            assert(cs@.take(i + 1).drop_last() =~= cs@.take(i as int));
        }
        if char_is_whitespace(c) {
            if cur.len() > 0 {
                let ghost old_done = char_views(done@);
                let ghost old_cur = cur@;
                let finished = cur;
                done.push(finished);
                cur = Vec::new();
                assert(char_views(done@) =~= old_done.push(old_cur));
            }
        } else {
            cur.push(c);
        }
        i += 1;
    }
    assert(cs@.take(n as int) =~= cs@);
    if cur.len() > 0 {
        let ghost old_done = char_views(done@);
        let ghost old_cur = cur@;
        done.push(cur);
        assert(char_views(done@) =~= old_done.push(old_cur));
    }
    done
}

// ---------------------------------------------------------------------------
// Parsing
// ---------------------------------------------------------------------------

/// The terrain a level text puts in cell (`row`, `col`): the symbol of the
/// `col`-th token of the `row`-th line, or open ground where there is none.
pub open spec fn parsed_cell(content: Seq<char>, row: int, col: int) -> TerrainType {
    let ls = lines_of(content);
    if 0 <= row < ls.len() {
        let ts = tokens_of(ls[row]);
        if 0 <= col < ts.len() {
            terrain_of_symbol(ts[col])
        } else {
            TerrainType::Empty
        }
    } else {
        TerrainType::Empty
    }
}

/// The level map a level text describes. Lines beyond `MAP_ROWS` and tokens
/// beyond `MAP_COLS` are ignored; missing cells are open ground.
pub fn parse_level_content(content: &str) -> (map: LevelMap)
    ensures
        forall|r: int, c: int| 0 <= r < MAP_ROWS && 0 <= c < MAP_COLS
            ==> #[trigger] map@[r]@[c] == parsed_cell(content@, r, c),
{
    let cs = chars_of(content);
    parse_level_chars(&cs)
}

/// The level map a level text, given as characters, describes.
pub fn parse_level_chars(cs: &Vec<char>) -> (map: LevelMap)
    ensures
        forall|r: int, c: int| 0 <= r < MAP_ROWS && 0 <= c < MAP_COLS
            ==> #[trigger] map@[r]@[c] == parsed_cell(cs@, r, c),
{
    let lines = split_lines(cs);
    let ghost ls = lines_of(cs@);
    let mut result: LevelMap = [[TerrainType::Empty; MAP_COLS]; MAP_ROWS];
    let mut r: usize = 0;
    while r < MAP_ROWS
        invariant
            char_views(lines@) == ls,
            ls == lines_of(cs@),
            r <= MAP_ROWS,
            forall|rr: int, c: int| 0 <= rr < r && 0 <= c < MAP_COLS
                ==> #[trigger] result@[rr]@[c] == parsed_cell(cs@, rr, c),
        decreases MAP_ROWS - r,
    {
        let mut row: [TerrainType; MAP_COLS] = [TerrainType::Empty; MAP_COLS];
        if r < lines.len() {
            let toks = split_tokens(&lines[r]);
            let ghost ts = tokens_of(ls[r as int]);
            assert(lines@[r as int]@ == ls[r as int]);
            let mut c: usize = 0;
            while c < MAP_COLS
                invariant
                    char_views(toks@) == ts,
                    ts == tokens_of(ls[r as int]),
                    ls == lines_of(cs@),
                    r < ls.len(),
                    c <= MAP_COLS,
                    forall|cc: int| 0 <= cc < c ==> #[trigger] row@[cc] == parsed_cell(cs@, r as int, cc),
                decreases MAP_COLS - c,
            {
                if c < toks.len() {
                    assert(toks@[c as int]@ == ts[c as int]);
                    let t = TerrainType::from_chars(&toks[c]);
                    row[c] = t;
                } else {
                    row[c] = TerrainType::Empty;
                }
                c += 1;
            }
        } else {
            let mut c: usize = 0;
            while c < MAP_COLS
                invariant
                    ls == lines_of(cs@),
                    r >= ls.len(),
                    c <= MAP_COLS,
                    forall|cc: int| 0 <= cc < c ==> #[trigger] row@[cc] == parsed_cell(cs@, r as int, cc),
                decreases MAP_COLS - c,
            {
                row[c] = TerrainType::Empty;
                c += 1;
            }
        }
        result[r] = row;
        r += 1;
    }
    result
}

// ---------------------------------------------------------------------------
// Writing
// ---------------------------------------------------------------------------

/// The symbols of a row, separated by single spaces.
pub open spec fn row_text(row: Seq<TerrainType>) -> Seq<char>
    decreases row.len(),
{
    if row.len() == 0 {
        Seq::empty()
    } else if row.len() == 1 {
        symbol_of(row[0])
    } else {
        row_text(row.drop_last()) + seq![' '] + symbol_of(row.last())
    }
}

/// The rows' texts, each followed by a newline.
pub open spec fn rows_text(rows: Seq<Seq<TerrainType>>) -> Seq<char>
    decreases rows.len(),
{
    if rows.len() == 0 {
        Seq::empty()
    } else {
        rows_text(rows.drop_last()) + row_text(rows.last()) + seq!['\n']
    }
}

/// The level file text of a map: one line per row, cells separated by spaces.
pub open spec fn level_text(m: LevelMap) -> Seq<char> {
    rows_text(grid_of(m))
}

/// The level file text of a map, as the level editor exports it.
pub fn level_to_text(map: &LevelMap) -> (s: String)
    ensures
        s@ == level_text(*map),
{
    let ghost g = grid_of(*map);
    let mut s = String::new();
    let mut r: usize = 0;
    while r < MAP_ROWS
        invariant
            g == grid_of(*map),
            r <= MAP_ROWS,
            s@ == rows_text(g.take(r as int)),
        decreases MAP_ROWS - r,
    {
        let row = map[r];
        assert(row@ == g[r as int]);
        let mut c: usize = 0;
        while c < MAP_COLS
            invariant
                g == grid_of(*map),
                row@ == g[r as int],
                r < MAP_ROWS,
                c <= MAP_COLS,
                s@ == rows_text(g.take(r as int)) + row_text(row@.take(c as int)),
            decreases MAP_COLS - c,
        {
            proof {
                assert(row@.take(c + 1).drop_last() =~= row@.take(c as int));
                assert(row@.take(c + 1).last() == row@[c as int]);
            }
            if c > 0 {
                s.append(" ");
                proof { reveal_strlit(" "); }
            }
            let sym = row[c].to_symbol();
            s.append(sym);
            proof {
                if c == 0 {
                    assert(row@.take(1) =~= seq![row@[0]]);
                    assert(s@ =~= rows_text(g.take(r as int)) + row_text(row@.take(1)));
                } else {
                    assert(s@ =~= rows_text(g.take(r as int)) + row_text(row@.take(c + 1)));
                }
            }
            c += 1;
        }
        s.append("\n");
        proof {
            reveal_strlit("\n");
            assert(row@.take(MAP_COLS as int) =~= row@);
            assert(g.take(r + 1).drop_last() =~= g.take(r as int));
            assert(g.take(r + 1).last() == g[r as int]);
            assert(s@ =~= rows_text(g.take(r + 1)));
        }
        r += 1;
    }
    assert(g.take(MAP_ROWS as int) =~= g);
    s
}

// ---------------------------------------------------------------------------
// Reading back what was written
// ---------------------------------------------------------------------------

proof fn lemma_line_fold_append(st: SplitState, a: Seq<char>, b: Seq<char>)
    ensures
        line_fold(st, a + b) == line_fold(line_fold(st, a), b),
    decreases b.len(),
{
    if b.len() == 0 {
        assert(a + b =~= a);
    } else {
        assert((a + b).drop_last() =~= a + b.drop_last());
        assert((a + b).last() == b.last());
        lemma_line_fold_append(st, a, b.drop_last());
    }
}

proof fn lemma_line_fold_no_newline(st: SplitState, s: Seq<char>)
    requires
        forall|i: int| 0 <= i < s.len() ==> s[i] != '\n',
    ensures
        line_fold(st, s) == (st.0, st.1 + s),
    decreases s.len(),
{
    if s.len() == 0 {
        assert(st.1 + s =~= st.1);
    } else {
        lemma_line_fold_no_newline(st, s.drop_last());
        assert(st.1 + s.drop_last() + seq![s.last()] =~= st.1 + s);
        assert((st.1 + s.drop_last()).push(s.last()) =~= st.1 + s);
    }
}

proof fn lemma_token_fold_append(st: SplitState, a: Seq<char>, b: Seq<char>)
    ensures
        token_fold(st, a + b) == token_fold(token_fold(st, a), b),
    decreases b.len(),
{
    if b.len() == 0 {
        assert(a + b =~= a);
    } else {
        assert((a + b).drop_last() =~= a + b.drop_last());
        assert((a + b).last() == b.last());
        lemma_token_fold_append(st, a, b.drop_last());
    }
}

proof fn lemma_token_fold_no_whitespace(st: SplitState, s: Seq<char>)
    requires
        forall|i: int| 0 <= i < s.len() ==> !is_whitespace(#[trigger] s[i]),
    ensures
        token_fold(st, s) == (st.0, st.1 + s),
    decreases s.len(),
{
    if s.len() == 0 {
        assert(st.1 + s =~= st.1);
    } else {
        lemma_token_fold_no_whitespace(st, s.drop_last());
        assert((st.1 + s.drop_last()).push(s.last()) =~= st.1 + s);
    }
}

proof fn lemma_symbol_plain(t: TerrainType)
    ensures
        symbol_of(t).len() >= 1,
        forall|i: int| 0 <= i < symbol_of(t).len() ==> !is_whitespace(#[trigger] symbol_of(t)[i]),
        forall|i: int| 0 <= i < symbol_of(t).len() ==> #[trigger] symbol_of(t)[i] != '\n',
{
    lemma_symbol_shape(t);
}

/// The symbols of a row, one per cell.
pub open spec fn row_symbols(row: Seq<TerrainType>) -> Seq<Seq<char>> {
    row.map_values(|t: TerrainType| symbol_of(t))
}

proof fn lemma_row_text_has_no_newline(row: Seq<TerrainType>)
    ensures
        forall|i: int| 0 <= i < row_text(row).len() ==> #[trigger] row_text(row)[i] != '\n',
    decreases row.len(),
{
    if row.len() == 0 {
    } else if row.len() == 1 {
        lemma_symbol_plain(row[0]);
    } else {
        lemma_row_text_has_no_newline(row.drop_last());
        lemma_symbol_plain(row.last());
        let a = row_text(row.drop_last());
        let b = symbol_of(row.last());
        assert forall|i: int| 0 <= i < row_text(row).len() implies #[trigger] row_text(row)[i] != '\n' by {
            if i < a.len() {
                assert(row_text(row)[i] == a[i]);
            } else if i == a.len() {
                assert(row_text(row)[i] == ' ');
            } else {
                assert(row_text(row)[i] == b[i - a.len() - 1]);
            }
        }
    }
}

proof fn lemma_row_text_tokens_fold(row: Seq<TerrainType>)
    requires
        row.len() >= 1,
    ensures
        token_fold((Seq::empty(), Seq::empty()), row_text(row))
            == (row_symbols(row.drop_last()), symbol_of(row.last())),
    decreases row.len(),
{
    let init: SplitState = (Seq::empty(), Seq::empty());
    lemma_symbol_plain(row.last());
    if row.len() == 1 {
        lemma_token_fold_no_whitespace(init, symbol_of(row[0]));
        assert(Seq::<char>::empty() + symbol_of(row[0]) =~= symbol_of(row[0]));
        assert(row_symbols(row.drop_last()) =~= Seq::empty());
    } else {
        let prev = row.drop_last();
        lemma_row_text_tokens_fold(prev);
        let a = row_text(prev);
        let sp: Seq<char> = seq![' '];
        let b = symbol_of(row.last());
        lemma_token_fold_append(init, a + sp, b);
        lemma_token_fold_append(init, a, sp);
        let st1 = token_fold(init, a);
        assert(sp.drop_last() =~= Seq::<char>::empty());
        assert(is_whitespace(' '));
        lemma_symbol_plain(prev.last());
        let st2 = token_fold(st1, sp);
        assert(token_fold(st1, sp.drop_last()) == st1);
        assert(st1.1 == symbol_of(prev.last()));
        assert(st2 == token_step(st1, ' '));
        assert(st2 == (row_symbols(prev.drop_last()).push(symbol_of(prev.last())), Seq::<char>::empty()));
        assert(row_symbols(prev.drop_last()).push(symbol_of(prev.last())) =~= row_symbols(prev));
        lemma_token_fold_no_whitespace(st2, b);
        assert(Seq::<char>::empty() + b =~= b);
        assert(row_text(row) == a + sp + b);
    }
}

/// Cutting a row's text into tokens gives back the row's symbols.
pub proof fn lemma_tokens_of_row_text(row: Seq<TerrainType>)
    ensures
        tokens_of(row_text(row)) == row_symbols(row),
{
    if row.len() == 0 {
        assert(row_symbols(row) =~= Seq::empty());
    } else {
        lemma_row_text_tokens_fold(row);
        lemma_symbol_plain(row.last());
        assert(row_symbols(row.drop_last()).push(symbol_of(row.last())) =~= row_symbols(row));
    }
}

proof fn lemma_rows_text_lines_fold(rows: Seq<Seq<TerrainType>>)
    ensures
        line_fold((Seq::empty(), Seq::empty()), rows_text(rows))
            == (rows.map_values(|row: Seq<TerrainType>| row_text(row)), Seq::<char>::empty()),
    decreases rows.len(),
{
    let init: SplitState = (Seq::empty(), Seq::empty());
    if rows.len() == 0 {
        assert(rows.map_values(|row: Seq<TerrainType>| row_text(row)) =~= Seq::empty());
    } else {
        let prev = rows.drop_last();
        lemma_rows_text_lines_fold(prev);
        let a = rows_text(prev);
        let b = row_text(rows.last());
        let nl: Seq<char> = seq!['\n'];
        lemma_line_fold_append(init, a + b, nl);
        lemma_line_fold_append(init, a, b);
        lemma_row_text_has_no_newline(rows.last());
        let st1 = line_fold(init, a);
        lemma_line_fold_no_newline(st1, b);
        assert(Seq::<char>::empty() + b =~= b);
        assert(nl.drop_last() =~= Seq::<char>::empty());
        let st2 = line_fold(st1, b);
        assert(line_fold(st2, nl.drop_last()) == st2);
        assert(line_fold(st2, nl) == line_step(st2, '\n'));
        assert(prev.map_values(|row: Seq<TerrainType>| row_text(row)).push(b)
            =~= rows.map_values(|row: Seq<TerrainType>| row_text(row)));
    }
}

/// Cutting a written level text into lines gives back the rows' texts.
pub proof fn lemma_lines_of_rows_text(rows: Seq<Seq<TerrainType>>)
    ensures
        lines_of(rows_text(rows)) == rows.map_values(|row: Seq<TerrainType>| row_text(row)),
{
    lemma_rows_text_lines_fold(rows);
}

/// Reading a written level text back gives the map that was written:
/// parsing the text of `m` puts `m`'s terrain in every cell.
pub proof fn lemma_parse_level_text(m: LevelMap)
    ensures
        forall|r: int, c: int| 0 <= r < MAP_ROWS && 0 <= c < MAP_COLS
            ==> #[trigger] parsed_cell(level_text(m), r, c) == m@[r]@[c],
{
    let g = grid_of(m);
    lemma_lines_of_rows_text(g);
    assert forall|r: int, c: int| 0 <= r < MAP_ROWS && 0 <= c < MAP_COLS
        implies #[trigger] parsed_cell(level_text(m), r, c) == m@[r]@[c] by {
        let ls = lines_of(level_text(m));
        assert(ls[r] == row_text(g[r]));
        lemma_tokens_of_row_text(g[r]);
        assert(g[r] == m@[r]@);
        lemma_symbol_roundtrip(m@[r]@[c]);
    }
}

// ---------------------------------------------------------------------------
// The store of loaded levels
// ---------------------------------------------------------------------------

/// Level maps by stage number: entry `i` holds stage `i + 1`, `None` where no map was stored.
#[derive(Clone, Debug)]
pub struct LevelAssets {
    levels: Vec<Option<LevelMap>>,
}

impl View for LevelAssets {
    type V = Seq<Option<LevelMap>>;

    closed spec fn view(&self) -> Seq<Option<LevelMap>> {
        self.levels@
    }
}

/// The map stored for a stage (numbered from 1), if any.
pub open spec fn stored_level(levels: Seq<Option<LevelMap>>, level: int) -> Option<LevelMap> {
    if 1 <= level <= levels.len() {
        levels[level - 1]
    } else {
        None
    }
}

/// The store after storing `map` for stage `level`: grown with empty entries
/// up to that stage if needed, then that entry replaced.
pub open spec fn levels_after_set(levels: Seq<Option<LevelMap>>, level: int, map: LevelMap) -> Seq<Option<LevelMap>> {
    let grown = if levels.len() < level {
        levels + Seq::new((level - levels.len()) as nat, |i: int| None::<LevelMap>)
    } else {
        levels
    };
    grown.update(level - 1, Some(map))
}

impl LevelAssets {
    /// A store with no levels.
    pub fn new() -> (a: Self)
        ensures
            a@ == Seq::<Option<LevelMap>>::empty(),
    {
        LevelAssets { levels: Vec::new() }
    }

    /// The map of stage `level` (stages count from 1): the stored map, or the
    /// all-open map for a stage that was never loaded.
    pub fn get(&self, level: usize) -> (m: Option<LevelMap>)
        requires
            level >= 1,
        ensures
            m == Some(match stored_level(self@, level as int) {
                Some(stored) => stored,
                None => empty_map(),
            }),
    {
        let level_idx = level - 1;
        if level_idx < self.levels.len() {
            match self.levels[level_idx] {
                Some(m) => Some(m),
                None => Some([[TerrainType::Empty; MAP_COLS]; MAP_ROWS]),
            }
        } else {
            Some([[TerrainType::Empty; MAP_COLS]; MAP_ROWS])
        }
    }

    /// Stores `map_data` as stage `level` (stages count from 1), growing the store as needed.
    pub fn set(&mut self, level: usize, map_data: LevelMap)
        requires
            level >= 1,
        ensures
            final(self)@ == levels_after_set(old(self)@, level as int, map_data),
    {
        let level_idx = level - 1;
        let ghost old_levels = self.levels@;
        while self.levels.len() < level
            invariant
                level >= 1,
                old_levels.len() <= self.levels@.len(),
                self.levels@.len() <= if old_levels.len() < level { level as int } else { old_levels.len() as int },
                self.levels@ == old_levels + Seq::new((self.levels@.len() - old_levels.len()) as nat, |i: int| None::<LevelMap>),
            decreases level - self.levels.len(),
        {
            let ghost before = self.levels@;
            self.levels.push(None);
            assert(self.levels@ =~= old_levels + Seq::new((self.levels@.len() - old_levels.len()) as nat, |i: int| None::<LevelMap>));
        }
        proof {
            if old_levels.len() >= level {
                assert(self.levels@ =~= old_levels);
            }
        }
        self.levels.set(level_idx, Some(map_data));
    }

    /// Stores stages 1, 2, ... from the loaded maps, in order; a stage whose
    /// file could not be loaded gets an all-open map.
    pub fn init_level_assets(loaded: &Vec<Option<LevelMap>>) -> (a: Self)
        ensures
            a@.len() == loaded@.len(),
            forall|i: int| 0 <= i < loaded@.len() ==> #[trigger] a@[i] == Some(
                match loaded@[i] {
                    Some(m) => m,
                    None => empty_map(),
                },
            ),
    {
        let mut levels: Vec<Option<LevelMap>> = Vec::new();
        let n = loaded.len();
        let mut i: usize = 0;
        while i < n
            invariant
                n == loaded@.len(),
                i <= n,
                levels@.len() == i,
                forall|k: int| 0 <= k < i ==> #[trigger] levels@[k] == Some(
                    match loaded@[k] {
                        Some(m) => m,
                        None => empty_map(),
                    },
                ),
            decreases n - i,
        {
            let m = match loaded[i] {
                Some(m) => m,
                None => [[TerrainType::Empty; MAP_COLS]; MAP_ROWS],
            };
            levels.push(Some(m));
            i += 1;
        }
        LevelAssets { levels }
    }
}

impl Default for LevelAssets {
    /// A store with no levels.
    fn default() -> (a: Self)
        ensures
            a@ == Seq::<Option<LevelMap>>::empty(),
    {
        LevelAssets::new()
    }
}

/// Storing a stage's map and reading that stage back gives the map; every
/// other stage reads as before.
pub proof fn lemma_store_then_read(levels: Seq<Option<LevelMap>>, level: int, map: LevelMap, other: int)
    requires
        level >= 1,
    ensures
        stored_level(levels_after_set(levels, level, map), level) == Some(map),
        other != level ==> stored_level(levels_after_set(levels, level, map), other) == stored_level(levels, other),
{
    let after = levels_after_set(levels, level, map);
    if other != level && 1 <= other {
        if other <= levels.len() {
            assert(after[other - 1] == levels[other - 1]);
        } else if other <= after.len() {
            assert(after[other - 1] == None::<LevelMap>);
        }
    }
}

/// The map a stage is played on: the stored map, or an all-open map when none is stored.
pub fn stage_map(assets: &LevelAssets, stage_level: usize) -> (m: LevelMap)
    requires
        stage_level >= 1,
    ensures
        m == match stored_level(assets@, stage_level as int) {
            Some(stored) => stored,
            None => empty_map(),
        },
{
    match assets.get(stage_level) {
        Some(m) => m,
        None => [[TerrainType::Empty; MAP_COLS]; MAP_ROWS],
    }
}

// ---------------------------------------------------------------------------
// Level file names
// ---------------------------------------------------------------------------

/// Whether a character is an ASCII decimal digit.
pub open spec fn is_digit(c: char) -> bool {
    '0' <= c && c <= '9'
}

/// The value of a string of decimal digits.
pub open spec fn digits_value(ds: Seq<char>) -> nat
    decreases ds.len(),
{
    if ds.len() == 0 {
        0
    } else {
        digits_value(ds.drop_last()) * 10 + ((ds.last() as u32) - ('0' as u32)) as nat
    }
}

/// The digits part of a number: the text without one leading `+`.
pub open spec fn digits_part(s: Seq<char>) -> Seq<char> {
    if s.len() > 0 && s[0] == '+' { s.skip(1) } else { s }
}

/// Whether every character is a decimal digit.
pub open spec fn all_digits(ds: Seq<char>) -> bool {
    forall|i: int| 0 <= i < ds.len() ==> is_digit(#[trigger] ds[i])
}

/// What `str::parse::<usize>` gives: an optional `+`, then one or more
/// decimal digits whose value fits in `usize`; anything else is refused.
pub open spec fn parse_usize_spec(s: Seq<char>) -> Option<nat> {
    let ds = digits_part(s);
    if ds.len() == 0 || !all_digits(ds) {
        None
    } else if digits_value(ds) > usize::MAX {
        None
    } else {
        Some(digits_value(ds))
    }
}

proof fn lemma_digits_value_monotone(ds: Seq<char>, k: int)
    requires
        0 <= k <= ds.len(),
        forall|i: int| 0 <= i < ds.len() ==> is_digit(#[trigger] ds[i]),
    ensures
        digits_value(ds.take(k)) <= digits_value(ds),
    decreases ds.len() - k,
{
    if k < ds.len() {
        lemma_digits_value_monotone(ds, k + 1);
        assert(ds.take(k + 1).drop_last() =~= ds.take(k));
    } else {
        assert(ds.take(k) =~= ds);
    }
}

/// Parses a decimal number as `str::parse::<usize>` does.
pub fn parse_usize(s: &Vec<char>) -> (r: Option<usize>)
    ensures
        match parse_usize_spec(s@) {
            Some(v) => r == Some(v as usize),
            None => r.is_none(),
        },
{
    let n = s.len();
    let start: usize = if n > 0 && s[0] == '+' { 1 } else { 0 };
    let ghost ds = digits_part(s@);
    assert(ds =~= s@.skip(start as int));
    if start >= n {
        return None;
    }
    let mut value: usize = 0;
    let mut i: usize = start;
    while i < n
        invariant
            n == s@.len(),
            start <= i <= n,
            start < n,
            ds == s@.skip(start as int),
            ds == digits_part(s@),
            forall|k: int| start <= k < i ==> is_digit(#[trigger] s@[k]),
            value as nat == digits_value(ds.take(i - start)),
        decreases n - i,
    {
        let c = s[i];
        proof {
            assert(ds[i - start] == c);
            assert(ds.take(i - start + 1).drop_last() =~= ds.take(i - start));
        }
        if !('0' <= c && c <= '9') {
            assert(!is_digit(ds[i - start]));
            assert(0 <= i - start < ds.len());
            assert(!all_digits(ds));
            assert(parse_usize_spec(s@).is_none());
            return None;
        }
        let d = (c as u32 - '0' as u32) as usize;
        proof {
            assert(ds.take(i - start + 1).last() == c);
            assert(digits_value(ds.take(i - start + 1)) == value * 10 + d);
        }
        let next = match value.checked_mul(10) {
            Some(v10) => v10.checked_add(d),
            None => None,
        };
        match next {
            Some(v) => {
                value = v;
            },
            None => {
                proof {
                    assert(value * 10 + d > usize::MAX);
                    if all_digits(ds) {
                        lemma_digits_value_monotone(ds, i - start + 1);
                        assert(digits_value(ds) > usize::MAX);
                    }
                    assert(parse_usize_spec(s@).is_none());
                }
                return None;
            },
        }
        i += 1;
    }
    proof {
        assert(ds.take(n - start) =~= ds);
        assert forall|k: int| 0 <= k < ds.len() implies is_digit(#[trigger] ds[k]) by {
            assert(ds[k] == s@[k + start]);
        }
        assert(all_digits(ds));
    }
    Some(value)
}

/// The stage number a level file is named after: `"<number>.txt"`.
pub open spec fn level_number_of_name(name: Seq<char>) -> Option<nat> {
    let suffix: Seq<char> = seq!['.', 't', 'x', 't'];
    if name.len() >= 4 && name.subrange(name.len() - 4, name.len() as int) == suffix {
        parse_usize_spec(name.subrange(0, name.len() - 4))
    } else {
        None
    }
}

/// The stage number of a level file name such as `"3.txt"`; `None` for other names.
pub fn level_number_from_file_name(name: &str) -> (r: Option<usize>)
    ensures
        match level_number_of_name(name@) {
            Some(v) => r == Some(v as usize),
            None => r.is_none(),
        },
{
    let cs = chars_of(name);
    let n = cs.len();
    let ghost suffix: Seq<char> = seq!['.', 't', 'x', 't'];
    if n < 4 || cs[n - 4] != '.' || cs[n - 3] != 't' || cs[n - 2] != 'x' || cs[n - 1] != 't' {
        proof {
            if n >= 4 && cs@.subrange(n - 4, n as int) == suffix {
                assert(cs@.subrange(n - 4, n as int)[0] == cs@[n - 4]);
                assert(cs@.subrange(n - 4, n as int)[1] == cs@[n - 3]);
                assert(cs@.subrange(n - 4, n as int)[2] == cs@[n - 2]);
                assert(cs@.subrange(n - 4, n as int)[3] == cs@[n - 1]);
            }
        }
        return None;
    }
    assert(cs@.subrange(n - 4, n as int) =~= suffix);
    let mut stem: Vec<char> = Vec::new();
    let mut i: usize = 0;
    while i < n - 4
        invariant
            n == cs@.len(),
            n >= 4,
            i <= n - 4,
            stem@ == cs@.subrange(0, i as int),
        decreases n - 4 - i,
    {
        stem.push(cs[i]);
        assert(stem@ =~= cs@.subrange(0, i + 1));
        i += 1;
    }
    parse_usize(&stem)
}

/// The largest stage number among the names (0 if none names a level file).
pub open spec fn max_level_number(names: Seq<Seq<char>>) -> nat
    decreases names.len(),
{
    if names.len() == 0 {
        0
    } else {
        let rest = max_level_number(names.drop_last());
        match level_number_of_name(names.last()) {
            Some(v) => if v > rest { v } else { rest },
            None => rest,
        }
    }
}

/// The number of stages: the highest stage number among the level files
/// found, but at least `MIN_LEVELS`.
pub fn get_available_level_count(file_names: &Vec<String>) -> (count: usize)
    ensures
        count as nat == if max_level_number(file_names@.map_values(|f: String| f@)) > MIN_LEVELS {
            max_level_number(file_names@.map_values(|f: String| f@))
        } else {
            MIN_LEVELS as nat
        },
{
    let ghost names = file_names@.map_values(|f: String| f@);
    let mut max_level: usize = 0;
    let n = file_names.len();
    let mut i: usize = 0;
    while i < n
        invariant
            n == file_names@.len(),
            names == file_names@.map_values(|f: String| f@),
            i <= n,
            max_level as nat == max_level_number(names.take(i as int)),
        decreases n - i,
    {
        proof {
            assert(names.take(i + 1).drop_last() =~= names.take(i as int));
            assert(names.take(i + 1).last() == file_names@[i as int]@);
        }
        match level_number_from_file_name(file_names[i].as_str()) {
            Some(v) => {
                if v > max_level {
                    max_level = v;
                }
            },
            None => {},
        }
        i += 1;
    }
    assert(names.take(n as int) =~= names);
    if max_level > MIN_LEVELS {
        max_level
    } else {
        MIN_LEVELS
    }
}

/// The directory the level files live in: the shared data directory when
/// the game runs installed from `/usr/bin`, `levels` beside it otherwise.
pub fn get_levels_dir(installed: bool) -> (d: &'static str)
    ensures
        d@ == if installed { "/usr/share/tank-battle/levels"@ } else { "levels"@ },
{
    if installed {
        "/usr/share/tank-battle/levels"
    } else {
        "levels"
    }
}

/// The path of a level file: `<dir>/<name>.txt`.
pub fn level_file_path(levels_dir: &str, name: &str) -> (p: String)
    ensures
        p@ == levels_dir@ + seq!['/'] + name@ + ".txt"@,
{
    let mut p = levels_dir.to_string();
    string_push(&mut p, '/');
    p.append(name);
    p.append(".txt");
    p
}

/// The path of the file of a stage: `<dir>/<stage>.txt`.
pub fn level_path_for_stage(levels_dir: &str, level: usize) -> (p: String)
    ensures
        p@ == levels_dir@ + seq!['/'] + decimal(level as nat) + ".txt"@,
{
    let name = usize_to_decimal(level);
    level_file_path(levels_dir, name.as_str())
}

proof fn lemma_digit_char_value(d: nat)
    requires
        d < 10,
    ensures
        is_digit(digit_char(d)),
        ((digit_char(d) as u32) - ('0' as u32)) as nat == d,
{
}

proof fn lemma_decimal_digits(n: nat)
    ensures
        decimal(n).len() > 0,
        all_digits(decimal(n)),
        decimal(n)[0] != '+',
        digits_value(decimal(n)) == n,
    decreases n,
{
    if n < 10 {
        lemma_digit_char_value(n);
        let s = seq![digit_char(n)];
        assert(decimal(n) == s);
        assert(s.drop_last() =~= Seq::<char>::empty());
        assert(digits_value(s.drop_last()) == 0);
        assert(s.last() == digit_char(n));
        assert(digits_value(s) == 0 * 10 + ((s.last() as u32) - ('0' as u32)) as nat);
    } else {
        lemma_decimal_digits(n / 10);
        lemma_digit_char_value(n % 10);
        let s = decimal(n / 10).push(digit_char(n % 10));
        assert(s.drop_last() =~= decimal(n / 10));
        assert forall|i: int| 0 <= i < s.len() implies is_digit(#[trigger] s[i]) by {
            if i < decimal(n / 10).len() {
                assert(s[i] == decimal(n / 10)[i]);
            }
        }
        assert(s[0] == decimal(n / 10)[0]);
        assert((n / 10) * 10 + n % 10 == n) by (nonlinear_arith);
        assert(digits_value(s) == digits_value(decimal(n / 10)) * 10 + ((s.last() as u32) - ('0' as u32)) as nat);
        assert(decimal(n) == s);
    }
}

/// The file of a stage, named after the stage's number, is read back as
/// that stage: `level_number_of_name("<n>.txt")` gives `n`.
pub proof fn lemma_stage_file_name_roundtrip(n: nat)
    requires
        n <= usize::MAX,
    ensures
        level_number_of_name(decimal(n) + ".txt"@) == Some(n),
{
    reveal_strlit(".txt");
    lemma_decimal_digits(n);
    let name = decimal(n) + ".txt"@;
    let suffix: Seq<char> = seq!['.', 't', 'x', 't'];
    assert(name.subrange(name.len() - 4, name.len() as int) =~= suffix);
    assert(name.subrange(0, name.len() - 4) =~= decimal(n));
    assert(digits_part(decimal(n)) == decimal(n));
}

} // verus!
