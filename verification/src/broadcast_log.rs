//! Log entries as they are sent to observers, with player-facing messages
//! told apart from the rest.

use vstd::prelude::*;

use crate::text::push_char;

verus! {

broadcast use vstd::string::axiom_spec_iter;

/// A log entry as sent to observers.
pub struct LogEntry {
    pub timestamp: String,
    pub level: String,
    pub target: String,
    pub source_module: Option<String>,
    pub file: Option<String>,
    pub line: Option<u32>,
    pub message: String,
    pub player: bool,
}

/// The mark that opens a player-facing message.
pub open spec fn player_mark() -> Seq<char> {
    "[PLAYER]"@
}

/// `s` opens with the player mark.
pub open spec fn is_player_text(s: Seq<char>) -> bool {
    s.len() >= 8 && s.take(8) == player_mark()
}

/// `part` is a contiguous part of `whole`.
pub open spec fn is_infix(part: Seq<char>, whole: Seq<char>) -> bool {
    exists|i: int, j: int| 0 <= i <= j <= whole.len() && part == whole.subrange(i, j)
}

/// A character with Unicode's `White_Space` property, the whitespace that
/// `str::trim` removes.
pub open spec fn is_white_space(c: char) -> bool {
    let u = c as u32;
    ||| 0x09 <= u <= 0x0D
    ||| u == 0x20
    ||| u == 0x85
    ||| u == 0xA0
    ||| u == 0x1680
    ||| 0x2000 <= u <= 0x200A
    ||| u == 0x2028
    ||| u == 0x2029
    ||| u == 0x202F
    ||| u == 0x205F
    ||| u == 0x3000
}

/// The text without its leading whitespace.
pub open spec fn trim_start(s: Seq<char>) -> Seq<char>
    decreases s.len(),
{
    if s.len() > 0 && is_white_space(s[0]) { trim_start(s.skip(1)) } else { s }
}

/// The text without its trailing whitespace.
pub open spec fn trim_end(s: Seq<char>) -> Seq<char>
    decreases s.len(),
{
    if s.len() > 0 && is_white_space(s.last()) { trim_end(s.drop_last()) } else { s }
}

/// What `str::trim` gives back: the text without its leading and trailing
/// whitespace.
pub open spec fn trimmed(s: Seq<char>) -> Seq<char> {
    trim_end(trim_start(s))
}

proof fn lemma_trim_start_infix(s: Seq<char>)
    ensures
        exists|i: int| 0 <= i <= s.len() && trim_start(s) == #[trigger] s.subrange(i, s.len() as int),
    decreases s.len(),
{
    if s.len() > 0 && is_white_space(s[0]) {
        lemma_trim_start_infix(s.skip(1));
        let i = choose|i: int| 0 <= i <= s.skip(1).len() && trim_start(s.skip(1)) == #[trigger] s.skip(1).subrange(i, s.skip(1).len() as int);
        assert(s.skip(1).subrange(i, s.skip(1).len() as int) =~= s.subrange(i + 1, s.len() as int));
    } else {
        assert(s.subrange(0, s.len() as int) =~= s);
    }
}

proof fn lemma_trim_end_infix(s: Seq<char>)
    ensures
        exists|j: int| 0 <= j <= s.len() && trim_end(s) == #[trigger] s.subrange(0, j),
    decreases s.len(),
{
    if s.len() > 0 && is_white_space(s.last()) {
        lemma_trim_end_infix(s.drop_last());
        let j = choose|j: int| 0 <= j <= s.drop_last().len() && trim_end(s.drop_last()) == #[trigger] s.drop_last().subrange(0, j);
        assert(s.drop_last().subrange(0, j) =~= s.subrange(0, j));
    } else {
        assert(s.subrange(0, s.len() as int) =~= s);
    }
}

/// The trimmed text is a contiguous part of the text.
pub proof fn lemma_trimmed_infix(s: Seq<char>)
    ensures
        is_infix(trimmed(s), s),
{
    lemma_trim_start_infix(s);
    let i = choose|i: int| 0 <= i <= s.len() && trim_start(s) == #[trigger] s.subrange(i, s.len() as int);
    let t = trim_start(s);
    lemma_trim_end_infix(t);
    let j = choose|j: int| 0 <= j <= t.len() && trim_end(t) == #[trigger] t.subrange(0, j);
    assert(t.subrange(0, j) =~= s.subrange(i, i + j));
}

/// `str::trim`, copied into a new string: the text without the leading and
/// trailing characters that Unicode's `White_Space` property marks.
#[verifier::external_body]
fn trim_text(s: &str) -> (r: String)
    ensures
        r@ == trimmed(s@),
{
    s.trim().to_string()
}

/// The message shown for a raw log text: a player-facing text loses its
/// mark and surrounding whitespace; any other text is kept whole.
pub open spec fn shown_message(raw: Seq<char>) -> Seq<char> {
    if is_player_text(raw) { trimmed(raw.skip(8)) } else { raw }
}

/// Whether `raw` is player-facing, and then its text after the mark.
fn split_mark(raw: &str) -> (r: (bool, String))
    ensures
        r.0 == is_player_text(raw@),
        r.0 ==> r.1@ == raw@.skip(8),
{
    proof { reveal_strlit("[PLAYER]"); }
    let mark: [char; 8] = ['[', 'P', 'L', 'A', 'Y', 'E', 'R', ']'];
    let ghost markv = seq!['[', 'P', 'L', 'A', 'Y', 'E', 'R', ']'];
    assert(markv =~= player_mark());
    let mut matched: bool = true;
    let mut rest = String::new();
    let mut k: usize = 0;
    assert(raw@.take(0) =~= markv.take(0));
    for c in it: raw.chars()
        invariant
            it.seq() == raw@,
            k == (if it.index() <= 8 { it.index() as usize } else { 8usize }),
            mark@ == markv,
            it.index() <= 8 ==> matched == (raw@.take(it.index() as int) == markv.take(it.index() as int)),
            it.index() > 8 ==> matched == (raw@.take(8) == markv),
            rest@ == (if it.index() <= 8 { Seq::<char>::empty() } else { raw@.subrange(8, it.index() as int) }),
    {
        let ghost n = it.index();
        if k < 8 {
            let same = c == mark[k];
            proof {
                assert(raw@.take(n + 1) =~= raw@.take(n).push(c));
                assert(markv.take(n + 1) =~= markv.take(n).push(markv[n]));
                if raw@.take(n + 1) == markv.take(n + 1) {
                    assert(raw@.take(n + 1)[n] == markv.take(n + 1)[n]);
                    assert(raw@.take(n) =~= raw@.take(n + 1).take(n));
                    assert(markv.take(n) =~= markv.take(n + 1).take(n));
                }
                if n == 7 {
                    assert(markv.take(8) =~= markv);
                }
            }
            matched = matched && same;
            k = k + 1;
        } else {
            push_char(&mut rest, c);
            proof {
                assert(raw@.subrange(8, n + 1) =~= raw@.subrange(8, n).push(c));
                if n == 8 {
                    assert(markv.take(8) =~= markv);
                    assert(raw@.subrange(8, 8) =~= Seq::<char>::empty());
                }
            }
        }
    }
    proof {
        if raw@.len() < 8 {
            assert(!is_player_text(raw@));
        } else if raw@.len() == 8 {
            assert(markv.take(8) =~= markv);
            assert(raw@.take(8) =~= raw@);
            assert(raw@.skip(8) =~= Seq::<char>::empty());
        } else {
            assert(raw@.skip(8) =~= raw@.subrange(8, raw@.len() as int));
        }
    }
    (matched && k >= 8, rest)
}

impl LogEntry {
    /// The entry for a log record: its parts are kept, and the message is
    /// marked player-facing when its text opens with the player mark (see
    /// [`shown_message`]).
    pub fn from_record_parts(
        timestamp: String,
        level: String,
        target: String,
        source_module: Option<String>,
        file: Option<String>,
        line: Option<u32>,
        raw: String,
    ) -> (e: LogEntry)
        ensures
            e.timestamp@ == timestamp@,
            e.level@ == level@,
            e.target@ == target@,
            e.source_module == source_module,
            e.file == file,
            e.line == line,
            e.player == is_player_text(raw@),
            e.message@ == shown_message(raw@),
            e.player ==> is_infix(e.message@, raw@.skip(8)),
    {
        let (player, rest) = split_mark(raw.as_str());
        let message = if player { trim_text(rest.as_str()) } else { raw };
        proof {
            lemma_trimmed_infix(raw@.skip(8));
        }
        LogEntry { timestamp, level, target, source_module, file, line, message, player }
    }
}

} // verus!
