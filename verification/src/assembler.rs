//! The assembler front end: the line tokenizer and the operand classifier.
//!
//! [`Parser::into_lines`] splits a source text at newlines, trims each
//! line, drops the empty ones, and separates each remaining line into its
//! mnemonic and its operand text.  An operand's written form then decides
//! its addressing mode: `#$nn` is immediate, `($nn,X)` and `($nn),Y` are
//! the indirect indexed forms, `$nn[,X|,Y]` is zero-page or absolute
//! (indexed) depending on the value's size, and a bare mnemonic is
//! implicit.  Text that fits no form, or a value that does not fit in 16
//! bits, is classified `Unknown`.

use vstd::prelude::*;

use crate::addr::AddrMode;

verus! {

/// The value of one hexadecimal digit, or -1 for any other character.
pub open spec fn hex_digit_value(c: char) -> int {
    if '0' as u32 <= c as u32 && c as u32 <= '9' as u32 {
        c as u32 - '0' as u32
    } else if 'a' as u32 <= c as u32 && c as u32 <= 'f' as u32 {
        10 + c as u32 - 'a' as u32
    } else if 'A' as u32 <= c as u32 && c as u32 <= 'F' as u32 {
        10 + c as u32 - 'A' as u32
    } else {
        -1
    }
}

/// True iff `c` is a hexadecimal digit.
pub open spec fn is_hex_digit(c: char) -> bool {
    hex_digit_value(c) >= 0
}

/// True iff every character of `s` is a hexadecimal digit.
pub open spec fn all_hex(s: Seq<char>) -> bool {
    forall|i: int| 0 <= i < s.len() ==> is_hex_digit(s[i])
}

/// The number a big-endian string of hexadecimal digits denotes.
pub open spec fn hex_value(s: Seq<char>) -> int
    decreases s.len(),
{
    if s.len() == 0 {
        0
    } else {
        hex_value(s.drop_last()) * 16 + hex_digit_value(s.last())
    }
}

/// What hexadecimal parsing yields: the denoted number when `s` is a
/// non-empty digit string whose value fits in 16 bits, and nothing
/// otherwise.
pub open spec fn spec_parse_hex_u16(s: Seq<char>) -> Option<u16> {
    if s.len() > 0 && all_hex(s) && hex_value(s) <= 0xffff {
        Some(hex_value(s) as u16)
    } else {
        None
    }
}

/// The index of the first occurrence of `c` in `s`, if any.
pub open spec fn find_char(s: Seq<char>, c: char) -> Option<int>
    decreases s.len(),
{
    if s.len() == 0 {
        None
    } else if s[0] == c {
        Some(0int)
    } else {
        match find_char(s.subrange(1, s.len() as int), c) {
            None => None,
            Some(i) => Some(i + 1),
        }
    }
}

/// The classification of the text after a leading `$`: a value with no
/// suffix is zero-page or absolute by size; `,X` is zero-page-X or
/// absolute-X by size; `,Y` is always absolute-Y.
pub open spec fn classify_dollar(s: Seq<char>) -> (AddrMode, Option<u16>) {
    match find_char(s, ',') {
        None => match spec_parse_hex_u16(s) {
            Some(v) => (
                if v <= 0xff {
                    AddrMode::ZeroPage
                } else {
                    AddrMode::Absolute
                },
                Some(v),
            ),
            None => (AddrMode::Unknown, None::<u16>),
        },
        Some(i) => {
            let suffix = s.subrange(i + 1, s.len() as int);
            match spec_parse_hex_u16(s.subrange(0, i)) {
                Some(v) => if suffix.len() == 1 && suffix[0] == 'X' {
                    (
                        if v <= 0xff {
                            AddrMode::ZeroPageX
                        } else {
                            AddrMode::AbsoluteX
                        },
                        Some(v),
                    )
                } else if suffix.len() == 1 && suffix[0] == 'Y' {
                    (AddrMode::AbsoluteY, Some(v))
                } else {
                    (AddrMode::Unknown, None::<u16>)
                },
                None => (AddrMode::Unknown, None::<u16>),
            }
        },
    }
}

/// The full operand grammar: no operand text is implicit; `#` starts an
/// immediate; `(` starts one of the indirect indexed forms; `$` starts the
/// direct forms; everything else is unknown.
pub open spec fn spec_get_instr_addr_mode(rest_or: Option<Seq<char>>) -> (AddrMode, Option<u16>) {
    match rest_or {
        None => (AddrMode::Implicit, None::<u16>),
        Some(s) => {
            if s.len() == 0 {
                (AddrMode::Unknown, None::<u16>)
            } else if s[0] == '#' {
                if s.len() >= 2 {
                    match spec_parse_hex_u16(s.subrange(2, s.len() as int)) {
                        Some(v) => (AddrMode::Immediate, Some(v)),
                        None => (AddrMode::Unknown, None::<u16>),
                    }
                } else {
                    (AddrMode::Unknown, None::<u16>)
                }
            } else if s[0] == '(' {
                if s.len() >= 5 && s[1] == '$' && s[s.len() - 1] == 'Y' && s[s.len() - 2] == ','
                    && s[s.len() - 3] == ')' {
                    match spec_parse_hex_u16(s.subrange(2, s.len() - 3)) {
                        Some(v) => (AddrMode::IndirectY, Some(v)),
                        None => (AddrMode::Unknown, None::<u16>),
                    }
                } else if s.len() >= 5 && s[1] == '$' && s[s.len() - 1] == ')' && s[s.len() - 2]
                    == 'X' && s[s.len() - 3] == ',' {
                    match spec_parse_hex_u16(s.subrange(2, s.len() - 3)) {
                        Some(v) => (AddrMode::IndirectX, Some(v)),
                        None => (AddrMode::Unknown, None::<u16>),
                    }
                } else {
                    (AddrMode::Unknown, None::<u16>)
                }
            } else if s[0] == '$' {
                classify_dollar(s.subrange(1, s.len() as int))
            } else {
                (AddrMode::Unknown, None::<u16>)
            }
        },
    }
}

/// A digit string denotes a non-negative number.
proof fn lemma_hex_value_nonneg(s: Seq<char>)
    requires
        all_hex(s),
    ensures
        hex_value(s) >= 0,
    decreases s.len(),
{
    if s.len() > 0 {
        assert(all_hex(s.drop_last()));
        lemma_hex_value_nonneg(s.drop_last());
    }
}

/// A digit string's value is at least the value of any of its prefixes.
proof fn lemma_hex_prefix_le(s: Seq<char>, k: int)
    requires
        all_hex(s),
        0 <= k <= s.len(),
    ensures
        hex_value(s.subrange(0, k)) <= hex_value(s),
    decreases s.len() - k,
{
    if k < s.len() {
        assert(s.subrange(0, k + 1).drop_last() =~= s.subrange(0, k));
        assert(all_hex(s.subrange(0, k)));
        lemma_hex_value_nonneg(s.subrange(0, k));
        assert(hex_value(s.subrange(0, k + 1)) == hex_value(s.subrange(0, k)) * 16
            + hex_digit_value(s[k]));
        lemma_hex_prefix_le(s, k + 1);
    } else {
        assert(s.subrange(0, k) =~= s);
    }
}

/// The first occurrence found by a forward scan is what [`find_char`]
/// denotes.
proof fn lemma_find_char_at(s: Seq<char>, c: char, i: int)
    requires
        0 <= i < s.len(),
        s[i] == c,
        forall|j: int| 0 <= j < i ==> s[j] != c,
    ensures
        find_char(s, c) == Some(i),
    decreases s.len(),
{
    if i > 0 {
        lemma_find_char_at(s.subrange(1, s.len() as int), c, i - 1);
    }
}

/// A string without the character has no first occurrence.
proof fn lemma_find_char_none(s: Seq<char>, c: char)
    requires
        forall|j: int| 0 <= j < s.len() ==> s[j] != c,
    ensures
        find_char(s, c) is None,
    decreases s.len(),
{
    if s.len() > 0 {
        lemma_find_char_none(s.subrange(1, s.len() as int), c);
    }
}

/// The value of one character as a hexadecimal digit, or -1.
fn hex_digit(c: char) -> (r: i32)
    ensures
        r == hex_digit_value(c),
{
    let cv = c as u32;
    if '0' as u32 <= cv && cv <= '9' as u32 {
        (cv - '0' as u32) as i32
    } else if 'a' as u32 <= cv && cv <= 'f' as u32 {
        (10 + cv - 'a' as u32) as i32
    } else if 'A' as u32 <= cv && cv <= 'F' as u32 {
        (10 + cv - 'A' as u32) as i32
    } else {
        -1
    }
}

/// Parses `s[from..to]` as big-endian hexadecimal, exactly as
/// [`spec_parse_hex_u16`] describes.
fn parse_hex(s: &str, from: usize, to: usize) -> (r: Option<u16>)
    requires
        from <= to <= s@.len(),
    ensures
        r == spec_parse_hex_u16(s@.subrange(from as int, to as int)),
{
    let ghost whole = s@.subrange(from as int, to as int);
    if from == to {
        return None;
    }
    let mut acc: u32 = 0;
    let mut i: usize = from;
    while i < to
        invariant
            from <= i <= to,
            to <= s@.len(),
            whole == s@.subrange(from as int, to as int),
            all_hex(s@.subrange(from as int, i as int)),
            acc == hex_value(s@.subrange(from as int, i as int)),
            acc <= 0xffff,
        decreases to - i,
    {
        let c = s.get_char(i);
        let d = hex_digit(c);
        proof {
            assert(whole[i - from] == s@[i as int]);
        }
        if d < 0 {
            return None;
        }
        proof {
            assert(s@.subrange(from as int, i as int + 1).drop_last() =~= s@.subrange(
                from as int,
                i as int,
            ));
        }
        acc = acc * 16 + (d as u32);
        i = i + 1;
        if acc > 0xffff {
            proof {
                assert(whole.subrange(0, i - from) =~= s@.subrange(from as int, i as int));
                if all_hex(whole) {
                    lemma_hex_prefix_le(whole, i - from);
                }
            }
            return None;
        }
    }
    proof {
        assert(whole =~= s@.subrange(from as int, i as int));
    }
    Some(acc as u16)
}

/// True iff `c` is horizontal whitespace that line trimming removes.
pub open spec fn is_line_space(c: char) -> bool {
    c == ' ' || c == '\t' || c == '\r'
}

/// The index of the first character that is not line whitespace (the
/// length when the whole string is whitespace).
pub open spec fn first_non_space(s: Seq<char>) -> int
    decreases s.len(),
{
    if s.len() == 0 {
        0
    } else if !is_line_space(s[0]) {
        0
    } else {
        1 + first_non_space(s.subrange(1, s.len() as int))
    }
}

/// One past the index of the last character that is not line whitespace
/// (zero when the whole string is whitespace).
pub open spec fn last_non_space_end(s: Seq<char>) -> int
    decreases s.len(),
{
    if s.len() == 0 {
        0
    } else if !is_line_space(s.last()) {
        s.len() as int
    } else {
        last_non_space_end(s.drop_last())
    }
}

/// The string with its leading and trailing line whitespace removed.
pub open spec fn trim_spec(s: Seq<char>) -> Seq<char> {
    if first_non_space(s) >= last_non_space_end(s) {
        Seq::empty()
    } else {
        s.subrange(first_non_space(s), last_non_space_end(s))
    }
}

/// The split at the first space: the mnemonic, and the operand text after
/// the space if there is one.
pub open spec fn split_first_space(s: Seq<char>) -> (Seq<char>, Option<Seq<char>>) {
    match find_char(s, ' ') {
        None => (s, None::<Seq<char>>),
        Some(i) => (s.subrange(0, i), Some(s.subrange(i + 1, s.len() as int))),
    }
}

/// What one trimmed, non-empty source line carries: its mnemonic, its
/// operand text, and that text's classification.
pub open spec fn line_model(t: Seq<char>) -> (Seq<char>, Option<Seq<char>>, AddrMode, Option<
    u16,
>) {
    let parts = split_first_space(t);
    let classified = spec_get_instr_addr_mode(parts.1);
    (parts.0, parts.1, classified.0, classified.1)
}

/// The lines one newline-separated segment contributes: nothing when it
/// trims to the empty string, one classified line otherwise.
pub open spec fn segment_lines(l: Seq<char>) -> Seq<
    (Seq<char>, Option<Seq<char>>, AddrMode, Option<u16>),
> {
    if trim_spec(l).len() == 0 {
        Seq::empty()
    } else {
        seq![line_model(trim_spec(l))]
    }
}

/// A found character lies inside the string.
proof fn lemma_find_char_in_bounds(s: Seq<char>, c: char)
    ensures
        match find_char(s, c) {
            Some(i) => 0 <= i < s.len(),
            None => true,
        },
    decreases s.len(),
{
    if s.len() > 0 && s[0] != c {
        lemma_find_char_in_bounds(s.subrange(1, s.len() as int), c);
    }
}

/// The whole tokenization: split at newlines, trim each segment, drop the
/// empty ones, and classify the rest.
pub open spec fn spec_into_lines(s: Seq<char>) -> Seq<
    (Seq<char>, Option<Seq<char>>, AddrMode, Option<u16>),
>
    decreases s.len(),
    via spec_into_lines_decreases
{
    match find_char(s, '\n') {
        None => segment_lines(s),
        Some(i) => segment_lines(s.subrange(0, i)) + spec_into_lines(
            s.subrange(i + 1, s.len() as int),
        ),
    }
}

#[via_fn]
proof fn spec_into_lines_decreases(s: Seq<char>) {
    lemma_find_char_in_bounds(s, '\n');
}

/// One classified source line.
pub struct Line {
    /// The mnemonic: the text before the first space.
    pub instr: String,
    /// The operand text after the first space, when the line has one.
    pub rest: Option<String>,
    /// The addressing mode the operand text writes.
    pub addr_mode: AddrMode,
    /// The operand value, when the text carries one.
    pub value: Option<u16>,
}

/// The line agrees with its model in every field.
pub open spec fn line_matches(
    line: Line,
    model: (Seq<char>, Option<Seq<char>>, AddrMode, Option<u16>),
) -> bool {
    &&& line.instr@ == model.0
    &&& (match (line.rest, model.1) {
        (Some(r), Some(m)) => r@ == m,
        (None, None) => true,
        _ => false,
    })
    &&& line.addr_mode == model.2
    &&& line.value == model.3
}

/// The forward scan for the first non-whitespace character meets
/// [`first_non_space`].
proof fn lemma_first_non_space_at(s: Seq<char>, i: int)
    requires
        0 <= i <= s.len(),
        forall|j: int| 0 <= j < i ==> is_line_space(s[j]),
        i < s.len() ==> !is_line_space(s[i]),
    ensures
        first_non_space(s) == i,
    decreases s.len(),
{
    if i > 0 {
        lemma_first_non_space_at(s.subrange(1, s.len() as int), i - 1);
    }
}

/// The backward scan for the last non-whitespace character meets
/// [`last_non_space_end`].
proof fn lemma_last_non_space_at(s: Seq<char>, e: int)
    requires
        0 <= e <= s.len(),
        forall|j: int| e <= j < s.len() ==> is_line_space(s[j]),
        e > 0 ==> !is_line_space(s[e - 1]),
    ensures
        last_non_space_end(s) == e,
    decreases s.len(),
{
    if e < s.len() {
        lemma_last_non_space_at(s.drop_last(), e);
    }
}

/// The bounds of a string's non-whitespace middle.
fn trim_bounds(s: &str) -> (r: (usize, usize))
    ensures
        r.0 == first_non_space(s@),
        r.1 == last_non_space_end(s@),
        r.0 <= s@.len(),
        r.1 <= s@.len(),
{
    let n = s.unicode_len();
    let mut from: usize = 0;
    while from < n && is_space_char(s.get_char(from))
        invariant
            from <= n,
            n == s@.len(),
            forall|j: int| 0 <= j < from ==> is_line_space(s@[j]),
        decreases n - from,
    {
        from = from + 1;
    }
    proof {
        lemma_first_non_space_at(s@, from as int);
    }
    let mut to: usize = n;
    while to > 0 && is_space_char(s.get_char(to - 1))
        invariant
            to <= n,
            n == s@.len(),
            forall|j: int| to <= j < n ==> is_line_space(s@[j]),
        decreases to,
    {
        to = to - 1;
    }
    proof {
        lemma_last_non_space_at(s@, to as int);
    }
    (from, to)
}

/// Whether one character is line whitespace.
fn is_space_char(c: char) -> (r: bool)
    ensures
        r == is_line_space(c),
{
    c == ' ' || c == '\t' || c == '\r'
}

/// The first occurrence of `c` in `s`, scanning forward.
fn find_char_in(s: &str, c: char) -> (r: Option<usize>)
    ensures
        match r {
            Some(i) => i < s@.len() && s@[i as int] == c && find_char(s@, c) == Some(i as int),
            None => find_char(s@, c) is None,
        },
{
    let n = s.unicode_len();
    let mut i: usize = 0;
    while i < n && s.get_char(i) != c
        invariant
            i <= n,
            n == s@.len(),
            forall|j: int| 0 <= j < i ==> s@[j] != c,
        decreases n - i,
    {
        i = i + 1;
    }
    if i == n {
        proof {
            lemma_find_char_none(s@, c);
        }
        None
    } else {
        proof {
            lemma_find_char_at(s@, c, i as int);
        }
        Some(i)
    }
}

/// Classifies one newline-free segment: `None` when it trims away, the
/// classified line otherwise.
fn segment_to_line(l: &str) -> (r: Option<Line>)
    ensures
        match r {
            None => segment_lines(l@).len() == 0,
            Some(line) => segment_lines(l@).len() == 1 && line_matches(line, line_model(trim_spec(l@))),
        },
{
    let (from, to) = trim_bounds(l);
    if from >= to {
        proof {
            assert(trim_spec(l@).len() == 0);
        }
        return None;
    }
    let trimmed = l.substring_char(from, to);
    proof {
        assert(trimmed@ == trim_spec(l@));
    }
    let (instr, rest) = match find_char_in(trimmed, ' ') {
        None => (trimmed.to_owned(), None::<String>),
        Some(i) => {
            let tn = trimmed.unicode_len();
            (trimmed.substring_char(0, i).to_owned(), Some(
                trimmed.substring_char(i + 1, tn).to_owned(),
            ))
        },
    };
    let rest_ref: Option<&str> = match &rest {
        Some(r) => Some(r.as_str()),
        None => None,
    };
    let classified = Parser::get_instr_addr_mode(rest_ref);
    Some(Line { instr, rest, addr_mode: classified.0, value: classified.1 })
}

/// A line's content past its mnemonic.  The classifier is an associated
/// function of the parser so that callers can invoke it without a value.
pub struct Parser {}

impl Default for Parser {
    /// The parser carries no state.
    fn default() -> (r: Self)
        ensures
            r == (Parser {  }),
    {
        Parser {  }
    }
}

/// The recursive worker behind [`Parser::into_lines`]: handles one
/// newline-separated segment, then the remainder.
fn lines_rec(input: &str) -> (r: Vec<Line>)
    ensures
        r@.len() == spec_into_lines(input@).len(),
        forall|i: int| 0 <= i < r@.len() ==> line_matches(r@[i], spec_into_lines(input@)[i]),
    decreases input@.len(),
{
    match find_char_in(input, '\n') {
        None => {
            match segment_to_line(input) {
                None => Vec::new(),
                Some(line) => {
                    let mut v = Vec::new();
                    v.push(line);
                    v
                },
            }
        },
        Some(i) => {
            let n = input.unicode_len();
            let head = input.substring_char(0, i);
            let tail = input.substring_char(i + 1, n);
            let mut v: Vec<Line> = match segment_to_line(head) {
                None => Vec::new(),
                Some(line) => {
                    let mut first = Vec::new();
                    first.push(line);
                    first
                },
            };
            let mut rest = lines_rec(tail);
            v.append(&mut rest);
            proof {
                assert(spec_into_lines(input@) =~= segment_lines(head@) + spec_into_lines(tail@));
            }
            v
        },
    }
}

impl Parser {
    /// Tokenizes and classifies the source text.  Turning the classified
    /// lines into opcode bytes is an encoder concern that sits outside the
    /// execution core; this stage always yields the same single-byte image.
    pub fn assemble(&mut self, input: &str) -> (r: Vec<u8>)
        ensures
            r@ == seq![0x0fu8],
    {
        let _lines = self.into_lines(input);
        let mut image: Vec<u8> = Vec::new();
        image.push(0x0f);
        proof {
            assert(image@ =~= seq![0x0fu8]);
        }
        image
    }

    /// Splits the source text at newlines, trims each line, drops the empty
    /// ones, and classifies what remains: the mnemonic, the operand text,
    /// and the operand's addressing mode and value.  The whole tokenization
    /// is stated by [`spec_into_lines`].
    pub fn into_lines(&mut self, input: &str) -> (r: Box<Vec<Line>>)
        ensures
            r@.len() == spec_into_lines(input@).len(),
            forall|i: int| 0 <= i < r@.len() ==> line_matches(r@[i], spec_into_lines(input@)[i]),
    {
        Box::new(lines_rec(input))
    }

    /// Classifies an operand text: which addressing mode it writes, and the
    /// operand value it carries.  The whole grammar is stated by
    /// [`spec_get_instr_addr_mode`].
    pub fn get_instr_addr_mode(rest_or: Option<&str>) -> (r: (AddrMode, Option<u16>))
        ensures
            r == spec_get_instr_addr_mode(
                match rest_or {
                    Some(s) => Some(s@),
                    None => None::<Seq<char>>,
                },
            ),
    {
        let rest = match rest_or {
            None => {
                return (AddrMode::Implicit, None);
            },
            Some(rest) => rest,
        };
        let n = rest.unicode_len();
        if n == 0 {
            return (AddrMode::Unknown, None);
        }
        let first = rest.get_char(0);
        if first == '#' {
            if n >= 2 {
                match parse_hex(rest, 2, n) {
                    Some(v) => (AddrMode::Immediate, Some(v)),
                    None => (AddrMode::Unknown, None),
                }
            } else {
                (AddrMode::Unknown, None)
            }
        } else if first == '(' {
            if n >= 5 && rest.get_char(1) == '$' && rest.get_char(n - 1) == 'Y' && rest.get_char(
                n - 2,
            ) == ',' && rest.get_char(n - 3) == ')' {
                match parse_hex(rest, 2, n - 3) {
                    Some(v) => (AddrMode::IndirectY, Some(v)),
                    None => (AddrMode::Unknown, None),
                }
            } else if n >= 5 && rest.get_char(1) == '$' && rest.get_char(n - 1) == ')'
                && rest.get_char(n - 2) == 'X' && rest.get_char(n - 3) == ',' {
                match parse_hex(rest, 2, n - 3) {
                    Some(v) => (AddrMode::IndirectX, Some(v)),
                    None => (AddrMode::Unknown, None),
                }
            } else {
                (AddrMode::Unknown, None)
            }
        } else if first == '$' {
            Parser::classify_direct(rest, n)
        } else {
            (AddrMode::Unknown, None)
        }
    }

    /// The `$`-prefixed forms: finds the comma, parses the value, and sizes
    /// the mode.
    fn classify_direct(rest: &str, n: usize) -> (r: (AddrMode, Option<u16>))
        requires
            n == rest@.len(),
            n >= 1,
            rest@[0] == '$',
        ensures
            r == classify_dollar(rest@.subrange(1, rest@.len() as int)),
    {
        let ghost body = rest@.subrange(1, rest@.len() as int);
        let mut i: usize = 1;
        while i < n && rest.get_char(i) != ','
            invariant
                1 <= i <= n,
                n == rest@.len(),
                forall|j: int| 1 <= j < i ==> rest@[j] != ',',
            decreases n - i,
        {
            i = i + 1;
        }
        let comma: usize = i;
        if comma == n {
            proof {
                assert(forall|j: int| 0 <= j < body.len() ==> body[j] == rest@[j + 1]);
                assert(forall|j: int| 0 <= j < body.len() ==> body[j] != ',');
                lemma_find_char_none(body, ',');
            }
            match parse_hex(rest, 1, n) {
                Some(v) => {
                    proof {
                        assert(body =~= rest@.subrange(1, n as int));
                    }
                    if v <= 0xff {
                        (AddrMode::ZeroPage, Some(v))
                    } else {
                        (AddrMode::Absolute, Some(v))
                    }
                },
                None => {
                    proof {
                        assert(body =~= rest@.subrange(1, n as int));
                    }
                    (AddrMode::Unknown, None)
                },
            }
        } else {
            proof {
                assert(body[comma - 1] == rest@[comma as int]);
                assert(forall|j: int| 0 <= j < comma - 1 ==> body[j] == rest@[j + 1]);
                lemma_find_char_at(body, ',', comma - 1);
                assert(body.subrange(0, comma - 1) =~= rest@.subrange(1, comma as int));
                assert(body.subrange(comma as int, body.len() as int) =~= rest@.subrange(
                    comma as int + 1,
                    n as int,
                ));
            }
            let value = parse_hex(rest, 1, comma);
            let suffix_is_x = comma + 1 == n - 1 && rest.get_char(comma + 1) == 'X';
            let suffix_is_y = comma + 1 == n - 1 && rest.get_char(comma + 1) == 'Y';
            match value {
                Some(v) => {
                    if suffix_is_x {
                        if v <= 0xff {
                            (AddrMode::ZeroPageX, Some(v))
                        } else {
                            (AddrMode::AbsoluteX, Some(v))
                        }
                    } else if suffix_is_y {
                        (AddrMode::AbsoluteY, Some(v))
                    } else {
                        (AddrMode::Unknown, None)
                    }
                },
                None => (AddrMode::Unknown, None),
            }
        }
    }
}

} // verus!
