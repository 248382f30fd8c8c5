//! Source positions, and values tagged with the position they were read at.
use vstd::prelude::*;
use vstd::string::StringExecFns;

verus! {

/// Declares std's error for a malformed integer, so that a parse failure can
/// be carried in this library's error type.
#[verifier::external_type_specification]
#[verifier::external_body]
pub struct ExParseIntError(std::num::ParseIntError);

/// An ASCII decimal digit.
pub open spec fn is_digit(c: char) -> bool {
    '0' <= c && c <= '9'
}

/// Every character of `d` is a decimal digit.
pub open spec fn all_digits(d: Seq<char>) -> bool {
    forall|i: int| 0 <= i < d.len() ==> is_digit(#[trigger] d[i])
}

/// The number written by the decimal digits `d`, most significant first.
pub open spec fn digits_value(d: Seq<char>) -> nat
    decreases d.len(),
{
    if d.len() == 0 {
        0
    } else {
        10 * digits_value(d.drop_last()) + ((d.last() as int) - ('0' as int)) as nat
    }
}

/// The digits of an unsigned number: the text without one leading `+`.
pub open spec fn unsigned_digits(s: Seq<char>) -> Seq<char> {
    if s.len() > 0 && s[0] == '+' {
        s.drop_first()
    } else {
        s
    }
}

/// `s` is the decimal text of a number that fits in a `usize`.
pub open spec fn is_usize_text(s: Seq<char>) -> bool {
    let d = unsigned_digits(s);
    d.len() > 0 && all_digits(d) && digits_value(d) <= usize::MAX
}

/// The value that `s` stands for, when `is_usize_text(s)`.
pub open spec fn usize_text_value(s: Seq<char>) -> nat {
    digits_value(unsigned_digits(s))
}

/// The character of a digit below ten.
pub open spec fn digit_char(d: nat) -> char {
    seq!['0', '1', '2', '3', '4', '5', '6', '7', '8', '9'][d as int]
}

/// The decimal text of `n`, without leading zeros.
pub open spec fn decimal_text(n: nat) -> Seq<char>
    decreases n,
{
    if n < 10 {
        seq![digit_char(n)]
    } else {
        decimal_text(n / 10).push(digit_char(n % 10))
    }
}

/// How many decimal digits `s` starts with.
pub open spec fn digit_prefix_len(s: Seq<char>) -> nat
    decreases s.len(),
{
    if s.len() == 0 || !is_digit(s[0]) {
        0
    } else {
        1 + digit_prefix_len(s.drop_first())
    }
}

/// The line part of a position's text: the digits before the first non-digit.
pub open spec fn line_text(s: Seq<char>) -> Seq<char> {
    s.subrange(0, digit_prefix_len(s) as int)
}

/// The column part of a position's text: all that follows the first non-digit.
pub open spec fn column_text(s: Seq<char>) -> Seq<char> {
    s.subrange(digit_prefix_len(s) + 1int, s.len() as int)
}

/// The text of a position has a delimiter: a character that is not a digit.
pub open spec fn has_delimiter(s: Seq<char>) -> bool {
    digit_prefix_len(s) < s.len()
}

/// The text that describes a position to a reader.
pub open spec fn file_pos_text(line: nat, column: nat) -> Seq<char> {
    seq!['l', 'i', 'n', 'e', ' '] + decimal_text(line) + seq![',', ' ', 'c', 'o', 'l', 'u', 'm', 'n', ' ']
        + decimal_text(column)
}

/// The digits that a text starts with are digits, and the character after
/// them, where there is one, is not.
pub proof fn lemma_digit_prefix_len(s: Seq<char>)
    ensures
        digit_prefix_len(s) <= s.len(),
        all_digits(s.subrange(0, digit_prefix_len(s) as int)),
        has_delimiter(s) ==> !is_digit(s[digit_prefix_len(s) as int]),
    decreases s.len(),
{
    if s.len() > 0 && is_digit(s[0]) {
        let t = s.drop_first();
        lemma_digit_prefix_len(t);
        let k = digit_prefix_len(t) as int;
        assert forall|i: int| 0 <= i < k + 1 implies is_digit(#[trigger] s.subrange(0, k + 1)[i]) by {
            if i > 0 {
                assert(s.subrange(0, k + 1)[i] == t.subrange(0, k)[i - 1]);
            }
        }
    }
}

/// A position in a source file, as a line and a column.
#[derive(Debug, Default, PartialEq, Eq, PartialOrd, Ord, Clone, Copy, Structural)]
pub struct FilePos {
    pub line: usize,
    pub column: usize,
}

/// Why a text could not be read as a `FilePos`.
#[derive(Debug)]
pub enum FilePosParseErr {
    /// The text holds no character that separates the line from the column.
    NoDelimiter,
    /// The line or the column is not a number that fits in a `usize`.
    ParseError(std::num::ParseIntError),
}

impl From<std::num::ParseIntError> for FilePosParseErr {
    fn from(e: std::num::ParseIntError) -> (r: Self) {
        FilePosParseErr::ParseError(e)
    }
}

impl vstd::std_specs::convert::FromSpecImpl<std::num::ParseIntError> for FilePosParseErr {
    open spec fn obeys_from_spec() -> bool {
        true
    }

    open spec fn from_spec(e: std::num::ParseIntError) -> FilePosParseErr {
        FilePosParseErr::ParseError(e)
    }
}

/// Relies on `usize`'s `FromStr` (`str::parse`): an optional `+` and then one
/// or more decimal digits whose value fits is read as that value; any other
/// text is an error.
#[verifier::external_body]
fn parse_usize(s: &str) -> (r: Result<usize, std::num::ParseIntError>)
    ensures
        r is Ok <==> is_usize_text(s@),
        r matches Ok(n) ==> n as nat == usize_text_value(s@),
{
    s.parse::<usize>()
}

/// Relies on `usize`'s `Display` (`ToString::to_string`): the decimal digits
/// of the number.
#[verifier::external_body]
fn usize_to_text(n: usize) -> (r: String)
    ensures
        r@ == decimal_text(n as nat),
{
    n.to_string()
}

/// Relies on `str::split_once` with a character predicate: the text before
/// the first character that is not a digit, and the text after it.
#[verifier::external_body]
fn split_at_delimiter(s: &str) -> (r: Option<(&str, &str)>)
    ensures
        r is None <==> !has_delimiter(s@),
        r matches Some((a, b)) ==> a@ == line_text(s@) && b@ == column_text(s@),
{
    s.split_once(|c: char| is_delimiter(c))
}

/// A character that separates the line from the column: anything but a digit.
pub fn is_delimiter(c: char) -> (r: bool)
    ensures
        r == !is_digit(c),
{
    !('0' <= c && c <= '9')
}

impl FilePos {
    pub fn new(line: usize, column: usize) -> (r: Self)
        ensures
            r.line == line,
            r.column == column,
    {
        FilePos { line, column }
    }

    /// True exactly for the position at line 0, column 0.
    pub fn is_empty(&self) -> (r: bool)
        ensures
            r == (self.line == 0 && self.column == 0),
    {
        self.column == 0 && self.line == 0
    }

    /// Reads a position written as a line, one character that is not a
    /// digit, and a column (`"12:7"`, `"3 4"`).
    pub fn parse(s: &str) -> (r: Result<FilePos, FilePosParseErr>)
        ensures
            r matches Err(FilePosParseErr::NoDelimiter) <==> !has_delimiter(s@),
            r is Ok <==> has_delimiter(s@) && is_usize_text(line_text(s@)) && is_usize_text(
                column_text(s@),
            ),
            r matches Ok(p) ==> p.line as nat == digits_value(line_text(s@)) && p.column as nat
                == usize_text_value(column_text(s@)),
    {
        proof {
            lemma_digit_prefix_len(s@);
        }
        match split_at_delimiter(s) {
            None => Err(FilePosParseErr::NoDelimiter),
            Some((line, column)) => {
                let line = match parse_usize(line) {
                    Ok(n) => n,
                    Err(e) => {
                        return Err(FilePosParseErr::ParseError(e));
                    },
                };
                let column = match parse_usize(column) {
                    Ok(n) => n,
                    Err(e) => {
                        return Err(FilePosParseErr::ParseError(e));
                    },
                };
                Ok(FilePos::new(line, column))
            },
        }
    }

    /// The position as a reader sees it: `"line 3, column 14"`.
    pub fn to_text(&self) -> (r: String)
        ensures
            r@ == file_pos_text(self.line as nat, self.column as nat),
    {
        let mut r = String::from_str("line ");
        let line = usize_to_text(self.line);
        r.append(line.as_str());
        r.append(", column ");
        let column = usize_to_text(self.column);
        r.append(column.as_str());
        proof {
            reveal_strlit("line ");
            reveal_strlit(", column ");
        }
        r
    }
}

impl std::str::FromStr for FilePos {
    type Err = FilePosParseErr;

    fn from_str(s: &str) -> Result<Self, Self::Err> {
        FilePos::parse(s)
    }
}

/// A value tagged with the position in a source file where it was found.
#[derive(Debug, PartialEq, Clone, Copy)]
pub struct Pos<T> {
    pos: FilePos,
    token: T,
}

impl<T> Pos<T> {
    /// The position attached to the value.
    pub closed spec fn pos_spec(&self) -> FilePos {
        self.pos
    }

    /// The value that carries the position.
    pub closed spec fn token_spec(&self) -> T {
        self.token
    }

    pub fn new(token: T, pos: FilePos) -> (r: Self)
        ensures
            r.pos_spec() == pos,
            r.token_spec() == token,
    {
        Pos { pos, token }
    }

    pub fn get_pos(&self) -> (r: FilePos)
        ensures
            r == self.pos_spec(),
    {
        self.pos
    }

    /// Transforms the value and keeps its position.
    pub fn map<U, F: FnOnce(T) -> U>(self, f: F) -> (r: Pos<U>)
        requires
            call_requires(f, (self.token_spec(),)),
        ensures
            r.pos_spec() == self.pos_spec(),
            call_ensures(f, (self.token_spec(),), r.token_spec()),
    {
        let Pos { pos, token } = self;
        Pos { pos, token: f(token) }
    }

    pub fn into_inner(self) -> (r: T)
        ensures
            r == self.token_spec(),
    {
        self.token
    }
}

impl<T> std::ops::Deref for Pos<T> {
    type Target = T;

    fn deref(&self) -> (r: &T)
        ensures
            *r == self.token_spec(),
    {
        &self.token
    }
}

impl<T> std::ops::DerefMut for Pos<T> {
    fn deref_mut(&mut self) -> (r: &mut T)
        ensures
            *r == old(self).token_spec(),
            final(self).token_spec() == *final(r),
            final(self).pos_spec() == old(self).pos_spec(),
    {
        &mut self.token
    }
}

/// Any value can be given a position.
pub trait Positionable: Sized {
    fn attach_pos(self, pos: FilePos) -> (r: Pos<Self>)
        ensures
            r.pos_spec() == pos,
            r.token_spec() == self,
    ;
}

impl<T> Positionable for T {
    fn attach_pos(self, pos: FilePos) -> (r: Pos<Self>) {
        Pos::new(self, pos)
    }
}

} // verus!
