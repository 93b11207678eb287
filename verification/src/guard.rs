//! Texts that are kept from the parser.
//!
//! In three places the parser takes for granted what follows and stops the
//! program where it is missing: an identifier after `GRANTED BY` in a `GRANT`
//! or a `REVOKE`, and a dotted name after `FOR CHANNEL` in `FLUSH RELAY LOGS`.
//! A text that can bring the parser to one of these places with nothing to
//! find there is refused before the parser sees it.
//!
//! The test reads the tokens of the text from first to last and keeps track
//! of where a statement may begin and of whether one of the three statements
//! may be under way. Of a token it looks at nothing but its kind.

use vstd::prelude::*;

verus! {

/// The shape of a token.
#[derive(Debug, Clone, Copy, PartialEq, Eq, Structural)]
pub enum Shape {
    /// A word: a keyword, or a name with or without quotes.
    Word,
    /// A string between single or double quotes.
    Quoted,
    Period,
    Comma,
    LParen,
    RParen,
    SemiColon,
    /// The end of the text.
    End,
    /// Any other token.
    Other,
}

/// What a word is among the words of the three statements.
#[derive(Debug, Clone, Copy, PartialEq, Eq, Structural)]
pub enum WordKind {
    /// The keyword `GRANT` or `REVOKE`.
    Grant,
    /// The keyword `GRANTED`.
    Granted,
    /// The keyword `BY`.
    By,
    /// The keyword `FLUSH`.
    Flush,
    /// The keyword `RELAY`.
    Relay,
    /// The keyword `LOGS`.
    Logs,
    /// The keyword `FOR`.
    For,
    /// The keyword `CHANNEL`.
    Channel,
    /// Any other word, and every token that is no word.
    Other,
}

/// What a word is among the words that lead up to a statement inside
/// another.
#[derive(Debug, Clone, Copy, PartialEq, Eq, Structural)]
pub enum Lead {
    /// The keyword `EXPLAIN`, `DESCRIBE` or `DESC`.
    Explain,
    /// The keyword `ANALYZE` or `VERBOSE`.
    Detail,
    /// The keyword `FORMAT`.
    Format,
    /// The keyword `PREPARE`.
    Prepare,
    /// The keyword `CREATE`.
    Create,
    /// The keyword `AS`.
    As,
    /// The keyword `BEGIN`.
    Begin,
    /// Any other word, and every token that is no word.
    Other,
}

/// The kind of a token.
#[derive(Debug, Clone, Copy, PartialEq, Eq, Structural)]
pub struct TokenKind {
    pub shape: Shape,
    pub word: WordKind,
    pub lead: Lead,
}

/// What leads up to a statement inside another, as far as it has been read.
#[derive(Debug, Clone, Copy, PartialEq, Eq, Structural)]
pub enum Mode {
    /// Nothing.
    Idle,
    /// `EXPLAIN`, and no more than `ANALYZE` and `VERBOSE` after it.
    Explain,
    /// `EXPLAIN` up to `FORMAT`: the format is to come.
    Format,
    /// `PREPARE`: the name of what is prepared is to come.
    Prepare,
    /// `PREPARE` and a name.
    Prepared,
    /// `PREPARE`, a name and an opening bracket: the types of the
    /// parameters, and something other than a closing bracket last.
    Types,
    /// The same, and a closing bracket last.
    TypesClosed,
    /// `CREATE`, and something other than `AS` last.
    Create,
    /// `CREATE`, and `AS` last.
    CreateAs,
}

/// How much of `FLUSH RELAY LOGS` has been read.
#[derive(Debug, Clone, Copy, PartialEq, Eq, Structural)]
pub enum FlushStage {
    /// Nothing.
    Idle,
    /// `FLUSH`.
    Flush,
    /// `FLUSH` and one more word.
    Place,
    /// Up to `RELAY`.
    Relay,
    /// Up to `LOGS`.
    Logs,
}

/// What the test knows before it reads a token.
#[derive(Debug, Clone, Copy, PartialEq, Eq, Structural)]
pub struct Scan {
    /// A statement may begin with the token.
    pub opening: bool,
    pub mode: Mode,
    /// A `GRANT` or a `REVOKE` may be under way.
    pub granting: bool,
    pub flushing: FlushStage,
}

/// The kind that stands for the end of the text.
pub open spec fn end_kind() -> TokenKind {
    TokenKind { shape: Shape::End, word: WordKind::Other, lead: Lead::Other }
}

/// The kind of token `i`; the end of the text where there is no such token.
pub open spec fn kind_at(kinds: Seq<TokenKind>, i: int) -> TokenKind {
    if 0 <= i < kinds.len() {
        kinds[i]
    } else {
        end_kind()
    }
}

/// Whether a token can stand as an identifier: a word or a quoted string.
pub open spec fn is_name(kind: TokenKind) -> bool {
    kind.shape is Word || kind.shape is Quoted
}

/// Whether a token can stand in a `GRANT` or a `REVOKE` before `GRANTED BY`:
/// there are only names, dots, commas and brackets.
pub open spec fn is_plain(kind: TokenKind) -> bool {
    is_name(kind) || kind.shape is Period || kind.shape is Comma || kind.shape is LParen
        || kind.shape is RParen
}

/// Whether a dotted name begins at token `i`: an identifier, and after each
/// dot that follows an identifier another identifier.
pub open spec fn is_dotted_name(kinds: Seq<TokenKind>, i: int) -> bool
    decreases kinds.len() - i,
{
    if 0 <= i < kinds.len() {
        is_name(kinds[i]) && (kind_at(kinds, i + 1).shape is Period ==> is_dotted_name(
            kinds,
            i + 2,
        ))
    } else {
        false
    }
}

/// What is known before the first token: a statement may begin.
pub open spec fn initial_scan() -> Scan {
    Scan { opening: true, mode: Mode::Idle, granting: false, flushing: FlushStage::Idle }
}

/// Whether a statement may begin after the token `kind`: after a semicolon;
/// after `EXPLAIN` where a statement may begin, and after `ANALYZE`,
/// `VERBOSE` and the format that follow it; after the `AS` that follows the
/// name, or the types in their brackets, of a `PREPARE`; after an `AS BEGIN`
/// in a `CREATE`.
pub open spec fn opens_next(scan: Scan, kind: TokenKind) -> bool {
    ||| kind.shape is SemiColon
    ||| scan.opening && kind.lead is Explain
    ||| scan.mode is Explain && kind.lead is Detail
    ||| scan.mode is Format && kind.shape is Word
    ||| (scan.mode is Prepared || scan.mode is TypesClosed) && kind.lead is As
    ||| scan.mode is CreateAs && kind.lead is Begin
}

/// What leads up to a statement inside another, after the token `kind`.
pub open spec fn next_mode(scan: Scan, kind: TokenKind) -> Mode {
    if kind.shape is SemiColon {
        Mode::Idle
    } else if scan.opening && kind.lead is Explain {
        Mode::Explain
    } else if scan.opening && kind.lead is Prepare {
        Mode::Prepare
    } else if scan.opening && kind.lead is Create {
        Mode::Create
    } else {
        match scan.mode {
            Mode::Explain => if kind.lead is Detail {
                Mode::Explain
            } else if kind.lead is Format {
                Mode::Format
            } else {
                Mode::Idle
            },
            Mode::Prepare => Mode::Prepared,
            Mode::Prepared => if kind.shape is LParen {
                Mode::Types
            } else {
                Mode::Idle
            },
            Mode::Types => if kind.shape is RParen {
                Mode::TypesClosed
            } else {
                Mode::Types
            },
            Mode::TypesClosed => if kind.lead is As {
                Mode::Idle
            } else if kind.shape is RParen {
                Mode::TypesClosed
            } else {
                Mode::Types
            },
            Mode::Create | Mode::CreateAs => if kind.lead is As {
                Mode::CreateAs
            } else {
                Mode::Create
            },
            Mode::Format | Mode::Idle => Mode::Idle,
        }
    }
}

/// How much of `FLUSH RELAY LOGS` has been read after the token `kind`:
/// `FLUSH` where a statement may begin, at most one word, `RELAY`, `LOGS`.
pub open spec fn next_flushing(scan: Scan, kind: TokenKind) -> FlushStage {
    if scan.opening && kind.word is Flush {
        FlushStage::Flush
    } else {
        match scan.flushing {
            FlushStage::Flush => if kind.word is Relay {
                FlushStage::Relay
            } else if kind.shape is Word {
                FlushStage::Place
            } else {
                FlushStage::Idle
            },
            FlushStage::Place => if kind.word is Relay {
                FlushStage::Relay
            } else {
                FlushStage::Idle
            },
            FlushStage::Relay => if kind.word is Logs {
                FlushStage::Logs
            } else {
                FlushStage::Idle
            },
            FlushStage::Logs | FlushStage::Idle => FlushStage::Idle,
        }
    }
}

/// What is known after the token `kind`. A `GRANT` or a `REVOKE` may be
/// under way from the keyword, where a statement may begin, for as long as
/// only plain tokens follow.
pub open spec fn advance(scan: Scan, kind: TokenKind) -> Scan {
    Scan {
        opening: opens_next(scan, kind),
        mode: next_mode(scan, kind),
        granting: is_plain(kind) && (scan.granting || (scan.opening && kind.word is Grant)),
        flushing: next_flushing(scan, kind),
    }
}

/// What is known before token `i`.
pub open spec fn scan_at(kinds: Seq<TokenKind>, i: int) -> Scan
    decreases i,
{
    if 0 < i <= kinds.len() {
        advance(scan_at(kinds, i - 1), kinds[i - 1])
    } else {
        initial_scan()
    }
}

/// Whether the parser finds at token `i` what it takes for granted: an
/// identifier after `GRANTED BY` where a `GRANT` or a `REVOKE` may be under
/// way, a dotted name after `FOR CHANNEL` where `FLUSH RELAY LOGS` has been
/// read.
pub open spec fn guarded_at(kinds: Seq<TokenKind>, i: int) -> bool {
    &&& scan_at(kinds, i).granting && kind_at(kinds, i).word is Granted && kind_at(
        kinds,
        i + 1,
    ).word is By ==> is_name(kind_at(kinds, i + 2))
    &&& scan_at(kinds, i).flushing is Logs && kind_at(kinds, i).word is For && kind_at(
        kinds,
        i + 1,
    ).word is Channel ==> is_dotted_name(kinds, i + 2)
}

/// Whether a text with these tokens may go to the parser.
pub open spec fn guarded(kinds: Seq<TokenKind>) -> bool {
    forall|i: int| 0 <= i < kinds.len() ==> #[trigger] guarded_at(kinds, i)
}

/// The kind of the token `offset` places after token `i`.
fn kind_after(kinds: &Vec<TokenKind>, i: usize, offset: usize) -> (kind: TokenKind)
    requires
        i <= kinds.len(),
    ensures
        kind == kind_at(kinds@, i + offset),
{
    if offset < kinds.len() - i {
        kinds[i + offset]
    } else {
        TokenKind { shape: Shape::End, word: WordKind::Other, lead: Lead::Other }
    }
}

/// Whether a token can stand as an identifier.
fn names(kind: TokenKind) -> (b: bool)
    ensures
        b == is_name(kind),
{
    match kind.shape {
        Shape::Word => true,
        Shape::Quoted => true,
        _ => false,
    }
}

/// Whether a token can stand in a `GRANT` or a `REVOKE`.
fn plain(kind: TokenKind) -> (b: bool)
    ensures
        b == is_plain(kind),
{
    match kind.shape {
        Shape::Period => true,
        Shape::Comma => true,
        Shape::LParen => true,
        Shape::RParen => true,
        _ => names(kind),
    }
}

/// Whether a dotted name begins at token `start`.
pub fn begins_dotted_name(kinds: &Vec<TokenKind>, start: usize) -> (b: bool)
    ensures
        b == is_dotted_name(kinds@, start as int),
{
    let mut i: usize = start;
    loop
        invariant
            is_dotted_name(kinds@, start as int) == is_dotted_name(kinds@, i as int),
        decreases kinds.len() - i,
    {
        if i >= kinds.len() || !names(kinds[i]) {
            return false;
        }
        match kind_after(kinds, i, 1).shape {
            Shape::Period => {
                i = i + 2;
            },
            _ => {
                return true;
            },
        }
    }
}

/// Whether a statement may begin after the token `kind`.
fn opens_after(scan: Scan, kind: TokenKind) -> (b: bool)
    ensures
        b == opens_next(scan, kind),
{
    match (kind.shape, scan.mode, kind.lead) {
        (Shape::SemiColon, _, _) => true,
        (_, Mode::Explain, Lead::Detail) => true,
        (Shape::Word, Mode::Format, _) => true,
        (_, Mode::Prepared, Lead::As) => true,
        (_, Mode::TypesClosed, Lead::As) => true,
        (_, Mode::CreateAs, Lead::Begin) => true,
        (_, _, Lead::Explain) => scan.opening,
        _ => false,
    }
}

/// What leads up to a statement inside another, after the token `kind`.
fn mode_after(scan: Scan, kind: TokenKind) -> (mode: Mode)
    ensures
        mode == next_mode(scan, kind),
{
    match kind.shape {
        Shape::SemiColon => {
            return Mode::Idle;
        },
        _ => {},
    }
    if scan.opening {
        match kind.lead {
            Lead::Explain => {
                return Mode::Explain;
            },
            Lead::Prepare => {
                return Mode::Prepare;
            },
            Lead::Create => {
                return Mode::Create;
            },
            _ => {},
        }
    }
    match (scan.mode, kind.lead, kind.shape) {
        (Mode::Explain, Lead::Detail, _) => Mode::Explain,
        (Mode::Explain, Lead::Format, _) => Mode::Format,
        (Mode::Prepare, _, _) => Mode::Prepared,
        (Mode::Prepared, _, Shape::LParen) => Mode::Types,
        (Mode::Types, _, Shape::RParen) => Mode::TypesClosed,
        (Mode::Types, _, _) => Mode::Types,
        (Mode::TypesClosed, Lead::As, _) => Mode::Idle,
        (Mode::TypesClosed, _, Shape::RParen) => Mode::TypesClosed,
        (Mode::TypesClosed, _, _) => Mode::Types,
        (Mode::Create, Lead::As, _) => Mode::CreateAs,
        (Mode::CreateAs, Lead::As, _) => Mode::CreateAs,
        (Mode::Create, _, _) => Mode::Create,
        (Mode::CreateAs, _, _) => Mode::Create,
        _ => Mode::Idle,
    }
}

/// How much of `FLUSH RELAY LOGS` has been read after the token `kind`.
fn flushing_after(scan: Scan, kind: TokenKind) -> (stage: FlushStage)
    ensures
        stage == next_flushing(scan, kind),
{
    match (scan.opening, kind.word) {
        (true, WordKind::Flush) => {
            return FlushStage::Flush;
        },
        _ => {},
    }
    match (scan.flushing, kind.word, kind.shape) {
        (FlushStage::Flush, WordKind::Relay, _) => FlushStage::Relay,
        (FlushStage::Flush, _, Shape::Word) => FlushStage::Place,
        (FlushStage::Place, WordKind::Relay, _) => FlushStage::Relay,
        (FlushStage::Relay, WordKind::Logs, _) => FlushStage::Logs,
        _ => FlushStage::Idle,
    }
}

/// What is known after the token `kind`.
pub fn step(scan: Scan, kind: TokenKind) -> (next: Scan)
    ensures
        next == advance(scan, kind),
{
    let grants = match kind.word {
        WordKind::Grant => scan.opening,
        _ => false,
    };
    Scan {
        opening: opens_after(scan, kind),
        mode: mode_after(scan, kind),
        granting: plain(kind) && (scan.granting || grants),
        flushing: flushing_after(scan, kind),
    }
}

/// Whether the parser finds at token `i` what it takes for granted, where
/// `scan` is what is known before the token.
fn is_guarded_at(kinds: &Vec<TokenKind>, i: usize, scan: Scan) -> (b: bool)
    requires
        i < kinds.len(),
        scan == scan_at(kinds@, i as int),
    ensures
        b == guarded_at(kinds@, i as int),
{
    match (kinds[i].word, kind_after(kinds, i, 1).word, scan.flushing) {
        (WordKind::Granted, WordKind::By, _) => !scan.granting || names(kind_after(kinds, i, 2)),
        (WordKind::For, WordKind::Channel, FlushStage::Logs) => {
            if kinds.len() - i > 2 {
                begins_dotted_name(kinds, i + 2)
            } else {
                false
            }
        },
        _ => true,
    }
}

/// Whether a text with these tokens may go to the parser.
pub fn is_guarded(kinds: &Vec<TokenKind>) -> (b: bool)
    ensures
        b == guarded(kinds@),
{
    let mut scan = Scan {
        opening: true,
        mode: Mode::Idle,
        granting: false,
        flushing: FlushStage::Idle,
    };
    let mut i: usize = 0;
    while i < kinds.len()
        invariant
            i <= kinds.len(),
            scan == scan_at(kinds@, i as int),
            forall|j: int| 0 <= j < i ==> #[trigger] guarded_at(kinds@, j),
        decreases kinds.len() - i,
    {
        if !is_guarded_at(kinds, i, scan) {
            return false;
        }
        scan = step(scan, kinds[i]);
        i = i + 1;
    }
    true
}

} // verus!
