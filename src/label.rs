//! Severity levels: their order, their names and the label printed for each.
use vstd::prelude::*;
use vstd::string::StrSliceExecFns;
use vstd::string::StringExecFns;

verus! {

#[verifier::external_type_specification]
pub struct ExLevel(log::Level);

#[verifier::external_type_specification]
pub struct ExLevelFilter(log::LevelFilter);

#[verifier::external_type_specification]
pub struct ExColor(colored::Color);

/// Width that every label is padded to.
pub const LABEL_WIDTH: usize = 5;

/// Place of a severity in the order of importance: `Error` is 1, `Trace` is 5.
pub open spec fn level_rank(l: log::Level) -> nat {
    match l {
        log::Level::Error => 1,
        log::Level::Warn => 2,
        log::Level::Info => 3,
        log::Level::Debug => 4,
        log::Level::Trace => 5,
    }
}

/// Place of a threshold in the same order: `Off` is 0, below every severity.
pub open spec fn filter_rank(f: log::LevelFilter) -> nat {
    match f {
        log::LevelFilter::Off => 0,
        log::LevelFilter::Error => 1,
        log::LevelFilter::Warn => 2,
        log::LevelFilter::Info => 3,
        log::LevelFilter::Debug => 4,
        log::LevelFilter::Trace => 5,
    }
}

/// The threshold that lets through exactly the severities at least as important as `l`.
pub open spec fn filter_of(l: log::Level) -> log::LevelFilter {
    match l {
        log::Level::Error => log::LevelFilter::Error,
        log::Level::Warn => log::LevelFilter::Warn,
        log::Level::Info => log::LevelFilter::Info,
        log::Level::Debug => log::LevelFilter::Debug,
        log::Level::Trace => log::LevelFilter::Trace,
    }
}

/// A record of severity `l` passes the threshold `f`.
pub open spec fn passes(f: log::LevelFilter, l: log::Level) -> bool {
    level_rank(l) <= filter_rank(f)
}

/// The canonical (upper-case) name of a severity.
pub open spec fn level_name(l: log::Level) -> Seq<char> {
    match l {
        log::Level::Error => seq!['E', 'R', 'R', 'O', 'R'],
        log::Level::Warn => seq!['W', 'A', 'R', 'N'],
        log::Level::Info => seq!['I', 'N', 'F', 'O'],
        log::Level::Debug => seq!['D', 'E', 'B', 'U', 'G'],
        log::Level::Trace => seq!['T', 'R', 'A', 'C', 'E'],
    }
}

/// `s` followed by spaces up to `width` characters; longer text is left as it is.
pub open spec fn padded(s: Seq<char>, width: nat) -> Seq<char> {
    if s.len() >= width {
        s
    } else {
        s + Seq::new((width - s.len()) as nat, |_i: int| ' ')
    }
}

/// The uncoloured label of a severity: its name, left-justified in five columns.
pub open spec fn plain_label(l: log::Level) -> Seq<char> {
    padded(level_name(l), LABEL_WIDTH as nat)
}

/// The ANSI foreground code of the colour that marks a severity; `Trace` has none.
pub open spec fn label_code(l: log::Level) -> Option<Seq<char>> {
    match l {
        log::Level::Error => Some(seq!['3', '1']),
        log::Level::Warn => Some(seq!['3', '3']),
        log::Level::Info => Some(seq!['3', '6']),
        log::Level::Debug => Some(seq!['3', '5']),
        log::Level::Trace => None,
    }
}

/// The ANSI foreground code of one of the sixteen named terminal colours.
pub open spec fn ansi_fg(c: colored::Color) -> Option<Seq<char>> {
    match c {
        colored::Color::Black => Some(seq!['3', '0']),
        colored::Color::Red => Some(seq!['3', '1']),
        colored::Color::Green => Some(seq!['3', '2']),
        colored::Color::Yellow => Some(seq!['3', '3']),
        colored::Color::Blue => Some(seq!['3', '4']),
        colored::Color::Magenta => Some(seq!['3', '5']),
        colored::Color::Cyan => Some(seq!['3', '6']),
        colored::Color::White => Some(seq!['3', '7']),
        colored::Color::BrightBlack => Some(seq!['9', '0']),
        colored::Color::BrightRed => Some(seq!['9', '1']),
        colored::Color::BrightGreen => Some(seq!['9', '2']),
        colored::Color::BrightYellow => Some(seq!['9', '3']),
        colored::Color::BrightBlue => Some(seq!['9', '4']),
        colored::Color::BrightMagenta => Some(seq!['9', '5']),
        colored::Color::BrightCyan => Some(seq!['9', '6']),
        colored::Color::BrightWhite => Some(seq!['9', '7']),
        colored::Color::TrueColor { .. } => None,
    }
}

/// `s` between the escape sequence that selects foreground `code` and the reset sequence.
pub open spec fn painted(code: Seq<char>, s: Seq<char>) -> Seq<char> {
    seq!['\x1b', '['] + code + seq!['m'] + s + seq!['\x1b', '[', '0', 'm']
}

/// `s` is a label that severity `l` may be written as: the plain label, or, where colour is
/// asked for and the severity has a colour, the plain label in that colour.
pub open spec fn is_label(colored: bool, l: log::Level, s: Seq<char>) -> bool {
    if colored && label_code(l) is Some {
        s == plain_label(l) || s == painted(label_code(l)->0, plain_label(l))
    } else {
        s == plain_label(l)
    }
}

/// `s` holds no escape character.
pub open spec fn no_escape(s: Seq<char>) -> bool {
    forall|i: int| 0 <= i < s.len() ==> s[i] != '\x1b'
}

/// Relies on log's `Level::as_str`: it returns the level's canonical upper-case name.
#[verifier::external_body]
fn name_of(l: log::Level) -> (r: &'static str)
    ensures
        r@ == level_name(l),
{
    l.as_str()
}

/// Relies on colored's `Colorize::color` and the `Display` of the `ColoredString` it makes:
/// for one of the sixteen named colours and a text without escape characters, the text
/// comes back as it is where colouring is off (by the environment or the terminal), and
/// otherwise between the colour's escape sequence and the reset sequence.
#[verifier::external_body]
fn paint(s: &str, c: colored::Color) -> (r: String)
    requires
        ansi_fg(c) is Some,
        no_escape(s@),
    ensures
        r@ == s@ || r@ == painted(ansi_fg(c)->0, s@),
{
    colored::Colorize::color(s, c).to_string()
}

/// Rank of a severity, as `level_rank` gives it.
pub fn rank_of_level(l: log::Level) -> (r: u8)
    ensures
        r as nat == level_rank(l),
{
    match l {
        log::Level::Error => 1,
        log::Level::Warn => 2,
        log::Level::Info => 3,
        log::Level::Debug => 4,
        log::Level::Trace => 5,
    }
}

/// Rank of a threshold, as `filter_rank` gives it.
pub fn rank_of_filter(f: log::LevelFilter) -> (r: u8)
    ensures
        r as nat == filter_rank(f),
{
    match f {
        log::LevelFilter::Off => 0,
        log::LevelFilter::Error => 1,
        log::LevelFilter::Warn => 2,
        log::LevelFilter::Info => 3,
        log::LevelFilter::Debug => 4,
        log::LevelFilter::Trace => 5,
    }
}

/// The colour that marks a severity in a coloured label.
fn label_color(l: log::Level) -> (r: Option<colored::Color>)
    ensures
        r is Some <==> label_code(l) is Some,
        r is Some ==> ansi_fg(r->0) == label_code(l),
{
    match l {
        log::Level::Error => Some(colored::Color::Red),
        log::Level::Warn => Some(colored::Color::Yellow),
        log::Level::Info => Some(colored::Color::Cyan),
        log::Level::Debug => Some(colored::Color::Magenta),
        log::Level::Trace => None,
    }
}

/// `name` followed by spaces up to the label width.
pub fn pad_label(name: &str) -> (r: String)
    ensures
        r@ == padded(name@, LABEL_WIDTH as nat),
{
    let mut r = String::from_str(name);
    let mut n: usize = name.unicode_len();
    let ghost spaces: Seq<char> = Seq::empty();
    while n < LABEL_WIDTH
        invariant
            n >= name@.len(),
            n <= LABEL_WIDTH || n == name@.len(),
            spaces.len() == n - name@.len(),
            forall|i: int| 0 <= i < spaces.len() ==> spaces[i] == ' ',
            r@ == name@ + spaces,
        decreases LABEL_WIDTH - n,
    {
        proof {
            reveal_strlit(" ");
        }
        r.append(" ");
        proof {
            assert(r@ =~= name@ + spaces.push(' '));
            spaces = spaces.push(' ');
        }
        n = n + 1;
    }
    proof {
        if name@.len() < LABEL_WIDTH {
            assert(spaces =~= Seq::new((LABEL_WIDTH - name@.len()) as nat, |_i: int| ' '));
        } else {
            assert(spaces =~= Seq::<char>::empty());
            assert(r@ =~= name@);
        }
    }
    r
}

/// The label written for a record of severity `severity`: its name in five columns, marked
/// with the severity's colour where `colored` asks for it and the terminal takes colour.
pub fn level(colored: bool, severity: log::Level) -> (r: String)
    ensures
        is_label(colored, severity, r@),
{
    let plain = pad_label(name_of(severity));
    if colored {
        match label_color(severity) {
            Some(c) => {
                assert(no_escape(plain@)) by {
                    assert(no_escape(level_name(severity)));
                }
                paint(plain.as_str(), c)
            },
            None => plain,
        }
    } else {
        plain
    }
}

} // verus!
