//! Reading of the command-line arguments: the verbosity number and the shape
//! of the colour argument.

use itertools::Itertools;
use vstd::prelude::*;
use vstd::string::*;

verus! {

/// How much the program reports while it runs.
#[derive(Clone, Copy, Debug, PartialEq, Eq, Structural)]
pub enum LogLevel {
    /// Errors only.
    Error,
    /// Warnings and errors.
    Warn,
    /// Informational messages and everything above.
    Info,
    /// Debugging output and everything above.
    Debug,
}

/// The outcome of reading the verbosity argument.
#[derive(Clone, Copy, Debug, PartialEq, Eq, Structural)]
pub struct LevelChoice {
    /// The level to log at.
    pub level: LogLevel,
    /// The argument wrote an integer, of whatever size, that is not one of
    /// `0..=3`: the caller should tell the user so.
    pub out_of_range: bool,
}

/// The value of the decimal digit `c`, if it is one.
pub open spec fn digit_value(c: char) -> Option<int> {
    if '0' as u32 <= c as u32 <= '9' as u32 {
        Some(c as u32 - '0' as u32)
    } else {
        None
    }
}

/// The number that a run of decimal digits writes, most significant first.
/// `None` if some character is not a digit; the empty run writes zero.
pub open spec fn digits_value(s: Seq<char>) -> Option<int>
    decreases s.len(),
{
    if s.len() == 0 {
        Some(0)
    } else {
        match (digits_value(s.drop_last()), digit_value(s.last())) {
            (Some(v), Some(d)) => Some(10 * v + d),
            _ => None,
        }
    }
}

/// The integer that `s` writes: an optional `+` or `-`, then one or more
/// decimal digits and nothing else.
pub open spec fn signed_decimal(s: Seq<char>) -> Option<int> {
    if s.len() == 0 {
        None
    } else if s[0] == '-' || s[0] == '+' {
        if s.len() == 1 {
            None
        } else {
            match digits_value(s.skip(1)) {
                Some(v) => Some(if s[0] == '-' { -v } else { v }),
                None => None,
            }
        }
    } else {
        digits_value(s)
    }
}

/// The least number beyond the four that select a level.
pub const LEVEL_COUNT: u8 = 4;

/// The number `v`, or [`LEVEL_COUNT`] in place of every number beyond the
/// levels: all that the choice of a level needs to know of `v`.
pub open spec fn capped(v: int) -> int {
    if v < LEVEL_COUNT {
        v
    } else {
        LEVEL_COUNT as int
    }
}

/// A run that continues a run with a character that is no digit is no run of
/// digits.
proof fn lemma_digits_stay_invalid(s: Seq<char>, k: int)
    requires
        0 <= k <= s.len(),
        digits_value(s.take(k)) is None,
    ensures
        digits_value(s) is None,
    decreases s.len() - k,
{
    if k == s.len() {
        assert(s.take(k) =~= s);
    } else {
        assert(s.drop_last().take(k) =~= s.take(k));
        lemma_digits_stay_invalid(s.drop_last(), k);
    }
}

/// Reads the digits of `s` from position `from` to the end, however many
/// they are. Gives their value, capped, when all of them are digits.
fn read_digits_capped(s: &str, from: usize) -> (r: Option<u8>)
    requires
        from <= s@.len(),
    ensures
        r matches Some(c) ==> (digits_value(s@.skip(from as int)) matches Some(v) && c == capped(
            v,
        )),
        r is None ==> digits_value(s@.skip(from as int)) is None,
{
    let n = s.unicode_len();
    let ghost digits = s@.skip(from as int);
    let mut acc: u8 = 0;
    let mut i: usize = from;
    assert(digits.take(0) =~= Seq::<char>::empty());
    while i < n
        invariant
            from <= i <= n,
            n == s@.len(),
            digits == s@.skip(from as int),
            acc <= LEVEL_COUNT,
            digits_value(digits.take(i - from)) matches Some(v) && acc == capped(v),
        decreases n - i,
    {
        let c = s.get_char(i);
        let code: u32 = c as u32;
        proof {
            let t = digits.take(i - from + 1);
            assert(t.drop_last() =~= digits.take(i - from));
            assert(t.last() == c);
            if digit_value(c) is None {
                lemma_digits_stay_invalid(digits, i - from + 1);
            }
        }
        if code < 48 || code > 57 {
            return None;
        }
        let next: u8 = acc * 10 + (code - 48) as u8;
        acc = if next > LEVEL_COUNT {
            LEVEL_COUNT
        } else {
            next
        };
        i = i + 1;
    }
    assert(digits.take(i - from) =~= digits);
    Some(acc)
}

/// The level that the number `n` selects; numbers outside `0..=3` select
/// `Error` and are flagged.
pub open spec fn level_for(n: int) -> LevelChoice {
    if n == 0 {
        LevelChoice { level: LogLevel::Error, out_of_range: false }
    } else if n == 1 {
        LevelChoice { level: LogLevel::Warn, out_of_range: false }
    } else if n == 2 {
        LevelChoice { level: LogLevel::Info, out_of_range: false }
    } else if n == 3 {
        LevelChoice { level: LogLevel::Debug, out_of_range: false }
    } else {
        LevelChoice { level: LogLevel::Error, out_of_range: true }
    }
}

/// The level that the verbosity argument selects. Text that writes no
/// integer counts as `0`; an integer selects its level however large or
/// small it is.
pub open spec fn level_of_arg(arg: Seq<char>) -> LevelChoice {
    match signed_decimal(arg) {
        Some(n) => level_for(n),
        None => level_for(0),
    }
}

/// Maps the verbosity number to a level.
pub fn log_level_from_number(n: i32) -> (r: LevelChoice)
    ensures
        r == level_for(n as int),
{
    match n {
        0 => LevelChoice { level: LogLevel::Error, out_of_range: false },
        1 => LevelChoice { level: LogLevel::Warn, out_of_range: false },
        2 => LevelChoice { level: LogLevel::Info, out_of_range: false },
        3 => LevelChoice { level: LogLevel::Debug, out_of_range: false },
        _ => LevelChoice { level: LogLevel::Error, out_of_range: true },
    }
}

/// Reads the verbosity argument as the user typed it: an optional sign, then
/// digits only. The number may have any length; it is never held in full.
pub fn parse_log_level(arg: &str) -> (r: LevelChoice)
    ensures
        r == level_of_arg(arg@),
{
    let n = arg.unicode_len();
    if n == 0 {
        return log_level_from_number(0);
    }
    let first = arg.get_char(0);
    let signed = first == '-' || first == '+';
    if signed && n == 1 {
        return log_level_from_number(0);
    }
    let from: usize = if signed {
        1
    } else {
        0
    };
    assert(arg@.skip(0) =~= arg@);
    match read_digits_capped(arg, from) {
        None => log_level_from_number(0),
        Some(c) => {
            if first == '-' && c != 0 {
                log_level_from_number(-1)
            } else {
                log_level_from_number(c as i32)
            }
        },
    }
}

/// Whatever is typed, the level is `Error` unless the text writes one of the
/// numbers 1, 2 and 3; and exactly the texts that write an integer outside
/// `0..=3`, of whatever size, are flagged.
pub proof fn law_level_defaults_to_error(arg: Seq<char>)
    ensures
        !(signed_decimal(arg) matches Some(n) && 1 <= n <= 3) ==> level_of_arg(arg).level
            == LogLevel::Error,
        level_of_arg(arg).out_of_range <==> (signed_decimal(arg) matches Some(n) && !(0 <= n
            <= 3)),
        signed_decimal(arg) == Some(0int) ==> level_of_arg(arg).level == LogLevel::Error,
        signed_decimal(arg) == Some(1int) ==> level_of_arg(arg).level == LogLevel::Warn,
        signed_decimal(arg) == Some(2int) ==> level_of_arg(arg).level == LogLevel::Info,
        signed_decimal(arg) == Some(3int) ==> level_of_arg(arg).level == LogLevel::Debug,
{
}

/// The texts between the commas of `s`, in order. A text of `n` commas has
/// `n + 1` fields, some of them perhaps empty; the empty text has one.
pub open spec fn comma_fields(s: Seq<char>) -> Seq<Seq<char>>
    decreases s.len(),
{
    if s.len() == 0 {
        seq![Seq::empty()]
    } else {
        let before = comma_fields(s.drop_last());
        if s.last() == ',' {
            before.push(Seq::empty())
        } else {
            before.drop_last().push(before.last().push(s.last()))
        }
    }
}

/// What each of the strings holds.
pub open spec fn texts(fields: Seq<String>) -> Seq<Seq<char>> {
    Seq::new(fields.len(), |i: int| fields[i]@)
}

/// Every text has at least one field.
pub proof fn lemma_comma_fields_nonempty(s: Seq<char>)
    ensures
        comma_fields(s).len() >= 1,
    decreases s.len(),
{
    if s.len() > 0 {
        lemma_comma_fields_nonempty(s.drop_last());
    }
}

/// Cuts the argument at its commas.
pub fn split_on_commas(arg: &str) -> (fields: Vec<String>)
    ensures
        texts(fields@) == comma_fields(arg@),
{
    let n = arg.unicode_len();
    let mut fields: Vec<String> = Vec::new();
    let mut start: usize = 0;
    let mut i: usize = 0;
    assert(arg@.take(0) =~= Seq::<char>::empty());
    assert(texts(fields@).push(arg@.subrange(0, 0)) =~= comma_fields(arg@.take(0)));
    while i < n
        invariant
            start <= i <= n,
            n == arg@.len(),
            texts(fields@).push(arg@.subrange(start as int, i as int)) == comma_fields(
                arg@.take(i as int),
            ),
        decreases n - i,
    {
        let c = arg.get_char(i);
        proof {
            let t = arg@.take(i + 1);
            assert(t.drop_last() =~= arg@.take(i as int));
            assert(t.last() == c);
            lemma_comma_fields_nonempty(arg@.take(i as int));
        }
        let ghost before = texts(fields@).push(arg@.subrange(start as int, i as int));
        if c == ',' {
            let piece = arg.substring_char(start, i).to_owned();
            let ghost shorter = fields@;
            fields.push(piece);
            start = i + 1;
            proof {
                assert(texts(fields@) =~= texts(shorter).push(piece@));
                assert(arg@.subrange(start as int, i + 1) =~= Seq::<char>::empty());
            }
        } else {
            proof {
                assert(before.drop_last() =~= texts(fields@));
                assert(arg@.subrange(start as int, i + 1) =~= before.last().push(c));
            }
        }
        i = i + 1;
    }
    let piece = arg.substring_char(start, n).to_owned();
    let ghost shorter = fields@;
    fields.push(piece);
    proof {
        assert(arg@.take(n as int) =~= arg@);
        assert(texts(fields@) =~= texts(shorter).push(piece@));
    }
    fields
}

/// The four channel texts of a colour argument, as typed.
#[derive(Debug)]
pub struct ColorFields {
    pub red: String,
    pub green: String,
    pub blue: String,
    pub alpha: String,
}

impl ColorFields {
    /// The four texts in the order red, green, blue, alpha.
    pub open spec fn channels(&self) -> Seq<Seq<char>> {
        seq![self.red@, self.green@, self.blue@, self.alpha@]
    }
}

/// `itertools::Itertools::collect_tuple` on the strings of a vector, taken in
/// order, for a tuple of four: the tuple holds all of them when there are
/// exactly four, and there is no tuple for any other count.
#[verifier::external_body]
fn collect_four(fields: Vec<String>) -> (r: Option<(String, String, String, String)>)
    ensures
        r == if fields@.len() == 4 {
            Some((fields@[0], fields@[1], fields@[2], fields@[3]))
        } else {
            None
        },
{
    fields.into_iter().collect_tuple()
}

/// Picks the four channels out of the fields of a colour argument. There are
/// none unless the fields are exactly four.
pub fn channels_of(fields: Vec<String>) -> (r: Option<ColorFields>)
    ensures
        match r {
            Some(c) => c.channels() == texts(fields@),
            None => fields@.len() != 4,
        },
{
    match collect_four(fields) {
        Some((red, green, blue, alpha)) => {
            let c = ColorFields { red, green, blue, alpha };
            assert(c.channels() =~= texts(fields@));
            Some(c)
        },
        None => None,
    }
}

/// Reads the shape of a colour argument `r,g,b,a`: the four texts between
/// its three commas. An argument with any other number of commas has no
/// channels; [`resolve_color`] then gives the fallback colour.
pub fn parse_color_fields(arg: &str) -> (r: Option<ColorFields>)
    ensures
        match r {
            Some(c) => c.channels() == comma_fields(arg@),
            None => comma_fields(arg@).len() != 4,
        },
{
    channels_of(split_on_commas(arg))
}

/// A colour by its four channels, in whatever type the caller keeps channel
/// values in.
#[derive(Clone, Copy, Debug, PartialEq)]
pub struct Color<T> {
    pub red: T,
    pub green: T,
    pub blue: T,
    pub alpha: T,
}

/// The value of a channel: the number read from its text, or `zero` where
/// the text was no number.
pub open spec fn channel_or<T>(read: Option<T>, zero: T) -> T {
    match read {
        Some(v) => v,
        None => zero,
    }
}

/// The colour that a colour argument selects. `channels` holds, for an
/// argument of four fields, the number read from each field, if any; `zero`
/// and `one` are the channel values 0 and 1. A field that is no number makes
/// its channel zero and leaves the others alone; an argument without four
/// fields selects opaque red, `(1, 0, 0, 1)`.
pub open spec fn resolved<T>(channels: Option<Color<Option<T>>>, zero: T, one: T) -> Color<T> {
    match channels {
        Some(c) => Color {
            red: channel_or(c.red, zero),
            green: channel_or(c.green, zero),
            blue: channel_or(c.blue, zero),
            alpha: channel_or(c.alpha, zero),
        },
        None => Color { red: one, green: zero, blue: zero, alpha: one },
    }
}

/// Settles the colour of the window once the channel texts have been read as
/// numbers. The flag says that the argument did not have four fields, so
/// that the colour is the fallback and the user should be told.
pub fn resolve_color<T: Copy>(channels: Option<Color<Option<T>>>, zero: T, one: T) -> (r: (
    Color<T>,
    bool,
))
    ensures
        r.0 == resolved(channels, zero, one),
        r.1 == (channels is None),
{
    match channels {
        Some(c) => {
            let red = match c.red {
                Some(v) => v,
                None => zero,
            };
            let green = match c.green {
                Some(v) => v,
                None => zero,
            };
            let blue = match c.blue {
                Some(v) => v,
                None => zero,
            };
            let alpha = match c.alpha {
                Some(v) => v,
                None => zero,
            };
            (Color { red, green, blue, alpha }, false)
        },
        None => (Color { red: one, green: zero, blue: zero, alpha: one }, true),
    }
}

/// The fields of `fields`, written one after another with a comma between
/// each two.
pub open spec fn joined(fields: Seq<Seq<char>>) -> Seq<char>
    decreases fields.len(),
{
    if fields.len() == 0 {
        Seq::empty()
    } else if fields.len() == 1 {
        fields[0]
    } else {
        joined(fields.drop_last()).push(',') + fields.last()
    }
}

/// Cutting a text at its commas loses nothing and leaves no comma behind:
/// the fields joined by commas are the text again, and no field holds a
/// comma.
pub proof fn law_comma_fields_round_trip(s: Seq<char>)
    ensures
        comma_fields(s).len() >= 1,
        joined(comma_fields(s)) == s,
        forall|i: int, j: int|
            0 <= i < comma_fields(s).len() && 0 <= j < comma_fields(s)[i].len() ==> comma_fields(
                s,
            )[i][j] != ',',
    decreases s.len(),
{
    if s.len() > 0 {
        let shorter = s.drop_last();
        law_comma_fields_round_trip(shorter);
        let before = comma_fields(shorter);
        let now = comma_fields(s);
        if s.last() == ',' {
            assert(now.drop_last() =~= before);
            assert(joined(now) =~= s);
        } else {
            if before.len() == 1 {
                assert(joined(now) =~= s);
            } else {
                assert(now.drop_last() =~= before.drop_last());
                assert(joined(now) =~= joined(before).push(s.last()));
                assert(joined(now) =~= s);
            }
        }
    }
}

} // verus!
