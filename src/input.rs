use vstd::prelude::*;

use crate::controller::{Command, ErrorSeverity, LONG_PRESS_MS};
use crate::stepper::Direction;

verus! {

/// The four push buttons.
#[derive(Debug, Clone, Copy, PartialEq, Eq, Structural)]
pub enum Button {
    Home,
    Raise,
    Lower,
    Bottom,
}

/// A press, by how long it was held.
#[derive(Debug, Clone, Copy, PartialEq, Eq, Structural)]
pub enum PressKind {
    Short,
    Long,
}

/// A press held for `held_ms` milliseconds is long from one second on.
pub fn classify_press(held_ms: u64) -> (r: PressKind)
    ensures
        r == if held_ms >= LONG_PRESS_MS {
            PressKind::Long
        } else {
            PressKind::Short
        },
{
    if held_ms >= LONG_PRESS_MS {
        PressKind::Long
    } else {
        PressKind::Short
    }
}

/// The command of a completed press of `button`: home and bottom move to 0% and 100% on a short
/// press, home and set the bottom on a long one. The jog buttons act on their edges instead.
pub fn press_command(button: Button, kind: PressKind) -> (r: Option<Command>)
    ensures
        r == match (button, kind) {
            (Button::Home, PressKind::Short) => Some(Command::MoveToPos(0)),
            (Button::Home, PressKind::Long) => Some(Command::Home),
            (Button::Bottom, PressKind::Short) => Some(Command::MoveToPos(100)),
            (Button::Bottom, PressKind::Long) => Some(Command::SetBottom),
            _ => None,
        },
{
    match (button, kind) {
        (Button::Home, PressKind::Short) => Some(Command::MoveToPos(0)),
        (Button::Home, PressKind::Long) => Some(Command::Home),
        (Button::Bottom, PressKind::Short) => Some(Command::MoveToPos(100)),
        (Button::Bottom, PressKind::Long) => Some(Command::SetBottom),
        _ => None,
    }
}

/// The command of an edge of `button` (`pressed` for the falling edge): the raise and lower
/// buttons jog towards and away from home while held. The other buttons act on whole presses.
pub fn edge_command(button: Button, pressed: bool) -> (r: Option<Command>)
    ensures
        r == match button {
            Button::Raise => Some(
                if pressed {
                    Command::StartJog(Direction::ToHome)
                } else {
                    Command::StopJog
                },
            ),
            Button::Lower => Some(
                if pressed {
                    Command::StartJog(Direction::AwayFromHome)
                } else {
                    Command::StopJog
                },
            ),
            _ => None,
        },
{
    match button {
        Button::Raise => Some(
            if pressed {
                Command::StartJog(Direction::ToHome)
            } else {
                Command::StopJog
            },
        ),
        Button::Lower => Some(
            if pressed {
                Command::StartJog(Direction::AwayFromHome)
            } else {
                Command::StopJog
            },
        ),
        _ => None,
    }
}

/// `b` is an ASCII decimal digit.
pub open spec fn is_digit(b: u8) -> bool {
    0x30 <= b <= 0x39
}

/// Value of the decimal digits `s`, most significant first.
pub open spec fn digits_value(s: Seq<u8>) -> int
    decreases s.len(),
{
    if s.len() == 0 {
        0
    } else {
        digits_value(s.drop_last()) * 10 + (s.last() - 0x30)
    }
}

/// Length of the sign in front of the text `s`: 1 for `-` or `+`, else 0.
pub open spec fn sign_len(s: Seq<u8>) -> int {
    if s.len() > 0 && (s[0] == 0x2D || s[0] == 0x2B) {
        1
    } else {
        0
    }
}

/// Every byte of `s` is a decimal digit.
pub open spec fn all_digits(s: Seq<u8>) -> bool {
    forall|i: int| 0 <= i < s.len() ==> is_digit(s[i])
}

/// The integer that the text `s` writes in decimal: an optional sign, then one or more digits.
pub open spec fn decimal_value(s: Seq<u8>) -> Option<int> {
    let body = s.subrange(sign_len(s), s.len() as int);
    if body.len() > 0 && all_digits(body) {
        Some(
            if s[0] == 0x2D {
                -digits_value(body)
            } else {
                digits_value(body)
            },
        )
    } else {
        None
    }
}

/// The percentage that a command payload names: a decimal integer from 0 to 100.
pub open spec fn payload_percent(s: Seq<u8>) -> Option<int> {
    match decimal_value(s) {
        Some(v) => if 0 <= v <= 100 {
            Some(v)
        } else {
            None
        },
        None => None,
    }
}

proof fn lemma_digits_value_nonneg(s: Seq<u8>)
    requires
        forall|i: int| 0 <= i < s.len() ==> is_digit(s[i]),
    ensures
        digits_value(s) >= 0,
    decreases s.len(),
{
    if s.len() > 0 {
        lemma_digits_value_nonneg(s.drop_last());
    }
}

/// The percentage in a command payload, or `None` where the payload is not a decimal integer
/// from 0 to 100.
pub fn parse_percent(payload: &[u8]) -> (r: Option<i8>)
    ensures
        match payload_percent(payload@) {
            Some(v) => r == Some(v as i8),
            None => r is None,
        },
{
    let n = payload.len();
    let negative = n > 0 && payload[0] == 0x2D;
    let start: usize = if n > 0 && (payload[0] == 0x2D || payload[0] == 0x2B) {
        1
    } else {
        0
    };
    let ghost body = payload@.subrange(start as int, n as int);
    assert(start == sign_len(payload@));
    if start >= n {
        return None;
    }
    // Saturated at 1000: the value is at most 100 exactly when this is.
    let mut acc: u32 = 0;
    let mut i: usize = start;
    while i < n
        invariant
            start <= i <= n,
            start == sign_len(payload@),
            start < n,
            negative == (payload@[0] == 0x2D),
            n == payload@.len(),
            body == payload@.subrange(start as int, n as int),
            forall|j: int| start <= j < i ==> is_digit(payload@[j]),
            acc <= 1000,
            acc == if digits_value(payload@.subrange(start as int, i as int)) > 1000 {
                1000
            } else {
                digits_value(payload@.subrange(start as int, i as int))
            },
        decreases n - i,
    {
        let b = payload[i];
        if b < 0x30 || b > 0x39 {
            assert(!is_digit(body[i - start]));
            assert(!all_digits(body));
            return None;
        }
        let ghost prefix = payload@.subrange(start as int, i as int);
        assert(payload@.subrange(start as int, i + 1).drop_last() =~= prefix);
        proof {
            lemma_digits_value_nonneg(prefix);
        }
        let next = acc * 10 + (b - 0x30) as u32;
        acc = if next > 1000 {
            1000
        } else {
            next
        };
        i = i + 1;
    }
    assert(payload@.subrange(start as int, n as int) == body);
    if negative {
        if acc == 0 {
            Some(0)
        } else {
            None
        }
    } else if acc <= 100 {
        Some(acc as i8)
    } else {
        None
    }
}

/// The command that a payload on the command topic carries: a move to the percentage it names,
/// or a soft error where it names none.
pub fn command_from_payload(payload: &[u8]) -> (r: Result<Command, ErrorSeverity>)
    ensures
        match payload_percent(payload@) {
            Some(v) => r == Ok::<Command, ErrorSeverity>(Command::MoveToPos(v as i8)),
            None => r == Err::<Command, ErrorSeverity>(ErrorSeverity::Soft),
        },
{
    match parse_percent(payload) {
        Some(p) => Ok(Command::MoveToPos(p)),
        None => Err(ErrorSeverity::Soft),
    }
}

/// ASCII decimal text of `n`, without leading zeros.
pub open spec fn decimal_text(n: nat) -> Seq<u8>
    decreases n,
{
    if n < 10 {
        seq![(0x30 + n) as u8]
    } else {
        decimal_text(n / 10).push((0x30 + n % 10) as u8)
    }
}

/// The payload that publishes a position percentage: its decimal text.
pub fn position_payload(percent: u8) -> (r: Vec<u8>)
    ensures
        r@ == decimal_text(percent as nat),
{
    let mut out: Vec<u8> = Vec::new();
    if percent >= 100 {
        out.push(0x30 + percent / 100);
    }
    if percent >= 10 {
        out.push(0x30 + (percent / 10) % 10);
    }
    out.push(0x30 + percent % 10);
    proof {
        let n = percent as nat;
        if n >= 100 {
            assert(decimal_text(n / 100) == seq![(0x30 + n / 100) as u8]);
            assert(n / 10 / 10 == n / 100);
            assert(decimal_text(n / 10) == decimal_text(n / 100).push((0x30 + (n / 10) % 10) as u8));
        } else if n >= 10 {
            assert(decimal_text(n / 10) == seq![(0x30 + n / 10) as u8]);
        }
    }
    assert(out@ =~= decimal_text(percent as nat));
    out
}

} // verus!
