//! What the twin writes and reads of text.
use vstd::prelude::*;

use crate::gateway::ingress;
use crate::gateway::launch;
use crate::diagnostic;
use crate::domain_types::PhysicalCarVocabulary;
use crate::fsm::machineries::FsmState;
use crate::text;
use crate::vehicle_device_bus::devices::front_headlamp::codec::FrontHeadlampPayload;
use crate::vehicle_state::front_headlamp::FrontHeadlampSwitchDirection;
use crate::vehicle_state::VehicleContext;

verus! {

/// The number that a run of decimal digits stands for.
pub open spec fn number(digits: Seq<char>) -> int
    decreases digits.len(),
{
    if digits.len() == 0 {
        0
    } else {
        10 * number(digits.drop_last()) + (digits.last() as int - '0' as int)
    }
}

/// The character is a decimal digit.
pub open spec fn is_digit(c: char) -> bool {
    '0' as int <= c as int <= '9' as int
}

/// The decimal text of a number consists of digits, stands for the number, and begins with a zero
/// for zero alone.
pub proof fn decimals_stand_for_their_number(n: nat)
    ensures
        text::decimal(n).len() > 0,
        number(text::decimal(n)) == n,
        forall|i: int| 0 <= i < text::decimal(n).len() ==> is_digit(#[trigger] text::decimal(n)[i]),
        text::decimal(n)[0] == '0' ==> n == 0,
    decreases n,
{
    let shown = text::decimal(n);
    if n < 10 {
        assert(shown.drop_last() =~= Seq::empty());
        assert(number(shown.drop_last()) == 0);
    } else {
        decimals_stand_for_their_number(n / 10);
        assert(shown.drop_last() =~= text::decimal(n / 10));
        assert forall|i: int| 0 <= i < shown.len() implies is_digit(#[trigger] shown[i]) by {
            if i < shown.len() - 1 {
                assert(shown[i] == text::decimal(n / 10)[i]);
            }
        }
    }
}

/// Ten, as often as `width` says, multiplied with itself.
pub open spec fn ten_to(width: nat) -> nat
    decreases width,
{
    if width == 0 {
        1
    } else {
        10 * ten_to((width - 1) as nat)
    }
}

/// Padded text has its width, and stands for the number where that fits into the width.
pub proof fn padding_keeps_the_number(n: nat, width: nat)
    ensures
        text::padded(n, width).len() == width,
        n < ten_to(width) ==> number(text::padded(n, width)) == n,
        forall|i: int| 0 <= i < width ==> is_digit(#[trigger] text::padded(n, width)[i]),
    decreases width,
{
    let shown = text::padded(n, width);
    if width > 0 {
        let before = (width - 1) as nat;
        padding_keeps_the_number(n / 10, before);
        assert(shown.drop_last() =~= text::padded(n / 10, before));
        assert(n < 10 * ten_to(before) ==> n / 10 < ten_to(before));
        assert forall|i: int| 0 <= i < width implies is_digit(#[trigger] shown[i]) by {
            if i < width - 1 {
                assert(shown[i] == text::padded(n / 10, before)[i]);
            }
        }
    }
}

/// The white space of an identity: the blanks, tabs and line ends of all scripts, 25 characters in
/// all.
pub proof fn these_are_the_white_spaces(c: char)
    ensures
        text::is_white_space(c) <==> seq![
            '\t', '\n', '\u{b}', '\u{c}', '\r', ' ', '\u{85}', '\u{a0}', '\u{1680}', '\u{2000}',
            '\u{2001}', '\u{2002}', '\u{2003}', '\u{2004}', '\u{2005}', '\u{2006}', '\u{2007}',
            '\u{2008}', '\u{2009}', '\u{200a}', '\u{2028}', '\u{2029}', '\u{202f}', '\u{205f}',
            '\u{3000}',
        ].contains(c),
{
    let all = seq![
        '\t', '\n', '\u{b}', '\u{c}', '\r', ' ', '\u{85}', '\u{a0}', '\u{1680}', '\u{2000}',
        '\u{2001}', '\u{2002}', '\u{2003}', '\u{2004}', '\u{2005}', '\u{2006}', '\u{2007}',
        '\u{2008}', '\u{2009}', '\u{200a}', '\u{2028}', '\u{2029}', '\u{202f}', '\u{205f}',
        '\u{3000}',
    ];
    if text::is_white_space(c) {
        let code = c as int;
        let place = if code <= 0x0d {
            code - 0x09
        } else if code == 0x20 {
            5
        } else if code == 0x85 {
            6
        } else if code == 0xa0 {
            7
        } else if code == 0x1680 {
            8
        } else if code <= 0x200a {
            code - 0x2000 + 9
        } else if code == 0x2028 {
            20
        } else if code == 0x2029 {
            21
        } else if code == 0x202f {
            22
        } else if code == 0x205f {
            23
        } else {
            24int
        };
        assert(all[place] == c);
    }
}

/// Trimming cuts text at its ends alone, and only white space.
pub proof fn trimming_cuts_white_space_at_the_ends(s: Seq<char>) -> (cut: (int, int))
    ensures
        0 <= cut.0 <= cut.1 <= s.len(),
        text::trimmed(s) == s.subrange(cut.0, cut.1),
        forall|i: int| 0 <= i < cut.0 ==> text::is_white_space(#[trigger] s[i]),
        forall|i: int| cut.1 <= i < s.len() ==> text::is_white_space(#[trigger] s[i]),
{
    let from = cut_at_the_start(s);
    let rest = text::trimmed_start(s);
    let to = cut_at_the_end(rest);
    assert(text::trimmed(s) =~= s.subrange(from, from + to));
    assert forall|i: int| from + to <= i < s.len() implies text::is_white_space(#[trigger] s[i]) by {
        assert(rest[i - from] == s[i]);
    }
    (from, from + to)
}

proof fn cut_at_the_start(s: Seq<char>) -> (from: int)
    ensures
        0 <= from <= s.len(),
        text::trimmed_start(s) == s.skip(from),
        forall|i: int| 0 <= i < from ==> text::is_white_space(#[trigger] s[i]),
    decreases s.len(),
{
    if s.len() > 0 && text::is_white_space(s[0]) {
        let from = cut_at_the_start(s.skip(1));
        assert(s.skip(1).skip(from) =~= s.skip(from + 1));
        assert forall|i: int| 0 <= i < from + 1 implies text::is_white_space(#[trigger] s[i]) by {
            if i > 0 {
                assert(s.skip(1)[i - 1] == s[i]);
            }
        }
        from + 1
    } else {
        assert(s.skip(0) =~= s);
        0
    }
}

proof fn cut_at_the_end(s: Seq<char>) -> (to: int)
    ensures
        0 <= to <= s.len(),
        text::trimmed_end(s) == s.take(to),
        forall|i: int| to <= i < s.len() ==> text::is_white_space(#[trigger] s[i]),
    decreases s.len(),
{
    if s.len() > 0 && text::is_white_space(s.last()) {
        let to = cut_at_the_end(s.drop_last());
        assert(s.drop_last().take(to) =~= s.take(to));
        assert forall|i: int| to <= i < s.len() implies text::is_white_space(#[trigger] s[i]) by {
            if i < s.len() - 1 {
                assert(s.drop_last()[i] == s[i]);
            }
        }
        to
    } else {
        assert(s.take(s.len() as int) =~= s);
        s.len() as int
    }
}

/// The announcement of driving tells the speed to be over the limit exactly above 160 km/h, and
/// that of the warning tells the engine to be extreme as well exactly above 5500 rpm on top. The
/// readings are those of the car.
pub proof fn announcements_tell_the_readings(mode: FsmState, ctx: VehicleContext)
    ensures
        ({
            let said = diagnostic::transition_text(mode, ctx);
            let kph = ctx.powertrain.speed_kph;
            let rpm = ctx.powertrain.wheel_rpm.front_left;
            let readings = ", speed = "@ + text::decimal(kph as nat) + " km/h, RPM = "@
                + text::decimal(rpm as nat);
            &&& mode is Off ==> said == "Transitioned to "@ + "Off"@
            &&& mode is PreparingToStart ==> said == "Transitioned to "@ + "PreparingToStart"@
            &&& mode is PreparingToStop ==> said == "Transitioned to "@ + "PreparingToStop"@
            &&& mode is Idle ==> said == "Transitioned to "@ + ("Idle"@ + readings)
            &&& mode is Driving && kph <= 160 ==> said == "Transitioned to "@ + ("Driving"@
                + readings + " (within safe limit)"@)
            &&& mode is Driving && kph > 160 ==> said == "Transitioned to "@ + ("Driving"@
                + readings + (" (over the "@ + text::decimal(160) + " km/h limit)"@))
            &&& mode is DrivingDangerously ==> said == "Transitioned to "@ + (
            "DrivingDangerously"@ + readings + ", lighting unsafe"@)
            &&& mode is ExtremeOperationWarning && !(kph > 160 && rpm > 5500) ==> said
                == "Transitioned to "@ + ("ExtremeOperationWarning"@ + readings
                + " (EXCEEDS safe limit — speed over limit)"@)
            &&& mode is ExtremeOperationWarning && kph > 160 && rpm > 5500 ==> said
                == "Transitioned to "@ + ("ExtremeOperationWarning"@ + readings
                + " (EXCEEDS safe limit — speed & RPM both extreme)"@)
        }),
{
}

/// The brain speaks of a car by its name, and confirms a switch in its direction.
pub proof fn the_brain_names_the_car(
    name: Seq<char>,
    what: Seq<char>,
    direction: FrontHeadlampSwitchDirection,
)
    ensures
        diagnostic::about(name, what) == "["@ + name + "]: "@ + what,
        direction == FrontHeadlampSwitchDirection::On ==> diagnostic::confirmation_text(direction)
            == "✅💡"@ + " "@ + "Front headlamp ON confirmed."@,
        direction == FrontHeadlampSwitchDirection::Off ==> diagnostic::confirmation_text(direction)
            == "✅🌑"@ + " "@ + "Front headlamp OFF confirmed."@,
{
}

/// The gateway logs answers alone, each by its direction and outcome.
pub proof fn the_gateway_logs_answers(physical: PhysicalCarVocabulary)
    ensures
        ({
            let said = ingress::answer_text(physical);
            let confirms = physical is FrontHeadlampCommandConfirmed;
            let rejects = physical is FrontHeadlampCommandRejected;
            &&& said is Some <==> confirms || rejects
            &&& physical matches PhysicalCarVocabulary::FrontHeadlampCommandConfirmed {
                on_command,
            } ==> said == Some(
                if on_command {
                    "✅💡"@ + " "@ + "Front headlamp ON confirmed."@
                } else {
                    "✅🌑"@ + " "@ + "Front headlamp OFF confirmed."@
                },
            )
            &&& physical matches PhysicalCarVocabulary::FrontHeadlampCommandRejected {
                on_command,
            } ==> said == Some(
                if on_command {
                    "❌🔆"@ + " "@ + "Front headlamp ON rejected (NACK)."@
                } else {
                    "❌🌑"@ + " "@ + "Front headlamp OFF rejected (NACK)."@
                },
            )
        }),
{
}

/// A headlamp frame that answers nothing is ignored as no answer where it is of a command's kind,
/// and otherwise for want of a match or of a command.
pub proof fn ignored_frames_have_a_reason(payload: FrontHeadlampPayload, awaited: bool)
    ensures
        ({
            let why = ingress::ignore_reason(payload, awaited);
            let answer = payload.kind == 0x81 || payload.kind == 0x82 || payload.kind == 0xC1
                || payload.kind == 0xC2;
            &&& !answer ==> why == "not_an_answer"@
            &&& answer && awaited ==> why == "correlation_mismatch"@
            &&& answer && !awaited ==> why == "no_pending_command"@
        }),
{
}

/// A flag is given exactly when one of the arguments is the flag itself.
pub proof fn flags_are_given_by_name(args: Seq<String>, arg: String, flag: Seq<char>)
    ensures
        !launch::given(Seq::empty(), flag),
        launch::given(args.push(arg), flag) <==> launch::given(args, flag) || arg@ == flag,
        launch::FLAG_PRINT_TIMER_TICK@ == "--print-timer-tick"@,
        launch::FLAG_PRINT_TRANSITIONS@ == "--print-transitions"@,
        launch::FLAG_TRACE_ACTUATION_INGRESS@ == "--trace-actuation-ingress"@,
{
    let all = args.push(arg);
    if launch::given(args, flag) {
        let i = choose|i: int| 0 <= i < args.len() && (#[trigger] args[i])@ == flag;
        assert(all[i]@ == flag);
    }
    if launch::given(all, flag) {
        let i = choose|i: int| 0 <= i < all.len() && (#[trigger] all[i])@ == flag;
        if i < args.len() {
            assert(args[i]@ == flag);
        }
    }
    assert(all[args.len() as int] == arg);
}

} // verus!
