use vstd::prelude::*;

verus! {

/// One unit of user input delivered by the host window system: a key
/// transition, a printable character, or an input-method (IME) event.
///
/// The panel records a textual description of each event it is fed, so
/// everything that description mentions is held here as a plain value.
#[derive(Debug, Clone)]
pub enum InputEvent {
    /// A physical key changed state.
    Key {
        /// The platform's scan code for the key.
        scancode: u32,
        /// `true` for a press, `false` for a release.
        pressed: bool,
        /// The platform's logical key code, where it names one.
        key_code: Option<u32>,
        /// Whether the host synthesised the transition (for example on
        /// focus change) rather than the user typing it.
        synthetic: bool,
    },
    /// A printable character was delivered.
    Character {
        /// The character itself.
        ch: char,
    },
    /// The input method was enabled.
    ImeEnabled,
    /// The input method updated its pre-edit (composition) text.
    ImePreedit {
        /// The current composition text.
        text: String,
    },
    /// The input method committed text.
    ImeCommit {
        /// The committed text.
        text: String,
    },
    /// The input method was disabled.
    ImeDisabled,
}

/// The character for one decimal digit.
pub open spec fn digit_char(d: nat) -> char {
    if d == 0 {
        '0'
    } else if d == 1 {
        '1'
    } else if d == 2 {
        '2'
    } else if d == 3 {
        '3'
    } else if d == 4 {
        '4'
    } else if d == 5 {
        '5'
    } else if d == 6 {
        '6'
    } else if d == 7 {
        '7'
    } else if d == 8 {
        '8'
    } else {
        '9'
    }
}

/// The decimal rendering of `n`: most significant digit first, no leading
/// zeros, a single `'0'` for zero.
pub open spec fn dec_digits(n: nat) -> Seq<char>
    decreases n,
{
    if n < 10 {
        seq![digit_char(n)]
    } else {
        dec_digits(n / 10).push(digit_char(n % 10))
    }
}

fn digit_to_char(d: u32) -> (c: char)
    requires
        d < 10,
    ensures
        c == digit_char(d as nat),
{
    match d {
        0 => '0',
        1 => '1',
        2 => '2',
        3 => '3',
        4 => '4',
        5 => '5',
        6 => '6',
        7 => '7',
        8 => '8',
        _ => '9',
    }
}

/// Relies on `String::push`: appends exactly the one character `c` to the
/// end of the string.
#[verifier::external_body]
fn push_char(out: &mut String, c: char)
    ensures
        final(out)@ == old(out)@.push(c),
{
    out.push(c);
}

/// Appends the decimal rendering of `n` to `out`.
fn push_decimal(out: &mut String, n: u32)
    ensures
        final(out)@ == old(out)@ + dec_digits(n as nat),
    decreases n,
{
    if n >= 10 {
        proof {
            assert(n / 10 < n) by (nonlinear_arith)
                requires
                    n >= 10,
            ;
        }
        push_decimal(out, n / 10);
    }
    let c = digit_to_char(n % 10);
    push_char(out, c);
    proof {
        assert(out@ =~= old(out)@ + dec_digits(n as nat));
    }
}

/// The rendering of a key's state.
pub open spec fn state_text(pressed: bool) -> Seq<char> {
    if pressed {
        "Pressed"@
    } else {
        "Released"@
    }
}

/// The rendering of a boolean field.
pub open spec fn bool_text(b: bool) -> Seq<char> {
    if b {
        "true"@
    } else {
        "false"@
    }
}

/// The rendering of an optional key code.
pub open spec fn key_code_text(key_code: Option<u32>) -> Seq<char> {
    match key_code {
        Option::None => "None"@,
        Option::Some(k) => "Some("@ + dec_digits(k as nat) + ")"@,
    }
}

/// The deterministic textual description of one input event: a debug-style
/// dump that names the event kind and shows each of its fields.
pub open spec fn description(e: InputEvent) -> Seq<char> {
    match e {
        InputEvent::Key { scancode, pressed, key_code, synthetic } => "KeyboardInput { scancode: "@
            + dec_digits(scancode as nat) + ", state: "@ + state_text(pressed) + ", key_code: "@
            + key_code_text(key_code) + ", synthetic: "@ + bool_text(synthetic) + " }"@,
        InputEvent::Character { ch } => "ReceivedCharacter('"@ + seq![ch] + "')"@,
        InputEvent::ImeEnabled => "Ime(Enabled)"@,
        InputEvent::ImePreedit { text } => "Ime(Preedit(\""@ + text@ + "\"))"@,
        InputEvent::ImeCommit { text } => "Ime(Commit(\""@ + text@ + "\"))"@,
        InputEvent::ImeDisabled => "Ime(Disabled)"@,
    }
}

/// Builds the textual description of `event`.
pub fn describe(event: &InputEvent) -> (s: String)
    ensures
        s@ == description(*event),
{
    let mut s = String::new();
    match event {
        InputEvent::Key { scancode, pressed, key_code, synthetic } => {
            s.append("KeyboardInput { scancode: ");
            push_decimal(&mut s, *scancode);
            s.append(", state: ");
            if *pressed {
                s.append("Pressed");
            } else {
                s.append("Released");
            }
            s.append(", key_code: ");
            match key_code {
                Option::None => {
                    s.append("None");
                },
                Option::Some(k) => {
                    s.append("Some(");
                    push_decimal(&mut s, *k);
                    s.append(")");
                },
            }
            s.append(", synthetic: ");
            if *synthetic {
                s.append("true");
            } else {
                s.append("false");
            }
            s.append(" }");
            proof {
                assert(s@ =~= description(*event));
            }
        },
        InputEvent::Character { ch } => {
            s.append("ReceivedCharacter('");
            push_char(&mut s, *ch);
            s.append("')");
            proof {
                assert(s@ =~= description(*event));
            }
        },
        InputEvent::ImeEnabled => {
            s.append("Ime(Enabled)");
            proof {
                assert(s@ =~= description(*event));
            }
        },
        InputEvent::ImePreedit { text } => {
            s.append("Ime(Preedit(\"");
            s.append(text.as_str());
            s.append("\"))");
            proof {
                assert(s@ =~= description(*event));
            }
        },
        InputEvent::ImeCommit { text } => {
            s.append("Ime(Commit(\"");
            s.append(text.as_str());
            s.append("\"))");
            proof {
                assert(s@ =~= description(*event));
            }
        },
        InputEvent::ImeDisabled => {
            s.append("Ime(Disabled)");
            proof {
                assert(s@ =~= description(*event));
            }
        },
    }
    s
}

} // verus!
