//! Terminal colouring of the CLI's messages: ANSI tones, gray shades and
//! the animated gradient of the "Working..." line.
use vstd::prelude::*;
use crate::text::{chars_of, decimal, push_decimal, push_char};

verus! {

broadcast use vstd::string::group_string_axioms;

#[derive(Clone, Copy, Debug, PartialEq, Eq)]
pub enum TextTone {
    Info,
    Success,
    Warn,
    Error,
    Muted,
}

/// The ANSI colour code of a tone.
pub open spec fn tone_code(tone: TextTone) -> Seq<char> {
    match tone {
        TextTone::Info => "94"@,
        TextTone::Success => "92"@,
        TextTone::Warn => "93"@,
        TextTone::Error => "91"@,
        TextTone::Muted => "90"@,
    }
}

/// `text` in a tone when colour is on, as it is otherwise.
pub open spec fn colored(text: Seq<char>, tone: TextTone, color: bool) -> Seq<char> {
    if color {
        "\x1b["@ + tone_code(tone) + "m"@ + text + "\x1b[0m"@
    } else {
        text
    }
}

pub fn colorize(text: &str, tone: TextTone, color: bool) -> (res: String)
    ensures
        res@ == colored(text@, tone, color),
{
    if !color {
        return text.to_string();
    }
    let code = match tone {
        TextTone::Info => "94",
        TextTone::Success => "92",
        TextTone::Warn => "93",
        TextTone::Error => "91",
        TextTone::Muted => "90",
    };
    let mut out = String::new();
    out.append("\x1b[");
    out.append(code);
    out.append("m");
    out.append(text);
    out.append("\x1b[0m");
    out
}

/// `text` in a 256-colour gray shade when colour is on.
pub open spec fn shaded(text: Seq<char>, shade: u8, color: bool) -> Seq<char> {
    if color {
        "\x1b[38;5;"@ + decimal(shade as nat) + "m"@ + text + "\x1b[0m"@
    } else {
        text
    }
}

pub fn gray_shade(text: &str, shade: u8, color: bool) -> (res: String)
    ensures
        res@ == shaded(text@, shade, color),
{
    if !color {
        return text.to_string();
    }
    let mut out = String::new();
    out.append("\x1b[38;5;");
    push_decimal(&mut out, shade as u64);
    out.append("m");
    out.append(text);
    out.append("\x1b[0m");
    out
}

/// The shades the gradient cycles through.
pub open spec fn gradient_frame(i: int) -> u8 {
    let k = i % 8;
    if k == 0 {
        238
    } else if k == 1 {
        242
    } else if k == 2 {
        246
    } else if k == 3 {
        249
    } else if k == 4 {
        252
    } else if k == 5 {
        255
    } else if k == 6 {
        252
    } else {
        249
    }
}

fn gradient_shade(i: usize) -> (res: u8)
    ensures
        res == gradient_frame(i as int),
{
    let k = i % 8;
    if k == 0 {
        238
    } else if k == 1 {
        242
    } else if k == 2 {
        246
    } else if k == 3 {
        249
    } else if k == 4 {
        252
    } else if k == 5 {
        255
    } else if k == 6 {
        252
    } else {
        249
    }
}

/// The first `n` characters of `chars`, each in the shade the gradient
/// gives its position shifted by `frame`.
pub open spec fn gradient_prefix(chars: Seq<char>, n: int, frame: int) -> Seq<char>
    decreases n,
{
    if n <= 0 {
        seq![]
    } else {
        gradient_prefix(chars, n - 1, frame) + shaded(seq![chars[n - 1]], gradient_frame(n - 1 + frame), true)
    }
}

/// `text` with a moving gray gradient when colour is on.
pub open spec fn gradient(text: Seq<char>, frame: int, color: bool) -> Seq<char> {
    if color {
        gradient_prefix(text, text.len() as int, frame)
    } else {
        text
    }
}

pub fn gradient_text(text: &str, frame: usize, color: bool) -> (res: String)
    requires
        frame + text@.len() <= usize::MAX,
    ensures
        res@ == gradient(text@, frame as int, color),
{
    if !color {
        return text.to_string();
    }
    let v = chars_of(text);
    let mut out = String::new();
    let mut i: usize = 0;
    while i < v.len()
        invariant
            i <= v.len(),
            v@ == text@,
            frame + v@.len() <= usize::MAX,
            out@ == gradient_prefix(v@, i as int, frame as int),
        decreases v.len() - i,
    {
        let mut one = String::new();
        push_char(&mut one, v[i]);
        assert(one@ == seq![v@[i as int]]);
        let piece = gray_shade(one.as_str(), gradient_shade(i + frame), true);
        out.append(piece.as_str());
        i = i + 1;
    }
    out
}

/// `[step/total]`, dimmed when colour is on.
pub open spec fn step_label(step: u8, total: u8, color: bool) -> Seq<char> {
    let inner = "["@ + decimal(step as nat) + "/"@ + decimal(total as nat) + "]"@;
    if color {
        "\x1b[2m"@ + inner + "\x1b[0m"@
    } else {
        inner
    }
}

pub fn muted_step_label(step: u8, total: u8, color: bool) -> (res: String)
    ensures
        res@ == step_label(step, total, color),
{
    let mut out = String::new();
    if color {
        out.append("\x1b[2m");
    }
    out.append("[");
    push_decimal(&mut out, step as u64);
    out.append("/");
    push_decimal(&mut out, total as u64);
    out.append("]");
    if color {
        out.append("\x1b[0m");
    }
    out
}

/// The progress line: the step label and an animated `Working...`.
pub open spec fn working_text(step: u8, total: u8, frame: int, color: bool) -> Seq<char> {
    step_label(step, total, color) + " "@ + gradient("Working..."@, frame, color)
}

pub fn working_line(step: u8, total: u8, frame: usize, color: bool) -> (res: String)
    requires
        frame <= usize::MAX - 10,
    ensures
        res@ == working_text(step, total, frame as int, color),
{
    let mut out = muted_step_label(step, total, color);
    out.append(" ");
    proof {
        reveal_strlit("Working...");
    }
    let g = gradient_text("Working...", frame, color);
    out.append(g.as_str());
    out
}

/// Red for a summary with failures, green otherwise.
pub fn fail_color_for_count(failed: usize) -> (res: TextTone)
    ensures
        res == (if failed > 0 {
            TextTone::Error
        } else {
            TextTone::Success
        }),
{
    if failed > 0 {
        TextTone::Error
    } else {
        TextTone::Success
    }
}

} // verus!
